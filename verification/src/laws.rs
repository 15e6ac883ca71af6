//! What holds of every declaration.

use vstd::prelude::*;

use crate::answer::DEFAULT_ANSWER;
use crate::declaration::{AttrView, DeclarationView, MetaItemView};
use crate::derived;
use crate::expand::{impl_tokens, ImplBlockView};
use crate::opts::{answer_key, marker, read_opts, Opts, OptsErrorView, Reading};

verus! {

/// Whether `attr` is a `my_trait` attribute.
pub open spec fn is_marker(attr: AttrView) -> bool {
    attr.path == marker()
}

/// Whether `attr` says nothing to the macro: it has another path than
/// `my_trait`, or it is `my_trait` with an empty list of entries.
pub open spec fn is_silent(attr: AttrView) -> bool {
    is_marker(attr) ==> attr.items == Some(Seq::<MetaItemView>::empty())
}

/// Whether `attr` is `#[my_trait(answer = value)]` and nothing more.
pub open spec fn overrides(attr: AttrView, value: i32) -> bool {
    &&& is_marker(attr)
    &&& attr.items == Some(seq![MetaItemView::Named { name: answer_key(), value: Some(value) }])
}

/// Reading silent attributes changes nothing.
pub proof fn lemma_silent_attributes(reading: Reading, attrs: Seq<AttrView>)
    requires
        forall|i: int| 0 <= i < attrs.len() ==> is_silent(#[trigger] attrs[i]),
    ensures
        reading.attributes(attrs) == reading,
    decreases attrs.len(),
{
    if attrs.len() > 0 {
        lemma_silent_attributes(reading, attrs.drop_last());
        assert(is_silent(attrs.last()));
        assert(reading.items(Seq::<MetaItemView>::empty()) == reading);
    }
}

/// Reading a run of attributes is reading its first part and then the rest.
pub proof fn lemma_attributes_split(reading: Reading, attrs: Seq<AttrView>, at: int)
    requires
        0 <= at <= attrs.len(),
    ensures
        reading.attributes(attrs) == reading.attributes(attrs.take(at)).attributes(attrs.skip(at)),
    decreases attrs.len() - at,
{
    if at == attrs.len() {
        assert(attrs.take(at) == attrs);
        assert(attrs.skip(at).len() == 0);
    } else {
        let rest = attrs.skip(at);
        assert(rest.drop_last() == attrs.drop_last().skip(at));
        assert(attrs.drop_last().take(at) == attrs.take(at));
        assert(rest.last() == attrs.last());
        lemma_attributes_split(reading, attrs.drop_last(), at);
    }
}

/// A type without an override answers with the trait's default.
///
/// Where every attribute of the declaration is silent, the options hold no
/// answer, the macro succeeds with an empty implementation, and the type
/// answers with `DEFAULT_ANSWER`, which is 42.
pub proof fn law_default_answer(decl: DeclarationView)
    requires
        forall|i: int| 0 <= i < decl.attrs.len() ==> is_silent(#[trigger] decl.attrs[i]),
    ensures
        read_opts(decl) == Ok::<Opts, Seq<OptsErrorView>>(Opts { answer: None }),
        derived(decl) == Ok::<_, Seq<OptsErrorView>>(impl_tokens(decl.ident, None)),
        (ImplBlockView { self_ty: decl.ident, answer: None }).methods() == 0,
        (ImplBlockView { self_ty: decl.ident, answer: None }).exposed() == DEFAULT_ANSWER,
        DEFAULT_ANSWER == 42,
{
    lemma_silent_attributes(Reading::start(), decl.attrs);
}

/// A type with an override answers with exactly the configured value.
///
/// Where one attribute of the declaration is `#[my_trait(answer = value)]`
/// and every other one is silent, the options hold `value`, the macro
/// succeeds with an implementation of one method, and the type answers with
/// `value`.
pub proof fn law_override_answer(decl: DeclarationView, at: int, value: i32)
    requires
        0 <= at < decl.attrs.len(),
        overrides(decl.attrs[at], value),
        forall|i: int| 0 <= i < decl.attrs.len() && i != at ==> is_silent(#[trigger] decl.attrs[i]),
    ensures
        read_opts(decl) == Ok::<Opts, Seq<OptsErrorView>>(Opts { answer: Some(value) }),
        derived(decl) == Ok::<_, Seq<OptsErrorView>>(impl_tokens(decl.ident, Some(value))),
        (ImplBlockView { self_ty: decl.ident, answer: Some(value) }).methods() == 1,
        (ImplBlockView { self_ty: decl.ident, answer: Some(value) }).exposed() == value,
{
    let start = Reading::start();
    let attrs = decl.attrs;
    let head = attrs.take(at);
    let tail = attrs.skip(at + 1);
    let upto = attrs.take(at + 1);
    lemma_attributes_split(start, attrs, at + 1);
    assert(attrs.skip(at + 1) == tail);
    assert(upto.drop_last() == head);
    assert(upto.last() == attrs[at]);
    assert forall|i: int| 0 <= i < head.len() implies is_silent(#[trigger] head[i]) by {
        assert(head[i] == attrs[i]);
    }
    assert forall|i: int| 0 <= i < tail.len() implies is_silent(#[trigger] tail[i]) by {
        assert(tail[i] == attrs[i + at + 1]);
    }
    lemma_silent_attributes(start, head);
    let entry = MetaItemView::Named { name: answer_key(), value: Some(value) };
    let items = seq![entry];
    assert(items.drop_last() == Seq::<MetaItemView>::empty());
    assert(items.last() == entry);
    assert(start.items(items.drop_last()) == start);
    assert(start.items(items) == start.item(entry));
    let read = Reading { seen: true, answer: Some(value), errors: Seq::empty() };
    assert(start.attributes(upto) == read);
    lemma_silent_attributes(read, tail);
}

/// Whether `item` is `answer = value` for some integer `value`.
pub open spec fn is_answer(item: MetaItemView) -> bool {
    item matches MetaItemView::Named { name, value } && name == answer_key() && value is Some
}

/// The integer of an entry that assigns one.
pub open spec fn value_of(item: MetaItemView) -> Option<i32> {
    match item {
        MetaItemView::Named { name, value } => value,
        MetaItemView::Literal => None,
    }
}

/// The entries of all `my_trait` attributes among `attrs` whose arguments
/// are a list, in source order.
pub open spec fn entries(attrs: Seq<AttrView>) -> Seq<MetaItemView>
    decreases attrs.len(),
{
    if attrs.len() == 0 {
        Seq::empty()
    } else {
        let last = attrs.last();
        entries(attrs.drop_last()) + match last.items {
            Some(items) if is_marker(last) => items,
            _ => Seq::empty(),
        }
    }
}

/// Whether the `my_trait` attributes among `attrs` are free of faults: each
/// has a list of entries, and all of them together hold nothing but at most
/// one `answer = value`.
pub open spec fn well_formed(attrs: Seq<AttrView>) -> bool {
    &&& forall|i: int| 0 <= i < attrs.len() && is_marker(#[trigger] attrs[i]) ==> attrs[i].items is Some
    &&& forall|k: int| 0 <= k < entries(attrs).len() ==> is_answer(#[trigger] entries(attrs)[k])
    &&& entries(attrs).len() <= 1
}

/// The answer that well-formed attributes configure: that of their one
/// entry, or none where they have no entry.
pub open spec fn configured(attrs: Seq<AttrView>) -> Option<i32> {
    if entries(attrs).len() == 0 {
        None
    } else {
        value_of(entries(attrs)[0])
    }
}

/// One entry adds one fault or none, and it adds none exactly where it is
/// the first `answer` and assigns an integer.
pub proof fn lemma_item(reading: Reading, item: MetaItemView)
    ensures
        reading.item(item).errors.len() == reading.errors.len() || reading.item(item).errors.len()
            == reading.errors.len() + 1,
        reading.item(item).errors.len() == reading.errors.len() <==> is_answer(item) && !reading.seen,
        is_answer(item) && !reading.seen ==> reading.item(item) == (Reading {
            seen: true,
            answer: value_of(item),
            errors: reading.errors,
        }),
{
}

/// A list of entries adds no fault exactly where it is empty, or is one
/// `answer = value` with no `answer` read before.
pub proof fn lemma_items(reading: Reading, items: Seq<MetaItemView>)
    ensures
        reading.items(items).errors.len() >= reading.errors.len(),
        reading.items(items).errors.len() == reading.errors.len() <==> items.len() == 0 || (items.len()
            == 1 && is_answer(items[0]) && !reading.seen),
        items.len() == 0 ==> reading.items(items) == reading,
        items.len() == 1 && is_answer(items[0]) && !reading.seen ==> reading.items(items) == (Reading {
            seen: true,
            answer: value_of(items[0]),
            errors: reading.errors,
        }),
    decreases items.len(),
{
    if items.len() > 0 {
        let front = items.drop_last();
        lemma_items(reading, front);
        lemma_item(reading.items(front), items.last());
        if front.len() == 1 {
            assert(front[0] == items[0]);
        }
    }
}

/// The faults of a reading never go away, and reading from the start is free
/// of faults exactly on well-formed attributes, where it has met an `answer`
/// if there is an entry and holds the configured answer.
pub proof fn lemma_attributes(attrs: Seq<AttrView>)
    ensures
        Reading::start().attributes(attrs).errors.len() == 0 <==> well_formed(attrs),
        well_formed(attrs) ==> Reading::start().attributes(attrs) == (Reading {
            seen: entries(attrs).len() == 1,
            answer: configured(attrs),
            errors: Seq::empty(),
        }),
    decreases attrs.len(),
{
    let start = Reading::start();
    if attrs.len() > 0 {
        let front = attrs.drop_last();
        let last = attrs.last();
        let before = start.attributes(front);
        lemma_attributes(front);
        assert forall|i: int| 0 <= i < front.len() implies front[i] == attrs[i] by {}
        if is_marker(last) {
            match last.items {
                Some(items) => {
                    lemma_items(before, items);
                    assert(entries(attrs) == entries(front) + items);
                    if well_formed(attrs) {
                        assert forall|k: int| 0 <= k < entries(front).len() implies is_answer(
                            #[trigger] entries(front)[k],
                        ) by {
                            assert(entries(front)[k] == entries(attrs)[k]);
                        }
                        assert(well_formed(front));
                        if items.len() == 1 {
                            assert(items[0] == entries(attrs)[0]);
                        }
                    }
                    if before.attribute(last).errors.len() == 0 {
                        assert(well_formed(front));
                        assert forall|k: int| 0 <= k < entries(attrs).len() implies is_answer(
                            #[trigger] entries(attrs)[k],
                        ) by {
                            if k < entries(front).len() {
                                assert(entries(attrs)[k] == entries(front)[k]);
                            } else {
                                assert(entries(attrs)[k] == items[k - entries(front).len()]);
                            }
                        }
                        assert(well_formed(attrs));
                    }
                },
                None => {
                    assert(!well_formed(attrs));
                },
            }
        } else {
            assert(entries(attrs) == entries(front));
            if well_formed(attrs) {
                assert(well_formed(front));
            }
            if well_formed(front) {
                assert(well_formed(attrs));
            }
        }
    } else {
        assert(entries(attrs).len() == 0);
    }
}

/// The macro succeeds exactly on well-formed attributes, and then with the
/// answer they configure.
///
/// Reading the options of a declaration succeeds if and only if each of its
/// `my_trait` attributes has a list of entries and all those entries together
/// are nothing but at most one `answer = value`. The options then hold that
/// value, or no answer where there is no entry, and the type answers with the
/// value or with the default.
pub proof fn law_success(decl: DeclarationView)
    ensures
        read_opts(decl) is Ok <==> well_formed(decl.attrs),
        derived(decl) is Ok <==> well_formed(decl.attrs),
        well_formed(decl.attrs) ==> read_opts(decl) == Ok::<Opts, Seq<OptsErrorView>>(
            Opts { answer: configured(decl.attrs) },
        ),
        well_formed(decl.attrs) ==> derived(decl) == Ok::<_, Seq<OptsErrorView>>(
            impl_tokens(decl.ident, configured(decl.attrs)),
        ),
        !well_formed(decl.attrs) ==> (read_opts(decl) matches Err(errors) && errors.len() > 0),
{
    lemma_attributes(decl.attrs);
}

} // verus!
