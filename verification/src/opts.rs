//! The options that a declaration passes to the macro, and how they are read
//! from its attributes.

use vstd::prelude::*;

use crate::declaration::{views, AttrView, Declaration, DeclarationView, MetaItem, MetaItemView};

verus! {

/// The path of the attributes that carry the macro's options.
pub open spec fn marker() -> Seq<char> {
    "my_trait"@
}

/// The name of the entry that overrides the answer.
pub open spec fn answer_key() -> Seq<char> {
    "answer"@
}

/// The macro's options.
#[derive(Debug, Clone, Copy, PartialEq, Eq)]
pub struct Opts {
    /// The answer that the type gives in place of the default.
    pub answer: Option<i32>,
}

impl Default for Opts {
    /// No override.
    fn default() -> (opts: Opts)
        ensures
            opts == (Opts { answer: None }),
    {
        Opts { answer: None }
    }
}

/// One fault in the `my_trait` attributes of a declaration.
#[derive(Debug, PartialEq, Eq)]
pub enum OptsError {
    /// A `my_trait` attribute whose arguments are no list of entries.
    Malformed,
    /// A bare literal among the entries.
    UnexpectedLiteral,
    /// An entry with a name other than `answer`.
    UnknownField(String),
    /// An `answer` entry after the first.
    DuplicateField,
    /// The first `answer` entry assigns no integer.
    InvalidValue,
}

/// The mathematical value of an [`OptsError`].
pub enum OptsErrorView {
    Malformed,
    UnexpectedLiteral,
    UnknownField(Seq<char>),
    DuplicateField,
    InvalidValue,
}

impl View for OptsError {
    type V = OptsErrorView;

    open spec fn view(&self) -> OptsErrorView {
        match self {
            OptsError::Malformed => OptsErrorView::Malformed,
            OptsError::UnexpectedLiteral => OptsErrorView::UnexpectedLiteral,
            OptsError::UnknownField(name) => OptsErrorView::UnknownField(name@),
            OptsError::DuplicateField => OptsErrorView::DuplicateField,
            OptsError::InvalidValue => OptsErrorView::InvalidValue,
        }
    }
}

/// What has been read so far: whether an `answer` entry was met, the integer
/// it gave, and the faults found, oldest first.
pub struct Reading {
    pub seen: bool,
    pub answer: Option<i32>,
    pub errors: Seq<OptsErrorView>,
}

impl Reading {
    /// Nothing read yet.
    pub open spec fn start() -> Reading {
        Reading { seen: false, answer: None, errors: Seq::empty() }
    }

    /// This reading with one more fault.
    pub open spec fn fault(self, error: OptsErrorView) -> Reading {
        Reading { errors: self.errors.push(error), ..self }
    }

    /// This reading after one more entry of a `my_trait` attribute.
    ///
    /// A literal is a fault, and so is a name other than `answer`. The first
    /// `answer` sets the answer, or is a fault where it assigns no integer;
    /// every later `answer` is a fault, whatever the first one held.
    pub open spec fn item(self, item: MetaItemView) -> Reading {
        match item {
            MetaItemView::Literal => self.fault(OptsErrorView::UnexpectedLiteral),
            MetaItemView::Named { name, value } => {
                if name != answer_key() {
                    self.fault(OptsErrorView::UnknownField(name))
                } else if self.seen {
                    self.fault(OptsErrorView::DuplicateField)
                } else {
                    match value {
                        Some(v) => Reading { seen: true, answer: Some(v), ..self },
                        None => Reading { seen: true, ..self }.fault(OptsErrorView::InvalidValue),
                    }
                }
            },
        }
    }

    /// This reading after the entries `items`, taken in order.
    pub open spec fn items(self, items: Seq<MetaItemView>) -> Reading
        decreases items.len(),
    {
        if items.len() == 0 {
            self
        } else {
            self.items(items.drop_last()).item(items.last())
        }
    }

    /// This reading after one more attribute of the declaration.
    ///
    /// An attribute with another path than `my_trait` is passed over.
    pub open spec fn attribute(self, attr: AttrView) -> Reading {
        if attr.path != marker() {
            self
        } else {
            match attr.items {
                Some(items) => self.items(items),
                None => self.fault(OptsErrorView::Malformed),
            }
        }
    }

    /// This reading after the attributes `attrs`, taken in order.
    pub open spec fn attributes(self, attrs: Seq<AttrView>) -> Reading
        decreases attrs.len(),
    {
        if attrs.len() == 0 {
            self
        } else {
            self.attributes(attrs.drop_last()).attribute(attrs.last())
        }
    }

    /// The options read, or the faults if there are any.
    pub open spec fn outcome(self) -> Result<Opts, Seq<OptsErrorView>> {
        if self.errors.len() == 0 {
            Ok(Opts { answer: self.answer })
        } else {
            Err(self.errors)
        }
    }
}

/// The options of a declaration: what reading all its attributes gives.
pub open spec fn read_opts(decl: DeclarationView) -> Result<Opts, Seq<OptsErrorView>> {
    Reading::start().attributes(decl.attrs).outcome()
}

/// The mathematical value of what [`Opts::from_declaration`] returns.
pub open spec fn outcome_view(result: Result<Opts, Vec<OptsError>>) -> Result<Opts, Seq<OptsErrorView>> {
    match result {
        Ok(opts) => Ok(opts),
        Err(errors) => Err(views(errors@)),
    }
}

/// Appends `error` to `errors`.
fn record(errors: &mut Vec<OptsError>, error: OptsError)
    ensures
        views(final(errors)@) == views(old(errors)@).push(error@),
{
    errors.push(error);
    assert(views(errors@) =~= views(old(errors)@).push(error@));
}

impl Opts {
    /// Reads the options from the `my_trait` attributes of `decl`.
    ///
    /// Returns every fault of those attributes, in source order, if there is
    /// one; else the options, with the answer of the one `answer` entry or
    /// without an answer where there is no such entry.
    pub fn from_declaration(decl: &Declaration) -> (result: Result<Opts, Vec<OptsError>>)
        ensures
            outcome_view(result) == read_opts(decl@),
    {
        let marker_path = "my_trait".to_string();
        let key_name = "answer".to_string();
        let mut seen = false;
        let mut answer: Option<i32> = None;
        let mut errors: Vec<OptsError> = Vec::new();
        let ghost attrs = decl@.attrs;
        let ghost mut reading = Reading::start();
        assert(views(errors@) =~= reading.errors);
        let mut i: usize = 0;
        while i < decl.attrs.len()
            invariant
                i <= decl.attrs.len(),
                marker_path@ == marker(),
                key_name@ == answer_key(),
                attrs == decl@.attrs,
                reading == (Reading { seen, answer, errors: views(errors@) }),
                reading == Reading::start().attributes(attrs.take(i as int)),
            decreases decl.attrs.len() - i,
        {
            let attr = &decl.attrs[i];
            let ghost before = reading;
            proof {
                assert(attrs.take(i + 1).drop_last() == attrs.take(i as int));
                assert(attrs.take(i + 1).last() == attr@);
            }
            if attr.path == marker_path {
                match &attr.items {
                    Some(items) => {
                        let ghost entries = views(items@);
                        let mut j: usize = 0;
                        while j < items.len()
                            invariant
                                j <= items.len(),
                                key_name@ == answer_key(),
                                entries == views(items@),
                                reading == (Reading { seen, answer, errors: views(errors@) }),
                                reading == before.items(entries.take(j as int)),
                            decreases items.len() - j,
                        {
                            proof {
                                assert(entries.take(j + 1).drop_last() == entries.take(j as int));
                                assert(entries.take(j + 1).last() == items[j as int]@);
                                reading = reading.item(items[j as int]@);
                            }
                            match &items[j] {
                                MetaItem::Literal => {
                                    record(&mut errors, OptsError::UnexpectedLiteral);
                                },
                                MetaItem::Named { name, value } => {
                                    if *name != key_name {
                                        record(&mut errors, OptsError::UnknownField(name.clone()));
                                    } else if seen {
                                        record(&mut errors, OptsError::DuplicateField);
                                    } else {
                                        seen = true;
                                        match value {
                                            Some(v) => {
                                                answer = Some(*v);
                                            },
                                            None => {
                                                record(&mut errors, OptsError::InvalidValue);
                                            },
                                        }
                                    }
                                },
                            }
                            j = j + 1;
                        }
                        proof {
                            assert(entries.take(items.len() as int) == entries);
                        }
                    },
                    None => {
                        record(&mut errors, OptsError::Malformed);
                        proof {
                            reading = reading.fault(OptsErrorView::Malformed);
                        }
                    },
                }
            }
            assert(reading == before.attribute(attr@));
            i = i + 1;
        }
        proof {
            assert(attrs.take(decl.attrs.len() as int) == attrs);
        }
        if errors.len() == 0 {
            Ok(Opts { answer })
        } else {
            Err(errors)
        }
    }
}

} // verus!
