//! A type declaration as the macro sees it: a name and a list of attributes,
//! held as plain values.

use vstd::prelude::*;

verus! {

/// One entry of an attribute's argument list.
#[derive(Debug, PartialEq, Eq)]
pub enum MetaItem {
    /// A bare literal, as in `#[my_trait("text")]`.
    Literal,
    /// An entry that begins with a name: `name`, `name = ..` or `name(..)`.
    /// `value` is the integer that the entry assigns to the name, if it
    /// assigns one.
    Named { name: String, value: Option<i32> },
}

/// An attribute on a declaration.
#[derive(Debug, PartialEq, Eq)]
pub struct Attr {
    /// The attribute's path, segments joined by `::`.
    pub path: String,
    /// The entries between the attribute's parentheses; empty for a bare path
    /// such as `#[my_trait]`. `None` where the attribute has the form
    /// `#[path = ..]` or its arguments are no comma-separated list of entries.
    pub items: Option<Vec<MetaItem>>,
}

/// A struct, enum or union declaration.
#[derive(Debug, PartialEq, Eq)]
pub struct Declaration {
    /// The name of the declared type.
    pub ident: String,
    /// The attributes on the declaration, in source order.
    pub attrs: Vec<Attr>,
}

/// The mathematical value of a [`MetaItem`].
pub enum MetaItemView {
    Literal,
    Named { name: Seq<char>, value: Option<i32> },
}

/// The mathematical value of an [`Attr`].
pub struct AttrView {
    pub path: Seq<char>,
    pub items: Option<Seq<MetaItemView>>,
}

/// The mathematical value of a [`Declaration`].
pub struct DeclarationView {
    pub ident: Seq<char>,
    pub attrs: Seq<AttrView>,
}

/// The views of the elements of `s`, in order.
pub open spec fn views<T: View>(s: Seq<T>) -> Seq<T::V> {
    s.map_values(|x: T| x@)
}

impl View for MetaItem {
    type V = MetaItemView;

    open spec fn view(&self) -> MetaItemView {
        match self {
            MetaItem::Literal => MetaItemView::Literal,
            MetaItem::Named { name, value } => MetaItemView::Named { name: name@, value: *value },
        }
    }
}

impl View for Attr {
    type V = AttrView;

    open spec fn view(&self) -> AttrView {
        AttrView {
            path: self.path@,
            items: match self.items {
                Some(items) => Some(views(items@)),
                None => None,
            },
        }
    }
}

impl View for Declaration {
    type V = DeclarationView;

    open spec fn view(&self) -> DeclarationView {
        DeclarationView { ident: self.ident@, attrs: views(self.attrs@) }
    }
}

} // verus!
