//! Reading a parsed declaration into plain values.
//!
//! The declaration arrives as a `syn::DeriveInput`. Its parts are taken out
//! with `syn` and `darling`; what those calls return is believed, not proved,
//! and each call stands in a function of its own whose contract names its
//! result. The functions at the end of the file put the parts together and are
//! verified against those names.

use vstd::prelude::*;

use crate::declaration::{views, Attr, AttrView, Declaration, DeclarationView, MetaItem, MetaItemView};

verus! {

/// `syn::DeriveInput`: a parsed struct, enum or union declaration.
#[verifier::external_type_specification]
#[verifier::external_body]
pub struct ExDeriveInput(syn::DeriveInput);

/// `syn::Attribute`: one attribute of a declaration.
#[verifier::external_type_specification]
#[verifier::external_body]
pub struct ExAttribute(syn::Attribute);

/// `syn::Path`: the path of an attribute or of an entry in its arguments.
#[verifier::external_type_specification]
#[verifier::external_body]
pub struct ExPath(syn::Path);

/// `proc_macro2::TokenStream`: the unparsed arguments of an attribute.
#[verifier::external_type_specification]
#[verifier::external_body]
pub struct ExTokenStream(proc_macro2::TokenStream);

/// `darling::ast::NestedMeta`: one parsed entry of an attribute's arguments.
#[verifier::external_type_specification]
#[verifier::external_body]
pub struct ExNestedMeta(darling::ast::NestedMeta);

/// `darling::Error`: why `darling` could not read something.
#[verifier::external_type_specification]
#[verifier::external_body]
pub struct ExDarlingError(darling::Error);

/// `syn::Error`: why `syn` could not parse something.
#[verifier::external_type_specification]
#[verifier::external_body]
pub struct ExSynError(syn::Error);

/// The text of the identifier that `input` declares.
pub uninterp spec fn declared_name_of(input: syn::DeriveInput) -> Seq<char>;

/// The attributes of `input`, in source order.
pub uninterp spec fn attributes_of(input: syn::DeriveInput) -> Seq<syn::Attribute>;

/// The path of `attr`.
pub uninterp spec fn attribute_path_of(attr: syn::Attribute) -> syn::Path;

/// The text that `darling` makes of `path`.
pub uninterp spec fn path_name_of(path: syn::Path) -> Seq<char>;

/// The tokens between the parentheses of `attr`, or `None` where `darling`
/// refuses the form of the attribute.
pub uninterp spec fn attribute_arguments_of(attr: syn::Attribute) -> Option<proc_macro2::TokenStream>;

/// The entries that `darling` parses out of `tokens`, or `None` where it
/// parses no list of entries out of them.
pub uninterp spec fn items_of(tokens: proc_macro2::TokenStream) -> Option<Seq<darling::ast::NestedMeta>>;

/// The path that `item` begins with, or `None` where it is a literal.
pub uninterp spec fn item_path_of(item: darling::ast::NestedMeta) -> Option<syn::Path>;

/// What `darling` reads out of `item` for an optional `i32`, or `None`
/// where it reads nothing of that type.
pub uninterp spec fn item_value_of(item: darling::ast::NestedMeta) -> Option<Option<i32>>;

/// Calls `to_string` on the field `ident` of `syn::DeriveInput`, which
/// formats the `proc_macro2::Ident`. The contract gives the text a name.
#[verifier::external_body]
fn declared_name(input: &syn::DeriveInput) -> (name: String)
    ensures
        name@ == declared_name_of(*input),
{
    input.ident.to_string()
}

/// Borrows the field `attrs` of `syn::DeriveInput`. The contract gives the
/// list a name.
#[verifier::external_body]
fn attributes(input: &syn::DeriveInput) -> (attrs: &Vec<syn::Attribute>)
    ensures
        attrs@ == attributes_of(*input),
{
    &input.attrs
}

/// Calls `syn::Attribute::path`, which borrows the path of the attribute's
/// meta item. The contract gives the path a name.
#[verifier::external_body]
fn attribute_path(attr: &syn::Attribute) -> (path: &syn::Path)
    ensures
        *path == attribute_path_of(*attr),
{
    attr.path()
}

/// Calls `darling::util::path_to_string`, which joins the identifiers of the
/// path's segments with `::`. The contract gives the text a name.
#[verifier::external_body]
fn path_name(path: &syn::Path) -> (name: String)
    ensures
        name@ == path_name_of(*path),
{
    darling::util::path_to_string(path)
}

/// Calls `darling::util::parse_attribute_to_meta_list` and hands out the
/// tokens of the list it returns. It returns the list of `#[path(..)]`, an
/// empty list for `#[path]`, and an error for `#[path = ..]`. The contract
/// names the tokens and says that an error stands for `None`.
#[verifier::external_body]
fn attribute_arguments(attr: &syn::Attribute) -> (arguments: Result<proc_macro2::TokenStream, darling::Error>)
    ensures
        match arguments {
            Ok(tokens) => attribute_arguments_of(*attr) == Some(tokens),
            Err(_) => attribute_arguments_of(*attr) is None,
        },
{
    darling::util::parse_attribute_to_meta_list(attr).map(|list| list.tokens)
}

/// Calls `darling::ast::NestedMeta::parse_meta_list`, which parses entries
/// separated by commas until the tokens end. The contract names the entries
/// and says that an error stands for `None`.
#[verifier::external_body]
fn parse_items(tokens: proc_macro2::TokenStream) -> (items: Result<Vec<darling::ast::NestedMeta>, syn::Error>)
    ensures
        match items {
            Ok(list) => items_of(tokens) == Some(list@),
            Err(_) => items_of(tokens) is None,
        },
{
    darling::ast::NestedMeta::parse_meta_list(tokens)
}

/// Tells the variants of `darling::ast::NestedMeta` apart and borrows the
/// path of those that have one: through `syn::Meta::path` for a meta item,
/// from the field `path` for a name with an unparsable value. A literal has
/// none. The contract gives the path a name.
#[verifier::external_body]
fn item_path(item: &darling::ast::NestedMeta) -> (path: Option<&syn::Path>)
    ensures
        match path {
            Some(p) => item_path_of(*item) == Some(*p),
            None => item_path_of(*item) is None,
        },
{
    match item {
        darling::ast::NestedMeta::Meta(inner) => Some(inner.path()),
        darling::ast::NestedMeta::NameValueInvalidExpr(inner) => Some(&inner.path),
        darling::ast::NestedMeta::Lit(_) => None,
    }
}

/// Calls `darling::FromMeta::from_nested_meta` for `Option<i32>`, which
/// reads a meta item through `from_meta` and a name with an unparsable value
/// through `from_invalid_expr`. The contract names what it returns and says
/// that an error stands for `None`.
#[verifier::external_body]
fn item_value(item: &darling::ast::NestedMeta) -> (value: Result<Option<i32>, darling::Error>)
    ensures
        match value {
            Ok(v) => item_value_of(*item) == Some(v),
            Err(_) => item_value_of(*item) is None,
        },
{
    <Option<i32> as darling::FromMeta>::from_nested_meta(item)
}

/// The plain value of one entry: a literal where it has no path, else its
/// name with the integer read out of it, if one was read.
pub open spec fn item_model(item: darling::ast::NestedMeta) -> MetaItemView {
    match item_path_of(item) {
        Some(path) => MetaItemView::Named {
            name: path_name_of(path),
            value: match item_value_of(item) {
                Some(Some(v)) => Some(v),
                _ => None,
            },
        },
        None => MetaItemView::Literal,
    }
}

/// The plain values of the entries `items`, in order.
pub open spec fn item_models(items: Seq<darling::ast::NestedMeta>) -> Seq<MetaItemView> {
    Seq::new(items.len(), |i: int| item_model(items[i]))
}

/// The plain value of one attribute: the name of its path, and its entries
/// where its arguments parse as a list.
pub open spec fn attribute_model(attr: syn::Attribute) -> AttrView {
    AttrView {
        path: path_name_of(attribute_path_of(attr)),
        items: match attribute_arguments_of(attr) {
            Some(tokens) => match items_of(tokens) {
                Some(items) => Some(item_models(items)),
                None => None,
            },
            None => None,
        },
    }
}

/// The plain values of the attributes `attrs`, in order.
pub open spec fn attribute_models(attrs: Seq<syn::Attribute>) -> Seq<AttrView> {
    Seq::new(attrs.len(), |i: int| attribute_model(attrs[i]))
}

/// The plain value of a parsed declaration: its name and its attributes in
/// source order.
pub open spec fn declaration_model(input: syn::DeriveInput) -> DeclarationView {
    DeclarationView {
        ident: declared_name_of(input),
        attrs: attribute_models(attributes_of(input)),
    }
}

/// Reads one entry of an attribute's arguments.
fn read_item(item: &darling::ast::NestedMeta) -> (entry: MetaItem)
    ensures
        entry@ == item_model(*item),
{
    match item_path(item) {
        Some(path) => {
            let name = path_name(path);
            let value = match item_value(item) {
                Ok(Some(v)) => Some(v),
                Ok(None) => None,
                Err(_) => None,
            };
            MetaItem::Named { name, value }
        },
        None => MetaItem::Literal,
    }
}

/// Reads one attribute: its path, and its entries in order where its
/// arguments are a list.
fn read_attribute(attr: &syn::Attribute) -> (read: Attr)
    ensures
        read@ == attribute_model(*attr),
{
    let path = path_name(attribute_path(attr));
    let items = match attribute_arguments(attr) {
        Ok(tokens) => match parse_items(tokens) {
            Ok(list) => {
                let mut entries: Vec<MetaItem> = Vec::new();
                let mut j: usize = 0;
                while j < list.len()
                    invariant
                        j <= list.len(),
                        entries@.len() == j,
                        forall|k: int| 0 <= k < j ==> (#[trigger] entries@[k])@ == item_model(list@[k]),
                    decreases list.len() - j,
                {
                    let entry = read_item(&list[j]);
                    entries.push(entry);
                    j = j + 1;
                }
                assert(views(entries@) =~= item_models(list@));
                Some(entries)
            },
            Err(_) => None,
        },
        Err(_) => None,
    };
    Attr { path, items }
}

/// Reads a parsed declaration into plain values: the name of the declared
/// type and every attribute on it, in source order.
pub fn read_declaration(input: &syn::DeriveInput) -> (decl: Declaration)
    ensures
        decl@ == declaration_model(*input),
{
    let ident = declared_name(input);
    let list = attributes(input);
    let mut attrs: Vec<Attr> = Vec::new();
    let mut i: usize = 0;
    while i < list.len()
        invariant
            i <= list.len(),
            attrs@.len() == i,
            forall|k: int| 0 <= k < i ==> (#[trigger] attrs@[k])@ == attribute_model(list@[k]),
        decreases list.len() - i,
    {
        let read = read_attribute(&list[i]);
        attrs.push(read);
        i = i + 1;
    }
    assert(views(attrs@) =~= attribute_models(list@));
    Declaration { ident, attrs }
}

} // verus!
