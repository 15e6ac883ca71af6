//! The core of a derive macro for `MyTrait`.
//!
//! `#[derive(MyTrait)]` gives a type an implementation of
//! [`MyTrait`](answer::MyTrait). A bare derive leaves the implementation empty,
//! so the type answers with the trait's default. `#[my_trait(answer = N)]` on
//! the type makes it answer `N`.
//!
//! The crate reads a parsed declaration into plain values ([`syntax`]), reads
//! the options out of them ([`opts`]) and writes the implementation as a
//! sequence of tokens ([`expand`]). Everything between the parsed input and the
//! token sequence is verified.

use vstd::prelude::*;

pub mod answer;
pub mod declaration;
pub mod expand;
pub mod laws;
pub mod opts;
pub mod syntax;

use crate::declaration::{views, Declaration, DeclarationView};
use crate::expand::{expand, impl_tokens, Token, TokenView};
use crate::opts::{read_opts, Opts, OptsError, OptsErrorView};
use crate::syntax::{declaration_model, read_declaration};

verus! {

/// What the macro makes of a declaration: the tokens of the implementation
/// for the declared type under the options read from its attributes, or the
/// faults of those attributes if there are any.
pub open spec fn derived(decl: DeclarationView) -> Result<Seq<TokenView>, Seq<OptsErrorView>> {
    match read_opts(decl) {
        Ok(opts) => Ok(impl_tokens(decl.ident, opts.answer)),
        Err(errors) => Err(errors),
    }
}

/// The mathematical value of what [`derive`] returns.
pub open spec fn derived_view(result: Result<Vec<Token>, Vec<OptsError>>) -> Result<
    Seq<TokenView>,
    Seq<OptsErrorView>,
> {
    match result {
        Ok(tokens) => Ok(views(tokens@)),
        Err(errors) => Err(views(errors@)),
    }
}

/// Derives `MyTrait` for a declaration given as plain values.
///
/// Fails with every fault of the `my_trait` attributes, in source order, if
/// there is one. Else returns the tokens of `impl MyTrait for T { .. }` for
/// the declared type `T`: with the method `answer` where the attributes
/// override the answer, and with an empty body where they do not.
pub fn derive_declaration(decl: &Declaration) -> (result: Result<Vec<Token>, Vec<OptsError>>)
    ensures
        derived_view(result) == derived(decl@),
{
    match Opts::from_declaration(decl) {
        Ok(opts) => Ok(expand(decl.ident.as_str(), &opts).to_tokens()),
        Err(errors) => Err(errors),
    }
}

/// Derives `MyTrait` for a parsed declaration.
///
/// The declaration is read into plain values, and those are handled as
/// [`derive_declaration`] handles them.
pub fn derive(input: &syn::DeriveInput) -> (result: Result<Vec<Token>, Vec<OptsError>>)
    ensures
        derived_view(result) == derived(declaration_model(*input)),
{
    let decl = read_declaration(input);
    derive_declaration(&decl)
}

} // verus!
