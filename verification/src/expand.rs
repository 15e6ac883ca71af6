//! The implementation that the macro writes, and its tokens.

use vstd::prelude::*;

use crate::answer::DEFAULT_ANSWER;
use crate::declaration::views;
use crate::opts::Opts;

verus! {

/// The brackets around a group of tokens.
#[derive(Debug, Clone, Copy, PartialEq, Eq)]
pub enum Delimiter {
    /// `(` and `)`.
    Parenthesis,
    /// `{` and `}`.
    Brace,
}

/// Whether a punctuation character is joined to the one after it.
#[derive(Debug, Clone, Copy, PartialEq, Eq)]
pub enum Spacing {
    /// The character stands alone, or ends an operator.
    Alone,
    /// The character and the next one form one operator, as `-` in `->`.
    Joint,
}

/// One token of the generated code.
#[derive(Debug, PartialEq, Eq)]
pub enum Token {
    /// An identifier or keyword.
    Ident(String),
    /// One punctuation character.
    Punct(char, Spacing),
    /// An integer literal with the suffix `i32`.
    Literal(i32),
    /// An opening bracket.
    Open(Delimiter),
    /// The closing bracket of the innermost open group.
    Close(Delimiter),
}

/// The mathematical value of a [`Token`].
pub enum TokenView {
    Ident(Seq<char>),
    Punct(char, Spacing),
    Literal(i32),
    Open(Delimiter),
    Close(Delimiter),
}

impl View for Token {
    type V = TokenView;

    open spec fn view(&self) -> TokenView {
        match self {
            Token::Ident(name) => TokenView::Ident(name@),
            Token::Punct(c, spacing) => TokenView::Punct(*c, *spacing),
            Token::Literal(value) => TokenView::Literal(*value),
            Token::Open(delimiter) => TokenView::Open(*delimiter),
            Token::Close(delimiter) => TokenView::Close(*delimiter),
        }
    }
}

/// The tokens of `fn answer() -> i32 { value }`.
pub open spec fn method_tokens(value: i32) -> Seq<TokenView> {
    seq![
        TokenView::Ident("fn"@),
        TokenView::Ident("answer"@),
        TokenView::Open(Delimiter::Parenthesis),
        TokenView::Close(Delimiter::Parenthesis),
        TokenView::Punct('-', Spacing::Joint),
        TokenView::Punct('>', Spacing::Alone),
        TokenView::Ident("i32"@),
        TokenView::Open(Delimiter::Brace),
        TokenView::Literal(value),
        TokenView::Close(Delimiter::Brace),
    ]
}

/// The tokens of `impl MyTrait for self_ty { .. }`, whose body is the method
/// `answer` where `answer` holds a value and empty where it holds none.
pub open spec fn impl_tokens(self_ty: Seq<char>, answer: Option<i32>) -> Seq<TokenView> {
    seq![
        TokenView::Ident("impl"@),
        TokenView::Ident("MyTrait"@),
        TokenView::Ident("for"@),
        TokenView::Ident(self_ty),
        TokenView::Open(Delimiter::Brace),
    ] + match answer {
        Some(value) => method_tokens(value),
        None => Seq::empty(),
    } + seq![TokenView::Close(Delimiter::Brace)]
}

/// An implementation of `MyTrait` for one type.
#[derive(Debug, PartialEq, Eq)]
pub struct ImplBlock {
    /// The name of the implementing type.
    pub self_ty: String,
    /// What the method `answer` of the block returns; `None` where the block
    /// defines no method.
    pub answer: Option<i32>,
}

/// The mathematical value of an [`ImplBlock`].
pub struct ImplBlockView {
    pub self_ty: Seq<char>,
    pub answer: Option<i32>,
}

impl ImplBlockView {
    /// The number of methods that the block defines.
    pub open spec fn methods(self) -> nat {
        match self.answer {
            Some(_) => 1,
            None => 0,
        }
    }

    /// What `answer` returns for the implementing type: the value of the
    /// block's method, or the trait's default where the block is empty.
    pub open spec fn exposed(self) -> i32 {
        match self.answer {
            Some(value) => value,
            None => DEFAULT_ANSWER,
        }
    }

    /// The tokens of the block.
    pub open spec fn tokens(self) -> Seq<TokenView> {
        impl_tokens(self.self_ty, self.answer)
    }
}

impl View for ImplBlock {
    type V = ImplBlockView;

    open spec fn view(&self) -> ImplBlockView {
        ImplBlockView { self_ty: self.self_ty@, answer: self.answer }
    }
}

/// The implementation of `MyTrait` for the type `ident` under the options
/// `opts`: it overrides `answer` where the options hold one, and is empty
/// where they hold none.
pub fn expand(ident: &str, opts: &Opts) -> (block: ImplBlock)
    ensures
        block@ == (ImplBlockView { self_ty: ident@, answer: opts.answer }),
{
    ImplBlock { self_ty: ident.to_string(), answer: opts.answer }
}

impl ImplBlock {
    /// What `answer` returns for the implementing type.
    pub fn answer(&self) -> (value: i32)
        ensures
            value == self@.exposed(),
    {
        match self.answer {
            Some(value) => value,
            None => DEFAULT_ANSWER,
        }
    }

    /// Writes the block as tokens.
    pub fn to_tokens(&self) -> (tokens: Vec<Token>)
        ensures
            views(tokens@) == self@.tokens(),
    {
        let mut tokens: Vec<Token> = Vec::new();
        tokens.push(Token::Ident("impl".to_string()));
        tokens.push(Token::Ident("MyTrait".to_string()));
        tokens.push(Token::Ident("for".to_string()));
        tokens.push(Token::Ident(self.self_ty.clone()));
        tokens.push(Token::Open(Delimiter::Brace));
        match self.answer {
            Some(value) => {
                tokens.push(Token::Ident("fn".to_string()));
                tokens.push(Token::Ident("answer".to_string()));
                tokens.push(Token::Open(Delimiter::Parenthesis));
                tokens.push(Token::Close(Delimiter::Parenthesis));
                tokens.push(Token::Punct('-', Spacing::Joint));
                tokens.push(Token::Punct('>', Spacing::Alone));
                tokens.push(Token::Ident("i32".to_string()));
                tokens.push(Token::Open(Delimiter::Brace));
                tokens.push(Token::Literal(value));
                tokens.push(Token::Close(Delimiter::Brace));
            },
            None => {},
        }
        tokens.push(Token::Close(Delimiter::Brace));
        assert(views(tokens@) =~= self@.tokens());
        tokens
    }
}

} // verus!
