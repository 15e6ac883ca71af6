use mytrait_derive::declaration::{Attr, Declaration, MetaItem};
use mytrait_derive::expand::{Delimiter, Spacing, Token};
use mytrait_derive::opts::OptsError;
use mytrait_derive::syntax::read_declaration;

fn parse(source: &str) -> syn::DeriveInput {
    syn::parse_str::<syn::DeriveInput>(source).expect("a type declaration")
}

fn named(name: &str, value: Option<i32>) -> MetaItem {
    MetaItem::Named { name: name.to_string(), value }
}

fn attr(path: &str, items: Option<Vec<MetaItem>>) -> Attr {
    Attr { path: path.to_string(), items }
}

fn source_text(tokens: &[Token]) -> String {
    let mut text = String::new();
    let mut glue = true;
    for token in tokens {
        if !glue {
            text.push(' ');
        }
        glue = matches!(token, Token::Punct(_, Spacing::Joint));
        match token {
            Token::Ident(name) => text.push_str(name),
            Token::Punct(c, _) => text.push(*c),
            Token::Literal(value) => text.push_str(&format!("{}i32", value)),
            Token::Open(Delimiter::Parenthesis) => text.push('('),
            Token::Close(Delimiter::Parenthesis) => text.push(')'),
            Token::Open(Delimiter::Brace) => text.push('{'),
            Token::Close(Delimiter::Brace) => text.push('}'),
        }
    }
    text
}

fn marker_items(source: &str) -> Option<Vec<MetaItem>> {
    let mut decl = read_declaration(&parse(source));
    assert_eq!(decl.attrs.len(), 1);
    let only = decl.attrs.remove(0);
    assert_eq!(only.path, "my_trait");
    only.items
}

#[test]
fn reads_name_and_attributes() {
    let decl = read_declaration(&parse(
        "#[derive(Debug)] #[doc = \"text\"] #[my_trait(answer = 7)] pub struct Baz { x: u8 }",
    ));
    assert_eq!(
        decl,
        Declaration {
            ident: "Baz".to_string(),
            attrs: vec![
                attr("derive", Some(vec![named("Debug", None)])),
                attr("doc", None),
                attr("my_trait", Some(vec![named("answer", Some(7))])),
            ],
        }
    );
}

#[test]
fn reads_enums_and_unions() {
    assert_eq!(read_declaration(&parse("enum Choice { Yes, No }")).ident, "Choice");
    assert_eq!(read_declaration(&parse("union Bits { a: u8, b: i8 }")).ident, "Bits");
}

#[test]
fn reads_a_raw_identifier_with_its_prefix() {
    assert_eq!(read_declaration(&parse("struct r#type;")).ident, "r#type");
}

#[test]
fn reads_paths_of_several_segments() {
    let decl = read_declaration(&parse("#[a::b(c::d = 1)] struct S;"));
    assert_eq!(decl.attrs, vec![attr("a::b", Some(vec![named("c::d", Some(1))]))]);
}

#[test]
fn reads_a_bare_marker_as_an_empty_list() {
    assert_eq!(marker_items("#[my_trait] struct S;"), Some(vec![]));
    assert_eq!(marker_items("#[my_trait()] struct S;"), Some(vec![]));
}

#[test]
fn reads_a_name_value_attribute_as_malformed() {
    assert_eq!(marker_items("#[my_trait = 1] struct S;"), None);
}

#[test]
fn reads_unparsable_arguments_as_malformed() {
    assert_eq!(marker_items("#[my_trait(answer = 1 answer = 2)] struct S;"), None);
    assert_eq!(marker_items("#[my_trait(+)] struct S;"), None);
}

#[test]
fn reads_literals_and_names() {
    assert_eq!(
        marker_items("#[my_trait(\"text\", 5, answer, answer(1), other = 2)] struct S;"),
        Some(vec![
            MetaItem::Literal,
            MetaItem::Literal,
            named("answer", None),
            named("answer", None),
            named("other", Some(2)),
        ])
    );
}

#[test]
fn reads_integers_as_darling_does() {
    assert_eq!(marker_items("#[my_trait(answer = 0)] struct S;"), Some(vec![named("answer", Some(0))]));
    assert_eq!(
        marker_items("#[my_trait(answer = 2147483647)] struct S;"),
        Some(vec![named("answer", Some(i32::MAX))])
    );
    assert_eq!(
        marker_items("#[my_trait(answer = 2147483648)] struct S;"),
        Some(vec![named("answer", None)])
    );
    assert_eq!(marker_items("#[my_trait(answer = \"-25\")] struct S;"), Some(vec![named("answer", Some(-25))]));
    assert_eq!(marker_items("#[my_trait(answer = -1)] struct S;"), Some(vec![named("answer", Some(-1))]));
    assert_eq!(marker_items("#[my_trait(answer = 7u8)] struct S;"), Some(vec![named("answer", Some(7))]));
    assert_eq!(marker_items("#[my_trait(answer = \"many\")] struct S;"), Some(vec![named("answer", None)]));
    assert_eq!(marker_items("#[my_trait(answer = true)] struct S;"), Some(vec![named("answer", None)]));
    assert_eq!(marker_items("#[my_trait(answer = 1.5)] struct S;"), Some(vec![named("answer", None)]));
    assert_eq!(marker_items("#[my_trait(answer = 1 + 1)] struct S;"), Some(vec![named("answer", None)]));
    assert_eq!(marker_items("#[my_trait(answer = pub(crate))] struct S;"), Some(vec![named("answer", None)]));
}

#[test]
fn derives_an_empty_impl_for_a_plain_type() {
    let tokens = mytrait_derive::derive(&parse("struct Foo;")).expect("no fault");
    assert_eq!(source_text(&tokens), "impl MyTrait for Foo { }");
    let item = syn::parse_str::<syn::ItemImpl>(&source_text(&tokens)).expect("an impl block");
    assert!(item.items.is_empty());
}

#[test]
fn derives_the_method_for_an_override() {
    let tokens = mytrait_derive::derive(&parse("#[my_trait(answer = 0)] struct Bar;")).expect("no fault");
    assert_eq!(source_text(&tokens), "impl MyTrait for Bar { fn answer ( ) -> i32 { 0i32 } }");
    let item = syn::parse_str::<syn::ItemImpl>(&source_text(&tokens)).expect("an impl block");
    assert_eq!(item.items.len(), 1);
}

#[test]
fn derives_a_negative_answer() {
    let tokens = mytrait_derive::derive(&parse("#[my_trait(answer = \"-25\")] enum Cold {}")).expect("no fault");
    assert_eq!(source_text(&tokens), "impl MyTrait for Cold { fn answer ( ) -> i32 { -25i32 } }");
}

#[test]
fn derive_passes_over_other_attributes() {
    let tokens = mytrait_derive::derive(&parse(
        "#[derive(Clone)] #[allow(dead_code)] #[doc = \"a type\"] #[cfg(test)] struct Foo(u8);",
    ))
    .expect("no fault");
    assert_eq!(source_text(&tokens), "impl MyTrait for Foo { }");
}

#[test]
fn derive_rejects_an_unknown_key() {
    assert_eq!(
        mytrait_derive::derive(&parse("#[my_trait(anwser = 0)] struct Bar;")),
        Err(vec![OptsError::UnknownField("anwser".to_string())])
    );
}

#[test]
fn derive_rejects_a_literal() {
    assert_eq!(mytrait_derive::derive(&parse("#[my_trait(0)] struct Bar;")), Err(vec![OptsError::UnexpectedLiteral]));
}

#[test]
fn derive_rejects_a_repeated_answer() {
    assert_eq!(
        mytrait_derive::derive(&parse("#[my_trait(answer = 1, answer = 1)] struct Bar;")),
        Err(vec![OptsError::DuplicateField])
    );
    assert_eq!(
        mytrait_derive::derive(&parse("#[my_trait(answer = 1)] #[my_trait(answer = 2)] struct Bar;")),
        Err(vec![OptsError::DuplicateField])
    );
}

#[test]
fn derive_rejects_an_answer_that_is_no_integer() {
    assert_eq!(mytrait_derive::derive(&parse("#[my_trait(answer)] struct Bar;")), Err(vec![OptsError::InvalidValue]));
    assert_eq!(
        mytrait_derive::derive(&parse("#[my_trait(answer = \"zero\")] struct Bar;")),
        Err(vec![OptsError::InvalidValue])
    );
}

#[test]
fn derive_rejects_a_malformed_marker() {
    assert_eq!(mytrait_derive::derive(&parse("#[my_trait = 0] struct Bar;")), Err(vec![OptsError::Malformed]));
}

#[test]
fn derive_reports_every_fault() {
    assert_eq!(
        mytrait_derive::derive(&parse("#[my_trait = 0] #[my_trait(1, a, answer = \"x\", answer = 2)] struct Bar;")),
        Err(vec![
            OptsError::Malformed,
            OptsError::UnexpectedLiteral,
            OptsError::UnknownField("a".to_string()),
            OptsError::InvalidValue,
            OptsError::DuplicateField,
        ])
    );
}
