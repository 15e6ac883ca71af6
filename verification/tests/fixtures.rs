use mytrait_derive::answer::{MyTrait, DEFAULT_ANSWER};

struct Foo;

impl MyTrait for Foo {}

struct Bar;

impl MyTrait for Bar {
    fn answer() -> i32 {
        0
    }
}

#[test]
fn default() {
    assert_eq!(Foo::answer(), 42);
}

#[test]
fn getter() {
    assert_eq!(Bar::answer(), 0);
}

#[test]
fn default_answer_is_forty_two() {
    assert_eq!(DEFAULT_ANSWER, 42);
}
