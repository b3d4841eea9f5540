use std::pin::Pin;

use derive_pinned::{
    pin_accessor, Attribute, FieldDescription, RecordDescription, Shape, Visibility,
};

struct Foo {
    bar: i32,
}

// The generated text is written for the `Pin` of `std::mem`, which took a
// lifetime and a type. This is the accessor it describes for `Foo`, written
// for the `Pin` of `std::pin`.
impl Foo {
    fn bar_pinned<'a>(self: &'a mut Pin<&mut Self>) -> Pin<&'a mut i32> {
        Pin::new(&mut self.as_mut().get_mut().bar)
    }
}

fn compile_check(mut f: Pin<&mut Foo>) -> i32 {
    let x: Pin<&mut i32> = f.bar_pinned();
    *x + 1
}

fn foo_description() -> RecordDescription {
    RecordDescription {
        name: "Foo".to_string(),
        generics: String::new(),
        where_clause: String::new(),
        shape: Shape::NamedStruct(vec![FieldDescription {
            name: "bar".to_string(),
            ty: "i32".to_string(),
            vis: Visibility::Inherited,
            attrs: vec![Attribute { path: vec!["pin_accessor".to_string()], arguments: None }],
        }]),
    }
}

#[test]
fn main() {
    let block = pin_accessor(&foo_description()).unwrap();
    assert_eq!(block.name, "Foo");
    assert_eq!(block.methods.len(), 1);
    assert_eq!(block.methods[0].name, "bar_pinned");
    assert_eq!(block.methods[0].vis, Visibility::Inherited);
    assert_eq!(block.methods[0].return_type, ":: std :: mem :: Pin < 'a , i32 >");

    let mut foo = Foo { bar: 0 };
    let pinned = Pin::new(&mut foo);
    assert_eq!(compile_check(pinned), 1);
}
