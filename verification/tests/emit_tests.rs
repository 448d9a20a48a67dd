use heapsize::emit::emit_impl;
use heapsize::generate::heapsizeof_derive;
use heapsize::register::{known_heap_size, known_heap_size_generic};
use heapsize::shape::{AttrShape, AttrValue, FieldShape, Fields, ShapeKind, TypeShape, VariantShape};

fn plain_field(name: Option<&str>, is_array: bool) -> FieldShape {
    FieldShape {
        name: name.map(|n| n.to_string()),
        is_array,
        attrs: vec![],
    }
}

fn excluded_field(name: Option<&str>, is_array: bool, reason: &str) -> FieldShape {
    FieldShape {
        name: name.map(|n| n.to_string()),
        is_array,
        attrs: vec![AttrShape {
            name: "ignore_heap_size_of".to_string(),
            value: AttrValue::Str(reason.to_string()),
        }],
    }
}

#[test]
fn lib_normal_struct() {
    // struct Foo { a: u32, things: Vec<Foo>, array: [u32; 5] }
    let shape = TypeShape {
        name: "Foo".to_string(),
        params: vec![],
        kind: ShapeKind::Record(Fields {
            named: true,
            list: vec![
                plain_field(Some("a"), false),
                plain_field(Some("things"), false),
                plain_field(Some("array"), true),
            ],
        }),
    };
    let code = heapsizeof_derive(&shape).unwrap();
    let expected = "impl<Alloc: heapsize::UsableSize> heapsize::HeapSizeOf<Alloc> for Foo {\n\
                    \x20   fn heap_size_of_children(&self, heap_size_of: &Alloc) -> usize {\n\
                    \x20       let mut sum = 0;\n\
                    \x20       match *self {\n\
                    \x20           Foo { a: ref f0, things: ref f1, array: ref f2, .. } => {\n\
                    \x20               sum += f0.heap_size_of_children(heap_size_of);\n\
                    \x20               sum += f1.heap_size_of_children(heap_size_of);\n\
                    \x20               for item in f2.iter() { sum += item.heap_size_of_children(heap_size_of); }\n\
                    \x20           }\n\
                    \x20       }\n\
                    \x20       sum\n\
                    \x20   }\n\
                    }\n";
    assert_eq!(code, expected);
}

#[test]
fn lib_tuple_struct() {
    // struct Tuple([Box<u32>; 2], Box<u8>);
    let shape = TypeShape {
        name: "Tuple".to_string(),
        params: vec![],
        kind: ShapeKind::Record(Fields {
            named: false,
            list: vec![plain_field(None, true), plain_field(None, false)],
        }),
    };
    let code = heapsizeof_derive(&shape).unwrap();
    let expected = "impl<Alloc: heapsize::UsableSize> heapsize::HeapSizeOf<Alloc> for Tuple {\n\
                    \x20   fn heap_size_of_children(&self, heap_size_of: &Alloc) -> usize {\n\
                    \x20       let mut sum = 0;\n\
                    \x20       match *self {\n\
                    \x20           Tuple(ref f0, ref f1) => {\n\
                    \x20               for item in f0.iter() { sum += item.heap_size_of_children(heap_size_of); }\n\
                    \x20               sum += f1.heap_size_of_children(heap_size_of);\n\
                    \x20           }\n\
                    \x20       }\n\
                    \x20       sum\n\
                    \x20   }\n\
                    }\n";
    assert_eq!(code, expected);
}

#[test]
fn excluded_fields_are_not_bound() {
    // An excluded named field is neither bound in the pattern nor summed;
    // an excluded positional field is bound to nothing.
    let shape = TypeShape {
        name: "Partial".to_string(),
        params: vec![],
        kind: ShapeKind::Record(Fields {
            named: false,
            list: vec![
                plain_field(None, false),
                excluded_field(None, false, "borrowed from the arena"),
                plain_field(None, false),
            ],
        }),
    };
    let code = emit_impl(&shape);
    assert!(code.contains("Partial(ref f0, _, ref f2)"));
    assert!(!code.contains("f1"));
}

#[test]
fn union_dispatch_covers_every_variant() {
    // enum Shape { Dot, Line { len: u32 }, Poly(Vec<u32>) }
    let shape = TypeShape {
        name: "Shape".to_string(),
        params: vec![],
        kind: ShapeKind::TaggedUnion(vec![
            VariantShape {
                name: "Dot".to_string(),
                fields: Fields { named: false, list: vec![] },
            },
            VariantShape {
                name: "Line".to_string(),
                fields: Fields { named: true, list: vec![plain_field(Some("len"), false)] },
            },
            VariantShape {
                name: "Poly".to_string(),
                fields: Fields { named: false, list: vec![plain_field(None, false)] },
            },
        ]),
    };
    let code = heapsizeof_derive(&shape).unwrap();
    let expected = "impl<Alloc: heapsize::UsableSize> heapsize::HeapSizeOf<Alloc> for Shape {\n\
                    \x20   fn heap_size_of_children(&self, heap_size_of: &Alloc) -> usize {\n\
                    \x20       let mut sum = 0;\n\
                    \x20       match *self {\n\
                    \x20           Shape::Dot => {\n\
                    \x20           }\n\
                    \x20           Shape::Line { len: ref f0, .. } => {\n\
                    \x20               sum += f0.heap_size_of_children(heap_size_of);\n\
                    \x20           }\n\
                    \x20           Shape::Poly(ref f0) => {\n\
                    \x20               sum += f0.heap_size_of_children(heap_size_of);\n\
                    \x20           }\n\
                    \x20       }\n\
                    \x20       sum\n\
                    \x20   }\n\
                    }\n";
    assert_eq!(code, expected);
}

#[test]
fn generic_parameters_get_capability_bounds() {
    // struct Wrapper<T>(T); — the generated implementation must require T
    // to satisfy the capability itself.
    let shape = TypeShape {
        name: "Wrapper".to_string(),
        params: vec!["T".to_string()],
        kind: ShapeKind::Record(Fields {
            named: false,
            list: vec![plain_field(None, false)],
        }),
    };
    let code = emit_impl(&shape);
    assert!(code.starts_with(
        "impl<Alloc: heapsize::UsableSize, T: heapsize::HeapSizeOf<Alloc>> \
         heapsize::HeapSizeOf<Alloc> for Wrapper<T> {\n"
    ));
}

#[test]
fn registration_emits_one_constant_impl_per_type() {
    let names = vec!["Ipv4Addr".to_string(), "Ipv6Addr".to_string()];
    let code = known_heap_size(0, &names);
    let expected = "impl<Alloc: heapsize::UsableSize> heapsize::HeapSizeOf<Alloc> for Ipv4Addr {\n\
                    \x20   fn heap_size_of_children(&self, heap_size_of: &Alloc) -> usize {\n\
                    \x20       0\n\
                    \x20   }\n\
                    }\n\
                    impl<Alloc: heapsize::UsableSize> heapsize::HeapSizeOf<Alloc> for Ipv6Addr {\n\
                    \x20   fn heap_size_of_children(&self, heap_size_of: &Alloc) -> usize {\n\
                    \x20       0\n\
                    \x20   }\n\
                    }\n";
    assert_eq!(code, expected);
}

#[test]
fn registration_handles_generic_types_and_larger_constants() {
    let params = vec!["T".to_string(), "U".to_string()];
    let code = known_heap_size_generic(24, &"Pair".to_string(), &params);
    let expected = "impl<Alloc: heapsize::UsableSize, T: heapsize::HeapSizeOf<Alloc>, \
                    U: heapsize::HeapSizeOf<Alloc>> heapsize::HeapSizeOf<Alloc> for Pair<T, U> {\n\
                    \x20   fn heap_size_of_children(&self, heap_size_of: &Alloc) -> usize {\n\
                    \x20       24\n\
                    \x20   }\n\
                    }\n";
    assert_eq!(code, expected);

    // Multi-digit constants render in full decimal.
    let big = known_heap_size_generic(1234567890, &"Big".to_string(), &vec![]);
    assert!(big.contains("\n        1234567890\n"));
}
