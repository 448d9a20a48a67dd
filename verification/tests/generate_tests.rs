use heapsize::generate::{
    FieldMeasure, GenError, Term, analyze, eval_variant_plan, heapsizeof_derive, measure_variant,
    should_ignore_field,
};
use heapsize::shape::{AttrShape, AttrValue, FieldShape, Fields, ShapeKind, TypeShape, VariantShape};

fn plain_field(name: Option<&str>, is_array: bool) -> FieldShape {
    FieldShape {
        name: name.map(|n| n.to_string()),
        is_array,
        attrs: vec![],
    }
}

fn excluded_field(name: Option<&str>, is_array: bool, reason: &str) -> FieldShape {
    FieldShape {
        name: name.map(|n| n.to_string()),
        is_array,
        attrs: vec![AttrShape {
            name: "ignore_heap_size_of".to_string(),
            value: AttrValue::Str(reason.to_string()),
        }],
    }
}

fn bare_excluded_field(name: Option<&str>) -> FieldShape {
    FieldShape {
        name: name.map(|n| n.to_string()),
        is_array: false,
        attrs: vec![AttrShape {
            name: "ignore_heap_size_of".to_string(),
            value: AttrValue::Bare,
        }],
    }
}

fn record(name: &str, named: bool, fields: Vec<FieldShape>) -> TypeShape {
    TypeShape {
        name: name.to_string(),
        params: vec![],
        kind: ShapeKind::Record(Fields { named, list: fields }),
    }
}

#[test]
fn annotations_decide_inclusion() {
    let table = should_ignore_field(&plain_field(Some("a"), false));
    assert_eq!(table, Ok(false));
    let excluded = should_ignore_field(&excluded_field(Some("b"), false, "cached elsewhere"));
    assert_eq!(excluded, Ok(true));
    // The justification may even be empty, as long as the marker carries an
    // explicit value.
    let empty_reason = should_ignore_field(&excluded_field(Some("c"), false, ""));
    assert_eq!(empty_reason, Ok(true));
    let bare = should_ignore_field(&bare_excluded_field(Some("d")));
    assert!(matches!(bare, Err(GenError::MissingJustification)));
    let list = should_ignore_field(&FieldShape {
        name: Some("e".to_string()),
        is_array: false,
        attrs: vec![AttrShape {
            name: "ignore_heap_size_of".to_string(),
            value: AttrValue::List,
        }],
    });
    assert!(matches!(list, Err(GenError::MissingJustification)));
    let other = should_ignore_field(&FieldShape {
        name: Some("f".to_string()),
        is_array: false,
        attrs: vec![AttrShape {
            name: "serde".to_string(),
            value: AttrValue::List,
        }],
    });
    match other {
        Err(GenError::UnrecognizedAttribute(name)) => assert_eq!(name, "serde"),
        _ => panic!("expected an unrecognized-attribute failure"),
    }
}

#[test]
fn all_ignored_fields_require_an_explanation() {
    let shape = record("Blah", true, vec![bare_excluded_field(Some("foo"))]);
    let result = heapsizeof_derive(&shape);
    match result {
        Err(e) => {
            let msg = e.message();
            assert!(msg.contains("#[ignore_heap_size_of] should have an explanation"));
        },
        Ok(_) => panic!("a bare exclusion must fail generation"),
    }
}

#[test]
fn bare_exclusion_fails_in_union_variants_too() {
    let shape = TypeShape {
        name: "Either".to_string(),
        params: vec![],
        kind: ShapeKind::TaggedUnion(vec![
            VariantShape {
                name: "Fine".to_string(),
                fields: Fields { named: false, list: vec![plain_field(None, false)] },
            },
            VariantShape {
                name: "Bad".to_string(),
                fields: Fields { named: true, list: vec![bare_excluded_field(Some("foo"))] },
            },
        ]),
    };
    let result = heapsizeof_derive(&shape);
    match result {
        Err(e) => {
            let msg = e.message();
            assert!(msg.contains("should have an explanation"));
        },
        Ok(_) => panic!("a bare exclusion in a variant must fail generation"),
    }
}

#[test]
fn excluded_fields_are_left_out_of_the_plan() {
    // A record with fields a (included), b (included), c (excluded with a
    // justification): the plan lists a and b only.
    let shape = record(
        "Widget",
        true,
        vec![
            plain_field(Some("a"), false),
            plain_field(Some("b"), false),
            excluded_field(Some("c"), false, "owned elsewhere"),
        ],
    );
    let plan = analyze(&shape).unwrap();
    assert_eq!(plan.variants.len(), 1);
    assert_eq!(plan.variants[0].terms, vec![Term::Field(0), Term::Field(1)]);

    // The contribution is a + b, and c's measure is never even inspected:
    // hand the evaluator a poison value for c and nothing changes.
    let fields = vec![
        FieldMeasure::Single(8),
        FieldMeasure::Single(16),
        FieldMeasure::Single(999_999_999),
    ];
    assert_eq!(eval_variant_plan(&plan.variants[0], &fields), 24);
}

#[test]
fn array_fields_are_marked_for_element_wise_expansion() {
    let shape = record(
        "Packet",
        true,
        vec![plain_field(Some("header"), false), plain_field(Some("body"), true)],
    );
    let plan = analyze(&shape).unwrap();
    assert_eq!(plan.variants[0].terms, vec![Term::Field(0), Term::ArrayField(1)]);

    // A fixed-size array field of 5 elements, each contributing k = 3,
    // totals exactly 5 * 3, summed element by element.
    let fields = vec![
        FieldMeasure::Single(0),
        FieldMeasure::Array(vec![3, 3, 3, 3, 3]),
    ];
    assert_eq!(eval_variant_plan(&plan.variants[0], &fields), 15);
}

#[test]
fn test_plugin() {
    // A positional record of two contributing components and three leaves:
    // struct Eight(Four, Four, bool, bool, bool), where a Four contributes 4.
    let eight_shape = record(
        "Eight",
        false,
        vec![
            plain_field(None, false),
            plain_field(None, false),
            plain_field(None, false),
            plain_field(None, false),
            plain_field(None, false),
        ],
    );
    let eight_plan = analyze(&eight_shape).unwrap();
    let eight_fields = vec![
        FieldMeasure::Single(4),
        FieldMeasure::Single(4),
        FieldMeasure::Single(0),
        FieldMeasure::Single(0),
        FieldMeasure::Single(0),
    ];
    assert_eq!(eval_variant_plan(&eight_plan.variants[0], &eight_fields), 8);

    // A tagged union: enum EightOrFour { Eight(Eight), Four(Four), Zero(u8) }.
    let union_shape = TypeShape {
        name: "EightOrFour".to_string(),
        params: vec![],
        kind: ShapeKind::TaggedUnion(vec![
            VariantShape {
                name: "Eight".to_string(),
                fields: Fields { named: false, list: vec![plain_field(None, false)] },
            },
            VariantShape {
                name: "Four".to_string(),
                fields: Fields { named: false, list: vec![plain_field(None, false)] },
            },
            VariantShape {
                name: "Zero".to_string(),
                fields: Fields { named: false, list: vec![plain_field(None, false)] },
            },
        ]),
    };
    let union_plan = analyze(&union_shape).unwrap();
    assert_eq!(
        measure_variant(&union_plan, 0, &vec![FieldMeasure::Single(8)]),
        8
    );
    assert_eq!(
        measure_variant(&union_plan, 1, &vec![FieldMeasure::Single(4)]),
        4
    );
    assert_eq!(
        measure_variant(&union_plan, 2, &vec![FieldMeasure::Single(0)]),
        0
    );

    // struct FourScoreAndSeven([Four; 20], Seven): the array field is
    // expanded element by element; a Seven contributes 7.
    let score_shape = record(
        "FourScoreAndSeven",
        false,
        vec![plain_field(None, true), plain_field(None, false)],
    );
    let score_plan = analyze(&score_shape).unwrap();
    let score_fields = vec![
        FieldMeasure::Array(vec![4; 20]),
        FieldMeasure::Single(7),
    ];
    assert_eq!(eval_variant_plan(&score_plan.variants[0], &score_fields), 87);

    // struct SoMuchFour([Four; 200]): large arrays iterate just the same.
    let much_shape = record("SoMuchFour", false, vec![plain_field(None, true)]);
    let much_plan = analyze(&much_shape).unwrap();
    let much_fields = vec![FieldMeasure::Array(vec![4; 200])];
    assert_eq!(eval_variant_plan(&much_plan.variants[0], &much_fields), 800);
}

#[test]
fn test_tuple_struct() {
    // struct Tuple([Box<u32>; 2], Box<u8>), with each boxed u32 block at 4
    // bytes and the boxed u8 block at 1 byte: 4 + 4 + 1.
    let shape = record(
        "Tuple",
        false,
        vec![plain_field(None, true), plain_field(None, false)],
    );
    let plan = analyze(&shape).unwrap();
    let fields = vec![
        FieldMeasure::Array(vec![4, 4]),
        FieldMeasure::Single(1),
    ];
    assert_eq!(eval_variant_plan(&plan.variants[0], &fields), 9);
}

#[test]
fn test_normal_struct() {
    // struct Normal { first: Tuple, second: Box<(u32, u32)>,
    //                 ignored: Vec<Normal> (excluded, "We don't care") }:
    // the first field contributes 9, the boxed pair's block 8, and the
    // excluded vector nothing at all, however large its measure would be.
    let shape = record(
        "Normal",
        true,
        vec![
            plain_field(Some("first"), false),
            plain_field(Some("second"), false),
            excluded_field(Some("ignored"), false, "We don't care about this"),
        ],
    );
    let plan = analyze(&shape).unwrap();
    assert_eq!(plan.variants[0].terms, vec![Term::Field(0), Term::Field(1)]);
    let fields = vec![
        FieldMeasure::Single(9),
        FieldMeasure::Single(2 * 4),
        FieldMeasure::Single(1024),
    ];
    assert_eq!(eval_variant_plan(&plan.variants[0], &fields), 9 + 2 * 4);
}

#[test]
fn variants_do_not_cross_contaminate() {
    // Two variants with different field types and different plans: the
    // selected variant alone decides the result.
    let shape = TypeShape {
        name: "Mixed".to_string(),
        params: vec![],
        kind: ShapeKind::TaggedUnion(vec![
            VariantShape {
                name: "Pair".to_string(),
                fields: Fields {
                    named: false,
                    list: vec![plain_field(None, false), plain_field(None, false)],
                },
            },
            VariantShape {
                name: "Buffer".to_string(),
                fields: Fields {
                    named: true,
                    list: vec![
                        plain_field(Some("data"), true),
                        excluded_field(Some("cache"), false, "recomputed on demand"),
                    ],
                },
            },
            VariantShape {
                name: "Nothing".to_string(),
                fields: Fields { named: false, list: vec![] },
            },
        ]),
    };
    let plan = analyze(&shape).unwrap();
    assert_eq!(plan.variants[0].terms, vec![Term::Field(0), Term::Field(1)]);
    assert_eq!(plan.variants[1].terms, vec![Term::ArrayField(0)]);
    assert_eq!(plan.variants[2].terms, vec![]);

    let pair_fields = vec![FieldMeasure::Single(5), FieldMeasure::Single(7)];
    assert_eq!(measure_variant(&plan, 0, &pair_fields), 12);
    let buffer_fields = vec![
        FieldMeasure::Array(vec![2, 2, 2]),
        FieldMeasure::Single(4096),
    ];
    assert_eq!(measure_variant(&plan, 1, &buffer_fields), 6);
    // A unit variant contributes exactly 0.
    assert_eq!(measure_variant(&plan, 2, &vec![]), 0);
}
