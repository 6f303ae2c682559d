use rig_core::document::{Document, Number};
use rig_core::sanitize::{prune_document, sanitize, MAX_ARRAY_LEN};

fn number(value: u64) -> Document {
    Document::Number(Number::PosInt(value))
}

fn text(value: &str) -> Document {
    Document::String(value.to_string())
}

fn repeated(value: u64, count: usize) -> Document {
    let mut items = Vec::new();
    for _ in 0..count {
        items.push(number(value));
    }
    Document::Array(items)
}

fn object(fields: Vec<(&str, Document)>) -> Document {
    Document::Object(fields.into_iter().map(|(key, value)| (key.to_string(), value)).collect())
}

/// Whether some array in the document has more elements than may stay.
fn has_oversized_array(document: &Document) -> bool {
    match document {
        Document::Array(items) => {
            items.len() > MAX_ARRAY_LEN || items.iter().any(has_oversized_array)
        }
        Document::Object(fields) => fields.iter().any(|(_, value)| has_oversized_array(value)),
        _ => false,
    }
}

/// A document with oversized arrays at several depths.
fn mixed() -> Document {
    object(vec![
        ("title", text("report")),
        ("embedding", repeated(3, 1536)),
        (
            "sections",
            Document::Array(vec![
                object(vec![("body", text("one")), ("vector", repeated(0, 401))]),
                repeated(9, 402),
                Document::Array(vec![repeated(1, 400), repeated(2, 401), Document::Null]),
                Document::Bool(false),
            ]),
        ),
        ("pages", number(12)),
    ])
}

/// What is left of `mixed`.
fn mixed_clean() -> Document {
    object(vec![
        ("title", text("report")),
        (
            "sections",
            Document::Array(vec![
                object(vec![("body", text("one"))]),
                Document::Array(vec![repeated(1, 400), Document::Null]),
                Document::Bool(false),
            ]),
        ),
        ("pages", number(12)),
    ])
}

#[test]
fn limit_is_four_hundred() {
    assert_eq!(MAX_ARRAY_LEN, 400);
}

#[test]
fn oversized_field_is_removed() {
    let document = object(vec![("a", repeated(1, 401)), ("b", text("keep"))]);
    assert_eq!(sanitize(document), object(vec![("b", text("keep"))]));
}

#[test]
fn oversized_nested_field_is_removed() {
    let document = object(vec![(
        "a",
        object(vec![
            ("b", Document::Array(vec![number(1), number(2), number(3)])),
            ("c", repeated(0, 500)),
        ]),
    )]);
    let expected = object(vec![(
        "a",
        object(vec![("b", Document::Array(vec![number(1), number(2), number(3)]))]),
    )]);
    assert_eq!(sanitize(document), expected);
}

#[test]
fn array_at_the_limit_stays() {
    assert_eq!(sanitize(repeated(7, 400)), repeated(7, 400));
    assert_eq!(prune_document(repeated(7, 400)), Some(repeated(7, 400)));
}

#[test]
fn array_over_the_limit_goes_whatever_it_holds() {
    let mut items = Vec::new();
    for i in 0..401u64 {
        items.push(if i % 2 == 0 { text("x") } else { Document::Null });
    }
    assert_eq!(prune_document(Document::Array(items)), None);
}

#[test]
fn oversized_root_becomes_null() {
    assert_eq!(prune_document(repeated(7, 401)), None);
    assert_eq!(sanitize(repeated(7, 401)), Document::Null);
}

#[test]
fn scalars_stay_as_they_are() {
    let scalars = vec![
        Document::Null,
        Document::Bool(true),
        Document::Bool(false),
        number(0),
        Document::Number(Number::NegInt(-7)),
        Document::Number(Number::Float(1.5f64.to_bits())),
        text(""),
        text("keep"),
    ];
    for scalar in scalars {
        assert_eq!(prune_document(scalar.clone()), Some(scalar.clone()));
        assert_eq!(sanitize(scalar.clone()), scalar);
    }
}

#[test]
fn removed_elements_leave_the_rest_in_order() {
    let document = Document::Array(vec![
        number(1),
        repeated(0, 401),
        text("two"),
        repeated(0, 1000),
        number(3),
    ]);
    assert_eq!(sanitize(document), Document::Array(vec![number(1), text("two"), number(3)]));
}

#[test]
fn removed_fields_leave_the_rest_under_their_keys_in_order() {
    let document = object(vec![
        ("z", number(1)),
        ("big", repeated(0, 401)),
        ("a", number(2)),
        ("m", object(vec![("big", repeated(0, 401))])),
    ]);
    let expected = object(vec![("z", number(1)), ("a", number(2)), ("m", object(vec![]))]);
    assert_eq!(sanitize(document), expected);
}

#[test]
fn empty_containers_stay() {
    assert_eq!(sanitize(Document::Array(vec![])), Document::Array(vec![]));
    assert_eq!(sanitize(object(vec![])), object(vec![]));
}

#[test]
fn array_that_shrinks_under_the_limit_is_judged_by_its_own_length() {
    // 401 elements, all of which would be removed: the array itself goes.
    let mut items = Vec::new();
    for _ in 0..401 {
        items.push(repeated(0, 401));
    }
    let document = object(vec![("a", Document::Array(items))]);
    assert_eq!(sanitize(document), object(vec![]));
    // 400 elements, all removed: the array stays, empty.
    let mut items = Vec::new();
    for _ in 0..400 {
        items.push(repeated(0, 401));
    }
    let document = object(vec![("a", Document::Array(items))]);
    assert_eq!(sanitize(document), object(vec![("a", Document::Array(vec![]))]));
}

#[test]
fn mixed_document_is_cleaned_at_every_depth() {
    assert_eq!(sanitize(mixed()), mixed_clean());
}

#[test]
fn sanitizing_twice_changes_nothing_more() {
    for document in [mixed(), repeated(1, 401), repeated(1, 3), text("x"), mixed_clean()] {
        let once = sanitize(document);
        let twice = sanitize(once.clone());
        assert_eq!(twice, once);
    }
}

#[test]
fn sanitized_document_has_no_oversized_array() {
    assert!(has_oversized_array(&mixed()));
    for document in [mixed(), repeated(1, 401), repeated(1, 400), Document::Null] {
        assert!(!has_oversized_array(&sanitize(document)));
    }
}

#[test]
fn document_without_oversized_array_is_unchanged() {
    let wide: Vec<(String, Document)> =
        (0..500).map(|i| (format!("k{}", i), number(i as u64))).collect();
    for document in [mixed_clean(), repeated(4, 400), Document::Object(wide), text("x")] {
        assert!(!has_oversized_array(&document));
        assert_eq!(sanitize(document.clone()), document);
    }
}

#[test]
fn sanitizing_is_a_function_of_the_document() {
    assert_eq!(sanitize(mixed()), sanitize(mixed()));
}

#[test]
fn sanitized_well_formed_document_is_well_formed() {
    assert!(mixed().is_well_formed());
    assert!(sanitize(mixed()).is_well_formed());
    let document = object(vec![
        ("a", repeated(0, 401)),
        ("b", number(1)),
        ("c", repeated(0, 401)),
        ("d", object(vec![("a", number(2)), ("b", repeated(0, 401))])),
    ]);
    assert!(document.is_well_formed());
    assert!(sanitize(document).is_well_formed());
}
