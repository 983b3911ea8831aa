use form_engine::compose::FormNode;
use form_engine::compose::FormValue;
use form_engine::error::FormError;
use form_engine::signal::FieldConfig;
use form_engine::signal::FieldKind;
use form_engine::signal::FieldSignal;
use form_engine::signal::FieldValue;

fn leaf(name: &str, kind: FieldKind, raw: &str) -> FormNode {
    let mut signal = FieldSignal::new_with_default_value(None);
    if !raw.is_empty() {
        signal.set_value(String::from(raw));
    }
    FormNode::Field {
        name: String::from(name),
        config: FieldConfig { kind, optional: false },
        signal,
    }
}

fn person(id: &str, street: &str, zip: &str) -> FormNode {
    FormNode::Group {
        name: String::from("person"),
        children: vec![
            leaf("id", FieldKind::Text, id),
            FormNode::Group {
                name: String::from("address"),
                children: vec![
                    leaf("street", FieldKind::Text, street),
                    leaf("zip", FieldKind::Unsigned { min: 0, max: 99999 }, zip),
                ],
            },
        ],
    }
}

#[test]
fn nested_reconstruction_succeeds_when_all_leaves_do() {
    let form = person("u-1", "elm street", "12345");
    assert_eq!(
        form.try_from_signal(),
        Ok(FormValue::Group(vec![
            FormValue::Leaf(FieldValue::Text(String::from("u-1"))),
            FormValue::Group(vec![
                FormValue::Leaf(FieldValue::Text(String::from("elm street"))),
                FormValue::Leaf(FieldValue::Unsigned(12345)),
            ]),
        ]))
    );
}

#[test]
fn nested_reconstruction_fails_on_a_deep_leaf() {
    let form = person("u-1", "elm street", "not-a-zip");
    assert_eq!(form.try_from_signal(), Err(FormError::Parse));
}

#[test]
fn nested_first_failure_wins() {
    let form = FormNode::Group {
        name: String::from("pair"),
        children: vec![
            leaf("a", FieldKind::Unsigned { min: 0, max: 9 }, "100"),
            leaf("b", FieldKind::Unsigned { min: 0, max: 9 }, "x"),
        ],
    };
    assert_eq!(form.try_from_signal(), Err(FormError::OutOfRange));
}

#[test]
fn nested_default_means_every_leaf_empty() {
    let empty = person("", "", "");
    assert!(empty.is_default_value());
    let partial = person("", "elm street", "");
    assert!(!partial.is_default_value());
}

#[test]
fn nested_recurse_counts_leaves() {
    let form = person("u-1", "elm street", "12345");
    assert_eq!(form.recurse(), 3);
}

#[test]
fn nested_reset_rebases_every_leaf() {
    let form = person("u-1", "elm street", "12345");
    let form = form.reset_initial_value();
    match &form {
        FormNode::Group { children, .. } => match (&children[0], &children[1]) {
            (FormNode::Field { signal, .. }, FormNode::Group { children: inner, .. }) => {
                assert_eq!(signal.initial, Some(String::from("u-1")));
                match &inner[1] {
                    FormNode::Field { signal, .. } => {
                        assert_eq!(signal.initial, Some(String::from("12345")));
                        assert!(!signal.is_dirty());
                    },
                    _ => panic!("expected a leaf"),
                }
            },
            _ => panic!("expected a leaf and a group"),
        },
        _ => panic!("expected a group"),
    }
}
