use form_engine::aggregate::AggregateSignal;
use form_engine::aggregate::FieldDecl;
use form_engine::error::FormError;
use form_engine::signal::FieldConfig;
use form_engine::signal::FieldKind;
use form_engine::signal::FieldValue;
use form_engine::submission::default_slot_text;
use form_engine::submission::RenderSlot;
use form_engine::submission::Submission;
use form_engine::submission::SubmitState;

fn person_decls() -> Vec<FieldDecl> {
    vec![
        FieldDecl {
            name: String::from("id"),
            config: FieldConfig { kind: FieldKind::Text, optional: false },
        },
        FieldDecl {
            name: String::from("age"),
            config: FieldConfig { kind: FieldKind::Unsigned { min: 0, max: 150 }, optional: false },
        },
    ]
}

#[test]
fn aggregate_rejects_one_invalid_child() {
    let mut form = AggregateSignal::new(person_decls(), None);
    form.set_field_value(0, String::from("ab-12"));
    form.set_field_value(1, String::from("-5"));
    assert_eq!(form.try_from_signal(), Err(FormError::Parse));
    form.set_field_value(1, String::from("30"));
    assert_eq!(
        form.try_from_signal(),
        Ok(vec![FieldValue::Text(String::from("ab-12")), FieldValue::Unsigned(30)])
    );
}

#[test]
fn aggregate_fail_fast_reports_first_error() {
    let decls = vec![
        FieldDecl {
            name: String::from("low"),
            config: FieldConfig { kind: FieldKind::Unsigned { min: 10, max: 20 }, optional: false },
        },
        FieldDecl {
            name: String::from("high"),
            config: FieldConfig { kind: FieldKind::Unsigned { min: 0, max: 9 }, optional: false },
        },
    ];
    let mut form = AggregateSignal::new(decls, None);
    form.set_field_value(0, String::from("30"));
    form.set_field_value(1, String::from("x"));
    assert_eq!(form.try_from_signal(), Err(FormError::OutOfRange));
}

#[test]
fn aggregate_wraps_initial_values() {
    let initial = vec![FieldValue::Text(String::from("u-1")), FieldValue::Unsigned(42)];
    let form = AggregateSignal::new(person_decls(), Some(initial));
    assert_eq!(form.len(), 2);
    assert_eq!(
        form.try_from_signal(),
        Ok(vec![FieldValue::Text(String::from("u-1")), FieldValue::Unsigned(42)])
    );
}

#[test]
fn aggregate_default_and_reset() {
    let mut form = AggregateSignal::new(person_decls(), None);
    assert!(form.is_default_value());
    form.set_field_value(0, String::from("u-2"));
    assert!(!form.is_default_value());
    form.reset_initial_value();
    assert_eq!(form.fields[0].signal.initial, Some(String::from("u-2")));
    assert!(!form.fields[0].signal.is_dirty());
}

#[test]
fn aggregate_recurse_visits_every_child() {
    let form = AggregateSignal::new(person_decls(), None);
    assert_eq!(form.recurse(), 2);
}

#[test]
fn aggregate_commit_field_uses_child_config() {
    let mut form = AggregateSignal::new(person_decls(), None);
    form.set_field_value(1, String::from("200"));
    form.commit_field(1);
    assert_eq!(form.fields[1].signal.error, Some(FormError::OutOfRange));
    form.set_field_value(1, String::from("20"));
    form.commit_field(1);
    assert_eq!(form.fields[1].signal.error, None);
}

#[test]
fn submission_lifecycle_slots() {
    let mut action: Submission<u32, String, String> = Submission::new();
    assert_eq!(action.active_slot(), RenderSlot::Neutral);
    assert!(!action.is_pending());

    assert!(action.submit(7));
    assert!(action.is_pending());
    assert_eq!(action.active_slot(), RenderSlot::Loading);
    match &action.state {
        SubmitState::Pending(input) => assert_eq!(*input, 7),
        _ => panic!("expected a pending state"),
    }

    action.resolve(Ok(String::from("saved")));
    assert_eq!(action.active_slot(), RenderSlot::Success);
    match &action.state {
        SubmitState::Settled(Ok(v)) => assert_eq!(v, "saved"),
        _ => panic!("expected a settled state"),
    }
}

#[test]
fn submission_failure_activates_only_failure_slot() {
    let mut action: Submission<u32, String, String> = Submission::new();
    assert!(action.submit(1));
    action.resolve(Err(String::from("server rejected")));
    assert_eq!(action.active_slot(), RenderSlot::Failure);
    assert_ne!(action.active_slot(), RenderSlot::Success);
}

#[test]
fn submission_ignores_reinvocation_while_pending() {
    let mut action: Submission<u32, String, String> = Submission::new();
    assert!(action.submit(1));
    assert!(!action.submit(2));
    match &action.state {
        SubmitState::Pending(input) => assert_eq!(*input, 1),
        _ => panic!("expected a pending state"),
    }
    action.resolve(Ok(String::from("done")));
    assert!(action.submit(3));
}

#[test]
fn default_slot_texts() {
    assert_eq!(default_slot_text(RenderSlot::Loading), "Loading...");
    assert_eq!(default_slot_text(RenderSlot::Failure), "Error");
    assert_eq!(default_slot_text(RenderSlot::Success), "");
    assert_eq!(default_slot_text(RenderSlot::Neutral), "");
}
