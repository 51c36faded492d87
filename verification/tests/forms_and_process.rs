use ahreumcode::config;
use ahreumcode::expanded_form::{ExpandedFormKind, ExpandedFormState};
use ahreumcode::working_process::{WorkingPhase, WorkingProcessEvent, WorkingProcessState};

fn field_value(form: &ExpandedFormState, key: &str) -> String {
    form.fields
        .iter()
        .find(|field| field.key == key)
        .map(|field| field.value.clone())
        .unwrap_or_else(|| panic!("missing field {key}"))
}

#[test]
fn local_provider_form_uses_config_defaults() {
    let mut form = ExpandedFormState::default();

    form.open(ExpandedFormKind::LocalProvider);

    assert_eq!(field_value(&form, "provider_name"), config::DEFAULT_PROVIDER);
    assert_eq!(field_value(&form, "base_url"), config::DEFAULT_BASE_URL);
    assert_eq!(field_value(&form, "model"), config::DEFAULT_MODEL);
    assert_eq!(field_value(&form, "context_tokens"), config::DEFAULT_CONTEXT_TOKENS.to_string());
}

#[test]
fn local_model_form_uses_config_defaults() {
    let mut form = ExpandedFormState::default();

    form.open(ExpandedFormKind::LocalModel);

    assert_eq!(field_value(&form, "provider_name"), config::DEFAULT_PROVIDER);
    assert_eq!(field_value(&form, "model"), config::DEFAULT_MODEL);
    assert_eq!(field_value(&form, "context_tokens"), config::DEFAULT_CONTEXT_TOKENS.to_string());
}

#[test]
fn tick_does_not_change_phase_without_runtime_event() {
    let mut state = WorkingProcessState::default();
    state.start();

    let events = state.tick();

    assert!(events.events.is_empty());
    assert_eq!(state.phase(), WorkingPhase::Interpret);
}

#[test]
fn runtime_event_changes_phase_and_detail() {
    let mut state = WorkingProcessState::default();
    state.start();

    let events = state.set_phase(WorkingPhase::Validate, "runtime validation");

    assert_eq!(state.phase(), WorkingPhase::Validate);
    assert_eq!(state.detail(), "runtime validation");
    assert!(matches!(
        events.events.as_slice(),
        [WorkingProcessEvent::PhaseChanged { phase: WorkingPhase::Validate }]
    ));
}
