use turtle_canvas::role::{marker_name, role_for_marker, server_marker_value, ProcessRole};

#[test]
fn marker_constants() {
    assert_eq!(marker_name(), "RUN_TURTLE_CANVAS");
    assert_eq!(server_marker_value(), "true");
}

#[test]
fn server_value_selects_server() {
    let marker = Some("true".to_string());
    assert_eq!(role_for_marker(&marker), ProcessRole::Server);
}

#[test]
fn absent_marker_selects_client() {
    assert_eq!(role_for_marker(&None), ProcessRole::Client);
}

#[test]
fn other_values_select_client() {
    for value in ["false", "", "TRUE", "True", "true ", "1"] {
        let marker = Some(value.to_string());
        assert_eq!(role_for_marker(&marker), ProcessRole::Client);
    }
}

#[test]
fn client_decision_is_stable_across_repeated_calls() {
    let marker: Option<String> = None;
    let first = role_for_marker(&marker);
    for _ in 0..3 {
        assert_eq!(role_for_marker(&marker), first);
    }
    assert_eq!(first, ProcessRole::Client);
}
