use grouse_core::peer::load_fallback_failure;
use grouse_core::unstable::{
    add_extension_params, app_key, elicitation_answer, recipe_params_answer, recipes_save_params,
    resource_html, session_extensions_add_params, steer_step, tool_result_text, tools_call_params,
    SteerStep,
};

#[test]
fn steer_uses_active_session_and_expected_run_id() {
    let step = steer_step(true, Some("s1".to_string()), "hello".to_string(), "run-9".to_string());
    assert_eq!(
        step,
        SteerStep::Send {
            method: "_goose/unstable/session/steer".to_string(),
            session_id: "s1".to_string(),
            text: "hello".to_string(),
            expected_run_id: "run-9".to_string(),
        }
    );
}

#[test]
fn steer_without_conn_or_session_is_a_noop() {
    let step = steer_step(false, None, "hello".to_string(), "run-9".to_string());
    assert_eq!(step, SteerStep::Nothing);
}

#[test]
fn steer_without_session_emits_not_ready_error() {
    let step = steer_step(true, None, "hello".to_string(), "run-9".to_string());
    assert_eq!(
        step,
        SteerStep::NotReady {
            method: "_goose/unstable/session/steer".to_string(),
            message: "not ready — no session".to_string(),
        }
    );
}

#[test]
fn a_failed_load_fails_the_peer_only_when_the_fallback_fails_too() {
    assert_eq!(load_fallback_failure(true, "boom"), None);
    assert_eq!(load_fallback_failure(false, "boom"), Some("roam session/load: boom".to_string()));
}

#[test]
fn recipe_params_answer_shape() {
    assert_eq!(
        recipe_params_answer("submit", r#"{"param1":"v1"}"#),
        r#"{"action":"submit","values":{"param1":"v1"}}"#
    );
    // Unparseable values degrade to an empty map, never a string.
    assert_eq!(recipe_params_answer("cancel", "not json"), r#"{"action":"cancel","values":{}}"#);
}

#[test]
fn elicitation_answer_shape() {
    assert_eq!(
        elicitation_answer("accept", r#"{"q1":"a1"}"#),
        r#"{"action":"accept","content":{"q1":"a1"}}"#
    );
    // Decline / cancel carry no content object.
    assert_eq!(elicitation_answer("decline", ""), r#"{"action":"decline"}"#);
    assert_eq!(elicitation_answer("cancel", "   "), r#"{"action":"cancel"}"#);
    assert_eq!(elicitation_answer("accept", "{broken"), r#"{"action":"accept"}"#);
}

#[test]
fn an_action_is_quoted_as_a_json_string() {
    assert_eq!(
        recipe_params_answer("say \"hi\"", "{}"),
        r#"{"action":"say \"hi\"","values":{}}"#
    );
}

#[test]
fn tools_call_emits_result_or_error() {
    // The library half: the params sent and the result text read back.
    assert_eq!(
        tools_call_params("s1", "shell__run", r#"{"cmd":"echo hi"}"#),
        Some(r#"{"sessionId":"s1","name":"shell__run","arguments":{"cmd":"echo hi"}}"#.to_string())
    );
    assert_eq!(
        tool_result_text(&vec![Some("out1".to_string()), Some("out2".to_string())]),
        "out1out2"
    );
    assert_eq!(tool_result_text(&vec![None, Some("x".to_string())]), "x");
}

#[test]
fn resources_read_extracts_first_text_and_clears_marker_on_error() {
    // The library half: the app key and the first non-empty text.
    assert_eq!(app_key("autovisualiser", "charts/sankey"), "autovisualiser|charts/sankey");
    assert_eq!(
        resource_html(&vec![Some(String::new()), Some("<html>app</html>".to_string())]),
        "<html>app</html>"
    );
    assert_eq!(resource_html(&vec![None, Some(String::new())]), "");
    assert_eq!(resource_html(&Vec::new()), "");
}

#[test]
fn json_payloads_that_do_not_parse_drop_the_intent() {
    assert_eq!(session_extensions_add_params("s1", "not json"), None);
    assert_eq!(add_extension_params("{", true), None);
    assert_eq!(recipes_save_params("r1", ""), None);
    assert_eq!(tools_call_params("s1", "t", "nope"), None);
    assert_eq!(
        session_extensions_add_params("s1", r#"{"name":"dev"}"#),
        Some(r#"{"sessionId":"s1","extension":{"name":"dev"}}"#.to_string())
    );
    assert_eq!(
        add_extension_params(r#"{"name":"dev"}"#, false),
        Some(r#"{"extension":{"name":"dev"},"enabled":false}"#.to_string())
    );
    assert_eq!(
        recipes_save_params("r1", r#"{"title":"T"}"#),
        Some(r#"{"id":"r1","recipe":{"title":"T"}}"#.to_string())
    );
}
