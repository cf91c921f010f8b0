use ai_lib::json::{Json, Member};
use ai_lib::marshal::{
    aliases, decode_arguments, dispatch, find_argument, normalize_arguments, prepare_call,
    AiHandlers,
};
use ai_lib::outcome::{done, recoverable_err, AiFunctionError, AiFunctionResponse, AiFunctionResult};
use ai_lib::registry::{FunctionDecl, ParamDecl, Registry};

fn ma_param(name: &str, required: bool) -> ParamDecl {
    ParamDecl { name: name.to_string(), required }
}

fn ma_text(text: &str) -> Json {
    Json::Text(text.to_string())
}

fn ma_object(members: Vec<(&str, Json)>) -> Json {
    Json::Object(
        members.into_iter().map(|(key, value)| Member { key: key.to_string(), value }).collect(),
    )
}

fn ma_registry() -> Registry {
    let mut registry = Registry::new();
    registry.register(FunctionDecl {
        name: "edit_premise".to_string(),
        description: None,
        params: vec![ma_param("notes", true), ma_param("rewritten_premise", true)],
        parameters: Json::Null,
    });
    registry
}

struct MaState {
    calls: Vec<(String, Json)>,
}

impl AiHandlers for MaState {
    fn handle(&mut self, function_name: &str, arguments: &Json) -> AiFunctionResult {
        self.calls.push((function_name.to_string(), arguments.clone()));
        match arguments.get("rewritten_premise") {
            Some(Json::Text(text)) if text.is_empty() => recoverable_err("empty premise"),
            _ => done(),
        }
    }
}

fn ma_recoverable(result: Result<Json, AiFunctionError>) -> String {
    match result {
        Err(AiFunctionError::Recoverable(message)) => message,
        other => panic!("not a recoverable error: {:?}", other),
    }
}

#[test]
fn aliases_are_the_name_and_its_three_case_forms() {
    assert_eq!(
        aliases("rewritten_premise"),
        vec!["rewritten_premise", "rewritten_premise", "rewrittenPremise", "RewrittenPremise"]
    );
    assert_eq!(
        aliases("rewrittenPremise"),
        vec!["rewrittenPremise", "rewritten_premise", "rewrittenPremise", "RewrittenPremise"]
    );
    assert_eq!(aliases("topic"), vec!["topic", "topic", "topic", "Topic"]);
}

#[test]
fn snake_camel_and_pascal_keys_decode_alike() {
    let params = vec![ma_param("rewritten_premise", true)];
    let expected = ma_object(vec![("rewritten_premise", ma_text("once"))]);
    for key in ["rewritten_premise", "rewrittenPremise", "RewrittenPremise"] {
        let payload = ma_object(vec![(key, ma_text("once"))]);
        assert_eq!(normalize_arguments(&params, &payload), Ok(expected.clone()));
    }
}

#[test]
fn case_forms_decode_alike_from_text() {
    let params = vec![ma_param("random_words", true)];
    let a = decode_arguments(&params, "{\"random_words\":[\"x\",\"y\"]}");
    let b = decode_arguments(&params, "{\"randomWords\":[\"x\",\"y\"]}");
    let c = decode_arguments(&params, "{\"RandomWords\":[\"x\",\"y\"]}");
    assert_eq!(
        a,
        Ok(ma_object(vec![("random_words", Json::Array(vec![ma_text("x"), ma_text("y")]))]))
    );
    assert_eq!(a, b);
    assert_eq!(a, c);
}

#[test]
fn other_spellings_are_not_accepted() {
    let params = vec![ma_param("rewritten_premise", true)];
    let payload = ma_object(vec![("REWRITTEN_PREMISE", ma_text("once"))]);
    assert_eq!(
        ma_recoverable(normalize_arguments(&params, &payload)),
        "missing field `rewritten_premise`"
    );
}

#[test]
fn first_matching_key_wins() {
    let params = vec![ma_param("rewritten_premise", true)];
    let payload = ma_object(vec![
        ("other", ma_text("ignored")),
        ("RewrittenPremise", ma_text("first")),
        ("rewritten_premise", ma_text("second")),
    ]);
    assert_eq!(
        normalize_arguments(&params, &payload),
        Ok(ma_object(vec![("rewritten_premise", ma_text("first"))]))
    );
    match &payload {
        Json::Object(members) => {
            assert_eq!(find_argument(members, "rewritten_premise"), Some(1));
            assert_eq!(find_argument(members, "other"), Some(0));
            assert_eq!(find_argument(members, "absent"), None);
        }
        _ => unreachable!(),
    }
}

#[test]
fn arguments_come_in_declared_order_under_declared_names() {
    let params = vec![ma_param("notes", true), ma_param("rewritten_premise", true)];
    let payload = ma_object(vec![
        ("rewrittenPremise", ma_text("p")),
        ("unknown", Json::Null),
        ("Notes", Json::Array(vec![ma_text("n")])),
    ]);
    assert_eq!(
        normalize_arguments(&params, &payload),
        Ok(ma_object(vec![
            ("notes", Json::Array(vec![ma_text("n")])),
            ("rewritten_premise", ma_text("p")),
        ]))
    );
}

#[test]
fn missing_required_parameter_is_recoverable() {
    let params = vec![ma_param("notes", true), ma_param("rewritten_premise", true)];
    let payload = ma_object(vec![("notes", Json::Array(vec![]))]);
    assert_eq!(
        ma_recoverable(normalize_arguments(&params, &payload)),
        "missing field `rewritten_premise`"
    );
    let empty = ma_object(vec![]);
    assert_eq!(ma_recoverable(normalize_arguments(&params, &empty)), "missing field `notes`");
}

#[test]
fn missing_optional_parameter_is_left_out() {
    let params = vec![ma_param("notes", false), ma_param("premise", true)];
    let payload = ma_object(vec![("premise", ma_text("p"))]);
    assert_eq!(
        normalize_arguments(&params, &payload),
        Ok(ma_object(vec![("premise", ma_text("p"))]))
    );
}

#[test]
fn function_without_parameters_takes_any_object() {
    assert_eq!(normalize_arguments(&vec![], &ma_object(vec![("x", Json::Null)])), Ok(ma_object(vec![])));
}

#[test]
fn payload_that_is_no_object_is_recoverable() {
    let params = vec![ma_param("premise", true)];
    for payload in [Json::Null, ma_text("premise"), Json::Array(vec![]), Json::Bool(true)] {
        assert_eq!(
            ma_recoverable(normalize_arguments(&params, &payload)),
            "invalid type: expected a JSON object"
        );
    }
}

#[test]
fn payload_that_does_not_parse_is_recoverable_with_the_readers_message() {
    let params = vec![ma_param("premise", true)];
    assert_eq!(
        ma_recoverable(decode_arguments(&params, "{\"premise\": ")),
        "EOF while parsing a value at line 1 column 12"
    );
    assert_eq!(
        ma_recoverable(decode_arguments(&params, "not json")),
        "expected ident at line 1 column 2"
    );
}

#[test]
fn unknown_function_is_recoverable() {
    let registry = ma_registry();
    assert_eq!(
        ma_recoverable(prepare_call(&registry, "write_epilogue", "{}")),
        "function write_epilogue not found"
    );
    assert_eq!(
        ma_recoverable(prepare_call(&registry, "write_epilogue", "not even json")),
        "function write_epilogue not found"
    );
}

#[test]
fn prepare_call_decodes_for_the_named_function() {
    let registry = ma_registry();
    assert_eq!(
        prepare_call(&registry, "edit_premise", "{\"Notes\":[],\"rewrittenPremise\":\"p\"}"),
        Ok(ma_object(vec![("notes", Json::Array(vec![])), ("rewritten_premise", ma_text("p"))]))
    );
    assert_eq!(
        ma_recoverable(prepare_call(&registry, "edit_premise", "{\"notes\":[]}")),
        "missing field `rewritten_premise`"
    );
}

#[test]
fn dispatch_runs_the_handler_on_decoded_arguments() {
    let registry = ma_registry();
    let mut state = MaState { calls: vec![] };
    let result =
        dispatch(&mut state, &registry, "edit_premise", "{\"notes\":[\"n\"],\"RewrittenPremise\":\"p\"}");
    assert_eq!(result, Ok(AiFunctionResponse::Done));
    assert_eq!(
        state.calls,
        vec![(
            "edit_premise".to_string(),
            ma_object(vec![
                ("notes", Json::Array(vec![ma_text("n")])),
                ("rewritten_premise", ma_text("p")),
            ])
        )]
    );
}

#[test]
fn dispatch_hands_on_what_the_handler_returns() {
    let registry = ma_registry();
    let mut state = MaState { calls: vec![] };
    let result =
        dispatch(&mut state, &registry, "edit_premise", "{\"notes\":[],\"rewritten_premise\":\"\"}");
    assert_eq!(result, Err(AiFunctionError::Recoverable("empty premise".to_string())));
    assert_eq!(state.calls.len(), 1);
}

#[test]
fn dispatch_does_not_run_the_handler_when_preparing_fails() {
    let registry = ma_registry();
    let mut state = MaState { calls: vec![] };
    assert_eq!(
        dispatch(&mut state, &registry, "nope", "{}"),
        Err(AiFunctionError::Recoverable("function nope not found".to_string()))
    );
    assert_eq!(
        dispatch(&mut state, &registry, "edit_premise", "{"),
        Err(AiFunctionError::Recoverable(
            "EOF while parsing an object at line 1 column 1".to_string()
        ))
    );
    assert_eq!(
        dispatch(&mut state, &registry, "edit_premise", "{\"notes\":[]}"),
        Err(AiFunctionError::Recoverable("missing field `rewritten_premise`".to_string()))
    );
    assert!(state.calls.is_empty());
}
