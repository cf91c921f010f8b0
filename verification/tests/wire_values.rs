use ai_lib::json::{Json, Member};
use ai_lib::wire::{
    clone_functions, clone_messages, CalledFunction, ChatCompletionRequest,
    ChatCompletionResponse, Choice, Function, FunctionCall, Message, Model, Role, Temperature,
    Usage,
};

fn wv_function(name: &str) -> Function {
    Function { name: name.to_string(), description: name.to_string(), parameters: Json::Null }
}

fn wv_call(name: &str, arguments: &str) -> Message {
    Message {
        role: "assistant".to_string(),
        content: None,
        function_call: Some(CalledFunction {
            name: name.to_string(),
            arguments: arguments.to_string(),
        }),
    }
}

#[test]
fn model_names_are_the_backends() {
    assert_eq!(Model::Gpt3p5Turbo.name(), "gpt-3.5-turbo-0613");
    assert_eq!(Model::Gpt4.name(), "gpt-4-0613");
}

#[test]
fn role_names_are_lower_case() {
    assert_eq!(Role::User.name(), "user");
    assert_eq!(Role::Assistant.name(), "assistant");
    assert_eq!(Role::Function.name(), "function");
    assert_eq!(Role::System.name(), "system");
}

#[test]
fn user_message_has_user_role_and_text() {
    let m = Message::user("hello");
    assert_eq!(
        m,
        Message { role: "user".to_string(), content: Some("hello".to_string()), function_call: None }
    );
}

#[test]
fn function_to_content_writes_the_call_as_json_text() {
    let h = wv_call("write_topic", "{\"topic\":\"a \\\"b\\\"\"}").function_to_content();
    assert_eq!(h.role, "assistant");
    assert!(h.function_call.is_none());
    assert_eq!(
        h.content.as_deref(),
        Some("{\"name\":\"write_topic\",\"arguments\":\"{\\\"topic\\\":\\\"a \\\\\\\"b\\\\\\\"\\\"}\"}")
    );
}

#[test]
fn function_to_content_text_reads_back_as_the_call() {
    let h = wv_call("f", "{\"x\": [1, 2]}").function_to_content();
    let doc = Json::parse(h.content.as_deref().unwrap()).unwrap();
    assert_eq!(
        doc,
        Json::Object(vec![
            Member { key: "name".to_string(), value: Json::Text("f".to_string()) },
            Member { key: "arguments".to_string(), value: Json::Text("{\"x\": [1, 2]}".to_string()) },
        ])
    );
}

#[test]
fn function_to_content_drops_earlier_content() {
    let mut m = wv_call("f", "{}");
    m.content = Some("thinking".to_string());
    m.role = "function".to_string();
    let h = m.function_to_content();
    assert_eq!(h.role, "assistant");
    assert_eq!(h.content.as_deref(), Some("{\"name\":\"f\",\"arguments\":\"{}\"}"));
}

#[test]
fn into_history_leaves_plain_messages_unchanged() {
    let m = Message {
        role: "assistant".to_string(),
        content: Some("I would rather talk".to_string()),
        function_call: None,
    };
    assert_eq!(m.clone().into_history(), m);
}

#[test]
fn into_history_collapses_a_call() {
    let h = wv_call("f", "{}").into_history();
    assert_eq!(
        h,
        Message {
            role: "assistant".to_string(),
            content: Some("{\"name\":\"f\",\"arguments\":\"{}\"}".to_string()),
            function_call: None,
        }
    );
}

#[test]
fn one_function_is_forced() {
    let mode = FunctionCall::for_functions(&vec![wv_function("write_topic")]);
    assert_eq!(mode, FunctionCall::Exact { name: "write_topic".to_string() });
    assert!(mode.is_exact());
    assert!(!mode.is_auto());
    assert_eq!(mode.as_exact(), Some(&"write_topic".to_string()));
}

#[test]
fn several_functions_leave_the_choice_to_the_backend() {
    let mode = FunctionCall::for_functions(&vec![wv_function("a"), wv_function("b")]);
    assert_eq!(mode, FunctionCall::Auto);
    assert!(mode.is_auto());
    assert!(!mode.is_exact());
    assert_eq!(mode.as_exact(), None);
    let three = vec![wv_function("a"), wv_function("b"), wv_function("c")];
    assert_eq!(FunctionCall::for_functions(&three), FunctionCall::Auto);
}

#[test]
fn no_function_leaves_the_choice_to_the_backend() {
    assert_eq!(FunctionCall::for_functions(&vec![]), FunctionCall::Auto);
}

#[test]
fn selection_mode_as_json() {
    assert_eq!(FunctionCall::Auto.to_json(), Json::Text("auto".to_string()));
    assert_eq!(
        FunctionCall::Exact { name: "f".to_string() }.to_json(),
        Json::Object(vec![Member { key: "name".to_string(), value: Json::Text("f".to_string()) }])
    );
}

#[test]
fn new_request_has_the_defaults() {
    let r = ChatCompletionRequest::new(Model::Gpt4, vec![Message::user("hi")]);
    assert_eq!(r.model, Model::Gpt4);
    assert_eq!(r.messages, vec![Message::user("hi")]);
    assert_eq!(r.functions, None);
    assert_eq!(r.function_call, None);
    assert_eq!(r.temperature, Temperature { milli: 0 });
    assert_eq!(r.max_tokens, None);
}

#[test]
fn clones_are_equal_to_what_they_copy() {
    let messages = vec![Message::user("a"), wv_call("f", "{}")];
    assert_eq!(clone_messages(&messages), messages);
    let functions = vec![wv_function("a"), wv_function("b")];
    assert_eq!(clone_functions(&functions), functions);
    let exact = FunctionCall::Exact { name: "n".to_string() };
    assert_eq!(exact.clone(), exact);
    assert!(clone_messages(&vec![]).is_empty());
}

#[test]
fn top_message_is_that_of_the_first_choice() {
    let usage = Usage { prompt_tokens: 1, completion_tokens: 2, total_tokens: 3 };
    let mut response = ChatCompletionResponse {
        created: 7,
        model: "m".to_string(),
        choices: vec![],
        usage,
    };
    assert_eq!(response.top_message(), None);
    response.choices.push(Choice {
        index: 0,
        message: Message::user("first"),
        finish_reason: "stop".to_string(),
    });
    response.choices.push(Choice {
        index: 1,
        message: Message::user("second"),
        finish_reason: "stop".to_string(),
    });
    assert_eq!(response.top_message(), Some(&Message::user("first")));
}
