//! The values exchanged with a chat-completion backend.

use crate::json::{Json, Member};
use vstd::prelude::*;
use vstd::string::*;

verus! {

/// The backend models that a request can select.
#[derive(Clone, Copy, Debug, PartialEq, Eq, Structural)]
pub enum Model {
    Gpt3p5Turbo,
    Gpt4,
}

impl Model {
    /// The name under which the backend knows the model.
    pub open spec fn spec_name(self) -> Seq<char> {
        match self {
            Model::Gpt3p5Turbo => "gpt-3.5-turbo-0613"@,
            Model::Gpt4 => "gpt-4-0613"@,
        }
    }

    /// The name under which the backend knows the model.
    pub fn name(&self) -> (r: &'static str)
        ensures
            r@ == self.spec_name(),
    {
        match self {
            Model::Gpt3p5Turbo => "gpt-3.5-turbo-0613",
            Model::Gpt4 => "gpt-4-0613",
        }
    }
}

/// Who wrote a conversation message.
#[derive(Clone, Copy, Debug, PartialEq, Eq, Structural)]
pub enum Role {
    User,
    Assistant,
    Function,
    System,
}

impl Role {
    /// The role as the backend spells it.
    pub open spec fn spec_name(self) -> Seq<char> {
        match self {
            Role::User => "user"@,
            Role::Assistant => "assistant"@,
            Role::Function => "function"@,
            Role::System => "system"@,
        }
    }

    /// The role as the backend spells it.
    pub fn name(&self) -> (r: &'static str)
        ensures
            r@ == self.spec_name(),
    {
        match self {
            Role::User => "user",
            Role::Assistant => "assistant",
            Role::Function => "function",
            Role::System => "system",
        }
    }
}

/// The sampling temperature of a request in thousandths: 800 stands for 0.8.
#[derive(Clone, Copy, Debug, PartialEq, Eq, Structural)]
pub struct Temperature {
    pub milli: u32,
}

/// A function invocation chosen by the model: the function's name and its arguments as JSON
/// text.
#[derive(Debug, PartialEq, Eq)]
pub struct CalledFunction {
    pub name: String,
    pub arguments: String,
}

/// The mathematical value of a [`CalledFunction`].
pub ghost struct CalledFunctionView {
    pub name: Seq<char>,
    pub arguments: Seq<char>,
}

impl View for CalledFunction {
    type V = CalledFunctionView;

    open spec fn view(&self) -> CalledFunctionView {
        CalledFunctionView { name: self.name@, arguments: self.arguments@ }
    }
}

impl Clone for CalledFunction {
    fn clone(&self) -> (r: CalledFunction)
        ensures
            r@ == self@,
    {
        CalledFunction { name: self.name.clone(), arguments: self.arguments.clone() }
    }
}

/// One message of a conversation.
#[derive(Debug, PartialEq, Eq)]
pub struct Message {
    pub role: String,
    pub content: Option<String>,
    pub function_call: Option<CalledFunction>,
}

/// The mathematical value of a [`Message`].
pub ghost struct MessageView {
    pub role: Seq<char>,
    pub content: Option<Seq<char>>,
    pub function_call: Option<CalledFunctionView>,
}

impl View for Message {
    type V = MessageView;

    open spec fn view(&self) -> MessageView {
        MessageView {
            role: self.role@,
            content: match self.content {
                Some(text) => Some(text@),
                None => None,
            },
            function_call: match self.function_call {
                Some(call) => Some(call@),
                None => None,
            },
        }
    }
}

/// The text that replaces a function invocation when it is replayed as history: a JSON object
/// with the function's name and its arguments, both as string literals.
pub open spec fn call_text(call: CalledFunctionView) -> Seq<char> {
    "{\"name\":"@ + crate::json::json_quoted(call.name) + ",\"arguments\":"@
        + crate::json::json_quoted(call.arguments) + "}"@
}

/// A message as it is replayed to the backend: an invocation becomes an assistant's text, any
/// other message stays as it is.
pub open spec fn history_form(message: MessageView) -> MessageView {
    match message.function_call {
        Some(call) => MessageView {
            role: "assistant"@,
            content: Some(call_text(call)),
            function_call: None,
        },
        None => message,
    }
}

/// The user message with the given text.
pub open spec fn user_message(text: Seq<char>) -> MessageView {
    MessageView { role: "user"@, content: Some(text), function_call: None }
}

impl Clone for Message {
    fn clone(&self) -> (r: Message)
        ensures
            r@ == self@,
    {
        let content = match &self.content {
            Some(text) => Some(text.clone()),
            None => None,
        };
        let function_call = match &self.function_call {
            Some(call) => Some(call.clone()),
            None => None,
        };
        Message { role: self.role.clone(), content, function_call }
    }
}

impl Message {
    /// A message written by the user.
    pub fn user(content: &str) -> (r: Message)
        ensures
            r@ == user_message(content@),
    {
        Message {
            role: String::from_str("user"),
            content: Some(String::from_str(content)),
            function_call: None,
        }
    }

    /// Collapses a function invocation into an assistant's text message, since the backend
    /// does not take an invocation back as history.
    pub fn function_to_content(self) -> (r: Message)
        requires
            self.function_call is Some,
        ensures
            r@ == history_form(self@),
            r@.role == "assistant"@,
            r@.function_call is None,
    {
        let call = self.function_call.unwrap();
        let mut text = String::from_str("{\"name\":");
        let name = Json::quote(call.name.as_str());
        text.append(name.as_str());
        text.append(",\"arguments\":");
        let arguments = Json::quote(call.arguments.as_str());
        text.append(arguments.as_str());
        text.append("}");
        Message { role: String::from_str("assistant"), content: Some(text), function_call: None }
    }

    /// The message as it is replayed to the backend: an invocation collapsed into text, any
    /// other message unchanged.
    pub fn into_history(self) -> (r: Message)
        ensures
            r@ == history_form(self@),
            r@.function_call is None,
    {
        if self.function_call.is_some() {
            self.function_to_content()
        } else {
            self
        }
    }
}

/// The views of a sequence of messages, one for one.
pub open spec fn messages_view(messages: Seq<Message>) -> Seq<MessageView> {
    Seq::new(messages.len(), |i: int| messages[i]@)
}

/// A copy of a list of messages.
pub fn clone_messages(messages: &Vec<Message>) -> (r: Vec<Message>)
    ensures
        messages_view(r@) == messages_view(messages@),
{
    let mut copy: Vec<Message> = Vec::new();
    let mut i: usize = 0;
    while i < messages.len()
        invariant
            i <= messages.len(),
            copy.len() == i,
            forall|k: int| 0 <= k < i ==> copy@[k]@ == messages@[k]@,
        decreases messages.len() - i,
    {
        copy.push(messages[i].clone());
        i += 1;
    }
    assert(messages_view(copy@) =~= messages_view(messages@));
    copy
}

/// The descriptor of a callable function as it is advertised to the backend.
#[derive(Debug, PartialEq, Eq)]
pub struct Function {
    pub name: String,
    pub description: String,
    pub parameters: Json,
}

/// The mathematical value of a [`Function`].
pub ghost struct FunctionView {
    pub name: Seq<char>,
    pub description: Seq<char>,
    pub parameters: crate::json::JsonValue,
}

impl View for Function {
    type V = FunctionView;

    open spec fn view(&self) -> FunctionView {
        FunctionView {
            name: self.name@,
            description: self.description@,
            parameters: self.parameters@,
        }
    }
}

impl Clone for Function {
    fn clone(&self) -> (r: Function)
        ensures
            r@ == self@,
    {
        Function {
            name: self.name.clone(),
            description: self.description.clone(),
            parameters: self.parameters.clone(),
        }
    }
}

/// The views of a sequence of descriptors, one for one.
pub open spec fn functions_view(functions: Seq<Function>) -> Seq<FunctionView> {
    Seq::new(functions.len(), |i: int| functions[i]@)
}

/// A copy of a list of descriptors.
pub fn clone_functions(functions: &Vec<Function>) -> (r: Vec<Function>)
    ensures
        functions_view(r@) == functions_view(functions@),
{
    let mut copy: Vec<Function> = Vec::new();
    let mut i: usize = 0;
    while i < functions.len()
        invariant
            i <= functions.len(),
            copy.len() == i,
            forall|k: int| 0 <= k < i ==> copy@[k]@ == functions@[k]@,
        decreases functions.len() - i,
    {
        copy.push(functions[i].clone());
        i += 1;
    }
    assert(functions_view(copy@) =~= functions_view(functions@));
    copy
}

/// How the backend is to pick a function: freely among those advertised, or exactly the one
/// named.
#[derive(Debug, PartialEq, Eq)]
pub enum FunctionCall {
    Auto,
    Exact { name: String },
}

/// The mathematical value of a [`FunctionCall`].
pub ghost enum FunctionCallView {
    Auto,
    Exact { name: Seq<char> },
}

impl View for FunctionCall {
    type V = FunctionCallView;

    open spec fn view(&self) -> FunctionCallView {
        match self {
            FunctionCall::Auto => FunctionCallView::Auto,
            FunctionCall::Exact { name } => FunctionCallView::Exact { name: name@ },
        }
    }
}

/// The selection mode for a set of advertised functions: the one function is forced where
/// there is exactly one, and the backend chooses where there are more or none.
pub open spec fn selection_mode(functions: Seq<FunctionView>) -> FunctionCallView {
    if functions.len() == 1 {
        FunctionCallView::Exact { name: functions[0].name }
    } else {
        FunctionCallView::Auto
    }
}

/// The selection mode as the backend reads it: the text `auto`, or an object that names the
/// function.
pub open spec fn selection_json(mode: FunctionCallView) -> crate::json::JsonValue {
    match mode {
        FunctionCallView::Auto => crate::json::JsonValue::Text("auto"@),
        FunctionCallView::Exact { name } => crate::json::JsonValue::Object(
            seq![
                crate::json::MemberValue { key: "name"@, value: crate::json::JsonValue::Text(name) },
            ],
        ),
    }
}

impl Clone for FunctionCall {
    fn clone(&self) -> (r: FunctionCall)
        ensures
            r@ == self@,
    {
        match self {
            FunctionCall::Auto => FunctionCall::Auto,
            FunctionCall::Exact { name } => FunctionCall::Exact { name: name.clone() },
        }
    }
}

impl FunctionCall {
    /// The selection mode for the advertised functions.
    pub fn for_functions(functions: &Vec<Function>) -> (r: FunctionCall)
        ensures
            r@ == selection_mode(functions_view(functions@)),
    {
        if functions.len() == 1 {
            FunctionCall::Exact { name: functions[0].name.clone() }
        } else {
            FunctionCall::Auto
        }
    }

    /// Whether the backend chooses freely.
    pub fn is_auto(&self) -> (r: bool)
        ensures
            r == (self@ is Auto),
    {
        match self {
            FunctionCall::Auto => true,
            FunctionCall::Exact { .. } => false,
        }
    }

    /// Whether one function is forced.
    pub fn is_exact(&self) -> (r: bool)
        ensures
            r == (self@ is Exact),
    {
        !self.is_auto()
    }

    /// The name of the forced function, if one is forced.
    pub fn as_exact(&self) -> (r: Option<&String>)
        ensures
            match r {
                Some(name) => self@ == (FunctionCallView::Exact { name: name@ }),
                None => self@ is Auto,
            },
    {
        match self {
            FunctionCall::Auto => None,
            FunctionCall::Exact { name } => Some(name),
        }
    }

    /// The selection mode as the backend reads it.
    pub fn to_json(&self) -> (r: Json)
        ensures
            r@ == selection_json(self@),
    {
        match self {
            FunctionCall::Auto => Json::text("auto"),
            FunctionCall::Exact { name } => {
                let mut members: Vec<Member> = Vec::new();
                members.push(Member { key: String::from_str("name"), value: Json::Text(name.clone()) });
                proof {
                    crate::json::lemma_object_view(members);
                    assert(crate::json::members_of(members@) =~= seq![
                        crate::json::MemberValue {
                            key: "name"@,
                            value: crate::json::JsonValue::Text(name@),
                        },
                    ]);
                }
                Json::Object(members)
            },
        }
    }
}

/// One chat-completion request.
#[derive(Debug, PartialEq, Eq)]
pub struct ChatCompletionRequest {
    pub model: Model,
    pub messages: Vec<Message>,
    pub functions: Option<Vec<Function>>,
    pub function_call: Option<FunctionCall>,
    pub temperature: Temperature,
    pub max_tokens: Option<i32>,
}

/// The mathematical value of a [`ChatCompletionRequest`].
pub ghost struct RequestView {
    pub model: Model,
    pub messages: Seq<MessageView>,
    pub functions: Option<Seq<FunctionView>>,
    pub function_call: Option<FunctionCallView>,
    pub temperature: Temperature,
    pub max_tokens: Option<i32>,
}

impl View for ChatCompletionRequest {
    type V = RequestView;

    open spec fn view(&self) -> RequestView {
        RequestView {
            model: self.model,
            messages: messages_view(self.messages@),
            functions: match self.functions {
                Some(functions) => Some(functions_view(functions@)),
                None => None,
            },
            function_call: match self.function_call {
                Some(mode) => Some(mode@),
                None => None,
            },
            temperature: self.temperature,
            max_tokens: self.max_tokens,
        }
    }
}

impl ChatCompletionRequest {
    /// A request for the given model and messages that advertises no function, leaves the
    /// selection mode out, samples at temperature zero and sets no length limit.
    pub fn new(model: Model, messages: Vec<Message>) -> (r: ChatCompletionRequest)
        ensures
            r@ == (RequestView {
                model,
                messages: messages_view(messages@),
                functions: None,
                function_call: None,
                temperature: Temperature { milli: 0 },
                max_tokens: None,
            }),
    {
        ChatCompletionRequest {
            model,
            messages,
            functions: None,
            function_call: None,
            temperature: Temperature { milli: 0 },
            max_tokens: None,
        }
    }
}

/// One alternative answer of the backend.
#[derive(Debug, PartialEq, Eq)]
pub struct Choice {
    pub index: i32,
    pub message: Message,
    pub finish_reason: String,
}

/// The token counts of one exchange.
#[derive(Clone, Copy, Debug, PartialEq, Eq, Structural)]
pub struct Usage {
    pub prompt_tokens: i32,
    pub completion_tokens: i32,
    pub total_tokens: i32,
}

/// The backend's answer to one request.
#[derive(Debug, PartialEq, Eq)]
pub struct ChatCompletionResponse {
    pub created: u64,
    pub model: String,
    pub choices: Vec<Choice>,
    pub usage: Usage,
}

impl ChatCompletionResponse {
    /// The message of the top choice, if the answer holds a choice.
    pub fn top_message(&self) -> (r: Option<&Message>)
        ensures
            match r {
                Some(message) => self.choices@.len() > 0 && *message == self.choices@[0].message,
                None => self.choices@.len() == 0,
            },
    {
        if self.choices.len() > 0 {
            Some(&self.choices[0].message)
        } else {
            None
        }
    }
}

} // verus!
