//! The driver's state machine. A run is a sequence of turns; each turn sends one prompt,
//! with a fresh message list, until a handler accepts the model's call or the turn's
//! attempts are used up. The functions here decide; the caller sends the requests.

use crate::gateway::GatewayError;
use crate::outcome::{AiFunctionError, AiFunctionResponse, AiFunctionResult, AiState};
use crate::registry::Registry;
use crate::wire::{
    clone_functions, clone_messages, ChatCompletionRequest, ChatCompletionResponse, Function,
    FunctionCall, Message, Model, Temperature,
};
use vstd::prelude::*;
use vstd::string::*;

verus! {

/// The number of attempts that one turn has.
pub const MAX_ATTEMPTS: u8 = 5;

/// Why a run failed.
#[derive(Debug, PartialEq, Eq)]
pub enum Failure {
    /// A handler failed in a way that ends the run; the message is the handler's.
    Handler(String),
    /// A turn used up its attempts.
    TooManyErrors,
    /// A prompt allowed a function that the state does not declare.
    UnknownFunction(String),
    /// A prompt allowed no function at all.
    NoFunctions,
    /// The backend's answer held no choice.
    NoChoices,
    /// The backend gave no usable answer; the message says why.
    Backend(String),
}

/// The mathematical value of a [`Failure`].
pub ghost enum FailureView {
    Handler(Seq<char>),
    TooManyErrors,
    UnknownFunction(Seq<char>),
    NoFunctions,
    NoChoices,
    Backend(Seq<char>),
}

impl View for Failure {
    type V = FailureView;

    open spec fn view(&self) -> FailureView {
        match self {
            Failure::Handler(message) => FailureView::Handler(message@),
            Failure::TooManyErrors => FailureView::TooManyErrors,
            Failure::UnknownFunction(name) => FailureView::UnknownFunction(name@),
            Failure::NoFunctions => FailureView::NoFunctions,
            Failure::NoChoices => FailureView::NoChoices,
            Failure::Backend(message) => FailureView::Backend(message@),
        }
    }
}

/// The final error message of a failed run. A handler's message is handed on verbatim.
pub open spec fn failure_message(failure: FailureView) -> Seq<char> {
    match failure {
        FailureView::Handler(message) => message,
        FailureView::TooManyErrors => "too many errors"@,
        FailureView::UnknownFunction(name) => "function "@ + name + " is not declared"@,
        FailureView::NoFunctions => "a prompt must allow at least one function"@,
        FailureView::NoChoices => "the response holds no choice"@,
        FailureView::Backend(message) => message,
    }
}

impl Failure {
    /// The final error message of the run.
    pub fn message(&self) -> (r: String)
        ensures
            r@ == failure_message(self@),
    {
        match self {
            Failure::Handler(message) => message.clone(),
            Failure::TooManyErrors => String::from_str("too many errors"),
            Failure::UnknownFunction(name) => String::from_str("function ").concat(
                name.as_str(),
            ).concat(" is not declared"),
            Failure::NoFunctions => String::from_str("a prompt must allow at least one function"),
            Failure::NoChoices => String::from_str("the response holds no choice"),
            Failure::Backend(message) => message.clone(),
        }
    }
}

/// One turn in progress: what is sent with each attempt, and how many attempts are used.
#[derive(Debug, PartialEq, Eq)]
pub struct Turn {
    pub temperature: Temperature,
    pub messages: Vec<Message>,
    pub functions: Vec<Function>,
    pub function_call: FunctionCall,
    pub attempts: u8,
}

/// The mathematical value of a [`Turn`].
pub ghost struct TurnView {
    pub temperature: Temperature,
    pub messages: Seq<crate::wire::MessageView>,
    pub functions: Seq<crate::wire::FunctionView>,
    pub function_call: crate::wire::FunctionCallView,
    pub attempts: int,
}

impl View for Turn {
    type V = TurnView;

    open spec fn view(&self) -> TurnView {
        TurnView {
            temperature: self.temperature,
            messages: crate::wire::messages_view(self.messages@),
            functions: crate::wire::functions_view(self.functions@),
            function_call: self.function_call@,
            attempts: self.attempts as int,
        }
    }
}

/// Where a run stands.
#[derive(Debug, PartialEq, Eq)]
pub enum DriveState {
    /// A turn is open: its request is to be sent and the answer handed to `advance`.
    AwaitingTurn(Turn),
    /// The run ended with success.
    Done,
    /// The run ended with a failure.
    Failed(Failure),
}

/// The mathematical value of a [`DriveState`].
pub ghost enum DriveStateView {
    AwaitingTurn(TurnView),
    Done,
    Failed(FailureView),
}

impl View for DriveState {
    type V = DriveStateView;

    open spec fn view(&self) -> DriveStateView {
        match self {
            DriveState::AwaitingTurn(turn) => DriveStateView::AwaitingTurn(turn@),
            DriveState::Done => DriveStateView::Done,
            DriveState::Failed(failure) => DriveStateView::Failed(failure@),
        }
    }
}

/// What one answer of the backend leads to within a turn.
#[derive(Debug, PartialEq, Eq)]
pub enum Step {
    /// The attempt failed and the turn goes on with one more attempt used.
    Retry(Turn),
    /// A handler accepted the call: the turn ends with the next outcome.
    Next(AiFunctionResponse),
    /// The run ends with a failure.
    Failed(Failure),
}

/// The mathematical value of a [`Step`].
pub ghost enum StepView {
    Retry(TurnView),
    Next(crate::outcome::OutcomeView),
    Failed(FailureView),
}

impl View for Step {
    type V = StepView;

    open spec fn view(&self) -> StepView {
        match self {
            Step::Retry(turn) => StepView::Retry(turn@),
            Step::Next(outcome) => StepView::Next(outcome@),
            Step::Failed(failure) => StepView::Failed(failure@),
        }
    }
}

/// The views of a sequence of descriptors that may be missing, one for one.
pub open spec fn resolved_view(resolved: Seq<Option<Function>>) -> Seq<
    Option<crate::wire::FunctionView>,
> {
    Seq::new(
        resolved.len(),
        |i: int|
            match resolved[i] {
                Some(function) => Some(function@),
                None => None,
            },
    )
}

/// The descriptors of a sequence in which none is missing.
pub open spec fn all_of(resolved: Seq<Option<crate::wire::FunctionView>>) -> Seq<
    crate::wire::FunctionView,
> {
    Seq::new(resolved.len(), |i: int| resolved[i]->Some_0)
}

/// The descriptors that stand for `n` names: those given, and none for a name without one.
pub open spec fn aligned(resolved: Seq<Option<crate::wire::FunctionView>>, n: nat) -> Seq<
    Option<crate::wire::FunctionView>,
> {
    Seq::new(
        n,
        |i: int|
            if i < resolved.len() {
                resolved[i]
            } else {
                None
            },
    )
}

/// The position of the first allowed function that the state does not declare.
pub open spec fn first_unknown(resolved: Seq<Option<crate::wire::FunctionView>>) -> Option<int> {
    crate::search::first_index(resolved, |d: Option<crate::wire::FunctionView>| d is None)
}

/// The turn that a prompt opens, given the descriptors that the allowed names resolve to. A
/// prompt that allows no function, or a function that is not declared, fails the run at
/// once. Otherwise the turn starts with the prompt as its one user message, advertises
/// exactly the allowed functions, forces the function where there is one and lets the
/// backend choose where there are more.
pub open spec fn opened(
    temperature: Temperature,
    text: Seq<char>,
    names: Seq<Seq<char>>,
    resolved: Seq<Option<crate::wire::FunctionView>>,
) -> Result<TurnView, FailureView> {
    if names.len() == 0 {
        Err(FailureView::NoFunctions)
    } else {
        match first_unknown(aligned(resolved, names.len())) {
            Some(i) => Err(FailureView::UnknownFunction(names[i])),
            None => Ok(
                TurnView {
                    temperature,
                    messages: seq![crate::wire::user_message(text)],
                    functions: all_of(aligned(resolved, names.len())),
                    function_call: crate::wire::selection_mode(
                        all_of(aligned(resolved, names.len())),
                    ),
                    attempts: 0,
                },
            ),
        }
    }
}

/// The state that an outcome leads to, given the descriptors that a prompt's allowed names
/// resolve to.
pub open spec fn begun(
    outcome: crate::outcome::OutcomeView,
    resolved: Seq<Option<crate::wire::FunctionView>>,
) -> DriveStateView {
    match outcome {
        crate::outcome::OutcomeView::Done => DriveStateView::Done,
        crate::outcome::OutcomeView::Prompt { temperature, prompt, functions } => match opened(
            temperature,
            prompt,
            functions,
            resolved,
        ) {
            Ok(turn) => DriveStateView::AwaitingTurn(turn),
            Err(failure) => DriveStateView::Failed(failure),
        },
    }
}

/// The request of a turn: the turn's messages, descriptors, selection mode and temperature,
/// for the default model and without a length limit.
pub open spec fn request_of(turn: TurnView) -> crate::wire::RequestView {
    crate::wire::RequestView {
        model: Model::Gpt3p5Turbo,
        messages: turn.messages,
        functions: Some(turn.functions),
        function_call: Some(turn.function_call),
        temperature: turn.temperature,
        max_tokens: None,
    }
}

/// The message that tells the model to call a function.
pub open spec fn correction_text() -> Seq<char> {
    "You must call one of the provided functions"@
}

/// The message that tells the model what was wrong with its call.
pub open spec fn error_text(message: Seq<char>) -> Seq<char> {
    "Error: "@ + message
}

/// A failed attempt: it is the turn's last and the run fails with too many errors, or the
/// turn goes on with the reply and one corrective message appended and one more attempt
/// used.
pub open spec fn retried(turn: TurnView, reply: crate::wire::MessageView, note: Seq<char>) -> StepView {
    if turn.attempts + 1 >= MAX_ATTEMPTS {
        StepView::Failed(FailureView::TooManyErrors)
    } else {
        StepView::Retry(
            TurnView {
                messages: turn.messages.push(crate::wire::history_form(reply)).push(
                    crate::wire::user_message(note),
                ),
                attempts: turn.attempts + 1,
                ..turn
            },
        )
    }
}

/// The view of what a handler returned.
pub open spec fn result_view(result: AiFunctionResult) -> Result<
    crate::outcome::OutcomeView,
    crate::outcome::ErrorView,
> {
    match result {
        Ok(outcome) => Ok(outcome@),
        Err(error) => Err(error@),
    }
}

/// The view of what dispatching a reply gave: nothing where the reply held no call.
pub open spec fn dispatch_view(result: Option<AiFunctionResult>) -> Option<
    Result<crate::outcome::OutcomeView, crate::outcome::ErrorView>,
> {
    match result {
        Some(result) => Some(result_view(result)),
        None => None,
    }
}

/// What a reply leads to. Without a call the model is told to call a function; a call that
/// the handler accepted ends the turn; a recoverable error is told to the model; an
/// unrecoverable error ends the run with the handler's message.
pub open spec fn settled(
    turn: TurnView,
    reply: crate::wire::MessageView,
    result: Option<Result<crate::outcome::OutcomeView, crate::outcome::ErrorView>>,
) -> StepView {
    match result {
        None => retried(turn, reply, correction_text()),
        Some(Ok(outcome)) => StepView::Next(outcome),
        Some(Err(crate::outcome::ErrorView::Recoverable(message))) => retried(
            turn,
            reply,
            error_text(message),
        ),
        Some(Err(crate::outcome::ErrorView::Unrecoverable(message))) => StepView::Failed(
            FailureView::Handler(message),
        ),
    }
}

/// The state after a step, given the descriptors that the next prompt's names resolve to.
pub open spec fn continued(
    step: StepView,
    resolved: Seq<Option<crate::wire::FunctionView>>,
) -> DriveStateView {
    match step {
        StepView::Retry(turn) => DriveStateView::AwaitingTurn(turn),
        StepView::Next(outcome) => begun(outcome, resolved),
        StepView::Failed(failure) => DriveStateView::Failed(failure),
    }
}

impl Turn {
    /// Opens the turn of a prompt. `resolved` holds, for each allowed name in order, the
    /// descriptor that the state declares under it; a name for which it holds none counts as
    /// not declared.
    pub fn open(
        temperature: Temperature,
        text: &str,
        names: &Vec<String>,
        resolved: &Vec<Option<Function>>,
    ) -> (r: Result<Turn, Failure>)
        ensures
            match r {
                Ok(turn) => opened(
                    temperature,
                    text@,
                    crate::outcome::texts_of(names@),
                    resolved_view(resolved@),
                ) == Ok::<TurnView, FailureView>(turn@),
                Err(failure) => opened(
                    temperature,
                    text@,
                    crate::outcome::texts_of(names@),
                    resolved_view(resolved@),
                ) == Err::<TurnView, FailureView>(failure@),
            },
    {
        if names.len() == 0 {
            return Err(Failure::NoFunctions);
        }
        let ghost views = aligned(resolved_view(resolved@), names@.len() as nat);
        let ghost missing = |d: Option<crate::wire::FunctionView>| d is None;
        let mut functions: Vec<Function> = Vec::new();
        let mut i: usize = 0;
        while i < names.len()
            invariant
                i <= names.len(),
                views == aligned(resolved_view(resolved@), names@.len() as nat),
                missing == (|d: Option<crate::wire::FunctionView>| d is None),
                functions@.len() == i,
                forall|j: int| 0 <= j < i ==> !missing(views[j]),
                forall|j: int| 0 <= j < i ==> functions@[j]@ == views[j]->Some_0,
            decreases names.len() - i,
        {
            if i < resolved.len() && resolved[i].is_some() {
                match &resolved[i] {
                    Some(function) => {
                        functions.push(function.clone());
                    },
                    None => {},
                }
            } else {
                proof {
                    assert(missing(views[i as int]));
                    crate::search::lemma_first_index_at(views, missing, i as int);
                }
                return Err(Failure::UnknownFunction(names[i].clone()));
            }
            i += 1;
        }
        proof {
            crate::search::lemma_first_index_none(views, missing);
            assert(crate::wire::functions_view(functions@) =~= all_of(views));
        }
        let function_call = FunctionCall::for_functions(&functions);
        let mut messages: Vec<Message> = Vec::new();
        messages.push(Message::user(text));
        assert(crate::wire::messages_view(messages@) =~= seq![crate::wire::user_message(text@)]);
        Ok(Turn { temperature, messages, functions, function_call, attempts: 0 })
    }

    /// The request of the turn's next attempt.
    pub fn request(&self) -> (r: ChatCompletionRequest)
        ensures
            r@ == request_of(self@),
    {
        ChatCompletionRequest {
            model: Model::Gpt3p5Turbo,
            messages: clone_messages(&self.messages),
            functions: Some(clone_functions(&self.functions)),
            function_call: Some(self.function_call.clone()),
            temperature: self.temperature,
            max_tokens: None,
        }
    }

    /// Ends a failed attempt with a corrective message for the model.
    fn retry(self, reply: Message, note: String) -> (r: Step)
        ensures
            r@ == retried(self@, reply@, note@),
    {
        if self.attempts >= MAX_ATTEMPTS - 1 {
            Step::Failed(Failure::TooManyErrors)
        } else {
            let ghost before = self@;
            let Turn { temperature, mut messages, functions, function_call, attempts } = self;
            let ghost sent = crate::wire::messages_view(messages@);
            let ghost replayed = crate::wire::history_form(reply@);
            messages.push(reply.into_history());
            messages.push(Message::user(note.as_str()));
            assert(crate::wire::messages_view(messages@) =~= sent.push(replayed).push(
                crate::wire::user_message(note@),
            ));
            Step::Retry(Turn { temperature, messages, functions, function_call, attempts: attempts + 1 })
        }
    }

    /// Decides what a reply of the model leads to. `result` is what dispatching the reply's
    /// call gave, or nothing where the reply held no call.
    pub fn settle(self, reply: Message, result: Option<AiFunctionResult>) -> (r: Step)
        ensures
            r@ == settled(self@, reply@, dispatch_view(result)),
    {
        match result {
            None => self.retry(reply, String::from_str("You must call one of the provided functions")),
            Some(Ok(outcome)) => Step::Next(outcome),
            Some(Err(AiFunctionError::Recoverable(message))) => {
                let note = String::from_str("Error: ").concat(message.as_str());
                self.retry(reply, note)
            },
            Some(Err(AiFunctionError::Unrecoverable(message))) => Step::Failed(
                Failure::Handler(message),
            ),
        }
    }
}

/// Asks the state type for the descriptor of each allowed name, in order.
pub fn resolve_functions<S: AiState>(names: &Vec<String>) -> (r: Vec<Option<Function>>)
    ensures
        r@.len() == names@.len(),
{
    let mut resolved: Vec<Option<Function>> = Vec::new();
    let mut i: usize = 0;
    while i < names.len()
        invariant
            i <= names.len(),
            resolved@.len() == i,
        decreases names.len() - i,
    {
        resolved.push(S::json_schema_for_function(names[i].as_str()));
        i += 1;
    }
    resolved
}

impl DriveState {
    /// The state that an outcome leads to. `resolved` holds, for each name that a prompt
    /// allows, the descriptor that the state declares under it.
    pub fn begin_with(outcome: AiFunctionResponse, resolved: &Vec<Option<Function>>) -> (r:
        DriveState)
        ensures
            r@ == begun(outcome@, resolved_view(resolved@)),
    {
        match outcome {
            AiFunctionResponse::Done => DriveState::Done,
            AiFunctionResponse::Prompt { temperature, prompt, functions } => {
                match Turn::open(temperature, prompt.as_str(), &functions, resolved) {
                    Ok(turn) => DriveState::AwaitingTurn(turn),
                    Err(failure) => DriveState::Failed(failure),
                }
            },
        }
    }

    /// The state that an outcome leads to where the allowed functions are those of a registry.
    pub fn begin_declared(outcome: AiFunctionResponse, registry: &Registry) -> (r: DriveState)
        ensures
            r@ == begun(
                outcome@,
                match outcome@ {
                    crate::outcome::OutcomeView::Prompt { functions, .. } => {
                        crate::registry::resolved_by(registry@, functions)
                    },
                    crate::outcome::OutcomeView::Done => Seq::empty(),
                },
            ),
    {
        match &outcome {
            AiFunctionResponse::Done => DriveState::Done,
            AiFunctionResponse::Prompt { functions, .. } => {
                let resolved = registry.resolve(functions);
                assert(resolved_view(resolved@) =~= crate::registry::resolved_by(
                    registry@,
                    crate::outcome::texts_of(functions@),
                ));
                DriveState::begin_with(outcome, &resolved)
            },
        }
    }

    /// The state that an outcome leads to: done, or the turn of the prompt, for which the
    /// state type is asked for the descriptors of the allowed functions.
    pub fn begin<S: AiState>(outcome: AiFunctionResponse) -> (r: DriveState)
        ensures
            exists|resolved: Seq<Option<crate::wire::FunctionView>>|
                r@ == #[trigger] begun(outcome@, resolved),
            outcome@ is Done <==> r@ is Done,
    {
        match &outcome {
            AiFunctionResponse::Done => {
                assert(DriveStateView::Done == begun(outcome@, Seq::empty()));
                DriveState::Done
            },
            AiFunctionResponse::Prompt { functions, .. } => {
                let resolved = resolve_functions::<S>(functions);
                DriveState::begin_with(outcome, &resolved)
            },
        }
    }

    /// The first state of a run: the one that the state's first outcome leads to. It is done,
    /// failed for want of a declared function, or a fresh turn.
    pub fn start<S: AiState>(state: &mut S) -> (r: DriveState)
        ensures
            exists|
                outcome: crate::outcome::OutcomeView,
                resolved: Seq<Option<crate::wire::FunctionView>>,
            | r@ == #[trigger] begun(outcome, resolved),
    {
        let outcome = state.initial();
        DriveState::begin::<S>(outcome)
    }

    /// The request that is to be sent in this state: that of the open turn. A run that has
    /// ended sends nothing more.
    pub fn request(&self) -> (r: Option<ChatCompletionRequest>)
        ensures
            match r {
                Some(request) => self@ matches DriveStateView::AwaitingTurn(turn) && request@
                    == request_of(turn),
                None => !(self@ is AwaitingTurn),
            },
    {
        match self {
            DriveState::AwaitingTurn(turn) => Some(turn.request()),
            _ => None,
        }
    }

    /// Whether the run has ended.
    pub fn is_finished(&self) -> (r: bool)
        ensures
            r == !(self@ is AwaitingTurn),
    {
        match self {
            DriveState::AwaitingTurn(_) => false,
            _ => true,
        }
    }

    /// The state after the backend gave no usable answer: the run has failed with the
    /// gateway's message, whatever state it was in.
    pub fn backend_failed(self, error: &GatewayError) -> (r: DriveState)
        ensures
            r@ == DriveStateView::Failed(
                FailureView::Backend(crate::gateway::gateway_message(error@)),
            ),
    {
        DriveState::Failed(Failure::Backend(error.message()))
    }

    /// The result of a run that has ended: success, or the final error message.
    pub fn outcome(&self) -> (r: Option<Result<(), String>>)
        ensures
            match self@ {
                DriveStateView::AwaitingTurn(_) => r is None,
                DriveStateView::Done => r == Some(Ok::<(), String>(())),
                DriveStateView::Failed(failure) => r matches Some(Err(message)) && message@
                    == failure_message(failure),
            },
    {
        match self {
            DriveState::AwaitingTurn(_) => None,
            DriveState::Done => Some(Ok(())),
            DriveState::Failed(failure) => Some(Err(failure.message())),
        }
    }
}

/// Takes the run one answer further. The top choice's message is the reply; a call in it is
/// dispatched to the state by the name that the backend gave; the reply is settled and, where
/// a handler accepted the call, the next outcome is begun. An answer without a choice fails
/// the run. The state is touched only where the reply holds a call.
pub fn advance<S: AiState>(state: &mut S, turn: Turn, response: &ChatCompletionResponse) -> (r:
    DriveState)
    ensures
        response.choices@.len() == 0 ==> r@ == DriveStateView::Failed(FailureView::NoChoices)
            && *final(state) == *old(state),
        response.choices@.len() > 0 && response.choices@[0].message@.function_call is None ==> r@
            == continued(
            retried(turn@, response.choices@[0].message@, correction_text()),
            Seq::empty(),
        ) && *final(state) == *old(state),
        response.choices@.len() > 0 ==> exists|
            result: Option<Result<crate::outcome::OutcomeView, crate::outcome::ErrorView>>,
            resolved: Seq<Option<crate::wire::FunctionView>>,
        |
            (result is Some <==> response.choices@[0].message@.function_call is Some) && r@
                == #[trigger] continued(
                settled(turn@, response.choices@[0].message@, result),
                resolved,
            ),
{
    match response.top_message() {
        None => DriveState::Failed(Failure::NoChoices),
        Some(message) => {
            let reply = message.clone();
            let result = match &reply.function_call {
                Some(call) => Some(state.call_function(call.name.as_str(), call.arguments.as_str())),
                None => None,
            };
            let ghost outcome = dispatch_view(result);
            match turn.settle(reply, result) {
                Step::Retry(next) => {
                    assert(DriveStateView::AwaitingTurn(next@) == continued(
                        settled(turn@, message@, outcome),
                        Seq::empty(),
                    ));
                    DriveState::AwaitingTurn(next)
                },
                Step::Next(next) => {
                    let ghost wanted = next@;
                    let begun_state = DriveState::begin::<S>(next);
                    proof {
                        let resolved = choose|resolved: Seq<Option<crate::wire::FunctionView>>|
                            begun_state@ == #[trigger] begun(wanted, resolved);
                        assert(begun_state@ == continued(
                            settled(turn@, message@, outcome),
                            resolved,
                        ));
                    }
                    begun_state
                },
                Step::Failed(failure) => {
                    assert(DriveStateView::Failed(failure@) == continued(
                        settled(turn@, message@, outcome),
                        Seq::empty(),
                    ));
                    DriveState::Failed(failure)
                },
            }
        },
    }
}

/// A prompt that allows exactly one function, which the state declares, opens a turn whose
/// request forces that function and advertises it alone.
pub proof fn lemma_one_function_is_forced(
    temperature: Temperature,
    text: Seq<char>,
    names: Seq<Seq<char>>,
    resolved: Seq<Option<crate::wire::FunctionView>>,
)
    requires
        names.len() == 1,
        resolved.len() == 1,
        resolved[0] is Some,
    ensures
        opened(temperature, text, names, resolved) matches Ok(turn) && request_of(
            turn,
        ).function_call == Some(
            crate::wire::FunctionCallView::Exact { name: resolved[0]->Some_0.name },
        ) && request_of(turn).functions == Some(seq![resolved[0]->Some_0]),
{
    assert(aligned(resolved, names.len()) =~= resolved);
    crate::search::lemma_first_index_none(
        resolved,
        |d: Option<crate::wire::FunctionView>| d is None,
    );
    assert(all_of(resolved) =~= seq![resolved[0]->Some_0]);
}

/// With a registry, the function that a one-function prompt forces is the one that the prompt
/// names.
pub proof fn lemma_forced_function_is_named(
    temperature: Temperature,
    text: Seq<char>,
    name: Seq<char>,
    decls: Seq<crate::registry::DeclView>,
)
    requires
        crate::registry::descriptor_for(decls, name) is Some,
    ensures
        opened(temperature, text, seq![name], crate::registry::resolved_by(decls, seq![name]))
            matches Ok(turn) && request_of(turn).function_call == Some(
            crate::wire::FunctionCallView::Exact { name },
        ),
{
    let resolved = crate::registry::resolved_by(decls, seq![name]);
    crate::registry::lemma_descriptor_name(decls, name);
    assert(resolved[0] == crate::registry::descriptor_for(decls, name));
    lemma_one_function_is_forced(temperature, text, seq![name], resolved);
}

/// A prompt that allows two or more functions, all of which the state declares, opens a turn
/// whose request lets the backend choose and advertises exactly the allowed functions, each
/// once and in the prompt's order.
pub proof fn lemma_many_functions_are_offered(
    temperature: Temperature,
    text: Seq<char>,
    names: Seq<Seq<char>>,
    resolved: Seq<Option<crate::wire::FunctionView>>,
)
    requires
        names.len() >= 2,
        resolved.len() == names.len(),
        forall|i: int| 0 <= i < resolved.len() ==> resolved[i] is Some,
    ensures
        opened(temperature, text, names, resolved) is Ok,
        request_of(opened(temperature, text, names, resolved)->Ok_0).function_call == Some(
            crate::wire::FunctionCallView::Auto,
        ),
        request_of(opened(temperature, text, names, resolved)->Ok_0).functions == Some(
            all_of(resolved),
        ),
        all_of(resolved).len() == names.len(),
        forall|i: int| 0 <= i < names.len() ==> resolved[i] == Some(#[trigger] all_of(resolved)[i]),
{
    assert(aligned(resolved, names.len()) =~= resolved);
    crate::search::lemma_first_index_none(
        resolved,
        |d: Option<crate::wire::FunctionView>| d is None,
    );
}

/// An attempt that failed in a way the model can mend.
pub ghost struct FailedAttempt {
    /// The model's reply.
    pub reply: crate::wire::MessageView,
    /// The corrective message that is sent back.
    pub note: Seq<char>,
}

/// Where a turn stands after a run of failed attempts.
pub open spec fn after_failures(turn: TurnView, failures: Seq<FailedAttempt>) -> StepView
    decreases failures.len(),
{
    if failures.len() == 0 {
        StepView::Retry(turn)
    } else {
        match after_failures(turn, failures.drop_last()) {
            StepView::Retry(next) => retried(next, failures.last().reply, failures.last().note),
            other => other,
        }
    }
}

/// A recoverable error uses one attempt and appends the reply and exactly one corrective
/// message, which tells the error; on the turn's last attempt it fails the run instead, with
/// the message "too many errors".
pub proof fn lemma_recoverable_uses_one_attempt(
    turn: TurnView,
    reply: crate::wire::MessageView,
    message: Seq<char>,
)
    ensures
        turn.attempts + 1 < MAX_ATTEMPTS ==> settled(
            turn,
            reply,
            Some(Err(crate::outcome::ErrorView::Recoverable(message))),
        ) == StepView::Retry(
            TurnView {
                attempts: turn.attempts + 1,
                messages: turn.messages + seq![
                    crate::wire::history_form(reply),
                    crate::wire::user_message(error_text(message)),
                ],
                ..turn
            },
        ),
        turn.attempts + 1 >= MAX_ATTEMPTS ==> settled(
            turn,
            reply,
            Some(Err(crate::outcome::ErrorView::Recoverable(message))),
        ) == StepView::Failed(FailureView::TooManyErrors),
        failure_message(FailureView::TooManyErrors) == "too many errors"@,
{
    assert(turn.messages.push(crate::wire::history_form(reply)).push(
        crate::wire::user_message(error_text(message)),
    ) =~= turn.messages + seq![
        crate::wire::history_form(reply),
        crate::wire::user_message(error_text(message)),
    ]);
}

/// A fresh turn survives four failed attempts, each of which uses one attempt and appends two
/// messages; the fifth fails the run with the message "too many errors".
pub proof fn lemma_five_attempts(turn: TurnView, failures: Seq<FailedAttempt>)
    requires
        turn.attempts == 0,
    ensures
        failures.len() < MAX_ATTEMPTS ==> after_failures(turn, failures) is Retry,
        failures.len() < MAX_ATTEMPTS ==> after_failures(turn, failures)->Retry_0.attempts
            == failures.len(),
        failures.len() < MAX_ATTEMPTS ==> after_failures(turn, failures)->Retry_0.messages.len()
            == turn.messages.len() + 2 * failures.len(),
        failures.len() >= MAX_ATTEMPTS ==> after_failures(turn, failures) == StepView::Failed(
            FailureView::TooManyErrors,
        ),
        failure_message(FailureView::TooManyErrors) == "too many errors"@,
    decreases failures.len(),
{
    if failures.len() > 0 {
        lemma_five_attempts(turn, failures.drop_last());
    }
}

/// An unrecoverable error ends the run at once with the handler's message, whatever the turn
/// and the reply; the state that follows has ended, so that no request follows it.
pub proof fn lemma_unrecoverable_ends_run(
    turn: TurnView,
    reply: crate::wire::MessageView,
    message: Seq<char>,
    resolved: Seq<Option<crate::wire::FunctionView>>,
)
    ensures
        continued(
            settled(turn, reply, Some(Err(crate::outcome::ErrorView::Unrecoverable(message)))),
            resolved,
        ) == DriveStateView::Failed(FailureView::Handler(message)),
        failure_message(FailureView::Handler(message)) == message,
{
}

} // verus!
