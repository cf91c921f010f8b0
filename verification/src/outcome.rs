//! What a handler hands back to the driver, and what an agent state must offer.

use crate::wire::{Function, Temperature};
use vstd::prelude::*;
use vstd::string::*;

verus! {

/// Why a function call failed: in a way that the model can mend when it is told, or in a way
/// that ends the run.
#[derive(Debug, PartialEq, Eq)]
pub enum AiFunctionError {
    Recoverable(String),
    Unrecoverable(String),
}

/// The mathematical value of an [`AiFunctionError`].
pub ghost enum ErrorView {
    Recoverable(Seq<char>),
    Unrecoverable(Seq<char>),
}

impl View for AiFunctionError {
    type V = ErrorView;

    open spec fn view(&self) -> ErrorView {
        match self {
            AiFunctionError::Recoverable(message) => ErrorView::Recoverable(message@),
            AiFunctionError::Unrecoverable(message) => ErrorView::Unrecoverable(message@),
        }
    }
}

/// What comes next: nothing, or another prompt with the functions that may answer it. A
/// prompt is valid only with at least one function.
#[derive(Debug, PartialEq, Eq)]
pub enum AiFunctionResponse {
    Done,
    Prompt { temperature: Temperature, prompt: String, functions: Vec<String> },
}

/// The mathematical value of an [`AiFunctionResponse`].
pub ghost enum OutcomeView {
    Done,
    Prompt { temperature: Temperature, prompt: Seq<char>, functions: Seq<Seq<char>> },
}

/// The texts of a sequence of strings, one for one.
pub open spec fn texts_of(strings: Seq<String>) -> Seq<Seq<char>> {
    Seq::new(strings.len(), |i: int| strings[i]@)
}

impl View for AiFunctionResponse {
    type V = OutcomeView;

    open spec fn view(&self) -> OutcomeView {
        match self {
            AiFunctionResponse::Done => OutcomeView::Done,
            AiFunctionResponse::Prompt { temperature, prompt, functions } => OutcomeView::Prompt {
                temperature: *temperature,
                prompt: prompt@,
                functions: texts_of(functions@),
            },
        }
    }
}

impl AiFunctionResponse {
    /// Whether the outcome may be handed to the driver: a prompt names at least one function.
    pub open spec fn well_formed(&self) -> bool {
        match self {
            AiFunctionResponse::Done => true,
            AiFunctionResponse::Prompt { functions, .. } => functions@.len() > 0,
        }
    }

    /// Whether the outcome may be handed to the driver: a prompt names at least one function.
    pub fn is_well_formed(&self) -> (r: bool)
        ensures
            r == self.well_formed(),
    {
        match self {
            AiFunctionResponse::Done => true,
            AiFunctionResponse::Prompt { functions, .. } => functions.len() > 0,
        }
    }
}

/// What a handler returns.
pub type AiFunctionResult = Result<AiFunctionResponse, AiFunctionError>;

/// The result of a handler that ends the run with success.
pub fn done() -> (r: AiFunctionResult)
    ensures
        r matches Ok(outcome) && outcome@ is Done,
{
    Ok(AiFunctionResponse::Done)
}

/// The result of a handler that asks the model to try again, with the reason.
pub fn recoverable_err(msg: &str) -> (r: AiFunctionResult)
    ensures
        r matches Err(error) && error@ == ErrorView::Recoverable(msg@),
{
    Err(AiFunctionError::Recoverable(String::from_str(msg)))
}

/// The result of a handler that ends the run with a failure, with the reason.
pub fn unrecoverable_err(msg: &str) -> (r: AiFunctionResult)
    ensures
        r matches Err(error) && error@ == ErrorView::Unrecoverable(msg@),
{
    Err(AiFunctionError::Unrecoverable(String::from_str(msg)))
}

/// The outcome that sends `text` as the next prompt, to be answered by one of `functions`.
pub fn prompt(temperature: Temperature, text: &str, functions: Vec<String>) -> (r:
    AiFunctionResponse)
    ensures
        r@ == (OutcomeView::Prompt { temperature, prompt: text@, functions: texts_of(functions@) }),
{
    AiFunctionResponse::Prompt { temperature, prompt: String::from_str(text), functions }
}

/// Lets a handler end with an outcome whether it returns the outcome itself or a result.
pub trait IntoOk<T>: Sized {
    /// The value that `into_ok` gives.
    spec fn ok_form(self) -> T;

    fn into_ok(self) -> (r: T)
        ensures
            r == self.ok_form(),
    ;
}

impl IntoOk<AiFunctionResult> for AiFunctionResponse {
    open spec fn ok_form(self) -> AiFunctionResult {
        Ok(self)
    }

    fn into_ok(self) -> AiFunctionResult {
        Ok(self)
    }
}

impl IntoOk<AiFunctionResponse> for AiFunctionResponse {
    open spec fn ok_form(self) -> AiFunctionResponse {
        self
    }

    fn into_ok(self) -> AiFunctionResponse {
        self
    }
}

/// The rule that gives the first outcome of a run.
pub trait AiInitialState {
    fn initial(&mut self) -> AiFunctionResponse;
}

/// An agent state: it gives the first outcome, describes its callable functions by name, and
/// runs one of them on arguments given as JSON text.
pub trait AiState: AiInitialState {
    /// The descriptor of the function with the given name, or none where the state type
    /// declares no such function.
    fn json_schema_for_function(function_name: &str) -> Option<Function>;

    /// Runs the function with the given name on the given arguments.
    fn call_function(&mut self, function_name: &str, arg: &str) -> AiFunctionResult;
}

} // verus!
