//! Function-calling orchestration for chat-completion backends: the wire types, the registry
//! of callable functions, the argument marshaler, the rate-limit backoff and the driver that
//! sequences turns.

pub mod search;
pub mod json;
pub mod wire;
pub mod outcome;
pub mod schema;
pub mod registry;
pub mod marshal;
pub mod gateway;
pub mod driver;

pub use crate::driver::{advance, DriveState, Failure, Step, Turn, MAX_ATTEMPTS};
pub use crate::gateway::{Backoff, GatewayError, GatewayStep};
pub use crate::json::{Json, Member};
pub use crate::marshal::{dispatch, AiHandlers};
pub use crate::outcome::{
    done, prompt, recoverable_err, unrecoverable_err, AiFunctionError, AiFunctionResponse,
    AiFunctionResult, AiInitialState, AiState, IntoOk,
};
pub use crate::registry::{FunctionDecl, ParamDecl, Registry};
pub use crate::schema::schema;
pub use crate::wire::{
    CalledFunction, ChatCompletionRequest, ChatCompletionResponse, Choice, Function, FunctionCall,
    Message, Model, Role, Temperature, Usage,
};
