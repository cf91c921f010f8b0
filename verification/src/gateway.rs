//! The decisions of the turn executor: how long to wait when the backend limits the rate of
//! requests, when to give up, and when an answer is to be decoded.

use vstd::prelude::*;
use vstd::string::*;

verus! {

/// The status with which the backend says that too many requests were sent.
pub const TOO_MANY_REQUESTS: u16 = 429;

/// The longest wait, in seconds: a wait of this length or more is not made.
pub const MAX_WAIT_SECONDS: u64 = 60;

/// The number of waits that are made before the executor gives up.
pub const MAX_WAITS: u8 = 6;

/// The wait, in seconds, before the retry that follows `retries` earlier ones: one second at
/// first, and twice the wait before at each retry after it.
pub open spec fn backoff_wait(retries: nat) -> nat
    decreases retries,
{
    if retries == 0 {
        1
    } else {
        2 * backoff_wait((retries - 1) as nat)
    }
}

/// The waits of the first retries are 1, 2, 4, 8, 16 and 32 seconds; the next would be 64.
pub proof fn lemma_backoff_waits()
    ensures
        backoff_wait(0) == 1,
        backoff_wait(1) == 2,
        backoff_wait(2) == 4,
        backoff_wait(3) == 8,
        backoff_wait(4) == 16,
        backoff_wait(5) == 32,
        backoff_wait(6) == 64,
{
    reveal_with_fuel(backoff_wait, 8);
}

/// A wait is below the limit exactly for the first six retries.
pub proof fn lemma_backoff_limit(retries: nat)
    ensures
        backoff_wait(retries) < MAX_WAIT_SECONDS <==> retries < MAX_WAITS,
        backoff_wait(retries) >= 1,
    decreases retries,
{
    lemma_backoff_waits();
    if retries > 6 {
        lemma_backoff_limit((retries - 1) as nat);
    }
}

/// Why the backend gave no usable answer.
#[derive(Debug, PartialEq, Eq)]
pub enum GatewayError {
    /// The backend still limited the rate of requests when the longest wait was reached.
    RateLimited,
    /// The body of the answer could not be decoded; the message says why.
    MalformedBody(String),
    /// The request could not be sent or the answer not received; the message says why.
    Transport(String),
}

/// The mathematical value of a [`GatewayError`].
pub ghost enum GatewayErrorView {
    RateLimited,
    MalformedBody(Seq<char>),
    Transport(Seq<char>),
}

impl View for GatewayError {
    type V = GatewayErrorView;

    open spec fn view(&self) -> GatewayErrorView {
        match self {
            GatewayError::RateLimited => GatewayErrorView::RateLimited,
            GatewayError::MalformedBody(message) => GatewayErrorView::MalformedBody(message@),
            GatewayError::Transport(message) => GatewayErrorView::Transport(message@),
        }
    }
}

/// The message that describes a gateway error.
pub open spec fn gateway_message(error: GatewayErrorView) -> Seq<char> {
    match error {
        GatewayErrorView::RateLimited => "exceeded max wait time"@,
        GatewayErrorView::MalformedBody(message) => "malformed response body: "@ + message,
        GatewayErrorView::Transport(message) => "transport failure: "@ + message,
    }
}

impl GatewayError {
    /// The message that describes the error.
    pub fn message(&self) -> (r: String)
        ensures
            r@ == gateway_message(self@),
    {
        match self {
            GatewayError::RateLimited => String::from_str("exceeded max wait time"),
            GatewayError::MalformedBody(message) => String::from_str(
                "malformed response body: ",
            ).concat(message.as_str()),
            GatewayError::Transport(message) => String::from_str("transport failure: ").concat(
                message.as_str(),
            ),
        }
    }
}

/// What the executor does with an answer of the backend.
#[derive(Clone, Copy, Debug, PartialEq, Eq, Structural)]
pub enum GatewayStep {
    /// Wait for the given number of seconds, then send the request again.
    Wait { seconds: u64 },
    /// Decode the body of the answer.
    Decode,
    /// Send nothing more: the rate limit outlasted the longest wait.
    GiveUp,
}

/// What an answer with the given status leads to after `retries` waits.
pub open spec fn step_for(retries: nat, status: u16) -> GatewayStep {
    if status != TOO_MANY_REQUESTS {
        GatewayStep::Decode
    } else if backoff_wait(retries) < MAX_WAIT_SECONDS {
        GatewayStep::Wait { seconds: backoff_wait(retries) as u64 }
    } else {
        GatewayStep::GiveUp
    }
}

/// The backoff state of one request: how often the executor has waited for it.
#[derive(Debug, PartialEq, Eq)]
pub struct Backoff {
    retries: u8,
    wait_seconds: u64,
}

impl Backoff {
    /// Whether the state is one that `new` and `on_status` produce.
    #[verifier::type_invariant]
    pub closed spec fn well_formed(&self) -> bool {
        self.retries <= MAX_WAITS && self.wait_seconds == backoff_wait(self.retries as nat)
    }

    /// The number of waits made so far.
    pub closed spec fn retries(&self) -> nat {
        self.retries as nat
    }

    /// The state of a request that has not been sent yet.
    pub fn new() -> (r: Backoff)
        ensures
            r.retries() == 0,
    {
        proof {
            lemma_backoff_waits();
        }
        Backoff { retries: 0, wait_seconds: 1 }
    }

    /// The number of waits made so far.
    pub fn waits(&self) -> (r: u8)
        ensures
            r == self.retries(),
            r <= MAX_WAITS,
    {
        proof {
            use_type_invariant(self);
        }
        self.retries
    }

    /// Decides what follows an answer with the given status. A rate-limited answer is waited
    /// out with the next wait of the schedule, which counts as one more retry, unless that
    /// wait has reached the limit: then the executor gives up. Any other answer is decoded.
    pub fn on_status(&mut self, status: u16) -> (step: GatewayStep)
        ensures
            step == step_for(old(self).retries(), status),
            final(self).retries() == if step is Wait {
                old(self).retries() + 1
            } else {
                old(self).retries()
            },
    {
        proof {
            use_type_invariant(&*self);
            lemma_backoff_limit(self.retries as nat);
            lemma_backoff_waits();
        }
        if status != TOO_MANY_REQUESTS {
            GatewayStep::Decode
        } else if self.wait_seconds < MAX_WAIT_SECONDS {
            let seconds = self.wait_seconds;
            assert(backoff_wait((self.retries + 1) as nat) == 2 * backoff_wait(self.retries as nat));
            *self = Backoff { retries: self.retries + 1, wait_seconds: seconds * 2 };
            GatewayStep::Wait { seconds }
        } else {
            GatewayStep::GiveUp
        }
    }
}

/// The backend is asked at most seven times for one request: after six waits a rate-limited
/// answer ends the request.
pub proof fn lemma_backoff_gives_up(retries: nat)
    ensures
        retries >= MAX_WAITS ==> step_for(retries, TOO_MANY_REQUESTS) == GatewayStep::GiveUp,
        retries < MAX_WAITS ==> step_for(retries, TOO_MANY_REQUESTS) == (GatewayStep::Wait {
            seconds: backoff_wait(retries) as u64,
        }),
        forall|status: u16| status != TOO_MANY_REQUESTS ==> step_for(retries, status)
            == GatewayStep::Decode,
{
    lemma_backoff_limit(retries);
}

} // verus!
