//! The policy around calls to the model provider: which history roles are
//! accepted, when a failed call is tried again and after how long, and how a
//! response becomes a reply. The calls themselves are made by the driver.

use vstd::prelude::*;
use crate::records::{messages_view, ChatMessage};
use crate::text::{matches_at, chars_of, contains, contains_chars, decimal, decimal_string, occurs_at, same_text};

verus! {

/// Attempts per call, the first included.
pub const MAX_ATTEMPTS: u32 = 3;

/// The delay before the first retry, in milliseconds; each later retry waits
/// twice as long as the one before.
pub const RETRY_DELAY_MS: u64 = 1000;

/// The role of a message sent to the provider.
#[derive(PartialEq, Eq, Structural, Clone, Copy, Debug)]
pub enum Role {
    System,
    User,
    Assistant,
}

/// A message as the provider receives it.
pub struct RequestMessage {
    pub role: Role,
    pub content: String,
}

/// Why a call to the provider gave no reply.
pub enum GatewayError {
    /// A history message whose role is neither `user` nor `assistant`.
    UnsupportedRole(String),
    /// Every attempt was refused for the rate limit.
    RateLimitExceeded,
    /// The provider failed for another reason; no retry was made for it.
    Provider { retries: u32, message: String },
    /// The provider's response held nothing.
    EmptyResponse,
}

/// What to do after a failed attempt.
pub enum RetryDecision {
    /// Wait this many milliseconds, then try again.
    Wait(u64),
    /// Give up with this error.
    Fail(GatewayError),
}

/// The role that a history role name stands for, if any.
pub open spec fn role_of(name: Seq<char>) -> Option<Role> {
    if name == "user"@ {
        Some(Role::User)
    } else if name == "assistant"@ {
        Some(Role::Assistant)
    } else {
        None
    }
}

/// The first history message whose role is not accepted, if any.
pub open spec fn first_bad_role(h: Seq<(Seq<char>, Seq<char>)>) -> Option<int> {
    if exists|i: int| 0 <= i < h.len() && role_of(h[i].0) is None {
        Some(choose|i: int| 0 <= i < h.len() && role_of(h[i].0) is None && forall|j: int| 0 <= j < i ==> role_of(h[j].0) is Some)
    } else {
        None
    }
}

/// Whether a provider error is a refusal for the rate limit.
pub open spec fn is_rate_limit_text(e: Seq<char>) -> bool {
    contains(e, "rate limit"@)
}

/// The delay after `n` earlier retries, before the next one: the base delay
/// doubled `n` times.
pub open spec fn backoff_ms(n: nat) -> nat
    decreases n,
{
    if n == 0 {
        RETRY_DELAY_MS as nat
    } else {
        2 * backoff_ms((n - 1) as nat)
    }
}

pub open spec fn gateway_error_text(e: GatewayError) -> Seq<char> {
    match e {
        GatewayError::UnsupportedRole(r) => "Unsupported message role: "@ + r@,
        GatewayError::RateLimitExceeded => "Rate limit exceeded. Please try again in a few minutes."@,
        GatewayError::Provider { retries, message } => "API error after "@ + decimal(retries as nat)
            + " retries: "@ + message@,
        GatewayError::EmptyResponse => "No choices in response"@,
    }
}

impl GatewayError {
    /// The message of this error.
    pub fn message(&self) -> (r: String)
        ensures
            r@ == gateway_error_text(*self),
    {
        match self {
            GatewayError::UnsupportedRole(role) => {
                let mut r = String::from_str("Unsupported message role: ");
                r.append(role.as_str());
                r
            },
            GatewayError::RateLimitExceeded => String::from_str(
                "Rate limit exceeded. Please try again in a few minutes.",
            ),
            GatewayError::Provider { retries, message } => {
                let mut r = String::from_str("API error after ");
                r.append(decimal_string(*retries as usize).as_str());
                r.append(" retries: ");
                r.append(message.as_str());
                r
            },
            GatewayError::EmptyResponse => String::from_str("No choices in response"),
        }
    }
}

/// The messages of a chat request: the system prompt, then the history with
/// each role checked. The first history message with a role other than
/// `user` or `assistant` fails the request.
pub fn request_messages(system: &str, history: &Vec<ChatMessage>) -> (r: Result<
    Vec<RequestMessage>,
    GatewayError,
>)
    ensures
        match r {
            Ok(m) => {
                &&& first_bad_role(messages_view(history@)) is None
                &&& m@.len() == history@.len() + 1
                &&& m@[0].role == Role::System && m@[0].content@ == system@
                &&& forall|i: int|
                    0 <= i < history@.len() ==> Some(#[trigger] m@[i + 1].role) == role_of(
                        history@[i].role@,
                    ) && m@[i + 1].content@ == history@[i].content@
            },
            Err(e) => first_bad_role(messages_view(history@)) matches Some(i) && e matches GatewayError::UnsupportedRole(
                x,
            ) && x@ == history@[i].role@,
        },
{
    let mut m: Vec<RequestMessage> = Vec::new();
    m.push(RequestMessage { role: Role::System, content: String::from_str(system) });
    let mut i: usize = 0;
    while i < history.len()
        invariant
            i <= history@.len(),
            m@.len() == i + 1,
            m@[0].role == Role::System && m@[0].content@ == system@,
            forall|j: int| 0 <= j < i ==> role_of(#[trigger] history@[j].role@) is Some,
            forall|j: int|
                0 <= j < i ==> Some(#[trigger] m@[j + 1].role) == role_of(history@[j].role@)
                    && m@[j + 1].content@ == history@[j].content@,
        decreases history@.len() - i,
    {
        let name = history[i].role.as_str();
        let role = if same_text(name, "user") {
            Role::User
        } else if same_text(name, "assistant") {
            Role::Assistant
        } else {
            proof {
                let h = messages_view(history@);
                assert(h[i as int].0 == history@[i as int].role@);
                assert(0 <= i < h.len() && role_of(h[i as int].0) is None);
                let k = choose|k: int| 0 <= k < h.len() && role_of(h[k].0) is None && forall|j: int| 0 <= j < k ==> role_of(h[j].0) is Some;
                assert forall|j: int| 0 <= j < i implies role_of(h[j].0) is Some by {
                    assert(h[j].0 == history@[j].role@);
                }
                if k < i {
                    assert(h[k].0 == history@[k].role@);
                } else if k > i {
                } 
                assert(k == i);
            }
            return Err(GatewayError::UnsupportedRole(history[i].role.clone()));
        };
        m.push(RequestMessage { role, content: history[i].content.clone() });
        i = i + 1;
    }
    proof {
        let h = messages_view(history@);
        assert forall|j: int| 0 <= j < h.len() implies role_of(h[j].0) is Some by {
            assert(h[j].0 == history@[j].role@);
        }
    }
    Ok(m)
}

/// Whether a provider error is a refusal for the rate limit.
pub fn is_rate_limit(error: &str) -> (r: bool)
    ensures
        r == is_rate_limit_text(error@),
{
    contains_chars(&chars_of(error), &chars_of("rate limit"))
}

/// The retry state of one call to the provider.
pub struct Retry {
    retries: u32,
}

impl Retry {
    pub closed spec fn retries(&self) -> nat {
        self.retries as nat
    }

    /// The state before the first attempt.
    pub fn new() -> (r: Retry)
        ensures
            r.retries() == 0,
    {
        Retry { retries: 0 }
    }

    /// Whether another failed attempt may still be decided on.
    pub fn can_retry(&self) -> (r: bool)
        ensures
            r == (self.retries() < MAX_ATTEMPTS),
    {
        self.retries < MAX_ATTEMPTS
    }

    /// Decides what follows a failed attempt. A refusal for the rate limit is
    /// retried after an exponential delay until the attempts run out; any
    /// other error ends the call at once.
    pub fn on_failure(&mut self, error: &str) -> (d: RetryDecision)
        requires
            old(self).retries() < MAX_ATTEMPTS,
        ensures
            if is_rate_limit_text(error@) {
                &&& final(self).retries() == old(self).retries() + 1
                &&& if final(self).retries() < MAX_ATTEMPTS {
                    d matches RetryDecision::Wait(ms) && ms == backoff_ms(old(self).retries())
                } else {
                    d matches RetryDecision::Fail(GatewayError::RateLimitExceeded)
                }
            } else {
                &&& final(self).retries() == old(self).retries()
                &&& d matches RetryDecision::Fail(GatewayError::Provider { retries, message })
                    && retries == old(self).retries() && message@ == error@
            },
    {
        if is_rate_limit(error) {
            let earlier = self.retries;
            self.retries = self.retries + 1;
            if self.retries < MAX_ATTEMPTS {
                let mut ms: u64 = RETRY_DELAY_MS;
                let mut k: u32 = 0;
                while k < earlier
                    invariant
                        k <= earlier,
                        earlier + 1 < MAX_ATTEMPTS,
                        ms == backoff_ms(k as nat),
                        ms <= RETRY_DELAY_MS * 2,
                    decreases earlier - k,
                {
                    proof {
                        assert(k == 0);
                        assert(backoff_ms(0) == 1000);
                    }
                    ms = ms * 2;
                    k = k + 1;
                }
                RetryDecision::Wait(ms)
            } else {
                RetryDecision::Fail(GatewayError::RateLimitExceeded)
            }
        } else {
            RetryDecision::Fail(
                GatewayError::Provider { retries: self.retries, message: String::from_str(error) },
            )
        }
    }
}

/// The first item of a provider response, or `EmptyResponse` when there is
/// none.
pub fn first_item<T>(items: Vec<T>) -> (r: Result<T, GatewayError>)
    ensures
        items@.len() == 0 <==> r matches Err(GatewayError::EmptyResponse),
        items@.len() > 0 <==> (r matches Ok(x) && x == items@[0]),
{
    let mut items = items;
    if items.len() == 0 {
        Err(GatewayError::EmptyResponse)
    } else {
        Ok(items.swap_remove(0))
    }
}

/// The reply in a chat response: the content of its first choice, empty when
/// that choice has none; `EmptyResponse` when there is no choice.
pub fn first_reply(contents: Vec<Option<String>>) -> (r: Result<String, GatewayError>)
    ensures
        contents@.len() == 0 <==> r matches Err(GatewayError::EmptyResponse),
        contents@.len() > 0 ==> (r matches Ok(s) && s@ == match contents@[0] {
            Some(c) => c@,
            None => Seq::empty(),
        }),
{
    match first_item(contents) {
        Ok(Some(c)) => Ok(c),
        Ok(None) => Ok(String::new()),
        Err(e) => Err(e),
    }
}

/// Whether a moderation reply flags the text: it starts with `FLAGGED:`.
pub fn moderation_verdict(response: String) -> (r: (bool, String))
    ensures
        r.0 == occurs_at(response@, "FLAGGED:"@, 0),
        r.1@ == response@,
{
    let flagged = {
        let s = chars_of(response.as_str());
        let pat = chars_of("FLAGGED:");
        if pat.len() <= s.len() {
            matches_at(&s, &pat, 0)
        } else {
            false
        }
    };
    (flagged, response)
}

} // verus!
