//! Requests to the services behind Jimmy (the Ollama chat model and the
//! voice service) and the answers to their failures.

use crate::text::join;
use vstd::prelude::*;

verus! {

/// The HTTP status of an answer whose upstream service failed.
pub const BAD_GATEWAY: u16 = 502;

/// One message of a chat.
#[derive(Debug, Clone)]
pub struct ChatMessage {
    pub role: String,
    pub content: String,
}

/// A chat request for the Ollama service.
#[derive(Debug)]
pub struct OllamaChat {
    /// The endpoint to post the chat to.
    pub url: String,
    pub model: String,
    /// The system prompt, then the caller's messages.
    pub messages: Vec<ChatMessage>,
}

/// How an exchange with an upstream service failed.
#[derive(Debug, Clone)]
pub enum UpstreamFailure {
    /// The request could not be sent; the error's text.
    Unreachable(String),
    /// The service answered with a status other than success.
    BadStatus { status: String, body: String },
    /// The answer could not be read; the error's text.
    InvalidResponse(String),
}

/// The text of an Ollama failure.
pub open spec fn ollama_failure_text(f: UpstreamFailure) -> Seq<char> {
    match f {
        UpstreamFailure::Unreachable(e) => "cannot reach Ollama: "@ + e@,
        UpstreamFailure::BadStatus { status, body } => "Ollama returned "@ + status@ + ": "@ + body@,
        UpstreamFailure::InvalidResponse(e) => "invalid Ollama response: "@ + e@,
    }
}

/// The text of a voice service failure; the body of a failed answer is not
/// shown.
pub open spec fn voice_failure_text(f: UpstreamFailure) -> Seq<char> {
    match f {
        UpstreamFailure::Unreachable(e) => "cannot reach voice service: "@ + e@,
        UpstreamFailure::BadStatus { status, body } => "voice service returned "@ + status@,
        UpstreamFailure::InvalidResponse(e) => "invalid voice service response: "@ + e@,
    }
}

/// A failure's text ends with its cause: the error, or the status and (for
/// Ollama) the body of the failed answer.
pub proof fn lemma_failure_texts_end_with_cause(f: UpstreamFailure)
    ensures
        ({
            let o = ollama_failure_text(f);
            let tail = match f {
                UpstreamFailure::Unreachable(e) => e@,
                UpstreamFailure::BadStatus { status, body } => status@ + ": "@ + body@,
                UpstreamFailure::InvalidResponse(e) => e@,
            };
            tail.len() < o.len() && o.subrange(o.len() - tail.len(), o.len() as int) == tail
        }),
        ({
            let v = voice_failure_text(f);
            let tail = match f {
                UpstreamFailure::Unreachable(e) => e@,
                UpstreamFailure::BadStatus { status, body } => status@,
                UpstreamFailure::InvalidResponse(e) => e@,
            };
            tail.len() < v.len() && v.subrange(v.len() - tail.len(), v.len() as int) == tail
        }),
{
    reveal_strlit("cannot reach Ollama: ");
    reveal_strlit("Ollama returned ");
    reveal_strlit("invalid Ollama response: ");
    reveal_strlit("cannot reach voice service: ");
    reveal_strlit("voice service returned ");
    reveal_strlit("invalid voice service response: ");
    reveal_strlit(": ");
    match f {
        UpstreamFailure::Unreachable(e) => {
            let o = "cannot reach Ollama: "@ + e@;
            assert(o.subrange(o.len() - e@.len(), o.len() as int) =~= e@);
            let v = "cannot reach voice service: "@ + e@;
            assert(v.subrange(v.len() - e@.len(), v.len() as int) =~= e@);
        },
        UpstreamFailure::BadStatus { status, body } => {
            let tail = status@ + ": "@ + body@;
            let o = "Ollama returned "@ + status@ + ": "@ + body@;
            assert(o =~= "Ollama returned "@ + tail);
            assert(o.subrange(o.len() - tail.len(), o.len() as int) =~= tail);
            let v = "voice service returned "@ + status@;
            assert(v.subrange(v.len() - status@.len(), v.len() as int) =~= status@);
        },
        UpstreamFailure::InvalidResponse(e) => {
            let o = "invalid Ollama response: "@ + e@;
            assert(o.subrange(o.len() - e@.len(), o.len() as int) =~= e@);
            let v = "invalid voice service response: "@ + e@;
            assert(v.subrange(v.len() - e@.len(), v.len() as int) =~= e@);
        },
    }
}

/// The error text of an answer whose chat with Ollama failed.
pub fn ollama_failure_message(f: &UpstreamFailure) -> (res: String)
    ensures
        res@ == ollama_failure_text(*f),
        ({
            let tail = match *f {
                UpstreamFailure::Unreachable(e) => e@,
                UpstreamFailure::BadStatus { status, body } => status@ + ": "@ + body@,
                UpstreamFailure::InvalidResponse(e) => e@,
            };
            tail.len() < res@.len() && res@.subrange(res@.len() - tail.len(), res@.len() as int) == tail
        }),
{
    proof {
        lemma_failure_texts_end_with_cause(*f);
    }
    match f {
        UpstreamFailure::Unreachable(e) => join("cannot reach Ollama: ", e.as_str()),
        UpstreamFailure::BadStatus { status, body } => {
            let head = join("Ollama returned ", status.as_str());
            let head = join(head.as_str(), ": ");
            join(head.as_str(), body.as_str())
        },
        UpstreamFailure::InvalidResponse(e) => join("invalid Ollama response: ", e.as_str()),
    }
}

/// The error text of an answer whose exchange with the voice service failed.
pub fn voice_failure_message(f: &UpstreamFailure) -> (res: String)
    ensures
        res@ == voice_failure_text(*f),
        ({
            let tail = match *f {
                UpstreamFailure::Unreachable(e) => e@,
                UpstreamFailure::BadStatus { status, body } => status@,
                UpstreamFailure::InvalidResponse(e) => e@,
            };
            tail.len() < res@.len() && res@.subrange(res@.len() - tail.len(), res@.len() as int) == tail
        }),
{
    proof {
        lemma_failure_texts_end_with_cause(*f);
    }
    match f {
        UpstreamFailure::Unreachable(e) => join("cannot reach voice service: ", e.as_str()),
        UpstreamFailure::BadStatus { status, body: _ } => join("voice service returned ", status.as_str()),
        UpstreamFailure::InvalidResponse(e) => join("invalid voice service response: ", e.as_str()),
    }
}

} // verus!
