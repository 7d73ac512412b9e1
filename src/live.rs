//! The live results stream: one server-sent event per poll snapshot.
use vstd::prelude::*;
use vstd::string::StringExecFns;

verus! {

/// Seconds between two snapshots of a live stream.
pub const LIVE_INTERVAL_SECS: u64 = 5;

pub open spec fn frame_of(payload: Seq<char>) -> Seq<char> {
    "data: "@ + payload + "\n\n"@
}

/// How a client asks for results: once, or as a live stream.
#[derive(Clone, Copy, Debug, PartialEq, Eq, Structural)]
pub struct ResultsQuery {
    pub live: bool,
}

/// What a live stream does after a lookup of its poll.
pub enum LiveStep {
    /// Send this event, then wait for the next snapshot.
    Emit(String),
    /// The poll is gone: end the stream.
    Close,
}

/// The event that carries `payload`.
pub fn sse_frame(payload: &str) -> (r: String)
    ensures
        r@ == frame_of(payload@),
{
    let mut s = String::from_str("data: ");
    s.append(payload);
    s.append("\n\n");
    s
}

/// The next step of a live stream, given the poll as text if it still exists.
pub fn live_step(poll_text: Option<&str>) -> (r: LiveStep)
    ensures
        match poll_text {
            Some(t) => r matches LiveStep::Emit(f) && f@ == frame_of(t@),
            None => r is Close,
        },
{
    match poll_text {
        Some(t) => LiveStep::Emit(sse_frame(t)),
        None => LiveStep::Close,
    }
}

} // verus!
