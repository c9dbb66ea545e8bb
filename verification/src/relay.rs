//! The upstream stream relay, as a pure state machine: each upstream
//! observation (connection opened, data event, transport failure) is turned
//! into the relay events handed to the response assembler.
//!
//! The caller owns the connection and the handoff channel; it feeds every
//! observation through `relay_step` and sends the returned events, in order,
//! over a capacity-one channel. The machine guarantees that exactly one
//! `First` event precedes any `TextDelta` or `Done`, that cumulative text
//! snapshots are decoded into incremental character deltas, and that a
//! transport failure after the first event is silently absorbed.

use vstd::prelude::*;
use vstd::string::*;
use crate::text::{dec_seq, str_eq, u64_to_string};

verus! {

/// One event on the internal handoff channel between relay and assembler.
pub enum RelayEvent {
    /// Emitted exactly once, before anything else: `None` commits the call to
    /// a successful response, `Some(message)` fails it before any output.
    First(Option<String>),
    /// One incremental piece of assistant text, in arrival order.
    Text(String),
    /// The upstream stream completed normally.
    Done,
}

/// What one upstream data event turned out to hold.
pub enum MessageView {
    /// The literal `[DONE]` sentinel payload.
    Sentinel,
    /// An assistant-authored message carrying the cumulative text so far.
    Assistant(String),
    /// Anything else: unparsable JSON, another author, no text part.
    Unrelated,
}

/// How the upstream response body was recovered after a status failure.
pub enum BodyFetch {
    /// The body text was read.
    Got(String),
    /// Reading the body failed; the inner string describes the read error.
    FetchFailed(String),
}

/// A transport-level failure of the upstream connection.
pub enum TransportFailure {
    /// The stream simply ended; not an error.
    StreamEnded,
    /// The upstream answered with an unexpected status code.
    BadStatus(u16, BodyFetch),
    /// The upstream answered with a content type other than an event stream.
    BadContentType(String),
    /// Any other failure, already stringified.
    Other(String),
}

/// One observation made on the upstream connection.
pub enum UpstreamSignal {
    /// The event stream connection was opened.
    Opened,
    /// One data event arrived, already classified.
    Message(MessageView),
    /// The connection failed or ended.
    Failed(TransportFailure),
}

/// The relay's per-call state.
pub struct RelayState {
    /// Whether the single `First` event has been emitted.
    pub first_emitted: bool,
    /// How many characters of assistant text have been observed so far
    /// (characters, not bytes: snapshots may hold multi-byte text).
    pub chars_seen: usize,
    /// Whether the relay reached a terminal observation.
    pub finished: bool,
}

impl RelayState {
    pub fn new() -> (s: Self)
        ensures
            s == (RelayState { first_emitted: false, chars_seen: 0, finished: false }),
    {
        RelayState { first_emitted: false, chars_seen: 0, finished: false }
    }
}

/// The delta a cumulative snapshot contributes once `chars_seen` characters
/// have been observed: the suffix past that point, empty if nothing is new.
pub open spec fn delta_of(chars_seen: nat, text: Seq<char>) -> Seq<char> {
    if chars_seen < text.len() {
        text.skip(chars_seen as int)
    } else {
        Seq::empty()
    }
}

/// What an assistant snapshot produces: `None` when the empty delta is
/// dropped (something was already observed and nothing is new), otherwise the
/// delta to forward. The very first observation is forwarded even if empty.
pub open spec fn assistant_delta(chars_seen: nat, text: Seq<char>) -> Option<Seq<char>> {
    if delta_of(chars_seen, text).len() == 0 && chars_seen > 0 {
        None
    } else {
        Some(delta_of(chars_seen, text))
    }
}

/// The diagnostic message for a status-code failure.
pub open spec fn status_failure_message(code: u16, body: BodyFetch) -> Seq<char> {
    match body {
        BodyFetch::Got(v) => "Invalid response code "@ + dec_seq(code as nat) + ", "@ + v@,
        BodyFetch::FetchFailed(e) => "Invalid response, code "@ + dec_seq(code as nat) + ", "@
            + e@,
    }
}

/// The diagnostic message for a content-type failure.
pub open spec fn content_type_failure_message(text: Seq<char>) -> Seq<char> {
    "The chatgpt api should return data as 'text/event-stream', but it isn't. "@ + text
}

/// The error a transport failure reports through `First`, if any: a stream
/// that merely ended reports nothing.
pub open spec fn failure_first_error(f: TransportFailure) -> Option<Seq<char>> {
    match f {
        TransportFailure::StreamEnded => None,
        TransportFailure::BadStatus(code, body) => Some(status_failure_message(code, body)),
        TransportFailure::BadContentType(text) => Some(content_type_failure_message(text@)),
        TransportFailure::Other(m) => Some(m@),
    }
}

/// The `First(None)` prelude owed before a forwarded event, empty once the
/// first event is out.
pub open spec fn first_prelude(already_emitted: bool) -> Seq<RelayEvent> {
    if already_emitted {
        Seq::empty()
    } else {
        seq![RelayEvent::First(Option::None)]
    }
}

/// The full transition relation of the relay: from state `pre`, observing
/// `signal`, the machine moves to `post` and emits `events` in order.
pub open spec fn step_spec(
    pre: RelayState,
    signal: UpstreamSignal,
    post: RelayState,
    events: Seq<RelayEvent>,
) -> bool {
    if pre.finished {
        post == pre && events.len() == 0
    } else {
        match signal {
            UpstreamSignal::Opened => {
                &&& post == (RelayState {
                    first_emitted: true,
                    chars_seen: pre.chars_seen,
                    finished: false,
                })
                &&& events == first_prelude(pre.first_emitted)
            },
            UpstreamSignal::Message(MessageView::Sentinel) => {
                &&& post == (RelayState {
                    first_emitted: true,
                    chars_seen: pre.chars_seen,
                    finished: true,
                })
                &&& events == first_prelude(pre.first_emitted).push(RelayEvent::Done)
            },
            UpstreamSignal::Message(MessageView::Assistant(text)) => {
                match assistant_delta(pre.chars_seen as nat, text@) {
                    Some(d) => {
                        &&& post == (RelayState {
                            first_emitted: true,
                            chars_seen: text@.len() as usize,
                            finished: false,
                        })
                        &&& events.len() == first_prelude(pre.first_emitted).len() + 1
                        &&& events.take(events.len() - 1) == first_prelude(pre.first_emitted)
                        &&& events.last() matches RelayEvent::Text(t) && t@ == d
                    },
                    None => {
                        &&& post == (RelayState {
                            first_emitted: true,
                            chars_seen: pre.chars_seen,
                            finished: false,
                        })
                        &&& events == first_prelude(pre.first_emitted)
                    },
                }
            },
            UpstreamSignal::Message(MessageView::Unrelated) => {
                &&& post == (RelayState {
                    first_emitted: true,
                    chars_seen: pre.chars_seen,
                    finished: false,
                })
                &&& events == first_prelude(pre.first_emitted)
            },
            UpstreamSignal::Failed(TransportFailure::StreamEnded) => {
                &&& post == (RelayState {
                    first_emitted: pre.first_emitted,
                    chars_seen: pre.chars_seen,
                    finished: true,
                })
                &&& events.len() == 0
            },
            UpstreamSignal::Failed(f) => {
                &&& post == (RelayState {
                    first_emitted: true,
                    chars_seen: pre.chars_seen,
                    finished: true,
                })
                &&& if pre.first_emitted {
                    events.len() == 0
                } else {
                    &&& events.len() == 1
                    &&& events[0] matches RelayEvent::First(Some(m)) && Some(m@)
                        == failure_first_error(f)
                }
            },
        }
    }
}

fn emit_first_if_needed(state: &mut RelayState, events: &mut Vec<RelayEvent>)
    ensures
        *final(state) == (RelayState {
            first_emitted: true,
            chars_seen: old(state).chars_seen,
            finished: old(state).finished,
        }),
        final(events)@ == old(events)@ + first_prelude(old(state).first_emitted),
{
    if !state.first_emitted {
        events.push(RelayEvent::First(None));
        state.first_emitted = true;
    }
    proof {
        assert(events@ =~= old(events)@ + first_prelude(old(state).first_emitted));
    }
}

fn status_failure_string(code: u16, body: BodyFetch) -> (r: String)
    ensures
        r@ == status_failure_message(code, body),
{
    match body {
        BodyFetch::Got(v) => {
            let mut out = String::from_str("Invalid response code ");
            let digits = u64_to_string(code as u64);
            out.append(digits.as_str());
            out.append(", ");
            out.append(v.as_str());
            proof {
                assert(out@ =~= status_failure_message(code, BodyFetch::Got(v)));
            }
            out
        },
        BodyFetch::FetchFailed(e) => {
            let mut out = String::from_str("Invalid response, code ");
            let digits = u64_to_string(code as u64);
            out.append(digits.as_str());
            out.append(", ");
            out.append(e.as_str());
            proof {
                assert(out@ =~= status_failure_message(code, BodyFetch::FetchFailed(e)));
            }
            out
        },
    }
}

/// Classifies one upstream data event: the literal `[DONE]` payload is the
/// sentinel; otherwise an assistant-authored message with a first text part
/// carries a cumulative snapshot; anything else is unrelated.
pub fn classify_message_data(data: &str, role: Option<&str>, part_text: Option<String>) -> (m:
    MessageView)
    ensures
        data@ == "[DONE]"@ ==> m == MessageView::Sentinel,
        data@ != "[DONE]"@ ==> match m {
            MessageView::Sentinel => false,
            MessageView::Assistant(t) => {
                &&& role matches Some(r) && r@ == "assistant"@
                &&& part_text matches Some(p) && p == t
            },
            MessageView::Unrelated => !(role matches Some(r) && r@ == "assistant"@
                && part_text is Some),
        },
{
    if str_eq(data, "[DONE]") {
        return MessageView::Sentinel;
    }
    let is_assistant = match &role {
        Some(r) => str_eq(r, "assistant"),
        None => false,
    };
    if is_assistant {
        match part_text {
            Some(t) => MessageView::Assistant(t),
            None => MessageView::Unrelated,
        }
    } else {
        MessageView::Unrelated
    }
}

/// Advances the relay by one upstream observation, returning the events to
/// hand to the assembler, in order. Once the state is finished, further
/// observations produce nothing.
pub fn relay_step(state: &mut RelayState, signal: UpstreamSignal) -> (events: Vec<RelayEvent>)
    ensures
        step_spec(*old(state), signal, *final(state), events@),
{
    let mut events: Vec<RelayEvent> = Vec::new();
    if state.finished {
        return events;
    }
    match signal {
        UpstreamSignal::Opened => {
            emit_first_if_needed(state, &mut events);
            proof {
                assert(events@ =~= first_prelude(old(state).first_emitted));
            }
        },
        UpstreamSignal::Message(kind) => {
            emit_first_if_needed(state, &mut events);
            proof {
                assert(events@ =~= first_prelude(old(state).first_emitted));
            }
            match kind {
                MessageView::Sentinel => {
                    events.push(RelayEvent::Done);
                    state.finished = true;
                },
                MessageView::Assistant(text) => {
                    let tlen = text.as_str().unicode_len();
                    if state.chars_seen < tlen {
                        let delta_str = text.as_str().substring_char(state.chars_seen, tlen);
                        let delta = String::from_str(delta_str);
                        events.push(RelayEvent::Text(delta));
                        state.chars_seen = tlen;
                        proof {
                            assert(events@.take(events@.len() - 1) =~= first_prelude(
                                old(state).first_emitted,
                            ));
                        }
                    } else if state.chars_seen == 0 {
                        events.push(RelayEvent::Text(String::new()));
                        proof {
                            assert(delta_of(0, text@) =~= Seq::<char>::empty());
                            assert(events@.take(events@.len() - 1) =~= first_prelude(
                                old(state).first_emitted,
                            ));
                        }
                    }
                },
                MessageView::Unrelated => {},
            }
        },
        UpstreamSignal::Failed(failure) => {
            match failure {
                TransportFailure::StreamEnded => {},
                TransportFailure::BadStatus(code, body) => {
                    if !state.first_emitted {
                        let msg = status_failure_string(code, body);
                        events.push(RelayEvent::First(Some(msg)));
                    }
                    state.first_emitted = true;
                },
                TransportFailure::BadContentType(text) => {
                    if !state.first_emitted {
                        let mut msg = String::from_str(
                            "The chatgpt api should return data as 'text/event-stream', but it isn't. ",
                        );
                        msg.append(text.as_str());
                        events.push(RelayEvent::First(Some(msg)));
                    }
                    state.first_emitted = true;
                },
                TransportFailure::Other(m) => {
                    if !state.first_emitted {
                        events.push(RelayEvent::First(Some(m)));
                    }
                    state.first_emitted = true;
                },
            }
            state.finished = true;
        },
    }
    events
}

/// Law: the relay emits `First` exactly once. Once it is out the flag stays
/// set and no later step emits another; while it is not out, whatever a step
/// emits starts with `First` — so every `Text` and `Done` is preceded by the
/// one `First` event.
pub proof fn lemma_single_first(
    pre: RelayState,
    signal: UpstreamSignal,
    post: RelayState,
    events: Seq<RelayEvent>,
)
    requires
        step_spec(pre, signal, post, events),
    ensures
        pre.first_emitted ==> post.first_emitted,
        pre.first_emitted ==> forall|k: int| 0 <= k < events.len() ==> !(events[k] is First),
        !pre.first_emitted && events.len() > 0 ==> events[0] is First && post.first_emitted,
        forall|k: int| 0 < k < events.len() ==> !(events[k] is First),
{
    match signal {
        UpstreamSignal::Message(MessageView::Assistant(text)) => {
            if !pre.finished && assistant_delta(pre.chars_seen as nat, text@) is Some {
                assert(forall|k: int|
                    0 <= k < events.len() - 1 ==> events[k] == events.take(events.len() - 1)[k]);
            }
        },
        _ => {},
    }
}

/// Delta-decoding law: when cumulative snapshots extend one another as
/// prefixes, the first observation forwards the whole first snapshot, a
/// strictly longer snapshot forwards exactly the new suffix, and an unchanged
/// non-empty snapshot is dropped.
pub proof fn lemma_delta_decoding(prev: Seq<char>, cur: Seq<char>)
    requires
        prev.len() <= cur.len(),
        prev == cur.take(prev.len() as int),
    ensures
        prev.len() == 0 ==> assistant_delta(0, cur) == Some(cur),
        cur.len() > prev.len() ==> assistant_delta(prev.len(), cur) == Some(
            cur.skip(prev.len() as int),
        ),
        cur.len() == prev.len() && prev.len() > 0 ==> assistant_delta(prev.len(), cur) is None,
{
    if prev.len() == 0 {
        assert(delta_of(0, cur) =~= cur);
    }
    if cur.len() > prev.len() {
        assert(delta_of(prev.len(), cur) == cur.skip(prev.len() as int));
        assert(cur.skip(prev.len() as int).len() > 0);
    }
}

} // verus!
