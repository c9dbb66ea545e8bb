//! The response assembler: the commit-point decision on the first relay
//! event, the streamed chunk frames, the buffered completion document, and
//! the identifier such a response carries.
//!
//! Key order and whitespace of the rendered JSON are fixed by the spec
//! functions here; every document is rendered by verified concatenation, with
//! message text passed through the JSON escaper.

use rand::Rng;
use vstd::prelude::*;
use vstd::string::*;
use crate::errors::GatewayError;
use crate::relay::RelayEvent;
use crate::text::{append_json_escaped, dec_int, i64_to_string, json_escaped, push_char};

verus! {

/// Decides the commit point: the single event read from the relay before any
/// response is sent. A `First` carrying an error fails the whole call; any
/// other outcome (including a relay that went away without an event) commits
/// the call to a successful response.
pub fn commit_decision(first: Option<RelayEvent>) -> (r: Result<(), GatewayError>)
    ensures
        match first {
            Some(RelayEvent::First(Some(m))) => r matches Err(GatewayError::UpstreamTransport(e))
                && e == m,
            _ => r is Ok,
        },
{
    match first {
        Some(RelayEvent::First(Some(m))) => Err(GatewayError::UpstreamTransport(m)),
        _ => Ok(()),
    }
}

/// The delta object of a non-terminal chunk: an empty delta also announces
/// the assistant role; a non-empty one carries only the new content.
pub open spec fn delta_json_of(content: Seq<char>) -> Seq<char> {
    if content.len() == 0 {
        "{\"role\":\"assistant\",\"content\":\"\"}"@
    } else {
        "{\"content\":\""@ + json_escaped(content) + "\"}"@
    }
}

/// The chunk document of one streamed frame. The terminal chunk has an empty
/// delta, `finish_reason:"stop"` and zeroed usage counters; every earlier
/// chunk has a null finish reason.
pub open spec fn chunk_json_of(id: Seq<char>, created: int, content: Seq<char>, done: bool) -> Seq<
    char,
> {
    if done {
        "{\"id\":\""@ + json_escaped(id) + "\",\"object\":\"chat.completion.chunk\",\"created\":"@
            + dec_int(created)
            + ",\"model\":\"gpt-3.5-turbo\",\"choices\":[{\"index\":0,\"delta\":{},\"finish_reason\":\"stop\"}],\"usage\":{\"prompt_tokens\":0,\"completion_tokens\":0,\"total_tokens\":0}}"@
    } else {
        "{\"id\":\""@ + json_escaped(id) + "\",\"object\":\"chat.completion.chunk\",\"created\":"@
            + dec_int(created) + ",\"model\":\"gpt-3.5-turbo\",\"choices\":[{\"index\":0,\"delta\":"@
            + delta_json_of(content) + ",\"finish_reason\":null}]}"@
    }
}

/// One output unit of the event stream: the chunk under a `data:` line; the
/// terminal unit is followed by the `[DONE]` sentinel line in the same unit.
pub open spec fn frame_of(id: Seq<char>, created: int, content: Seq<char>, done: bool) -> Seq<
    char,
> {
    if done {
        "data: "@ + chunk_json_of(id, created, content, done) + "\n\ndata: [DONE]\n\n"@
    } else {
        "data: "@ + chunk_json_of(id, created, content, done) + "\n\n"@
    }
}

/// Renders one streamed frame.
pub fn create_frame(id: &str, created: i64, content: &str, done: bool) -> (r: String)
    ensures
        r@ == frame_of(id@, created as int, content@, done),
{
    let mut out = String::from_str("data: ");
    out.append("{\"id\":\"");
    append_json_escaped(&mut out, id);
    out.append("\",\"object\":\"chat.completion.chunk\",\"created\":");
    let created_digits = i64_to_string(created);
    out.append(created_digits.as_str());
    if done {
        out.append(
            ",\"model\":\"gpt-3.5-turbo\",\"choices\":[{\"index\":0,\"delta\":{},\"finish_reason\":\"stop\"}],\"usage\":{\"prompt_tokens\":0,\"completion_tokens\":0,\"total_tokens\":0}}",
        );
        out.append("\n\ndata: [DONE]\n\n");
    } else {
        out.append(",\"model\":\"gpt-3.5-turbo\",\"choices\":[{\"index\":0,\"delta\":");
        if content.unicode_len() == 0 {
            out.append("{\"role\":\"assistant\",\"content\":\"\"}");
        } else {
            out.append("{\"content\":\"");
            append_json_escaped(&mut out, content);
            out.append("\"}");
        }
        out.append(",\"finish_reason\":null}]}");
        out.append("\n\n");
    }
    proof {
        assert(out@ =~= frame_of(id@, created as int, content@, done));
    }
    out
}

/// The frame one relay event contributes to a streamed response: text
/// becomes a content frame, `Done` the terminal frame, and the already
/// consumed `First` nothing.
pub fn frame_for_event(id: &str, created: i64, event: &RelayEvent) -> (r: Option<String>)
    ensures
        match event {
            RelayEvent::Text(t) => r matches Some(f) && f@ == frame_of(
                id@,
                created as int,
                t@,
                false,
            ),
            RelayEvent::Done => r matches Some(f) && f@ == frame_of(
                id@,
                created as int,
                Seq::empty(),
                true,
            ),
            RelayEvent::First(_) => r is None,
        },
{
    match event {
        RelayEvent::Text(t) => Some(create_frame(id, created, t.as_str(), false)),
        RelayEvent::Done => Some(create_frame(id, created, "", true)),
        RelayEvent::First(_) => None,
    }
}

/// The buffered completion document.
pub open spec fn completion_json_of(id: Seq<char>, created: int, content: Seq<char>) -> Seq<char> {
    "{\"id\":\""@ + json_escaped(id) + "\",\"object\":\"chat.completion\",\"created\":"@ + dec_int(
        created,
    )
        + ",\"model\":\"gpt-3.5-turbo\",\"choices\":[{\"index\":0,\"message\":{\"role\":\"assistant\",\"content\":\""@
        + json_escaped(content)
        + "\"},\"finish_reason\":\"stop\"}],\"usage\":{\"prompt_tokens\":0,\"completion_tokens\":0,\"total_tokens\":0}}"@
}

/// Renders the buffered completion document.
pub fn create_completion_body(id: &str, created: i64, content: &str) -> (r: String)
    ensures
        r@ == completion_json_of(id@, created as int, content@),
{
    let mut out = String::from_str("{\"id\":\"");
    append_json_escaped(&mut out, id);
    out.append("\",\"object\":\"chat.completion\",\"created\":");
    let created_digits = i64_to_string(created);
    out.append(created_digits.as_str());
    out.append(
        ",\"model\":\"gpt-3.5-turbo\",\"choices\":[{\"index\":0,\"message\":{\"role\":\"assistant\",\"content\":\"",
    );
    append_json_escaped(&mut out, content);
    out.append(
        "\"},\"finish_reason\":\"stop\"}],\"usage\":{\"prompt_tokens\":0,\"completion_tokens\":0,\"total_tokens\":0}}",
    );
    proof {
        assert(out@ =~= completion_json_of(id@, created as int, content@));
    }
    out
}

/// The concatenation, in arrival order, of all text deltas preceding the
/// first `Done`; `First` events contribute nothing.
pub open spec fn concat_texts(events: Seq<RelayEvent>) -> Seq<char>
    decreases events.len(),
{
    if events.len() == 0 {
        Seq::empty()
    } else {
        match events[0] {
            RelayEvent::Text(t) => t@ + concat_texts(events.skip(1)),
            RelayEvent::Done => Seq::empty(),
            RelayEvent::First(_) => concat_texts(events.skip(1)),
        }
    }
}

/// Buffered-mode assembly: the full content is the concatenation, in arrival
/// order, of all text deltas that precede `Done`.
pub fn assemble_content(events: &Vec<RelayEvent>) -> (r: String)
    ensures
        r@ == concat_texts(events@),
{
    let mut out = String::new();
    let mut i: usize = 0;
    let len = events.len();
    proof {
        assert(events@.skip(0) =~= events@);
    }
    while i < len
        invariant
            i <= len,
            len == events@.len(),
            concat_texts(events@) =~= out@ + concat_texts(events@.skip(i as int)),
        decreases len - i,
    {
        proof {
            assert(events@.skip(i as int)[0] == events@[i as int]);
            assert(events@.skip(i as int).skip(1) =~= events@.skip(i + 1));
        }
        match &events[i] {
            RelayEvent::Text(t) => {
                out.append(t.as_str());
            },
            RelayEvent::Done => {
                return out;
            },
            RelayEvent::First(_) => {},
        }
        i += 1;
    }
    proof {
        assert(events@.skip(len as int) =~= Seq::<RelayEvent>::empty());
    }
    out
}

fn id_suffix_char(index: usize) -> (c: char)
    requires
        index < 62,
    ensures
        "abcdefghijklmnopqrstuvwxyzABCDEFGHIJKLMNOPQRSTUVWXYZ0123456789"@.contains(c),
{
    let charset = "abcdefghijklmnopqrstuvwxyzABCDEFGHIJKLMNOPQRSTUVWXYZ0123456789";
    proof {
        reveal_strlit("abcdefghijklmnopqrstuvwxyzABCDEFGHIJKLMNOPQRSTUVWXYZ0123456789");
    }
    let c = charset.get_char(index);
    proof {
        assert(charset@.contains(c));
    }
    c
}

/// Relies on rand::Rng::gen_range: returns a uniformly sampled element of
/// the given non-empty range.
#[verifier::external_body]
fn rand_below(n: usize) -> (r: usize)
    requires
        n >= 1,
    ensures
        r < n,
{
    rand::thread_rng().gen_range(0..n)
}

/// A fresh completion identifier: the fixed `chatcmpl-` prefix followed by
/// sixteen random alphanumeric characters.
pub fn generate_completion_id() -> (r: String)
    ensures
        r@.len() == 25,
        r@.take(9) == "chatcmpl-"@,
        forall|i: int|
            9 <= i < 25 ==> "abcdefghijklmnopqrstuvwxyzABCDEFGHIJKLMNOPQRSTUVWXYZ0123456789"@
                .contains(#[trigger] r@[i]),
{
    proof {
        reveal_strlit("chatcmpl-");
    }
    let mut out = String::from_str("chatcmpl-");
    let mut i: usize = 0;
    while i < 16
        invariant
            i <= 16,
            out@.len() == 9 + i,
            out@.take(9) == "chatcmpl-"@,
            forall|j: int|
                9 <= j < out@.len()
                    ==> "abcdefghijklmnopqrstuvwxyzABCDEFGHIJKLMNOPQRSTUVWXYZ0123456789"@.contains(
                    #[trigger] out@[j],
                ),
        decreases 16 - i,
    {
        let idx = rand_below(62);
        let c = id_suffix_char(idx);
        push_char(&mut out, c);
        proof {
            assert(out@.take(9) =~= "chatcmpl-"@);
        }
        i += 1;
    }
    out
}

} // verus!
