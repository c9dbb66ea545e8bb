//! The upstream conversation request: the per-call message objects built
//! from a translated request, and the exact JSON document the conversation
//! endpoint is sent.

use vstd::prelude::*;
use vstd::string::*;
use crate::chat::TranslatedRequest;
use crate::text::{append_json_escaped, json_escaped, push_char};

verus! {

/// One message in the upstream wire shape: an identifier, an author role and
/// a single text part.
pub struct UpstreamMessage {
    pub id: String,
    pub role: String,
    pub text: String,
}

/// Builds the upstream message sequence for a translated request: the system
/// prompt, when present, becomes a leading system message, and the combined
/// turn always becomes the final user message. The identifiers are supplied
/// by the caller, fresh per call.
pub fn build_messages(t: TranslatedRequest, system_id: String, user_id: String) -> (r: Vec<
    UpstreamMessage,
>)
    ensures
        match t.system_prompt {
            Some(sp) => {
                &&& r@.len() == 2
                &&& r@[0].id == system_id
                &&& r@[0].role@ == "system"@
                &&& r@[0].text == sp
                &&& r@[1].id == user_id
                &&& r@[1].role@ == "user"@
                &&& r@[1].text == t.combined
            },
            None => {
                &&& r@.len() == 1
                &&& r@[0].id == user_id
                &&& r@[0].role@ == "user"@
                &&& r@[0].text == t.combined
            },
        },
{
    let mut messages: Vec<UpstreamMessage> = Vec::new();
    match t.system_prompt {
        Some(sp) => {
            messages.push(
                UpstreamMessage { id: system_id, role: String::from_str("system"), text: sp },
            );
        },
        None => {},
    }
    messages.push(UpstreamMessage { id: user_id, role: String::from_str("user"), text: t.combined });
    messages
}

/// The JSON object of one upstream message.
pub open spec fn message_json_of(m: UpstreamMessage) -> Seq<char> {
    "{\"id\":\""@ + json_escaped(m.id@) + "\",\"author\":{\"role\":\""@ + json_escaped(m.role@)
        + "\"},\"content\":{\"content_type\":\"text\",\"parts\":[\""@ + json_escaped(m.text@)
        + "\"]},\"metadata\":{}}"@
}

/// The comma-separated message objects, in order.
pub open spec fn messages_json(msgs: Seq<UpstreamMessage>) -> Seq<char>
    decreases msgs.len(),
{
    if msgs.len() == 0 {
        Seq::empty()
    } else if msgs.len() == 1 {
        message_json_of(msgs[0])
    } else {
        message_json_of(msgs[0]) + seq![','] + messages_json(msgs.skip(1))
    }
}

proof fn lemma_messages_json_push(msgs: Seq<UpstreamMessage>, m: UpstreamMessage)
    ensures
        messages_json(msgs.push(m)) == (if msgs.len() == 0 {
            message_json_of(m)
        } else {
            messages_json(msgs) + seq![','] + message_json_of(m)
        }),
    decreases msgs.len(),
{
    if msgs.len() == 0 {
        assert(msgs.push(m)[0] == m);
    } else {
        assert(msgs.push(m)[0] == msgs[0]);
        assert(msgs.push(m).skip(1) =~= msgs.skip(1).push(m));
        lemma_messages_json_push(msgs.skip(1), m);
        if msgs.len() == 1 {
            assert(msgs.skip(1).len() == 0);
        } else {
            assert(message_json_of(msgs[0]) + seq![','] + (messages_json(msgs.skip(1))
                + seq![','] + message_json_of(m)) =~= (message_json_of(msgs[0]) + seq![',']
                + messages_json(msgs.skip(1))) + seq![','] + message_json_of(m));
        }
    }
}

/// The full conversation request document around the message objects.
pub open spec fn conversation_json_of(
    msgs: Seq<UpstreamMessage>,
    parent_id: Seq<char>,
    websocket_id: Seq<char>,
) -> Seq<char> {
    "{\"action\":\"next\",\"messages\":["@ + messages_json(msgs) + "],\"parent_message_id\":\""@
        + json_escaped(parent_id)
        + "\",\"model\":\"text-davinci-002-render-sha\",\"timezone_offset_min\":0,\"suggestions\":[],\"history_and_training_disabled\":true,\"conversation_mode\":{\"kind\":\"primary_assistant\"},\"force_paragen\":false,\"force_paragen_model_slug\":\"\",\"force_nulligen\":false,\"force_rate_limit\":false,\"websocket_request_id\":\""@
        + json_escaped(websocket_id) + "\"}"@
}

fn append_message_json(out: &mut String, m: &UpstreamMessage)
    ensures
        final(out)@ == old(out)@ + message_json_of(*m),
{
    out.append("{\"id\":\"");
    append_json_escaped(out, m.id.as_str());
    out.append("\",\"author\":{\"role\":\"");
    append_json_escaped(out, m.role.as_str());
    out.append("\"},\"content\":{\"content_type\":\"text\",\"parts\":[\"");
    append_json_escaped(out, m.text.as_str());
    out.append("\"]},\"metadata\":{}}");
    proof {
        assert(final(out)@ =~= old(out)@ + message_json_of(*m));
    }
}

/// Renders the conversation request body. The parent message id and the
/// websocket request id are supplied by the caller, fresh per call.
pub fn render_conversation_body(
    messages: &Vec<UpstreamMessage>,
    parent_id: &str,
    websocket_id: &str,
) -> (r: String)
    ensures
        r@ == conversation_json_of(messages@, parent_id@, websocket_id@),
{
    let mut out = String::from_str("{\"action\":\"next\",\"messages\":[");
    let mut i: usize = 0;
    proof {
        assert(messages@.take(0) =~= Seq::<UpstreamMessage>::empty());
    }
    while i < messages.len()
        invariant
            i <= messages@.len(),
            out@ == "{\"action\":\"next\",\"messages\":["@ + messages_json(
                messages@.take(i as int),
            ),
        decreases messages@.len() - i,
    {
        proof {
            assert(messages@.take(i + 1) =~= messages@.take(i as int).push(messages@[i as int]));
            lemma_messages_json_push(messages@.take(i as int), messages@[i as int]);
        }
        if i > 0 {
            push_char(&mut out, ',');
        }
        append_message_json(&mut out, &messages[i]);
        proof {
            assert(out@ =~= "{\"action\":\"next\",\"messages\":["@ + messages_json(
                messages@.take(i + 1),
            ));
        }
        i += 1;
    }
    proof {
        assert(messages@.take(messages@.len() as int) =~= messages@);
    }
    out.append("],\"parent_message_id\":\"");
    append_json_escaped(&mut out, parent_id);
    out.append(
        "\",\"model\":\"text-davinci-002-render-sha\",\"timezone_offset_min\":0,\"suggestions\":[],\"history_and_training_disabled\":true,\"conversation_mode\":{\"kind\":\"primary_assistant\"},\"force_paragen\":false,\"force_paragen_model_slug\":\"\",\"force_nulligen\":false,\"force_rate_limit\":false,\"websocket_request_id\":\"",
    );
    append_json_escaped(&mut out, websocket_id);
    out.append("\"}");
    proof {
        assert(out@ =~= conversation_json_of(messages@, parent_id@, websocket_id@));
    }
    out
}

} // verus!
