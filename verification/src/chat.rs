//! The request translator: validates an inbound chat request and merges its
//! messages into the shape the upstream conversation endpoint expects.
//!
//! Merge policy (fixed here deliberately): all non-system messages are merged
//! into one combined user turn, joined by newlines; when the conversation has
//! history (more than two messages), earlier user turns are wrapped in an
//! explicit `[INST]...[/INST]` instruction marker. At most one system message
//! is allowed and becomes a separate system prompt.

use vstd::prelude::*;
use vstd::string::*;
use crate::errors::GatewayError;
use crate::text::{push_char, str_eq};

verus! {

/// One element of a structured content array, reduced to its text field.
pub struct PartInput {
    /// The part's `text` field, when it was a string.
    pub text: Option<String>,
}

/// One inbound message, reduced to the fields the gateway reads: the role,
/// the content when given as a plain string, and the content when given as a
/// structured array.
pub struct MessageInput {
    pub role: Option<String>,
    pub content_text: Option<String>,
    pub content_parts: Option<Vec<PartInput>>,
}

/// The inbound request body, reduced to the fields the gateway reads.
pub struct ChatRequestInput {
    /// The messages list, absent when the body had none.
    pub messages: Option<Vec<MessageInput>>,
    /// Whether a streamed response was asked for (false when absent).
    pub stream: bool,
}

/// The translated request: an optional system prompt and the single combined
/// user turn.
pub struct TranslatedRequest {
    pub system_prompt: Option<String>,
    pub combined: String,
}

/// The text a message's content resolves to: a plain string wins outright; a
/// structured array counts only when it has exactly one element with a text
/// field; anything else resolves to empty (invalid) content.
pub open spec fn resolved_content(m: MessageInput) -> Seq<char> {
    match m.content_text {
        Some(t) => t@,
        None => match m.content_parts {
            Some(parts) => if parts@.len() == 1 {
                match parts@[0].text {
                    Some(t) => t@,
                    None => Seq::empty(),
                }
            } else {
                Seq::empty()
            },
            None => Seq::empty(),
        },
    }
}

/// A message is well-formed when it names a role and its content resolves to
/// non-empty text.
pub open spec fn message_well_formed(m: MessageInput) -> bool {
    m.role is Some && resolved_content(m).len() > 0
}

pub open spec fn is_system(m: MessageInput) -> bool {
    match m.role {
        Some(r) => r@ == "system"@,
        None => false,
    }
}

pub open spec fn is_user(m: MessageInput) -> bool {
    match m.role {
        Some(r) => r@ == "user"@,
        None => false,
    }
}

pub open spec fn count_system(msgs: Seq<MessageInput>) -> nat
    decreases msgs.len(),
{
    if msgs.len() == 0 {
        0
    } else {
        (if is_system(msgs[0]) {
            1nat
        } else {
            0nat
        }) + count_system(msgs.skip(1))
    }
}

/// The messages of a request, empty when the list is absent.
pub open spec fn msgs_of(req: ChatRequestInput) -> Seq<MessageInput> {
    match req.messages {
        Some(v) => v@,
        None => Seq::empty(),
    }
}

/// A request is valid when it has a messages list, every message is
/// well-formed, and at most one message has the system role.
pub open spec fn request_valid(req: ChatRequestInput) -> bool {
    &&& req.messages is Some
    &&& forall|j: int| 0 <= j < msgs_of(req).len() ==> message_well_formed(#[trigger] msgs_of(req)[j])
    &&& count_system(msgs_of(req)) <= 1
}

/// The system prompt: the content of the first system-role message, if any.
pub open spec fn system_prompt_of(msgs: Seq<MessageInput>) -> Option<Seq<char>>
    decreases msgs.len(),
{
    if msgs.len() == 0 {
        None
    } else if is_system(msgs[0]) {
        Some(resolved_content(msgs[0]))
    } else {
        system_prompt_of(msgs.skip(1))
    }
}

/// The line a non-system message contributes: user turns are wrapped in the
/// instruction marker when the conversation has history.
pub open spec fn merged_line(m: MessageInput, wrap: bool) -> Seq<char> {
    if is_user(m) && wrap {
        "[INST]"@ + resolved_content(m) + "[/INST]"@
    } else {
        resolved_content(m)
    }
}

/// The lines of all non-system messages, in order.
pub open spec fn merged_lines(msgs: Seq<MessageInput>, wrap: bool) -> Seq<Seq<char>>
    decreases msgs.len(),
{
    if msgs.len() == 0 {
        Seq::empty()
    } else if is_system(msgs[0]) {
        merged_lines(msgs.skip(1), wrap)
    } else {
        seq![merged_line(msgs[0], wrap)] + merged_lines(msgs.skip(1), wrap)
    }
}

pub open spec fn join_lines(lines: Seq<Seq<char>>) -> Seq<char>
    decreases lines.len(),
{
    if lines.len() == 0 {
        Seq::empty()
    } else if lines.len() == 1 {
        lines[0]
    } else {
        lines[0] + seq!['\n'] + join_lines(lines.skip(1))
    }
}

/// The combined user turn of a request: all non-system lines joined by
/// newlines, wrapping user turns when there are more than two messages.
pub open spec fn combined_of(msgs: Seq<MessageInput>) -> Seq<char> {
    join_lines(merged_lines(msgs, msgs.len() > 2))
}

pub open spec fn opt_str_view(o: Option<String>) -> Option<Seq<char>> {
    match o {
        Some(s) => Some(s@),
        None => None,
    }
}

proof fn lemma_count_system_push(s: Seq<MessageInput>, m: MessageInput)
    ensures
        count_system(s.push(m)) == count_system(s) + (if is_system(m) {
            1nat
        } else {
            0nat
        }),
    decreases s.len(),
{
    if s.len() == 0 {
        assert(s.push(m)[0] == m);
        assert(s.push(m).skip(1) =~= s);
    } else {
        assert(s.push(m)[0] == s[0]);
        assert(s.push(m).skip(1) =~= s.skip(1).push(m));
        lemma_count_system_push(s.skip(1), m);
    }
}

proof fn lemma_count_system_concat(a: Seq<MessageInput>, b: Seq<MessageInput>)
    ensures
        count_system(a + b) == count_system(a) + count_system(b),
    decreases a.len(),
{
    if a.len() == 0 {
        assert(a + b =~= b);
    } else {
        assert((a + b)[0] == a[0]);
        assert((a + b).skip(1) =~= a.skip(1) + b);
        lemma_count_system_concat(a.skip(1), b);
    }
}

proof fn lemma_system_prompt_push(s: Seq<MessageInput>, m: MessageInput)
    ensures
        system_prompt_of(s.push(m)) == (if system_prompt_of(s) is Some {
            system_prompt_of(s)
        } else if is_system(m) {
            Some(resolved_content(m))
        } else {
            None
        }),
    decreases s.len(),
{
    if s.len() == 0 {
        assert(s.push(m)[0] == m);
        assert(s.push(m).skip(1) =~= s);
    } else {
        assert(s.push(m)[0] == s[0]);
        assert(s.push(m).skip(1) =~= s.skip(1).push(m));
        lemma_system_prompt_push(s.skip(1), m);
    }
}

proof fn lemma_merged_lines_push(s: Seq<MessageInput>, m: MessageInput, wrap: bool)
    ensures
        merged_lines(s.push(m), wrap) == (if is_system(m) {
            merged_lines(s, wrap)
        } else {
            merged_lines(s, wrap).push(merged_line(m, wrap))
        }),
    decreases s.len(),
{
    if s.len() == 0 {
        assert(s.push(m)[0] == m);
        assert(s.push(m).skip(1) =~= s);
        if !is_system(m) {
            assert(seq![merged_line(m, wrap)] + merged_lines(s, wrap) =~= merged_lines(
                s,
                wrap,
            ).push(merged_line(m, wrap)));
        }
    } else {
        assert(s.push(m)[0] == s[0]);
        assert(s.push(m).skip(1) =~= s.skip(1).push(m));
        lemma_merged_lines_push(s.skip(1), m, wrap);
        if !is_system(s[0]) {
            if is_system(m) {
            } else {
                assert(seq![merged_line(s[0], wrap)] + merged_lines(s.skip(1), wrap).push(
                    merged_line(m, wrap),
                ) =~= (seq![merged_line(s[0], wrap)] + merged_lines(s.skip(1), wrap)).push(
                    merged_line(m, wrap),
                ));
            }
        }
    }
}

proof fn lemma_join_lines_push(lines: Seq<Seq<char>>, l: Seq<char>)
    ensures
        join_lines(lines.push(l)) == (if lines.len() == 0 {
            l
        } else {
            join_lines(lines) + seq!['\n'] + l
        }),
    decreases lines.len(),
{
    if lines.len() == 0 {
        assert(lines.push(l)[0] == l);
    } else {
        assert(lines.push(l)[0] == lines[0]);
        assert(lines.push(l).skip(1) =~= lines.skip(1).push(l));
        lemma_join_lines_push(lines.skip(1), l);
        if lines.len() == 1 {
            assert(lines.skip(1).len() == 0);
        } else {
            assert(lines[0] + seq!['\n'] + (join_lines(lines.skip(1)) + seq!['\n'] + l) =~= (
            lines[0] + seq!['\n'] + join_lines(lines.skip(1))) + seq!['\n'] + l);
        }
    }
}

/// Law: a request that is missing its messages list, or that contains any
/// message without a role or whose content resolves to empty, is never
/// valid, so translation always fails with a validation error.
pub proof fn lemma_malformed_request_invalid(req: ChatRequestInput, j: int)
    requires
        req.messages is None || (0 <= j < msgs_of(req).len() && !message_well_formed(
            msgs_of(req)[j],
        )),
    ensures
        !request_valid(req),
{
}

/// Law: a request with two or more system-role messages is never valid, so
/// translation always fails with a validation error.
pub proof fn lemma_multiple_system_invalid(req: ChatRequestInput)
    requires
        count_system(msgs_of(req)) >= 2,
    ensures
        !request_valid(req),
{
}

/// Law: content given as a plain string wins outright, even beside a
/// structured array; an array with any number of elements other than one
/// resolves to empty (invalid) content.
pub proof fn lemma_content_resolution(m: MessageInput)
    ensures
        m.content_text matches Some(t) ==> resolved_content(m) == t@,
        (m.content_text is None && (m.content_parts matches Some(p) && p@.len() != 1))
            ==> resolved_content(m).len() == 0,
{
}

fn resolve_content(m: &MessageInput) -> (r: String)
    ensures
        r@ == resolved_content(*m),
{
    match &m.content_text {
        Some(t) => t.clone(),
        None => match &m.content_parts {
            Some(parts) => {
                if parts.len() == 1 {
                    match &parts[0].text {
                        Some(t) => t.clone(),
                        None => String::new(),
                    }
                } else {
                    String::new()
                }
            },
            None => String::new(),
        },
    }
}

fn invalid_messages_error() -> (e: GatewayError)
    ensures
        e matches GatewayError::Validation(m) && m@ == "Invalid request messages"@,
{
    GatewayError::Validation(String::from_str("Invalid request messages"))
}

/// Validates the request and produces the translated shape: succeeds exactly
/// on valid requests, and fails with a `ValidationError` otherwise, before
/// anything touches the network.
pub fn translate_request(req: &ChatRequestInput) -> (r: Result<TranslatedRequest, GatewayError>)
    ensures
        r is Ok <==> request_valid(*req),
        r matches Ok(t) ==> opt_str_view(t.system_prompt) == system_prompt_of(msgs_of(*req))
            && t.combined@ == combined_of(msgs_of(*req)),
        r matches Err(e) ==> e matches GatewayError::Validation(m) && m@
            == "Invalid request messages"@,
{
    let msgs = match &req.messages {
        Some(v) => v,
        None => {
            return Err(invalid_messages_error());
        },
    };
    let wrap = msgs.len() > 2;
    let ghost all = msgs@;
    let mut combined = String::new();
    let mut any_line = false;
    let mut system_prompt: Option<String> = None;
    let mut i: usize = 0;
    proof {
        assert(all.take(0) =~= Seq::<MessageInput>::empty());
    }
    while i < msgs.len()
        invariant
            i <= all.len(),
            msgs@ == all,
            msgs_of(*req) == all,
            req.messages is Some,
            wrap == (all.len() > 2),
            forall|j: int| 0 <= j < i ==> message_well_formed(#[trigger] all[j]),
            count_system(all.take(i as int)) <= 1,
            (system_prompt is Some) <==> count_system(all.take(i as int)) == 1,
            opt_str_view(system_prompt) == system_prompt_of(all.take(i as int)),
            any_line == (merged_lines(all.take(i as int), wrap).len() > 0),
            combined@ == join_lines(merged_lines(all.take(i as int), wrap)),
        decreases all.len() - i,
    {
        let ghost prefix = all.take(i as int);
        let m = &msgs[i];
        proof {
            assert(all.take(i + 1) =~= prefix.push(all[i as int]));
            lemma_count_system_push(prefix, all[i as int]);
            lemma_system_prompt_push(prefix, all[i as int]);
            lemma_merged_lines_push(prefix, all[i as int], wrap);
        }
        let content = resolve_content(m);
        let role = match &m.role {
            Some(r) => r,
            None => {
                proof {
                    assert(!message_well_formed(all[i as int]));
                }
                return Err(invalid_messages_error());
            },
        };
        if content.as_str().unicode_len() == 0 {
            proof {
                assert(!message_well_formed(all[i as int]));
            }
            return Err(invalid_messages_error());
        }
        if str_eq(role.as_str(), "system") {
            if system_prompt.is_some() {
                proof {
                    assert(count_system(all.take(i + 1)) == 2);
                    assert(all =~= all.take(i + 1) + all.skip(i + 1));
                    lemma_count_system_concat(all.take(i + 1), all.skip(i + 1));
                }
                return Err(invalid_messages_error());
            }
            system_prompt = Some(content);
        } else {
            let line: String = if wrap && str_eq(role.as_str(), "user") {
                let mut l = String::from_str("[INST]");
                l.append(content.as_str());
                l.append("[/INST]");
                proof {
                    assert(l@ =~= merged_line(all[i as int], wrap));
                }
                l
            } else {
                content
            };
            if any_line {
                let mut c = combined;
                push_char(&mut c, '\n');
                c.append(line.as_str());
                combined = c;
                proof {
                    lemma_join_lines_push(merged_lines(prefix, wrap), merged_line(
                        all[i as int],
                        wrap,
                    ));
                    assert(combined@ =~= join_lines(merged_lines(all.take(i + 1), wrap)));
                }
            } else {
                combined = line;
                any_line = true;
                proof {
                    lemma_join_lines_push(merged_lines(prefix, wrap), merged_line(
                        all[i as int],
                        wrap,
                    ));
                }
            }
        }
        i += 1;
    }
    proof {
        assert(all.take(all.len() as int) =~= all);
    }
    Ok(TranslatedRequest { system_prompt, combined })
}

} // verus!
