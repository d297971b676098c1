//! The text convention by which the model asks for an action:
//! `ACTION: <name>` on a line, optionally followed by `PARAMETERS: <json>`
//! ending at a blank line. A short plain reply stands for an answer.

use vstd::prelude::*;
use crate::json::{json_valid, parses_as_json};
use crate::records::{final_answer_key, AgentAction, Params, ParamsView};
use crate::text::{chars_of, contains, contains_chars, find, find_chars, find_from, lemma_find_contains, trim, trim_of};

verus! {

/// A reply of at least this many characters without an action marker is a
/// thought, not an answer.
pub const PLAIN_ANSWER_LIMIT: usize = 500;

pub open spec fn action_marker() -> Seq<char> {
    seq!['A', 'C', 'T', 'I', 'O', 'N', ':']
}

pub open spec fn params_marker() -> Seq<char> {
    seq!['P', 'A', 'R', 'A', 'M', 'E', 'T', 'E', 'R', 'S', ':']
}

pub open spec fn answer_type() -> Seq<char> {
    seq!['a', 'n', 's', 'w', 'e', 'r']
}

pub open spec fn empty_object() -> Seq<char> {
    seq!['{', '}']
}

pub open spec fn newline() -> Seq<char> {
    seq!['\n']
}

pub open spec fn blank_line() -> Seq<char> {
    seq!['\n', '\n']
}

/// `s` from `from` up to (not including) the first occurrence of `pat` at or
/// after `from`, or up to its end.
pub open spec fn until(s: Seq<char>, pat: Seq<char>, from: int) -> Seq<char> {
    match find_from(s, pat, from) {
        Some(j) => s.subrange(from, j),
        None => s.subrange(from, s.len() as int),
    }
}

/// The name of the action that a reply holding the action marker asks for:
/// the text after the first marker up to the next line break, trimmed.
pub open spec fn action_name(r: Seq<char>) -> Seq<char> {
    let start = find(r, action_marker())->0 + action_marker().len();
    trim_of(until(r, newline(), start))
}

/// The parameters of a reply holding the action marker: the text after the
/// first parameters marker up to the next blank line, trimmed, where serde_json
/// accepts it; the empty object otherwise.
pub open spec fn action_params(r: Seq<char>) -> Seq<char> {
    match find(r, params_marker()) {
        None => empty_object(),
        Some(p) => {
            let block = trim_of(until(r, blank_line(), p + params_marker().len()));
            if json_valid(block) {
                block
            } else {
                empty_object()
            }
        },
    }
}

/// The action that a reply of the model stands for, as its type and its
/// parameters, if any.
pub open spec fn parse_reply(r: Seq<char>) -> Option<(Seq<char>, ParamsView)> {
    if !contains(r, action_marker()) {
        if r.len() < PLAIN_ANSWER_LIMIT && !contains(r, params_marker()) {
            Some((answer_type(), ParamsView::Answer(trim_of(r))))
        } else {
            None
        }
    } else {
        Some((action_name(r), ParamsView::Json(action_params(r))))
    }
}

/// `s` from `from` up to the first `pat` at or after it, computed.
fn until_str<'a>(s: &'a str, chars: &Vec<char>, pat: &Vec<char>, from: usize) -> (r: &'a str)
    requires
        chars@ == s@,
        from <= s@.len(),
    ensures
        r@ == until(s@, pat@, from as int),
{
    let end = match find_chars(chars, pat, from) {
        Some(j) => j,
        None => chars.len(),
    };
    s.substring_char(from, end)
}

fn empty_object_text() -> (r: String)
    ensures
        r@ == empty_object(),
{
    proof {
        reveal_strlit("{}");
    }
    let r = String::from_str("{}");
    assert(r@ =~= empty_object());
    r
}

impl AgentAction {
    /// Reads the action that a reply of the model asks for.
    ///
    /// A reply without `ACTION:` is an `answer` action carrying the trimmed
    /// reply as `final_answer` when it is shorter than 500 characters and has
    /// no `PARAMETERS:`, and no action otherwise. A reply with `ACTION:` always
    /// gives an action; parameters that are not valid JSON become `{}`.
    pub fn parse_from_llm_response(response: &str) -> (r: Option<AgentAction>)
        ensures
            match (r, parse_reply(response@)) {
                (None, None) => true,
                (Some(a), Some((t, p))) => a.action_type@ == t && a.parameters@ == p,
                _ => false,
            },
    {
        proof {
            reveal_strlit("ACTION:");
            reveal_strlit("PARAMETERS:");
            reveal_strlit("answer");
            reveal_strlit("\n");
            reveal_strlit("\n\n");
        }
        let chars = chars_of(response);
        let n: usize = chars.len();
        let action_pat = chars_of("ACTION:");
        let params_pat = chars_of("PARAMETERS:");
        assert(action_pat@ =~= action_marker());
        assert(params_pat@ =~= params_marker());
        if !contains_chars(&chars, &action_pat) {
            if chars.len() < PLAIN_ANSWER_LIMIT && !contains_chars(&chars, &params_pat) {
                let answer = trim(response);
                let t = String::from_str("answer");
                assert(t@ =~= answer_type());
                return Some(AgentAction::new(t, Params::Answer(answer)));
            }
            return None;
        }
        proof {
            lemma_find_contains(response@, action_marker());
        }
        let first = find_chars(&chars, &action_pat, 0).unwrap();
        let start = first + action_pat.len();
        let newline_pat = chars_of("\n");
        assert(newline_pat@ =~= newline());
        let name = trim(until_str(response, &chars, &newline_pat, start));

        let params = match find_chars(&chars, &params_pat, 0) {
            None => empty_object_text(),
            Some(p) => {
                let blank_pat = chars_of("\n\n");
                assert(blank_pat@ =~= blank_line());
                let block = trim(until_str(response, &chars, &blank_pat, p + params_pat.len()));
                if parses_as_json(block.as_str()) {
                    block
                } else {
                    empty_object_text()
                }
            },
        };
        Some(AgentAction::new(name, Params::Json(params)))
    }
}

/// A plain reply, short and without markers, is read as an answer whose
/// `final_answer` is the trimmed reply.
pub proof fn lemma_plain_reply_is_answer(r: Seq<char>)
    requires
        !contains(r, action_marker()),
        r.len() < PLAIN_ANSWER_LIMIT,
        !contains(r, params_marker()),
    ensures
        parse_reply(r) matches Some((t, p)) && t == answer_type()
            && p.field(final_answer_key()) == Some(Some(trim_of(r))),
{
}

/// A reply with an action marker always gives an action, and its parameters
/// are the empty object whenever the parameters block is not valid JSON.
pub proof fn lemma_invalid_params_are_empty(r: Seq<char>, p: int)
    requires
        contains(r, action_marker()),
        find(r, params_marker()) == Some(p),
        !json_valid(trim_of(until(r, blank_line(), p + params_marker().len()))),
    ensures
        parse_reply(r) matches Some((_, ps)) && ps == ParamsView::Json(empty_object()),
{
}

} // verus!
