//! The memory command: storing a text, and recalling memories for a query by
//! meaning first and by recency as the fallback. The store and the embedding
//! provider are driven from outside; this module decides what comes next and
//! what the user is told.

use vstd::prelude::*;
use crate::text::same_text;

verus! {

/// How many memories a recall lists at most.
pub const RECALL_LIMIT: usize = 5;

/// What a memory command asks for.
#[derive(PartialEq, Eq, Structural, Clone, Copy, Debug)]
pub enum MemoryAction {
    Store,
    Recall,
}

/// The stages of a recall.
#[derive(PartialEq, Eq, Structural, Clone, Copy, Debug)]
pub enum RecallStage {
    /// The query is being embedded.
    Embedding,
    /// Memories close to the query's embedding are being searched.
    Searching,
    /// The most recent memories are being listed.
    Listing,
    /// The reply is known.
    Done,
}

/// What the driver of a recall must do next.
pub enum RecallRequest {
    /// Embed the query, then call `on_embedding`.
    Embed,
    /// Search the memories of the chat for the best `RECALL_LIMIT` matches
    /// of the embedding, then call `on_search` with their lines.
    Search,
    /// List the `RECALL_LIMIT` most recent memories of the chat, then call
    /// `on_recent` with their lines.
    Recent,
    /// The reply to the user, or the error to report.
    Done(Result<String, String>),
}

pub struct RecallView {
    pub query: Seq<char>,
    pub stage: RecallStage,
    pub outcome: Option<Result<Seq<char>, Seq<char>>>,
}

/// `lines` joined with line breaks.
pub open spec fn join_lines(lines: Seq<Seq<char>>) -> Seq<char>
    decreases lines.len(),
{
    if lines.len() == 0 {
        Seq::empty()
    } else if lines.len() == 1 {
        lines[0]
    } else {
        join_lines(lines.drop_last()) + "\n"@ + lines.last()
    }
}

pub open spec fn lines_view(v: Seq<String>) -> Seq<Seq<char>> {
    v.map_values(|s: String| s@)
}

pub open spec fn result_view(r: Result<String, String>) -> Result<Seq<char>, Seq<char>> {
    match r {
        Ok(t) => Ok(t@),
        Err(e) => Err(e@),
    }
}

pub open spec fn lines_result_view(r: Result<Vec<String>, String>) -> Result<
    Seq<Seq<char>>,
    Seq<char>,
> {
    match r {
        Ok(v) => Ok(lines_view(v@)),
        Err(e) => Err(e@),
    }
}

/// The reply that lists memory lines for a query.
pub open spec fn remembered(q: Seq<char>, lines: Seq<Seq<char>>) -> Seq<char> {
    "Here's what I remember about '"@ + q + "':\n\n"@ + join_lines(lines)
}

pub open spec fn nothing_remembered() -> Seq<char> {
    "I don't have any relevant memories for that query."@
}

/// The reply built from a listing of recent memories.
pub open spec fn recent_reply_spec(q: Seq<char>, recent: Result<Seq<Seq<char>>, Seq<char>>) -> Result<
    Seq<char>,
    Seq<char>,
> {
    match recent {
        Err(e) => Err("Failed to get recent memories: "@ + e),
        Ok(lines) => if lines.len() == 0 {
            Ok(nothing_remembered())
        } else {
            Ok(remembered(q, lines))
        },
    }
}

/// A recall that has just begun.
pub open spec fn recall_start(q: Seq<char>) -> RecallView {
    RecallView { query: q, stage: RecallStage::Embedding, outcome: None }
}

/// A recall once the query's embedding has come back, or failed.
pub open spec fn after_embedding(v: RecallView, embedded: bool) -> RecallView {
    RecallView {
        stage: if embedded {
            RecallStage::Searching
        } else {
            RecallStage::Listing
        },
        ..v
    }
}

/// A recall once the similarity search has answered: a non-empty result is
/// the reply; an empty one, or a failure, falls back to recency.
pub open spec fn after_search(v: RecallView, found: Result<Seq<Seq<char>>, Seq<char>>) -> RecallView {
    match found {
        Ok(lines) => if lines.len() > 0 {
            RecallView {
                stage: RecallStage::Done,
                outcome: Some(Ok(remembered(v.query, lines))),
                ..v
            }
        } else {
            RecallView { stage: RecallStage::Listing, ..v }
        },
        Err(_) => RecallView { stage: RecallStage::Listing, ..v },
    }
}

/// A recall once the recency listing has answered.
pub open spec fn after_recent(v: RecallView, recent: Result<Seq<Seq<char>>, Seq<char>>) -> RecallView {
    RecallView {
        stage: RecallStage::Done,
        outcome: Some(recent_reply_spec(v.query, recent)),
        ..v
    }
}

fn join_lines_exec(lines: &Vec<String>) -> (r: String)
    ensures
        r@ == join_lines(lines_view(lines@)),
{
    let mut r = String::new();
    let mut i: usize = 0;
    while i < lines.len()
        invariant
            i <= lines@.len(),
            r@ == join_lines(lines_view(lines@.subrange(0, i as int))),
        decreases lines@.len() - i,
    {
        if i > 0 {
            r.append("\n");
        }
        r.append(lines[i].as_str());
        i = i + 1;
        proof {
            let cur = lines_view(lines@.subrange(0, i as int));
            assert(cur.drop_last() =~= lines_view(lines@.subrange(0, i - 1)));
            assert(cur.last() == lines@[i - 1]@);
            if i == 1 {
                assert(cur.len() == 1);
                assert(cur[0] == lines@[0]@);
                assert(r@ =~= join_lines(cur));
            } else {
                assert(r@ =~= join_lines(cur));
            }
        }
    }
    assert(lines@.subrange(0, lines@.len() as int) =~= lines@);
    r
}

fn remembered_exec(query: &str, lines: &Vec<String>) -> (r: String)
    ensures
        r@ == remembered(query@, lines_view(lines@)),
{
    let mut r = String::from_str("Here's what I remember about '");
    r.append(query);
    r.append("':\n\n");
    r.append(join_lines_exec(lines).as_str());
    r
}

/// The reply built from a listing of recent memories: the lines, a note that
/// nothing is remembered when there are none, or the listing's failure.
pub fn recent_reply(query: &str, recent: Result<Vec<String>, String>) -> (r: Result<String, String>)
    ensures
        result_view(r) == recent_reply_spec(query@, lines_result_view(recent)),
{
    match recent {
        Err(e) => {
            let mut m = String::from_str("Failed to get recent memories: ");
            m.append(e.as_str());
            Err(m)
        },
        Ok(lines) => {
            if lines.len() == 0 {
                Ok(String::from_str("I don't have any relevant memories for that query."))
            } else {
                Ok(remembered_exec(query, &lines))
            }
        },
    }
}

/// One recall of memories for a query.
pub struct Recall {
    query: String,
    stage: RecallStage,
    outcome: Option<Result<String, String>>,
}

impl View for Recall {
    type V = RecallView;

    closed spec fn view(&self) -> RecallView {
        RecallView {
            query: self.query@,
            stage: self.stage,
            outcome: match self.outcome {
                Some(r) => Some(result_view(r)),
                None => None,
            },
        }
    }
}

impl Recall {
    /// A recall for `query`, about to embed it.
    pub fn new(query: String) -> (r: Recall)
        ensures
            r@ == recall_start(query@),
    {
        Recall { query, stage: RecallStage::Embedding, outcome: None }
    }

    /// What the driver must do next.
    pub fn request(&self) -> (r: RecallRequest)
        ensures
            self@.stage == RecallStage::Embedding ==> r is Embed,
            self@.stage == RecallStage::Searching ==> r is Search,
            self@.stage == RecallStage::Listing ==> r is Recent,
            self@.stage == RecallStage::Done && self@.outcome is Some ==> (r matches RecallRequest::Done(
                o,
            ) && Some(result_view(o)) == self@.outcome),
    {
        match self.stage {
            RecallStage::Embedding => RecallRequest::Embed,
            RecallStage::Searching => RecallRequest::Search,
            RecallStage::Listing => RecallRequest::Recent,
            RecallStage::Done => match &self.outcome {
                Some(Ok(t)) => RecallRequest::Done(Ok(t.clone())),
                Some(Err(e)) => RecallRequest::Done(Err(e.clone())),
                None => RecallRequest::Done(Ok(String::new())),
            },
        }
    }

    /// Takes in whether the query could be embedded.
    pub fn on_embedding(&mut self, embedded: bool)
        requires
            old(self)@.stage == RecallStage::Embedding,
        ensures
            final(self)@ == after_embedding(old(self)@, embedded),
    {
        self.stage = if embedded {
            RecallStage::Searching
        } else {
            RecallStage::Listing
        };
    }

    /// Takes in the lines of the similarity search, or its failure.
    pub fn on_search(&mut self, found: Result<Vec<String>, String>)
        requires
            old(self)@.stage == RecallStage::Searching,
        ensures
            final(self)@ == after_search(old(self)@, lines_result_view(found)),
    {
        match found {
            Ok(lines) => {
                if lines.len() > 0 {
                    let reply = remembered_exec(self.query.as_str(), &lines);
                    self.outcome = Some(Ok(reply));
                    self.stage = RecallStage::Done;
                } else {
                    self.stage = RecallStage::Listing;
                }
            },
            Err(_) => {
                self.stage = RecallStage::Listing;
            },
        }
    }

    /// Takes in the lines of the recency listing, or its failure.
    pub fn on_recent(&mut self, recent: Result<Vec<String>, String>)
        requires
            old(self)@.stage == RecallStage::Listing,
        ensures
            final(self)@ == after_recent(old(self)@, lines_result_view(recent)),
    {
        let reply = recent_reply(self.query.as_str(), recent);
        self.outcome = Some(reply);
        self.stage = RecallStage::Done;
    }
}

/// When the query cannot be embedded, a recall lists the recent memories and
/// replies exactly as the recency listing alone would.
pub proof fn lemma_recall_without_embedding(q: Seq<char>, recent: Result<Seq<Seq<char>>, Seq<char>>)
    ensures
        ({
            let v = after_embedding(recall_start(q), false);
            &&& v.stage == RecallStage::Listing
            &&& after_recent(v, recent).outcome == Some(recent_reply_spec(q, recent))
        }),
{
}

/// What a memory command's action word asks for; any word but `store` and
/// `recall` is refused.
pub fn memory_action(word: &str) -> (r: Result<MemoryAction, String>)
    ensures
        word@ == "store"@ ==> r == Ok::<MemoryAction, String>(MemoryAction::Store),
        word@ == "recall"@ ==> r == Ok::<MemoryAction, String>(MemoryAction::Recall),
        word@ != "store"@ && word@ != "recall"@ ==> (r matches Err(m) && m@ == "Unknown memory action: "@
            + word@),
{
    proof {
        reveal_strlit("store");
        reveal_strlit("recall");
        assert("store"@[0] != "recall"@[0]);
    }
    if same_text(word, "store") {
        Ok(MemoryAction::Store)
    } else if same_text(word, "recall") {
        Ok(MemoryAction::Recall)
    } else {
        let mut m = String::from_str("Unknown memory action: ");
        m.append(word);
        Err(m)
    }
}

/// The embedding a new memory is stored with: the one computed for its text,
/// or none when embedding failed, so that the memory is stored all the same.
pub fn stored_embedding<T>(embedded: Result<T, String>) -> (r: Option<T>)
    ensures
        match embedded {
            Ok(e) => r == Some(e),
            Err(_) => r is None,
        },
{
    match embedded {
        Ok(e) => Some(e),
        Err(_) => None,
    }
}

/// The reply to a store request, given what the store answered.
pub fn store_reply(stored: Result<i64, String>) -> (r: Result<String, String>)
    ensures
        match stored {
            Ok(_) => r matches Ok(t) && t@ == "I've stored this information in my memory."@,
            Err(e) => r matches Err(m) && m@ == "Failed to store memory: "@ + e@,
        },
{
    match stored {
        Ok(_) => Ok(String::from_str("I've stored this information in my memory.")),
        Err(e) => {
            let mut m = String::from_str("Failed to store memory: ");
            m.append(e.as_str());
            Err(m)
        },
    }
}

/// The text shown for a memory command's result: the reply, or the error
/// behind an apology.
pub fn command_response(result: Result<String, String>) -> (r: String)
    ensures
        r@ == match result {
            Ok(t) => t@,
            Err(e) => "I encountered an error: "@ + e@,
        },
{
    match result {
        Ok(t) => t,
        Err(e) => {
            let mut m = String::from_str("I encountered an error: ");
            m.append(e.as_str());
            m
        },
    }
}

} // verus!
