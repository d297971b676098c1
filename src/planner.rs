//! The think-act-observe session as a state machine. The planner decides;
//! its driver performs what it asks for (a paced or unpaced model call, or a
//! pause) and hands back the result, until the planner reports its outcome.

use vstd::prelude::*;
use vstd::utf8::encode_utf8;
use crate::gateway::{first_bad_role, role_of};
use crate::executor::{execution, finish_action, prepare_action, tool_observation, Execution, Tool, ToolCall};
use crate::grammar::{answer_type, parse_reply};
use crate::prompts::{SYSTEM_HEAD,SYSTEM_TAIL,FIRST_THOUGHT_HEAD,FIRST_THOUGHT_TAIL,FIRST_STEP,NEXT_STEP,DIRECT_HEAD,DIRECT_INTRO_HEAD,DIRECT_INTRO_TAIL,DIRECT_APOLOGY,SUMMARY_HEAD,SUMMARY_TAIL,SUMMARY_QUESTION,SUMMARY_FALLBACK,PARTIAL_HEAD,PARTIAL_MIDDLE,PARTIAL_TAIL,GREETING,QUOTE};
use crate::records::{final_answer_key, messages_view, AgentAction, ChatMessage, Observation, ParamsView, Thought};
use crate::text::{contains, decimal, decimal_string, lower_of, lowercase, chars_of, contains_chars, same_text};

verus! {

/// After this many passes through thinking without an action, the session
/// gives a fallback answer.
pub const MAX_THINKING_STREAK: usize = 5;

/// Settings of a planning session.
pub struct AgentConfig {
    pub max_steps: usize,
}

impl Default for AgentConfig {
    fn default() -> (r: AgentConfig)
        ensures
            r.max_steps == 3,
    {
        AgentConfig { max_steps: 3 }
    }
}

/// The stages of a session.
#[derive(PartialEq, Eq, Structural, Clone, Copy, Debug)]
pub enum PlanningState {
    Start,
    Thinking,
    Acting,
    Observing,
    Finished,
}

/// What the planner waits for before it can go on.
pub enum Waiting {
    Nothing,
    NextStep,
    Tool(Tool),
    Pause(String),
    DirectAnswer,
    Summary,
}

pub enum WaitingView {
    Nothing,
    NextStep,
    Tool(Tool),
    Pause(Seq<char>),
    DirectAnswer,
    Summary,
}

/// What the driver must do next.
pub enum Request {
    /// Nothing from outside: advance again.
    Continue,
    /// Call the model with this prompt and history, after the pacing delay
    /// when `paced`, and hand the reply to `on_reply`.
    Model { system: String, messages: Vec<ChatMessage>, paced: bool },
    /// Wait for the pacing delay, then call `on_pause`.
    Pause,
    /// The session is over: its answer and observations, or its failure.
    Done(Result<(String, Vec<String>), String>),
}

pub type OutcomeView = Result<(Seq<char>, Seq<Seq<char>>), Seq<char>>;

pub enum RequestView {
    Continue,
    Model { system: Seq<char>, messages: Seq<(Seq<char>, Seq<char>)>, paced: bool },
    Pause,
    Done(OutcomeView),
}

pub open spec fn strings_view(v: Seq<String>) -> Seq<Seq<char>> {
    v.map_values(|s: String| s@)
}

pub open spec fn outcome_view(o: Result<(String, Vec<String>), String>) -> OutcomeView {
    match o {
        Ok((a, obs)) => Ok((a@, strings_view(obs@))),
        Err(m) => Err(m@),
    }
}

impl View for Request {
    type V = RequestView;

    open spec fn view(&self) -> RequestView {
        match self {
            Request::Continue => RequestView::Continue,
            Request::Model { system, messages, paced } => RequestView::Model {
                system: system@,
                messages: messages_view(messages@),
                paced: *paced,
            },
            Request::Pause => RequestView::Pause,
            Request::Done(o) => RequestView::Done(outcome_view(*o)),
        }
    }
}

/// The state of a session: the query, the records so far, the transcript
/// shown to the model, the counters and what the planner waits for.
pub struct PlannerView {
    pub query: Seq<char>,
    pub max_steps: nat,
    pub state: PlanningState,
    pub thoughts: Seq<Seq<char>>,
    pub actions: Seq<(Seq<char>, ParamsView)>,
    pub observations: Seq<Seq<char>>,
    pub transcript: Seq<(Seq<char>, Seq<char>)>,
    pub step: nat,
    pub streak: nat,
    pub answer: Seq<char>,
    pub waiting: WaitingView,
    pub outcome: Option<OutcomeView>,
}

impl PlannerView {
    /// The counters stay in range: the thinking streak passes its limit only
    /// on the way to the end of the session.
    pub open spec fn wf(self) -> bool {
        &&& self.step <= self.max_steps
        &&& self.streak <= MAX_THINKING_STREAK + 1
        &&& (self.streak <= MAX_THINKING_STREAK || self.state == PlanningState::Finished
            || self.waiting == WaitingView::DirectAnswer)
        &&& (self.waiting is NextStep ==> self.state == PlanningState::Thinking)
        &&& (self.waiting is DirectAnswer ==> self.state == PlanningState::Thinking)
        &&& (self.waiting is Tool ==> self.state == PlanningState::Acting)
        &&& (self.waiting is Pause ==> self.state == PlanningState::Acting)
        &&& (self.state == PlanningState::Acting ==> self.actions.len() > 0)
        &&& self.transcript.len() == self.thoughts.len() + self.actions.len()
            + self.observations.len()
        &&& forall|i: int|
            0 <= i < self.transcript.len() ==> #[trigger] self.transcript[i].0 == "assistant"@
                || self.transcript[i].0 == "user"@
    }

    pub open spec fn with_thought(self, c: Seq<char>) -> PlannerView {
        PlannerView {
            thoughts: self.thoughts.push(c),
            transcript: self.transcript.push(
                ("assistant"@, "Thought "@ + decimal(self.thoughts.len() + 1) + ": "@ + c),
            ),
            ..self
        }
    }

    pub open spec fn with_action(self, t: Seq<char>, p: ParamsView) -> PlannerView {
        PlannerView {
            actions: self.actions.push((t, p)),
            transcript: self.transcript.push(
                (
                    "assistant"@,
                    "Action "@ + decimal(self.actions.len() + 1) + ": "@
                        + AgentAction::describe_spec(t, p),
                ),
            ),
            ..self
        }
    }

    pub open spec fn with_observation(self, c: Seq<char>) -> PlannerView {
        PlannerView {
            observations: self.observations.push(c),
            transcript: self.transcript.push(
                ("user"@, "Observation "@ + decimal(self.observations.len() + 1) + ": "@ + c),
            ),
            ..self
        }
    }
}

pub open spec fn system_prompt(q: Seq<char>) -> Seq<char> {
    SYSTEM_HEAD@ + q + SYSTEM_TAIL@
}

pub open spec fn first_thought(q: Seq<char>) -> Seq<char> {
    FIRST_THOUGHT_HEAD@ + q + FIRST_THOUGHT_TAIL@
}

pub open spec fn next_step_prompt(transcript: Seq<(Seq<char>, Seq<char>)>) -> Seq<char> {
    if transcript.len() == 0 {
        FIRST_STEP@
    } else {
        NEXT_STEP@
    }
}

pub open spec fn direct_prompt(q: Seq<char>) -> Seq<char> {
    DIRECT_HEAD@ + q + QUOTE@
}

pub open spec fn direct_intro(q: Seq<char>) -> Seq<char> {
    DIRECT_INTRO_HEAD@ + q + DIRECT_INTRO_TAIL@
}

pub open spec fn summary_prompt(q: Seq<char>) -> Seq<char> {
    SUMMARY_HEAD@ + q + SUMMARY_TAIL@
}

/// One finding line per observation, numbered from 1.
pub open spec fn findings(obs: Seq<Seq<char>>) -> Seq<char>
    decreases obs.len(),
{
    if obs.len() == 0 {
        Seq::empty()
    } else {
        findings(obs.drop_last()) + "Finding "@ + decimal(obs.len()) + ": "@ + obs.last() + "\n\n"@
    }
}

/// The answer compiled from the observations when the session cannot finish.
pub open spec fn partial_answer_text(q: Seq<char>, obs: Seq<Seq<char>>) -> Seq<char> {
    PARTIAL_HEAD@ + q + PARTIAL_MIDDLE@ + findings(obs) + PARTIAL_TAIL@
}

/// The reply that a greeting gets, when the query is one.
pub open spec fn greeting_of(q: Seq<char>) -> Option<Seq<char>> {
    if encode_utf8(q).len() < 10 && (contains(lower_of(q), "hello"@) || contains(lower_of(q), "hi"@) || contains(
        lower_of(q),
        "hey"@,
    )) {
        Some(GREETING@)
    } else {
        None
    }
}

/// What one internal step does, from a state that waits for nothing.
pub open spec fn advance_spec(v: PlannerView) -> (PlannerView, RequestView) {
    if v.outcome is Some {
        (v, RequestView::Done(v.outcome->0))
    } else if v.state == PlanningState::Start && greeting_of(v.query) is Some {
        let out = Ok((GREETING@, Seq::empty()));
        (
            PlannerView { state: PlanningState::Finished, outcome: Some(out), ..v },
            RequestView::Done(out),
        )
    } else if !(v.step < v.max_steps && v.state != PlanningState::Finished) {
        if v.state != PlanningState::Finished {
            (
                PlannerView { waiting: WaitingView::Summary, ..v },
                RequestView::Model {
                    system: summary_prompt(v.query),
                    messages: v.transcript.push(("user"@, SUMMARY_QUESTION@)),
                    paced: false,
                },
            )
        } else {
            let out = Ok((v.answer, v.observations));
            (PlannerView { outcome: Some(out), ..v }, RequestView::Done(out))
        }
    } else {
        match v.state {
            PlanningState::Start => (
                PlannerView { state: PlanningState::Thinking, ..v.with_thought(first_thought(v.query)) },
                RequestView::Continue,
            ),
            PlanningState::Thinking => {
                let s = v.streak + 1;
                if s > MAX_THINKING_STREAK {
                    if v.observations.len() > 0 {
                        (
                            PlannerView {
                                streak: s,
                                answer: partial_answer_text(v.query, v.observations),
                                state: PlanningState::Finished,
                                ..v
                            },
                            RequestView::Continue,
                        )
                    } else {
                        (
                            PlannerView { streak: s, waiting: WaitingView::DirectAnswer, ..v },
                            RequestView::Model {
                                system: direct_prompt(v.query),
                                messages: Seq::empty(),
                                paced: false,
                            },
                        )
                    }
                } else {
                    (
                        PlannerView { streak: s, waiting: WaitingView::NextStep, ..v },
                        RequestView::Model {
                            system: system_prompt(v.query),
                            messages: v.transcript.push(("user"@, next_step_prompt(v.transcript))),
                            paced: true,
                        },
                    )
                }
            },
            PlanningState::Acting => {
                if v.actions.len() == 0 {
                    (PlannerView { state: PlanningState::Thinking, ..v }, RequestView::Continue)
                } else {
                    match execution(v.actions.last().0, v.actions.last().1) {
                        Execution::Observe(c) => (
                            PlannerView { waiting: WaitingView::Pause(c), ..v },
                            RequestView::Pause,
                        ),
                        Execution::Ask(tool, system, messages) => (
                            PlannerView { waiting: WaitingView::Tool(tool), ..v },
                            RequestView::Model { system, messages, paced: true },
                        ),
                    }
                }
            },
            PlanningState::Observing => (
                PlannerView { state: PlanningState::Thinking, step: v.step + 1, ..v },
                RequestView::Continue,
            ),
            PlanningState::Finished => (v, RequestView::Continue),
        }
    }
}

/// What a reply to a request for the next step does.
pub open spec fn next_step_spec(v: PlannerView, reply: Result<Seq<char>, Seq<char>>) -> PlannerView {
    let v = PlannerView { waiting: WaitingView::Nothing, ..v };
    match reply {
        Err(m) => if v.observations.len() > 0 {
            PlannerView {
                state: PlanningState::Finished,
                outcome: Some(Ok((partial_answer_text(v.query, v.observations), v.observations))),
                ..v
            }
        } else {
            PlannerView {
                state: PlanningState::Finished,
                outcome: Some(Err("Failed to get LLM response: "@ + m)),
                ..v
            }
        },
        Ok(text) => match parse_reply(text) {
            None => v.with_thought(text),
            Some((t, p)) => {
                if t == answer_type() {
                    match p.field(final_answer_key()) {
                        Some(f) => {
                            let a = match f {
                                Some(s) => s,
                                None => Seq::empty(),
                            };
                            PlannerView {
                                answer: a,
                                state: PlanningState::Finished,
                                streak: 0,
                                ..v
                            }.with_thought(
                                "I now have the answer: "@ + a,
                            )
                        },
                        None => v.with_thought("I need to provide a clear answer"@),
                    }
                } else {
                    PlannerView {
                        state: PlanningState::Acting,
                        streak: 0,
                        ..v.with_thought("I need to "@ + t).with_action(t, p)
                    }
                }
            },
        },
    }
}

/// What a reply of the model does, given what the planner waited for.
pub open spec fn on_reply_spec(v: PlannerView, reply: Result<Seq<char>, Seq<char>>) -> PlannerView {
    match v.waiting {
        WaitingView::NextStep => next_step_spec(v, reply),
        WaitingView::Tool(tool) => PlannerView {
            state: PlanningState::Observing,
            waiting: WaitingView::Nothing,
            ..v.with_observation(tool_observation(tool, reply))
        },
        WaitingView::DirectAnswer => PlannerView {
            state: PlanningState::Finished,
            waiting: WaitingView::Nothing,
            answer: direct_intro(v.query) + match reply {
                Ok(t) => t,
                Err(_) => DIRECT_APOLOGY@,
            },
            ..v
        },
        WaitingView::Summary => {
            let a = match reply {
                Ok(t) => t,
                Err(_) => SUMMARY_FALLBACK@,
            };
            PlannerView {
                state: PlanningState::Finished,
                waiting: WaitingView::Nothing,
                answer: a,
                outcome: Some(Ok((a, v.observations))),
                ..v
            }
        },
        _ => v,
    }
}

pub open spec fn reply_view(r: Result<String, String>) -> Result<Seq<char>, Seq<char>> {
    match r {
        Ok(t) => Ok(t@),
        Err(m) => Err(m@),
    }
}

/// What the end of a pause does: the observation it held is recorded.
pub open spec fn on_pause_spec(v: PlannerView) -> PlannerView {
    PlannerView {
        state: PlanningState::Observing,
        waiting: WaitingView::Nothing,
        ..v.with_observation(v.waiting->Pause_0)
    }
}

pub open spec fn is_model_wait(w: WaitingView) -> bool {
    match w {
        WaitingView::NextStep | WaitingView::Tool(_) | WaitingView::DirectAnswer
        | WaitingView::Summary => true,
        _ => false,
    }
}

/// A planning session for one query.
pub struct Planner {
    query: String,
    max_steps: usize,
    state: PlanningState,
    thoughts: Vec<Thought>,
    actions: Vec<AgentAction>,
    observations: Vec<Observation>,
    transcript: Vec<ChatMessage>,
    current_step: usize,
    thinking_streak: usize,
    answer: String,
    waiting: Waiting,
    outcome: Option<Result<(String, Vec<String>), String>>,
}

impl View for Planner {
    type V = PlannerView;

    closed spec fn view(&self) -> PlannerView {
        PlannerView {
            query: self.query@,
            max_steps: self.max_steps as nat,
            state: self.state,
            thoughts: self.thoughts@.map_values(|t: Thought| t.content@),
            actions: self.actions@.map_values(|a: AgentAction| (a.action_type@, a.parameters@)),
            observations: self.observations@.map_values(|o: Observation| o.content@),
            transcript: messages_view(self.transcript@),
            step: self.current_step as nat,
            streak: self.thinking_streak as nat,
            answer: self.answer@,
            waiting: match &self.waiting {
                Waiting::Nothing => WaitingView::Nothing,
                Waiting::NextStep => WaitingView::NextStep,
                Waiting::Tool(t) => WaitingView::Tool(*t),
                Waiting::Pause(s) => WaitingView::Pause(s@),
                Waiting::DirectAnswer => WaitingView::DirectAnswer,
                Waiting::Summary => WaitingView::Summary,
            },
            outcome: match &self.outcome {
                Some(o) => Some(outcome_view(*o)),
                None => None,
            },
        }
    }
}

fn concat3(a: &str, b: &str, c: &str) -> (r: String)
    ensures
        r@ == a@ + b@ + c@,
{
    let mut r = String::from_str(a);
    r.append(b);
    r.append(c);
    r
}

fn copy_messages(m: &Vec<ChatMessage>) -> (r: Vec<ChatMessage>)
    ensures
        messages_view(r@) == messages_view(m@),
{
    let mut r: Vec<ChatMessage> = Vec::new();
    let mut i: usize = 0;
    while i < m.len()
        invariant
            i <= m@.len(),
            r@.len() == i,
            forall|j: int| 0 <= j < i ==> r@[j].view_pair() == m@[j].view_pair(),
        decreases m@.len() - i,
    {
        r.push(ChatMessage { role: m[i].role.clone(), content: m[i].content.clone() });
        i = i + 1;
    }
    assert(messages_view(r@) =~= messages_view(m@));
    r
}

fn copy_strings(v: &Vec<String>) -> (r: Vec<String>)
    ensures
        strings_view(r@) == strings_view(v@),
{
    let mut r: Vec<String> = Vec::new();
    let mut i: usize = 0;
    while i < v.len()
        invariant
            i <= v@.len(),
            r@.len() == i,
            forall|j: int| 0 <= j < i ==> r@[j]@ == v@[j]@,
        decreases v@.len() - i,
    {
        r.push(v[i].clone());
        i = i + 1;
    }
    assert(strings_view(r@) =~= strings_view(v@));
    r
}

fn copy_outcome(o: &Result<(String, Vec<String>), String>) -> (r: Result<(String, Vec<String>), String>)
    ensures
        outcome_view(r) == outcome_view(*o),
{
    match o {
        Ok((a, obs)) => Ok((a.clone(), copy_strings(obs))),
        Err(m) => Err(m.clone()),
    }
}

/// The reply to a query that is only a greeting: shorter than ten bytes in UTF-8
/// and holding "hello", "hi" or "hey" in any case.
pub fn greeting_reply(query: &str) -> (r: Option<String>)
    ensures
        match (r, greeting_of(query@)) {
            (None, None) => true,
            (Some(s), Some(g)) => s@ == g,
            _ => false,
        },
{
    if query.as_bytes().len() >= 10 {
        return None;
    }
    let lowered = lowercase(query);
    if is_greeting(lowered.as_str()) {
        Some(String::from_str(GREETING))
    } else {
        None
    }
}

/// Whether a lower-cased text holds "hello", "hi" or "hey".
pub fn is_greeting(lowered: &str) -> (r: bool)
    ensures
        r == (contains(lowered@, "hello"@) || contains(lowered@, "hi"@) || contains(
            lowered@,
            "hey"@,
        )),
{
    let s = chars_of(lowered);
    contains_chars(&s, &chars_of("hello")) || contains_chars(&s, &chars_of("hi"))
        || contains_chars(&s, &chars_of("hey"))
}

/// The answer compiled from the observations: an apology, one numbered
/// finding per observation, and a closing note that the analysis is
/// incomplete.
pub fn partial_answer(query: &str, observations: &Vec<String>) -> (r: String)
    ensures
        r@ == partial_answer_text(query@, strings_view(observations@)),
{
    let mut r = concat3(PARTIAL_HEAD, query, PARTIAL_MIDDLE);
    let mut i: usize = 0;
    while i < observations.len()
        invariant
            i <= observations@.len(),
            r@ == PARTIAL_HEAD@ + query@ + PARTIAL_MIDDLE@ + findings(
                strings_view(observations@.subrange(0, i as int)),
            ),
        decreases observations@.len() - i,
    {
        let ghost before = r@;
        r.append("Finding ");
        let n = decimal_string(i + 1);
        r.append(n.as_str());
        r.append(": ");
        r.append(observations[i].as_str());
        r.append("\n\n");
        i = i + 1;
        proof {
            let prev = strings_view(observations@.subrange(0, i - 1));
            let cur = strings_view(observations@.subrange(0, i as int));
            assert(cur.drop_last() =~= prev);
            assert(cur.len() == i);
            assert(cur.last() == observations@[i - 1]@);
            assert(r@ =~= PARTIAL_HEAD@ + query@ + PARTIAL_MIDDLE@ + findings(cur));
        }
    }
    assert(observations@.subrange(0, observations@.len() as int) =~= observations@);
    r.append(PARTIAL_TAIL);
    r
}

impl Planner {
    /// Every session keeps its counters in range.
    pub fn well_formed(&self) -> (r: bool)
        ensures
            r == self@.wf(),
    {
        self.current_step <= self.max_steps && self.thinking_streak <= MAX_THINKING_STREAK + 1 && (
        self.thinking_streak <= MAX_THINKING_STREAK || self.state == PlanningState::Finished
            || self.is_direct_wait()) && (!self.is_next_step_wait() || self.state
            == PlanningState::Thinking) && (!self.is_direct_wait() || self.state
            == PlanningState::Thinking) && (!self.is_tool_wait() || self.state == PlanningState::Acting)
            && (!self.awaits_pause() || self.state == PlanningState::Acting) && (self.state
            != PlanningState::Acting || self.actions.len() > 0) && self.thoughts.len()
            <= self.transcript.len() && self.transcript.len() - self.thoughts.len()
            >= self.actions.len() && self.transcript.len() - self.thoughts.len()
            - self.actions.len() == self.observations.len() && self.known_roles()
    }

    fn known_roles(&self) -> (r: bool)
        ensures
            r == forall|i: int|
                0 <= i < self@.transcript.len() ==> #[trigger] self@.transcript[i].0 == "assistant"@
                    || self@.transcript[i].0 == "user"@,
    {
        let mut i: usize = 0;
        while i < self.transcript.len()
            invariant
                i <= self.transcript@.len(),
                forall|j: int|
                    0 <= j < i ==> #[trigger] self.transcript@[j].role@ == "assistant"@
                        || self.transcript@[j].role@ == "user"@,
            decreases self.transcript@.len() - i,
        {
            let role = self.transcript[i].role.as_str();
            if !same_text(role, "assistant") && !same_text(role, "user") {
                assert(self@.transcript[i as int].0 == self.transcript@[i as int].role@);
                return false;
            }
            i = i + 1;
        }
        proof {
            assert forall|j: int| 0 <= j < self@.transcript.len() implies #[trigger] self@.transcript[j].0
                == "assistant"@ || self@.transcript[j].0 == "user"@ by {
                assert(self@.transcript[j].0 == self.transcript@[j].role@);
            }
        }
        true
    }

    fn is_direct_wait(&self) -> (r: bool)
        ensures
            r == (self@.waiting == WaitingView::DirectAnswer),
    {
        match self.waiting {
            Waiting::DirectAnswer => true,
            _ => false,
        }
    }

    fn is_next_step_wait(&self) -> (r: bool)
        ensures
            r == self@.waiting is NextStep,
    {
        match self.waiting {
            Waiting::NextStep => true,
            _ => false,
        }
    }

    fn is_tool_wait(&self) -> (r: bool)
        ensures
            r == self@.waiting is Tool,
    {
        match self.waiting {
            Waiting::Tool(_) => true,
            _ => false,
        }
    }

    /// A session for `query` in its first stage.
    pub fn new(query: String, config: &AgentConfig) -> (r: Planner)
        ensures
            r@ == (PlannerView {
                query: query@,
                max_steps: config.max_steps as nat,
                state: PlanningState::Start,
                thoughts: Seq::empty(),
                actions: Seq::empty(),
                observations: Seq::empty(),
                transcript: Seq::empty(),
                step: 0,
                streak: 0,
                answer: Seq::empty(),
                waiting: WaitingView::Nothing,
                outcome: None,
            }),
            r@.wf(),
    {
        let r = Planner {
            query,
            max_steps: config.max_steps,
            state: PlanningState::Start,
            thoughts: Vec::new(),
            actions: Vec::new(),
            observations: Vec::new(),
            transcript: Vec::new(),
            current_step: 0,
            thinking_streak: 0,
            answer: String::new(),
            waiting: Waiting::Nothing,
            outcome: None,
        };
        proof {
            let v = r@;
            assert(v.thoughts =~= Seq::<Seq<char>>::empty());
            assert(v.actions =~= Seq::<(Seq<char>, ParamsView)>::empty());
            assert(v.observations =~= Seq::<Seq<char>>::empty());
            assert(v.transcript =~= Seq::<(Seq<char>, Seq<char>)>::empty());
        }
        r
    }

    /// Whether the planner waits for nothing, so that `advance` may be called.
    pub fn is_ready(&self) -> (r: bool)
        ensures
            r == (self@.waiting == WaitingView::Nothing),
    {
        match self.waiting {
            Waiting::Nothing => true,
            _ => false,
        }
    }

    /// Whether the planner waits for a reply of the model.
    pub fn awaits_reply(&self) -> (r: bool)
        ensures
            r == is_model_wait(self@.waiting),
    {
        match self.waiting {
            Waiting::NextStep | Waiting::Tool(_) | Waiting::DirectAnswer | Waiting::Summary => true,
            _ => false,
        }
    }

    /// Whether the planner waits for the end of a pause.
    pub fn awaits_pause(&self) -> (r: bool)
        ensures
            r == self@.waiting is Pause,
    {
        match self.waiting {
            Waiting::Pause(_) => true,
            _ => false,
        }
    }

    /// The stage the session is in.
    pub fn state(&self) -> (r: PlanningState)
        ensures
            r == self@.state,
    {
        self.state
    }

    /// How many passes through thinking have gone by without an action.
    pub fn thinking_streak(&self) -> (r: usize)
        ensures
            r == self@.streak,
    {
        self.thinking_streak
    }

    /// How many act-observe rounds have completed.
    pub fn current_step(&self) -> (r: usize)
        ensures
            r == self@.step,
    {
        self.current_step
    }

    /// The contents of the observations so far, in order.
    pub fn observation_texts(&self) -> (r: Vec<String>)
        ensures
            strings_view(r@) == self@.observations,
    {
        let mut r: Vec<String> = Vec::new();
        let mut i: usize = 0;
        while i < self.observations.len()
            invariant
                i <= self.observations@.len(),
                r@.len() == i,
                forall|j: int| 0 <= j < i ==> r@[j]@ == self.observations@[j].content@,
            decreases self.observations@.len() - i,
        {
            r.push(self.observations[i].content.clone());
            i = i + 1;
        }
        assert(strings_view(r@) =~= self@.observations);
        r
    }

    /// The contents of the thoughts so far, in order.
    pub fn thought_texts(&self) -> (r: Vec<String>)
        ensures
            strings_view(r@) == self@.thoughts,
    {
        let mut r: Vec<String> = Vec::new();
        let mut i: usize = 0;
        while i < self.thoughts.len()
            invariant
                i <= self.thoughts@.len(),
                r@.len() == i,
                forall|j: int| 0 <= j < i ==> r@[j]@ == self.thoughts@[j].content@,
            decreases self.thoughts@.len() - i,
        {
            r.push(self.thoughts[i].content.clone());
            i = i + 1;
        }
        assert(strings_view(r@) =~= self@.thoughts);
        r
    }

    fn push_thought(&mut self, content: String)
        ensures
            final(self)@ == old(self)@.with_thought(content@),
    {
        let text = content.clone();
        self.thoughts.push(Thought::new(content));
        let n = decimal_string(self.thoughts.len());
        let mut line = String::from_str("Thought ");
        line.append(n.as_str());
        line.append(": ");
        line.append(text.as_str());
        self.transcript.push(ChatMessage { role: String::from_str("assistant"), content: line });
        proof {
            let old_v = old(self)@;
            assert(self.thoughts@.map_values(|t: Thought| t.content@) =~= old_v.thoughts.push(
                content@,
            ));
            assert(messages_view(self.transcript@) =~= old_v.with_thought(content@).transcript);
            assert(self@ =~= old_v.with_thought(content@));
        }
    }

    fn push_action(&mut self, action: AgentAction)
        ensures
            final(self)@ == old(self)@.with_action(action.action_type@, action.parameters@),
    {
        let ghost t = action.action_type@;
        let ghost p = action.parameters@;
        let description = action.describe();
        self.actions.push(action);
        let n = decimal_string(self.actions.len());
        let mut line = String::from_str("Action ");
        line.append(n.as_str());
        line.append(": ");
        line.append(description.as_str());
        self.transcript.push(ChatMessage { role: String::from_str("assistant"), content: line });
        proof {
            let old_v = old(self)@;
            assert(self.actions@.map_values(|a: AgentAction| (a.action_type@, a.parameters@))
                =~= old_v.actions.push((t, p)));
            assert(messages_view(self.transcript@) =~= old_v.with_action(t, p).transcript);
            assert(self@ =~= old_v.with_action(t, p));
        }
    }

    fn push_observation(&mut self, content: String)
        ensures
            final(self)@ == old(self)@.with_observation(content@),
    {
        let text = content.clone();
        let action_id = if self.actions.len() > 0 {
            self.actions[self.actions.len() - 1].id.clone()
        } else {
            String::new()
        };
        self.observations.push(Observation::new(content, action_id));
        let n = decimal_string(self.observations.len());
        let mut line = String::from_str("Observation ");
        line.append(n.as_str());
        line.append(": ");
        line.append(text.as_str());
        self.transcript.push(ChatMessage { role: String::from_str("user"), content: line });
        proof {
            let old_v = old(self)@;
            assert(self.observations@.map_values(|o: Observation| o.content@)
                =~= old_v.observations.push(content@));
            assert(messages_view(self.transcript@) =~= old_v.with_observation(content@).transcript);
            assert(self@ =~= old_v.with_observation(content@));
        }
    }
}

impl Planner {
    /// Takes one step that needs nothing from outside, and says what the
    /// driver must do next.
    pub fn advance(&mut self) -> (r: Request)
        requires
            old(self)@.waiting == WaitingView::Nothing,
            old(self)@.wf(),
        ensures
            (final(self)@, r@) == advance_spec(old(self)@),
            final(self)@.wf(),
    {
        if let Some(o) = &self.outcome {
            return Request::Done(copy_outcome(o));
        }
        if self.state == PlanningState::Start {
            if let Some(greeting) = greeting_reply(self.query.as_str()) {
                let none: Vec<String> = Vec::new();
                proof {
                    assert(strings_view(none@) =~= Seq::<Seq<char>>::empty());
                }
                self.state = PlanningState::Finished;
                self.outcome = Some(Ok((greeting.clone(), copy_strings(&none))));
                return Request::Done(Ok((greeting, none)));
            }
        }
        if !(self.current_step < self.max_steps && self.state != PlanningState::Finished) {
            if self.state != PlanningState::Finished {
                self.waiting = Waiting::Summary;
                let mut messages = copy_messages(&self.transcript);
                messages.push(
                    ChatMessage {
                        role: String::from_str("user"),
                        content: String::from_str(SUMMARY_QUESTION),
                    },
                );
                proof {
                    assert(messages_view(messages@) =~= self@.transcript.push(
                        ("user"@, SUMMARY_QUESTION@),
                    ));
                }
                let system = concat3(SUMMARY_HEAD, self.query.as_str(), SUMMARY_TAIL);
                return Request::Model { system, messages, paced: false };
            } else {
                let answer = self.answer.clone();
                let texts = self.observation_texts();
                self.outcome = Some(Ok((answer.clone(), copy_strings(&texts))));
                return Request::Done(Ok((answer, texts)));
            }
        }
        match self.state {
            PlanningState::Start => {
                let thought = concat3(FIRST_THOUGHT_HEAD, self.query.as_str(), FIRST_THOUGHT_TAIL);
                self.push_thought(thought);
                self.state = PlanningState::Thinking;
                Request::Continue
            },
            PlanningState::Thinking => {
                let s = self.thinking_streak + 1;
                self.thinking_streak = s;
                if s > MAX_THINKING_STREAK {
                    if self.observations.len() > 0 {
                        let texts = self.observation_texts();
                        self.answer = partial_answer(self.query.as_str(), &texts);
                        self.state = PlanningState::Finished;
                        Request::Continue
                    } else {
                        self.waiting = Waiting::DirectAnswer;
                        let system = concat3(DIRECT_HEAD, self.query.as_str(), QUOTE);
                        let messages: Vec<ChatMessage> = Vec::new();
                        proof {
                            assert(messages_view(messages@) =~= Seq::<(Seq<char>, Seq<char>)>::empty());
                        }
                        Request::Model { system, messages, paced: false }
                    }
                } else {
                    self.waiting = Waiting::NextStep;
                    let prompt = if self.transcript.len() == 0 {
                        FIRST_STEP
                    } else {
                        NEXT_STEP
                    };
                    let mut messages = copy_messages(&self.transcript);
                    messages.push(
                        ChatMessage { role: String::from_str("user"), content: String::from_str(prompt) },
                    );
                    proof {
                        assert(messages_view(messages@) =~= self@.transcript.push(
                            ("user"@, next_step_prompt(self@.transcript)),
                        ));
                    }
                    let system = concat3(SYSTEM_HEAD, self.query.as_str(), SYSTEM_TAIL);
                    Request::Model { system, messages, paced: true }
                }
            },
            PlanningState::Acting => {
                if self.actions.len() == 0 {
                    self.state = PlanningState::Thinking;
                    return Request::Continue;
                }
                let prepared = prepare_action(&self.actions[self.actions.len() - 1]);
                match prepared {
                    Ok(ToolCall::Reply(text)) => {
                        self.waiting = Waiting::Pause(text);
                        Request::Pause
                    },
                    Ok(ToolCall::Ask { tool, system, messages }) => {
                        self.waiting = Waiting::Tool(tool);
                        Request::Model { system, messages, paced: true }
                    },
                    Err(e) => {
                        let mut text = String::from_str("Error: ");
                        text.append(e.message().as_str());
                        self.waiting = Waiting::Pause(text);
                        Request::Pause
                    },
                }
            },
            PlanningState::Observing => {
                self.state = PlanningState::Thinking;
                self.current_step = self.current_step + 1;
                Request::Continue
            },
            PlanningState::Finished => Request::Continue,
        }
    }

    /// Takes in the model's reply to the last request.
    pub fn on_reply(&mut self, reply: Result<String, String>)
        requires
            is_model_wait(old(self)@.waiting),
            old(self)@.wf(),
        ensures
            final(self)@ == on_reply_spec(old(self)@, reply_view(reply)),
            final(self)@.wf(),
    {
        match self.waiting {
            Waiting::NextStep => {
                self.waiting = Waiting::Nothing;
                self.take_next_step(reply);
            },
            Waiting::Tool(tool) => {
                self.waiting = Waiting::Nothing;
                let content = match finish_action(tool, reply) {
                    Ok(text) => text,
                    Err(e) => {
                        let mut text = String::from_str("Error: ");
                        text.append(e.message().as_str());
                        text
                    },
                };
                self.push_observation(content);
                self.state = PlanningState::Observing;
            },
            Waiting::DirectAnswer => {
                self.waiting = Waiting::Nothing;
                let mut answer = concat3(DIRECT_INTRO_HEAD, self.query.as_str(), DIRECT_INTRO_TAIL);
                match reply {
                    Ok(text) => answer.append(text.as_str()),
                    Err(_) => answer.append(DIRECT_APOLOGY),
                }
                self.answer = answer;
                self.state = PlanningState::Finished;
            },
            _ => {
                self.waiting = Waiting::Nothing;
                let answer = match reply {
                    Ok(text) => text,
                    Err(_) => String::from_str(SUMMARY_FALLBACK),
                };
                let texts = self.observation_texts();
                self.answer = answer.clone();
                self.outcome = Some(Ok((answer, texts)));
                self.state = PlanningState::Finished;
            },
        }
    }

    fn take_next_step(&mut self, reply: Result<String, String>)
        requires
            old(self)@.waiting == WaitingView::Nothing,
            old(self)@.streak <= MAX_THINKING_STREAK,
        ensures
            final(self)@ == next_step_spec(old(self)@, reply_view(reply)),
    {
        match reply {
            Err(m) => {
                if self.observations.len() > 0 {
                    let texts = self.observation_texts();
                    let answer = partial_answer(self.query.as_str(), &texts);
                    self.outcome = Some(Ok((answer, texts)));
                } else {
                    let mut text = String::from_str("Failed to get LLM response: ");
                    text.append(m.as_str());
                    self.outcome = Some(Err(text));
                }
                self.state = PlanningState::Finished;
            },
            Ok(text) => match AgentAction::parse_from_llm_response(text.as_str()) {
                None => self.push_thought(text),
                Some(action) => {
                    proof {
                        reveal_strlit("answer");
                        assert(answer_type() =~= "answer"@);
                    }
                    if same_text(action.action_type.as_str(), "answer") {
                        proof {
                            reveal_strlit("final_answer");
                            assert(final_answer_key() =~= "final_answer"@);
                        }
                        match action.parameters.get("final_answer") {
                            Some(field) => {
                                let answer = match field {
                                    Some(a) => a,
                                    None => String::new(),
                                };
                                self.answer = answer.clone();
                                self.state = PlanningState::Finished;
                                self.thinking_streak = 0;
                                let mut thought = String::from_str("I now have the answer: ");
                                thought.append(answer.as_str());
                                self.push_thought(thought);
                            },
                            None => self.push_thought(
                                String::from_str("I need to provide a clear answer"),
                            ),
                        }
                    } else {
                        let mut thought = String::from_str("I need to ");
                        thought.append(action.action_type.as_str());
                        self.push_thought(thought);
                        self.push_action(action);
                        self.state = PlanningState::Acting;
                        self.thinking_streak = 0;
                    }
                },
            },
        }
    }

    /// Records the observation that an action gave without the model, once
    /// the pacing delay has passed.
    pub fn on_pause(&mut self)
        requires
            old(self)@.waiting is Pause,
            old(self)@.wf(),
        ensures
            final(self)@ == on_pause_spec(old(self)@),
            final(self)@.wf(),
    {
        let content = match &self.waiting {
            Waiting::Pause(text) => text.clone(),
            _ => String::new(),
        };
        self.waiting = Waiting::Nothing;
        self.push_observation(content);
        self.state = PlanningState::Observing;
    }
}

/// A reply that leaves the session thinking: no action at all, or an answer
/// without `final_answer`.
pub open spec fn is_idle_reply(r: Seq<char>) -> bool {
    match parse_reply(r) {
        None => true,
        Some((t, p)) => t == answer_type() && p.field(final_answer_key()) is None,
    }
}

/// One pass through thinking: the planner asks for the next step and takes in
/// `reply`.
pub open spec fn think_once(v: PlannerView, reply: Seq<char>) -> PlannerView {
    on_reply_spec(advance_spec(v).0, Ok(reply))
}

/// Passes through thinking with the given replies, in order.
pub open spec fn think_rounds(v: PlannerView, replies: Seq<Seq<char>>) -> PlannerView
    decreases replies.len(),
{
    if replies.len() == 0 {
        v
    } else {
        think_once(think_rounds(v, replies.drop_last()), replies.last())
    }
}

/// While the model's replies leave it thinking, each pass through thinking adds
/// one to the streak and leaves the session thinking, with nothing else
/// changed but its thoughts.
pub proof fn lemma_streak_counts_passes(v: PlannerView, replies: Seq<Seq<char>>)
    requires
        v.wf(),
        v.state == PlanningState::Thinking,
        v.waiting == WaitingView::Nothing,
        v.outcome is None,
        v.step < v.max_steps,
        v.streak + replies.len() <= MAX_THINKING_STREAK,
        forall|i: int| 0 <= i < replies.len() ==> is_idle_reply(#[trigger] replies[i]),
    ensures
        ({
            let w = think_rounds(v, replies);
            &&& w.wf()
            &&& w.state == PlanningState::Thinking
            &&& w.waiting == WaitingView::Nothing
            &&& w.outcome is None
            &&& w.streak == v.streak + replies.len()
            &&& w.step == v.step
            &&& w.max_steps == v.max_steps
            &&& w.observations == v.observations
            &&& w.query == v.query
        }),
    decreases replies.len(),
{
    if replies.len() > 0 {
        let front = replies.drop_last();
        assert forall|i: int| 0 <= i < front.len() implies is_idle_reply(#[trigger] front[i]) by {
            assert(front[i] == replies[i]);
        }
        lemma_streak_counts_passes(v, front);
        assert(is_idle_reply(replies.last()));
    }
}

/// A session that thinks afresh and whose model never replies with an action
/// it can act on (no action, or an answer without `final_answer`) passes through thinking exactly six times. Five times it asks the model for
/// the next step. The sixth time, with observations in hand, it finishes at
/// once with the partial answer compiled from them; with none, it asks the
/// model for a direct answer instead, and whatever comes back, the session is
/// finished and reports its answer.
pub proof fn lemma_thinking_streak_ends(
    v: PlannerView,
    replies: Seq<Seq<char>>,
    last: Result<Seq<char>, Seq<char>>,
)
    requires
        v.wf(),
        v.state == PlanningState::Thinking,
        v.waiting == WaitingView::Nothing,
        v.outcome is None,
        v.streak == 0,
        v.step < v.max_steps,
        replies.len() == MAX_THINKING_STREAK,
        forall|i: int| 0 <= i < replies.len() ==> is_idle_reply(#[trigger] replies[i]),
    ensures
        ({
            let w = think_rounds(v, replies);
            let (x, req) = advance_spec(w);
            &&& w.streak == MAX_THINKING_STREAK
            &&& w.state == PlanningState::Thinking
            &&& x.streak == MAX_THINKING_STREAK + 1
            &&& v.observations.len() > 0 ==> {
                &&& req == RequestView::Continue
                &&& x.state == PlanningState::Finished
                &&& x.answer == partial_answer_text(v.query, v.observations)
                &&& advance_spec(x).1 == RequestView::Done(Ok((x.answer, v.observations)))
            }
            &&& v.observations.len() == 0 ==> {
                let y = on_reply_spec(x, last);
                &&& req == RequestView::Model {
                    system: direct_prompt(v.query),
                    messages: Seq::empty(),
                    paced: false,
                }
                &&& y.state == PlanningState::Finished
                &&& advance_spec(y).1 == RequestView::Done(Ok((y.answer, v.observations)))
            }
        }),
{
    lemma_streak_counts_passes(v, replies);
}

/// One round of a session: the planner's next step, followed by what the
/// driver hands back for it (`reply` when the model was asked, the end of
/// the pause when one was asked for).
pub open spec fn round(v: PlannerView, reply: Result<Seq<char>, Seq<char>>) -> PlannerView {
    let (x, req) = advance_spec(v);
    match req {
        RequestView::Model { .. } => on_reply_spec(x, reply),
        RequestView::Pause => on_pause_spec(x),
        _ => x,
    }
}

/// Rounds with the given replies, in order.
pub open spec fn run_rounds(v: PlannerView, replies: Seq<Result<Seq<char>, Seq<char>>>) -> PlannerView
    decreases replies.len(),
{
    if replies.len() == 0 {
        v
    } else {
        run_rounds(round(v, replies[0]), replies.subrange(1, replies.len() as int))
    }
}

/// How far a session is from its outcome, at most `21 * max_steps + 20`.
pub open spec fn rank(v: PlannerView) -> nat {
    if v.outcome is Some {
        0
    } else {
        let local: nat = match v.state {
            PlanningState::Finished => 1,
            PlanningState::Observing => 2,
            PlanningState::Acting => 3,
            PlanningState::Thinking => (4 + MAX_THINKING_STREAK + 1 - v.streak) as nat,
            PlanningState::Start => 20,
        };
        (v.max_steps - v.step) as nat * 21 + local
    }
}

/// Each round of a session that has no outcome yet brings it closer to one,
/// whatever the model replies, and leaves the planner waiting for nothing.
#[verifier::rlimit(60)]
pub proof fn lemma_round_progress(v: PlannerView, reply: Result<Seq<char>, Seq<char>>)
    requires
        v.wf(),
        v.waiting == WaitingView::Nothing,
        v.outcome is None,
    ensures
        round(v, reply).wf(),
        round(v, reply).waiting == WaitingView::Nothing,
        rank(round(v, reply)) < rank(v),
{
}

/// Every session ends: whatever the model replies, a session has its outcome
/// after `rank` rounds, at most `21 * max_steps + 20` of them, and so after
/// at most that many calls of the model.
pub proof fn lemma_session_ends(v: PlannerView, replies: Seq<Result<Seq<char>, Seq<char>>>)
    requires
        v.wf(),
        v.waiting == WaitingView::Nothing,
        replies.len() >= rank(v),
    ensures
        rank(v) <= 21 * v.max_steps + 20,
        run_rounds(v, replies).outcome is Some,
    decreases replies.len(),
{
    if replies.len() > 0 {
        if v.outcome is None {
            lemma_round_progress(v, replies[0]);
        }
        lemma_session_ends(round(v, replies[0]), replies.subrange(1, replies.len() as int));
    }
}

/// Every request the planner makes of the model carries only `user` and
/// `assistant` messages, so the gateway never refuses one for its roles.
pub proof fn lemma_requests_have_known_roles(v: PlannerView)
    requires
        v.wf(),
        v.waiting == WaitingView::Nothing,
    ensures
        advance_spec(v).1 matches RequestView::Model { messages, .. } ==> first_bad_role(messages)
            is None,
{
    if let RequestView::Model { messages, .. } = advance_spec(v).1 {
        assert forall|i: int| 0 <= i < messages.len() implies role_of(#[trigger] messages[i].0) is Some by {
            if i < v.transcript.len() {
                assert(v.transcript[i].0 == "assistant"@ || v.transcript[i].0 == "user"@);
            }
        }
    }
}

} // verus!
