use vstd::prelude::*;
use vstd::string::*;

use crate::http::{is_success, success_class, ApiError};
use crate::text::{fill_template, filled, trim_text, trimmed};

verus! {

/// Hook event name that selects the attention prompt.
pub const NOTIFICATION_EVENT: &'static str = "Notification";

/// Hook event name of a finished task.
pub const STOP_EVENT: &'static str = "Stop";

/// Output token budget of one summary.
pub const SUMMARY_MAX_TOKENS: u32 = 1000;

/// Messages endpoint of the text-generation service.
pub const SUMMARY_ENDPOINT: &'static str = "https://api.anthropic.com/v1/messages";

/// Endpoint that lists the service's models, most recently released first.
pub const MODELS_ENDPOINT: &'static str = "https://api.anthropic.com/v1/models";

/// Model family preferred when no summary model is configured.
pub const PREFERRED_MODEL_FAMILY: &'static str = "sonnet";

/// Protocol version header value sent with each request.
pub const API_VERSION: &'static str = "2023-06-01";

/// Instruction for a finished task; each marker stands for the agent name.
pub const STOP_PROMPT: &'static str = "You are a voice notification assistant for %, an AI coding assistant. When % finishes helping with a task, you summarize what was accomplished in a clear, informative sentence that will be read aloud as a voice notification.\n\nYour summary should:\n- ALWAYS start with '%' as the subject\n- Be exactly one sentence (can be compound with commas if needed)\n- Focus on what % actually DID or COMPLETED (not what it said it would do)\n- Include specific details like: files created/modified, features implemented, bugs fixed, configurations changed\n- Use past tense to indicate completion\n- Be natural when spoken aloud\n- If % asked questions or needs clarification, summarize that instead (e.g., '% has questions about...')\n\nExamples of good summaries:\n- '% successfully implemented the Anthropic API client module, created a transcript parser for JSONL files, and integrated text-to-speech notifications with ElevenLabs.'\n- '% fixed the authentication bug in login.tsx by updating the JWT token validation and added proper error handling.'\n- '% refactored the database queries to use prepared statements and added indexes to improve performance by 40 percent.'\n- '% has a few questions about the notification preferences you'd like for the voice assistant feature.'\n- '% encountered an error while running tests and needs your help to resolve the failing authentication module.'\n\nDo not include any preamble, explanation, or quotes - just the summary sentence starting with '%'.";

/// Instruction for an attention request, before the optional context; each
/// marker stands for the agent name.
pub const NOTIFICATION_PROMPT_HEAD: &'static str = "You are a voice notification assistant for %, an AI coding assistant. % needs the user's attention.";

/// Label placed before the hook's own message inside the attention prompt.
pub const CONTEXT_LABEL: &'static str = "\n\nNotification context: ";

/// Instruction for an attention request, after the optional context; each
/// marker stands for the agent name.
pub const NOTIFICATION_PROMPT_TAIL: &'static str = "\n\nYour summary should:\n- ALWAYS start with '%' as the subject\n- Be exactly one sentence\n- Explain what % was working on when it needed attention\n- If it's waiting for permission, mention what command it wants to run\n- If it's been idle, mention what it was last working on\n- Be natural when spoken aloud\n\nExamples:\n- '% needs your permission to run npm install for the React project dependencies.'\n- '% has been idle for 60 seconds while implementing the authentication module and is waiting for your next instruction.'\n- '% requires your approval to execute the database migration script.'\n\nDo not include any preamble, explanation, or quotes - just the summary sentence starting with '%'.";

/// The two kinds of hook event that select a prompt.
#[derive(Debug, Clone, Copy, PartialEq, Eq, Structural)]
pub enum EventKind {
    Stop,
    Notification,
}

pub open spec fn event_kind_of(name: Seq<char>) -> EventKind {
    if name == NOTIFICATION_EVENT@ {
        EventKind::Notification
    } else {
        EventKind::Stop
    }
}

impl EventKind {
    /// "Notification" selects the attention prompt; every other name is a finished task.
    pub fn parse(name: &str) -> (r: EventKind)
        ensures
            r == event_kind_of(name@),
    {
        if String::from_str(name) == String::from_str(NOTIFICATION_EVENT) {
            EventKind::Notification
        } else {
            EventKind::Stop
        }
    }
}

pub open spec fn opt_view(o: Option<&str>) -> Option<Seq<char>> {
    match o {
        Some(s) => Some(s@),
        None => None,
    }
}

/// The system instruction for an event kind, an agent name and an optional
/// hook message.
pub open spec fn prompt_for(kind: EventKind, agent: Seq<char>, message: Option<Seq<char>>) -> Seq<
    char,
> {
    match kind {
        EventKind::Stop => filled(STOP_PROMPT@, agent),
        EventKind::Notification => {
            let context = match message {
                Some(m) => CONTEXT_LABEL@ + m,
                None => Seq::empty(),
            };
            filled(NOTIFICATION_PROMPT_HEAD@, agent) + context + filled(
                NOTIFICATION_PROMPT_TAIL@,
                agent,
            )
        },
    }
}

pub fn system_prompt(kind: EventKind, agent: &str, message: Option<&str>) -> (r: String)
    ensures
        r@ == prompt_for(kind, agent@, opt_view(message)),
{
    match kind {
        EventKind::Stop => fill_template(STOP_PROMPT, agent),
        EventKind::Notification => {
            let mut p = fill_template(NOTIFICATION_PROMPT_HEAD, agent);
            match message {
                Some(m) => {
                    p.append(CONTEXT_LABEL);
                    p.append(m);
                },
                None => {},
            }
            let tail = fill_template(NOTIFICATION_PROMPT_TAIL, agent);
            p.append(tail.as_str());
            proof {
                let context = match opt_view(message) {
                    Some(m) => CONTEXT_LABEL@ + m,
                    None => Seq::<char>::empty(),
                };
                assert(p@ == filled(NOTIFICATION_PROMPT_HEAD@, agent@) + context + filled(
                    NOTIFICATION_PROMPT_TAIL@,
                    agent@,
                ));
            }
            p
        },
    }
}

/// Whether `p` occurs in `s` as a contiguous run.
pub open spec fn has_infix(s: Seq<char>, p: Seq<char>) -> bool {
    exists|i: int| 0 <= i && i + p.len() <= s.len() && #[trigger] s.subrange(i, i + p.len()) == p
}

pub fn contains_text(s: &str, p: &str) -> (r: bool)
    ensures
        r == has_infix(s@, p@),
{
    let n = s.unicode_len();
    let m = p.unicode_len();
    if m > n {
        return false;
    }
    if m == 0 {
        assert(s@.subrange(0, 0 + p@.len() as int) =~= p@);
        return true;
    }
    let pat = String::from_str(p);
    let last = n - m;
    let mut i: usize = 0;
    while i <= last
        invariant
            n == s@.len(),
            m == p@.len(),
            1 <= m <= n,
            last == n - m,
            i <= last + 1,
            pat@ == p@,
            forall|j: int| 0 <= j < i ==> #[trigger] s@.subrange(j, j + m) != p@,
        decreases last + 1 - i,
    {
        if String::from_str(s.substring_char(i, i + m)) == pat {
            return true;
        }
        i = i + 1;
    }
    proof {
        assert forall|j: int| 0 <= j && j + p@.len() <= s@.len() implies #[trigger] s@.subrange(
            j,
            j + p@.len(),
        ) != p@ by {
            assert(j < i);
        }
    }
    false
}

/// Index of the first listed model of the preferred family at or after `i`
/// (or `ids.len()`).
pub open spec fn preferred_index(ids: Seq<String>, i: int) -> int
    decreases ids.len() - i,
{
    if i < 0 || i >= ids.len() {
        ids.len() as int
    } else if has_infix(ids[i]@, PREFERRED_MODEL_FAMILY@) {
        i
    } else {
        preferred_index(ids, i + 1)
    }
}

/// The model that summaries use: the configured one; else the first listed
/// model of the preferred family; else the first listed model; else none.
pub open spec fn chosen_model(configured: Option<String>, listed: Option<Vec<String>>) -> Option<
    Seq<char>,
> {
    match configured {
        Some(m) => Some(m@),
        None => match listed {
            None => None,
            Some(ids) => if ids@.len() == 0 {
                None
            } else if preferred_index(ids@, 0) < ids@.len() {
                Some(ids@[preferred_index(ids@, 0)]@)
            } else {
                Some(ids@[0]@)
            },
        },
    }
}

/// Picks the summary model; `listed` holds the service's model ids, most
/// recent first, where they could be listed.
pub fn choose_model(configured: Option<String>, listed: Option<Vec<String>>) -> (r: Option<String>)
    ensures
        match r {
            Some(m) => chosen_model(configured, listed) == Some(m@),
            None => chosen_model(configured, listed) is None,
        },
{
    match configured {
        Some(m) => Some(m),
        None => match &listed {
            None => None,
            Some(ids) => {
                if ids.len() == 0 {
                    return None;
                }
                let mut i: usize = 0;
                while i < ids.len()
                    invariant
                        configured is None,
                        listed == Some(*ids),
                        ids@.len() > 0,
                        i <= ids@.len(),
                        preferred_index(ids@, 0) == preferred_index(ids@, i as int),
                    decreases ids.len() - i,
                {
                    if contains_text(ids[i].as_str(), PREFERRED_MODEL_FAMILY) {
                        let found = ids[i].clone();
                        proof {
                            assert(preferred_index(ids@, i as int) == i);
                            assert(found@ == ids@[i as int]@);
                        }
                        return Some(found);
                    }
                    i = i + 1;
                }
                Some(ids[0].clone())
            },
        },
    }
}

/// One request to the text-generation service: the raw text as the single
/// user turn, under a system instruction.
#[derive(Debug, Clone)]
pub struct SummaryRequest {
    pub model: String,
    pub max_tokens: u32,
    pub user_text: String,
    pub system: String,
}

/// Client settings for the text-generation service.
#[derive(Debug, Clone)]
pub struct AnthropicClient {
    api_key: String,
    model: String,
    agent: String,
}

impl AnthropicClient {
    /// The API key sent with each request.
    pub closed spec fn key(&self) -> Seq<char> {
        self.api_key@
    }

    /// The model asked for summaries.
    pub closed spec fn model(&self) -> Seq<char> {
        self.model@
    }

    /// The agent's display name, which each summary starts with.
    pub closed spec fn agent(&self) -> Seq<char> {
        self.agent@
    }

    pub fn new(api_key: String, model: String, agent: String) -> (r: AnthropicClient)
        ensures
            r.key() == api_key@,
            r.model() == model@,
            r.agent() == agent@,
    {
        AnthropicClient { api_key, model, agent }
    }

    pub fn api_key(&self) -> (r: &String)
        ensures
            r@ == self.key(),
    {
        &self.api_key
    }

    /// The request that summarises `text` for a hook event.
    pub fn request(&self, text: &str, kind: EventKind, message: Option<&str>) -> (r:
        SummaryRequest)
        ensures
            r.model@ == self.model(),
            r.max_tokens == SUMMARY_MAX_TOKENS,
            r.user_text@ == text@,
            r.system@ == prompt_for(kind, self.agent(), opt_view(message)),
    {
        SummaryRequest {
            model: self.model.clone(),
            max_tokens: SUMMARY_MAX_TOKENS,
            user_text: String::from_str(text),
            system: system_prompt(kind, self.agent.as_str(), message),
        }
    }
}

/// Why no summary came back.
#[derive(Debug, Clone, PartialEq, Eq)]
pub enum SummaryError {
    /// The service answered outside the success class.
    Api(ApiError),
    /// The request did not complete.
    Transport(String),
    /// A success answer whose body is not the expected reply shape.
    Malformed,
    /// A success answer with an empty content list.
    Empty,
}

/// Reads the summary out of a reply: the first content block, trimmed.
/// `contents` holds the text of each content block when the body has the
/// reply shape, and is `None` when it has not.
pub fn summary_from_reply(status: u16, body: String, contents: Option<Vec<String>>) -> (r: Result<
    String,
    SummaryError,
>)
    ensures
        !success_class(status) ==> r == Err::<String, SummaryError>(
            SummaryError::Api(ApiError { status, body }),
        ),
        success_class(status) && contents is None ==> r == Err::<String, SummaryError>(
            SummaryError::Malformed,
        ),
        success_class(status) && contents is Some && contents->0@.len() == 0 ==> r == Err::<
            String,
            SummaryError,
        >(SummaryError::Empty),
        success_class(status) && contents is Some && contents->0@.len() > 0 ==> r is Ok
            && r->Ok_0@ == trimmed(contents->0@[0]@),
{
    if !is_success(status) {
        return Err(SummaryError::Api(ApiError { status, body }));
    }
    match contents {
        None => Err(SummaryError::Malformed),
        Some(c) => {
            if c.len() == 0 {
                Err(SummaryError::Empty)
            } else {
                Ok(trim_text(c[0].as_str()))
            }
        },
    }
}

} // verus!
