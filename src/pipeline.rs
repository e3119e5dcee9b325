use vstd::prelude::*;
use vstd::string::*;

use crate::config::Config;
use crate::summary::{event_kind_of, EventKind, SummaryError};
use crate::text::{truncate_message, truncated};
use crate::transcript::TranscriptError;

verus! {

/// What follows the agent name in the message spoken when an attention
/// request could not be summarised.
pub const ATTENTION_SUFFIX: &'static str = " needs your attention";

pub open spec fn attention_text(agent: Seq<char>) -> Seq<char> {
    agent + ATTENTION_SUFFIX@
}

pub fn attention_message(agent: &str) -> (r: String)
    ensures
        r@ == attention_text(agent@),
{
    String::from_str(agent).concat(ATTENTION_SUFFIX)
}

/// Where the notification comes from.
#[derive(Debug, Clone)]
pub enum Source {
    /// Say this text.
    Text(String),
    /// Play this audio file and nothing else.
    File(String),
    /// Summarise the last assistant message of this transcript; `event` is
    /// the hook event name, `message` the hook's own message.
    Transcript { path: String, event: Option<String>, message: Option<String> },
}

/// One notification to deliver.
#[derive(Debug, Clone)]
pub struct NotificationRequest {
    pub source: Source,
}

impl NotificationRequest {
    /// The request that the command line asks for. Test mode says the
    /// default message `fallback`; otherwise explicit text wins over a file, a
    /// file over a transcript, and with none of them the default message is said.
    pub fn from_options(
        fallback: &str,
        test: bool,
        text: Option<String>,
        file: Option<String>,
        transcript: Option<String>,
        event: Option<String>,
        message: Option<String>,
    ) -> (r: NotificationRequest)
        ensures
            test ==> r.source is Text && r.source->Text_0@ == fallback@,
            !test && text is Some ==> r.source == Source::Text(text->0),
            !test && text is None && file is Some ==> r.source == Source::File(file->0),
            !test && text is None && file is None && transcript is Some ==> r.source
                == (Source::Transcript { path: transcript->0, event, message }),
            !test && text is None && file is None && transcript is None ==> r.source is Text
                && r.source->Text_0@ == fallback@,
    {
        let source = if test {
            Source::Text(String::from_str(fallback))
        } else {
            match text {
                Some(t) => Source::Text(t),
                None => match file {
                    Some(f) => Source::File(f),
                    None => match transcript {
                        Some(path) => Source::Transcript { path, event, message },
                        None => Source::Text(String::from_str(fallback)),
                    },
                },
            }
        };
        NotificationRequest { source }
    }
}

/// The event kind of an optional hook event name; without one the transcript
/// is treated as a finished task.
pub open spec fn kind_of_event(event: Option<String>) -> EventKind {
    match event {
        Some(e) => event_kind_of(e@),
        None => EventKind::Stop,
    }
}

pub fn event_kind(event: &Option<String>) -> (r: EventKind)
    ensures
        r == kind_of_event(*event),
{
    match event {
        Some(e) => EventKind::parse(e.as_str()),
        None => EventKind::Stop,
    }
}

/// The event kind and hook message that a transcript is summarised with:
/// without an event name it is a finished task and the hook message is not used.
pub fn summary_context(event: &Option<String>, message: Option<String>) -> (r: (
    EventKind,
    Option<String>,
))
    ensures
        r.0 == kind_of_event(*event),
        event is None ==> r.1 is None,
        event is Some ==> r.1 == message,
{
    match event {
        Some(_) => (event_kind(event), message),
        None => (EventKind::Stop, None),
    }
}

/// Spoken for an event kind when nothing better is known.
pub open spec fn fallback_text(kind: EventKind, agent: Seq<char>, fallback: Seq<char>) -> Seq<
    char,
> {
    match kind {
        EventKind::Notification => attention_text(agent),
        EventKind::Stop => fallback,
    }
}

/// Spoken for an event kind when the summary is missing but the message is known.
pub open spec fn unsummarised_text(kind: EventKind, agent: Seq<char>, last: Seq<char>) -> Seq<
    char,
> {
    match kind {
        EventKind::Notification => attention_text(agent),
        EventKind::Stop => truncated(last),
    }
}

/// The resolved text of a transcript notification; `fallback` is the
/// default message. `extracted` is the last
/// assistant message or why there is none; `summary` is the summariser's
/// answer, or `None` where no summariser is configured.
pub fn transcript_text(
    kind: EventKind,
    agent: &str,
    fallback: &str,
    extracted: &Result<String, TranscriptError>,
    summary: &Option<Result<String, SummaryError>>,
) -> (r: String)
    ensures
        extracted is Err ==> r@ == fallback_text(kind, agent@, fallback@),
        extracted is Ok && summary is Some && summary->0 is Ok ==> r@ == summary->0->Ok_0@,
        extracted is Ok && !(summary is Some && summary->0 is Ok) ==> r@ == unsummarised_text(
            kind,
            agent@,
            extracted->Ok_0@,
        ),
{
    match extracted {
        Err(_) => match kind {
            EventKind::Notification => attention_message(agent),
            EventKind::Stop => String::from_str(fallback),
        },
        Ok(last) => match summary {
            Some(Ok(s)) => s.clone(),
            _ => match kind {
                EventKind::Notification => attention_message(agent),
                EventKind::Stop => truncate_message(last.as_str()),
            },
        },
    }
}

/// The stages of delivering a resolved text, in the order they are tried.
#[derive(Debug, Clone, Copy, PartialEq, Eq, Structural)]
pub enum Step {
    /// Render the text with the speech service.
    Synthesize,
    /// Play the rendered audio in the background.
    PlaySynthesized,
    /// Keep the rendered audio of the default message for reuse.
    StoreCache,
    /// Look for kept audio of the default message.
    CheckCache,
    /// Play the kept audio in the background.
    PlayCached,
    /// Speak the text with the local facility.
    Speak,
    /// Something was heard.
    Done,
    /// The last fallback failed too.
    Failed,
}

/// The stage after `s`, given whether `s` succeeded (for `CheckCache`:
/// whether kept audio exists) and whether the text is the default message.
pub open spec fn next_step(s: Step, ok: bool, is_default: bool) -> Step {
    let fall_back = if is_default {
        Step::CheckCache
    } else {
        Step::Speak
    };
    match s {
        Step::Synthesize => if ok {
            Step::PlaySynthesized
        } else {
            fall_back
        },
        Step::PlaySynthesized => if !ok {
            fall_back
        } else if is_default {
            Step::StoreCache
        } else {
            Step::Done
        },
        Step::StoreCache => Step::Done,
        Step::CheckCache => if ok {
            Step::PlayCached
        } else {
            Step::Speak
        },
        Step::PlayCached => if ok {
            Step::Done
        } else {
            Step::Speak
        },
        Step::Speak => if ok {
            Step::Done
        } else {
            Step::Failed
        },
        Step::Done => Step::Done,
        Step::Failed => Step::Failed,
    }
}

/// How many stages can still follow; every move lowers it.
pub open spec fn remaining(s: Step) -> nat {
    match s {
        Step::Synthesize => 6,
        Step::PlaySynthesized => 5,
        Step::StoreCache => 4,
        Step::CheckCache => 3,
        Step::PlayCached => 2,
        Step::Speak => 1,
        Step::Done => 0,
        Step::Failed => 0,
    }
}

pub open spec fn is_terminal(s: Step) -> bool {
    s == Step::Done || s == Step::Failed
}

/// The cache stages are reached only for the default message.
pub open spec fn touches_cache(s: Step) -> bool {
    s == Step::StoreCache || s == Step::CheckCache || s == Step::PlayCached
}

/// Delivery of one resolved text through the fallback chain.
#[derive(Debug, Clone, Copy)]
pub struct Delivery {
    pub step: Step,
    pub is_default: bool,
    pub speech_enabled: bool,
}

impl Delivery {
    pub open spec fn wf(&self) -> bool {
        &&& touches_cache(self.step) ==> self.is_default
        &&& (self.step == Step::Synthesize || self.step == Step::PlaySynthesized)
            ==> self.speech_enabled
    }

    /// Starts delivery of `text`; the speech service is tried only when it
    /// is configured and not switched off.
    pub fn start(text: &str, config: &Config, force_say: bool) -> (r: Delivery)
        ensures
            r.wf(),
            r.is_default == (text@ == config.default_message@),
            r.speech_enabled == (!force_say && config.eleven_labs_api_key is Some),
            r.speech_enabled ==> r.step == Step::Synthesize,
            !r.speech_enabled && r.is_default ==> r.step == Step::CheckCache,
            !r.speech_enabled && !r.is_default ==> r.step == Step::Speak,
    {
        let is_default = String::from_str(text) == config.default_message;
        let speech_enabled = !force_say && config.has_eleven_labs_config();
        let step = if speech_enabled {
            Step::Synthesize
        } else if is_default {
            Step::CheckCache
        } else {
            Step::Speak
        };
        Delivery { step, is_default, speech_enabled }
    }

    /// Moves on after the current stage reported `ok`.
    pub fn advance(&mut self, ok: bool)
        requires
            old(self).wf(),
        ensures
            final(self).wf(),
            final(self).step == next_step(old(self).step, ok, old(self).is_default),
            final(self).is_default == old(self).is_default,
            final(self).speech_enabled == old(self).speech_enabled,
            !is_terminal(old(self).step) ==> remaining(final(self).step) < remaining(
                old(self).step,
            ),
            final(self).step == Step::Failed ==> old(self).step == Step::Failed || (old(
                self,
            ).step == Step::Speak && !ok),
    {
        let fall_back = if self.is_default {
            Step::CheckCache
        } else {
            Step::Speak
        };
        let next = match self.step {
            Step::Synthesize => if ok {
                Step::PlaySynthesized
            } else {
                fall_back
            },
            Step::PlaySynthesized => if !ok {
                fall_back
            } else if self.is_default {
                Step::StoreCache
            } else {
                Step::Done
            },
            Step::StoreCache => Step::Done,
            Step::CheckCache => if ok {
                Step::PlayCached
            } else {
                Step::Speak
            },
            Step::PlayCached => if ok {
                Step::Done
            } else {
                Step::Speak
            },
            Step::Speak => if ok {
                Step::Done
            } else {
                Step::Failed
            },
            Step::Done => Step::Done,
            Step::Failed => Step::Failed,
        };
        self.step = next;
    }

    pub fn is_finished(&self) -> (r: bool)
        ensures
            r == is_terminal(self.step),
    {
        self.step == Step::Done || self.step == Step::Failed
    }
}

/// Whatever each stage reports, delivery ends within six moves; the cache
/// stages are never visited for any other text than the default message, and
/// the speech service is never called when it is not enabled.
pub proof fn lemma_delivery_ends(d: Delivery, outcomes: Seq<bool>)
    requires
        d.wf(),
        outcomes.len() >= 6,
    ensures
        is_terminal(run(d, outcomes, 6).step),
        forall|n: nat|
            n <= outcomes.len() ==> (touches_cache(#[trigger] run(d, outcomes, n).step)
                ==> d.is_default),
        forall|n: nat|
            n <= outcomes.len() ==> ((#[trigger] run(d, outcomes, n).step == Step::Synthesize
                || run(d, outcomes, n).step == Step::PlaySynthesized) ==> d.speech_enabled),
{
    lemma_run_bound(d, outcomes, 6);
    assert forall|n: nat| n <= outcomes.len() implies run(d, outcomes, n).wf()
        && run(d, outcomes, n).is_default == d.is_default
        && run(d, outcomes, n).speech_enabled == d.speech_enabled by {
        lemma_run_bound(d, outcomes, n);
    }
}

/// The delivery after the first `n` reported outcomes.
pub open spec fn run(d: Delivery, outcomes: Seq<bool>, n: nat) -> Delivery
    decreases n,
{
    if n == 0 {
        d
    } else {
        let prev = run(d, outcomes, (n - 1) as nat);
        Delivery { step: next_step(prev.step, outcomes[n - 1], prev.is_default), ..prev }
    }
}

proof fn lemma_run_bound(d: Delivery, outcomes: Seq<bool>, n: nat)
    requires
        d.wf(),
        n <= outcomes.len(),
    ensures
        run(d, outcomes, n).wf(),
        run(d, outcomes, n).is_default == d.is_default,
        run(d, outcomes, n).speech_enabled == d.speech_enabled,
        remaining(run(d, outcomes, n).step) + n <= 6 || is_terminal(run(d, outcomes, n).step),
    decreases n,
{
    if n > 0 {
        lemma_run_bound(d, outcomes, (n - 1) as nat);
    }
}

} // verus!
