use voice_notifier::audio::{AudioError, AudioPlayer};
use voice_notifier::cache::{default_message, CacheStore};
use voice_notifier::config::{default_agent_name, default_model_id, default_voice_id, Config};
use voice_notifier::gate::{gate_decision, GateDecision, LockObservation};
use voice_notifier::http::{is_success, ApiError};
use voice_notifier::pipeline::{
    attention_message, event_kind, summary_context, transcript_text, Delivery, NotificationRequest, Source, Step,
};
use voice_notifier::summary::{
    choose_model, contains_text, summary_from_reply, system_prompt, AnthropicClient, EventKind,
    SummaryError,
    NOTIFICATION_PROMPT_HEAD, NOTIFICATION_PROMPT_TAIL, STOP_PROMPT,
};
use voice_notifier::text::fill_template;
use voice_notifier::transcript::TranscriptError;

const AGENT: &str = "Nova";

fn config(eleven: Option<&str>) -> Config {
    Config::from_values(
        eleven.map(|k| k.to_string()),
        None,
        "/tmp/cache".to_string(),
        None,
        None,
        None,
        Some(AGENT.to_string()),
        None,
    )
}

fn default_text() -> String {
    default_message(AGENT)
}

#[test]
fn gate_young_lock_is_busy() {
    assert_eq!(gate_decision(LockObservation::Age(5_000)), GateDecision::Busy);
    assert_eq!(gate_decision(LockObservation::Age(0)), GateDecision::Busy);
    assert_eq!(gate_decision(LockObservation::Age(29_999)), GateDecision::Busy);
}

#[test]
fn gate_old_lock_is_reclaimed() {
    assert_eq!(gate_decision(LockObservation::Age(30_000)), GateDecision::ReclaimStale);
    assert_eq!(gate_decision(LockObservation::Age(u64::MAX)), GateDecision::ReclaimStale);
}

#[test]
fn gate_without_lock_admits() {
    assert_eq!(gate_decision(LockObservation::Absent), GateDecision::Admit);
    assert_eq!(gate_decision(LockObservation::Unreadable), GateDecision::Admit);
}

#[test]
fn gate_lock_from_the_future_is_busy() {
    assert_eq!(gate_decision(LockObservation::Future), GateDecision::Busy);
}

#[test]
fn default_text_without_key_plays_cache() {
    let d0 = Delivery::start(&default_text(), &config(None), false);
    assert!(d0.is_default);
    assert!(!d0.speech_enabled);
    assert_eq!(d0.step, Step::CheckCache);
    let mut d = d0;
    d.advance(true);
    assert_eq!(d.step, Step::PlayCached);
    d.advance(true);
    assert_eq!(d.step, Step::Done);
    assert!(d.is_finished());
}

#[test]
fn synthesis_then_store_cache_for_default() {
    let mut d = Delivery::start(&default_text(), &config(Some("key")), false);
    assert_eq!(d.step, Step::Synthesize);
    d.advance(true);
    assert_eq!(d.step, Step::PlaySynthesized);
    d.advance(true);
    assert_eq!(d.step, Step::StoreCache);
    d.advance(false);
    assert_eq!(d.step, Step::Done);
}

#[test]
fn other_text_falls_back_to_speech() {
    let mut d = Delivery::start("hello", &config(Some("key")), false);
    d.advance(false);
    assert_eq!(d.step, Step::Speak);
    d.advance(false);
    assert_eq!(d.step, Step::Failed);
    assert!(d.is_finished());
    let forced = Delivery::start("hello", &config(Some("key")), true);
    assert_eq!(forced.step, Step::Speak);
}

#[test]
fn failed_default_synthesis_tries_cache_then_speech() {
    let mut d = Delivery::start(&default_text(), &config(Some("key")), false);
    d.advance(false);
    assert_eq!(d.step, Step::CheckCache);
    d.advance(false);
    assert_eq!(d.step, Step::Speak);
    d.advance(true);
    assert_eq!(d.step, Step::Done);
}

#[test]
fn summarizer_error_falls_back_to_truncation() {
    let reply = summary_from_reply(500, "boom".to_string(), None);
    assert_eq!(
        reply,
        Err(SummaryError::Api(ApiError { status: 500, body: "boom".to_string() }))
    );
    let last: Result<String, TranscriptError> =
        Ok("Refactored the parser. Also updated docs.".to_string());
    let text = transcript_text(EventKind::Stop, AGENT, &default_text(), &last, &Some(reply));
    assert_eq!(text, "Refactored the parser.");
    let d = Delivery::start(&text, &config(Some("key")), false);
    assert_eq!(d.step, Step::Synthesize);
}

#[test]
fn transcript_text_cases() {
    let missing: Result<String, TranscriptError> = Err(TranscriptError::NotFound);
    assert_eq!(transcript_text(EventKind::Stop, AGENT, &default_text(), &missing, &None), "Nova has finished a task");
    assert_eq!(
        transcript_text(EventKind::Notification, AGENT, &default_text(), &missing, &None),
        "Nova needs your attention"
    );
    assert_eq!(attention_message("Nova"), "Nova needs your attention");
    let last: Result<String, TranscriptError> = Ok("Wrote code. More.".to_string());
    assert_eq!(transcript_text(EventKind::Notification, AGENT, &default_text(), &last, &None), "Nova needs your attention");
    assert_eq!(transcript_text(EventKind::Stop, AGENT, &default_text(), &last, &None), "Wrote code.");
    let ok = Some(Ok("Nova wrote code.".to_string()));
    assert_eq!(transcript_text(EventKind::Notification, AGENT, &default_text(), &last, &ok), "Nova wrote code.");
}

#[test]
fn event_kinds() {
    assert_eq!(EventKind::parse("Notification"), EventKind::Notification);
    assert_eq!(EventKind::parse("Stop"), EventKind::Stop);
    assert_eq!(EventKind::parse("notification"), EventKind::Stop);
    assert_eq!(event_kind(&None), EventKind::Stop);
    assert_eq!(event_kind(&Some("Notification".to_string())), EventKind::Notification);
}

#[test]
fn summary_reply_cases() {
    assert_eq!(summary_from_reply(200, String::new(), None), Err(SummaryError::Malformed));
    assert_eq!(summary_from_reply(200, String::new(), Some(vec![])), Err(SummaryError::Empty));
    let r = summary_from_reply(200, String::new(), Some(vec!["  Nova did it. \n".to_string(), "x".to_string()]));
    assert_eq!(r, Ok("Nova did it.".to_string()));
    assert!(matches!(summary_from_reply(404, "nf".to_string(), None), Err(SummaryError::Api(_))));
    assert!(is_success(200) && is_success(299) && !is_success(199) && !is_success(300));
}

#[test]
fn prompts_by_event() {
    let stop = system_prompt(EventKind::Stop, AGENT, Some("ignored"));
    assert_eq!(stop, STOP_PROMPT.replace('%', AGENT));
    assert!(stop.contains("ALWAYS start with 'Nova' as the subject"));
    assert!(!stop.contains('%'));
    let p = system_prompt(EventKind::Notification, AGENT, Some("waiting for approval"));
    assert_eq!(
        p,
        format!(
            "{}\n\nNotification context: waiting for approval{}",
            NOTIFICATION_PROMPT_HEAD.replace('%', AGENT),
            NOTIFICATION_PROMPT_TAIL.replace('%', AGENT)
        )
    );
    assert!(p.starts_with("You are a voice notification assistant for Nova, an AI coding assistant."));
    let bare = system_prompt(EventKind::Notification, AGENT, None);
    assert_eq!(
        bare,
        format!(
            "{}{}",
            NOTIFICATION_PROMPT_HEAD.replace('%', AGENT),
            NOTIFICATION_PROMPT_TAIL.replace('%', AGENT)
        )
    );
    let c = AnthropicClient::new("key".to_string(), "model-x".to_string(), AGENT.to_string());
    let req = c.request("long text", EventKind::Stop, None);
    assert_eq!(req.user_text, "long text");
    assert_eq!(req.system, stop);
    assert_eq!(req.model, "model-x");
    assert_eq!(req.max_tokens, 1000);
    assert_eq!(c.api_key(), "key");
}

#[test]
fn template_filling() {
    assert_eq!(fill_template("% and %!", "Ada"), "Ada and Ada!");
    assert_eq!(fill_template("none", "Ada"), "none");
    assert_eq!(fill_template("", "Ada"), "");
}

#[test]
fn request_priorities() {
    let r = NotificationRequest::from_options(&default_text(), true, Some("t".to_string()), None, None, None, None);
    assert!(matches!(r.source, Source::Text(ref t) if *t == default_text()));
    let r = NotificationRequest::from_options(&default_text(), false, Some("t".to_string()), Some("f".to_string()), None, None, None);
    assert!(matches!(r.source, Source::Text(ref t) if t == "t"));
    let r = NotificationRequest::from_options(&default_text(), false, None, Some("f".to_string()), Some("p".to_string()), None, None);
    assert!(matches!(r.source, Source::File(ref f) if f == "f"));
    let r = NotificationRequest::from_options(&default_text(), false, None, None, Some("p".to_string()), Some("Stop".to_string()), None);
    assert!(matches!(r.source, Source::Transcript { ref path, .. } if path == "p"));
    let r = NotificationRequest::from_options(&default_text(), false, None, None, None, None, None);
    assert!(matches!(r.source, Source::Text(ref t) if *t == default_text()));
}

#[test]
fn cache_keeps_last_default_audio() {
    let d = default_text();
    let mut store = CacheStore::new(&d);
    assert_eq!(store.cached(&d), None);
    store.populate(&d, vec![1, 2, 3]);
    store.populate(&d, vec![1, 2, 3]);
    assert_eq!(store.cached(&d), Some(&vec![1, 2, 3]));
    store.populate(&d, vec![9]);
    assert_eq!(store.cached(&d), Some(&vec![9]));
    store.populate("other", vec![4]);
    assert_eq!(store.cached(&d), Some(&vec![9]));
    assert_eq!(store.cached("other"), None);
}

#[test]
fn config_defaults() {
    let c = config(None);
    assert_eq!(c.eleven_labs_voice_id, "21m00Tcm4TlvDq8ikWAM");
    assert_eq!(c.eleven_labs_model_id, "eleven_multilingual_v2");
    assert_eq!(default_voice_id(), "21m00Tcm4TlvDq8ikWAM");
    assert_eq!(default_model_id(), "eleven_multilingual_v2");
    assert!(!c.has_eleven_labs_config());
    assert_eq!(c.agent_name, "Nova");
    assert!(c.summarizer(None).is_none());
    assert!(c.speech_client().is_none());
    let c2 = Config::from_values(
        Some("k".to_string()),
        Some("v".to_string()),
        "d".to_string(),
        Some("m".to_string()),
        Some("a".to_string()),
        Some("sm".to_string()),
        None,
        Some("All done".to_string()),
    );
    assert_eq!(c2.default_message, "All done");
    assert_eq!(c.default_message, "Nova has finished a task");
    let mut d = Delivery::start("All done", &c2, true);
    assert!(d.is_default);
    assert_eq!(d.step, Step::CheckCache);
    d.advance(false);
    assert_eq!(d.step, Step::Speak);
    assert_eq!(c2.agent_name, default_agent_name());
    assert_eq!(c2.agent_name, "Your assistant");
    let s = c2.summarizer(Some(vec!["other".to_string()])).unwrap();
    assert_eq!(s.api_key(), "a");
    assert_eq!(s.request("t", EventKind::Stop, None).model, "sm");
    let sp = c2.speech_client().unwrap();
    assert_eq!(sp.api_key(), "k");
    assert_eq!(sp.endpoint(), "https://api.elevenlabs.io/v1/text-to-speech/v");
    assert_eq!(sp.request("t").model_id, "m");
    assert!(c2.has_eleven_labs_config());
    assert_eq!(c2.eleven_labs_voice_id, "v");
    assert_eq!(c2.eleven_labs_model_id, "m");
    assert_eq!(c2.anthropic_api_key, Some("a".to_string()));
}

#[test]
fn audio_arguments_and_outcomes() {
    let p = AudioPlayer::new();
    assert_eq!(p, AudioPlayer::default());
    assert_eq!(p.play_args("/a.mp3"), vec!["afplay".to_string(), "/a.mp3".to_string()]);
    assert_eq!(p.say_args("Test"), vec!["say".to_string(), "Test".to_string()]);
    assert_eq!(p.foreground_outcome(true, String::new()), Ok(()));
    assert_eq!(
        p.foreground_outcome(false, "bad".to_string()),
        Err(AudioError::PlaybackFailed("bad".to_string()))
    );
}

fn ids(v: &[&str]) -> Option<Vec<String>> {
    Some(v.iter().map(|s| s.to_string()).collect())
}

#[test]
fn model_choice() {
    assert_eq!(choose_model(Some("mine".to_string()), ids(&["x-sonnet-9"])), Some("mine".to_string()));
    assert_eq!(choose_model(None, ids(&["x-opus-5", "x-sonnet-4", "x-sonnet-3"])), Some("x-sonnet-4".to_string()));
    assert_eq!(choose_model(None, ids(&["x-opus-5", "x-haiku-3"])), Some("x-opus-5".to_string()));
    assert_eq!(choose_model(None, ids(&[])), None);
    assert_eq!(choose_model(None, None), None);
    assert!(contains_text("model-sonnet-4", "sonnet"));
    assert!(!contains_text("model-sonne", "sonnet"));
    assert!(contains_text("abc", ""));
    assert!(!contains_text("", "a"));
}

#[test]
fn summarizer_with_key_only() {
    let c = Config::from_values(None, None, "d".to_string(), None, Some("key".to_string()), None, None, None);
    let s = c.summarizer(ids(&["x-opus-5", "x-sonnet-4"])).unwrap();
    assert_eq!(s.api_key(), "key");
    assert_eq!(s.request("t", EventKind::Stop, None).model, "x-sonnet-4");
    assert!(c.summarizer(None).is_none());
}

#[test]
fn summary_context_cases() {
    assert_eq!(summary_context(&None, Some("m".to_string())), (EventKind::Stop, None));
    assert_eq!(
        summary_context(&Some("Notification".to_string()), Some("m".to_string())),
        (EventKind::Notification, Some("m".to_string()))
    );
    assert_eq!(summary_context(&Some("Stop".to_string()), None), (EventKind::Stop, None));
}
