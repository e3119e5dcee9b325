use vstd::prelude::*;
use vstd::string::*;

use crate::cache::{default_message, default_text};
use crate::speech::ElevenLabsClient;
use crate::summary::{choose_model, chosen_model, AnthropicClient};

verus! {

/// Voice used when none is configured.
pub const DEFAULT_VOICE_ID: &'static str = "21m00Tcm4TlvDq8ikWAM";

/// Speech model used when none is configured.
pub const DEFAULT_MODEL_ID: &'static str = "eleven_multilingual_v2";

/// Display name of the agent when none is configured.
pub const DEFAULT_AGENT_NAME: &'static str = "Your assistant";

/// Settings read from the environment.
#[derive(Debug, Clone)]
pub struct Config {
    pub eleven_labs_api_key: Option<String>,
    pub eleven_labs_voice_id: String,
    pub cache_dir: String,
    pub eleven_labs_model_id: String,
    pub anthropic_api_key: Option<String>,
    pub anthropic_model: Option<String>,
    pub agent_name: String,
    pub default_message: String,
}

pub fn default_voice_id() -> (r: String)
    ensures
        r@ == DEFAULT_VOICE_ID@,
{
    String::from_str(DEFAULT_VOICE_ID)
}

pub fn default_model_id() -> (r: String)
    ensures
        r@ == DEFAULT_MODEL_ID@,
{
    String::from_str(DEFAULT_MODEL_ID)
}

pub open spec fn or_default(v: Option<String>, d: Seq<char>) -> Seq<char> {
    match v {
        Some(s) => s@,
        None => d,
    }
}

pub fn default_agent_name() -> (r: String)
    ensures
        r@ == DEFAULT_AGENT_NAME@,
{
    String::from_str(DEFAULT_AGENT_NAME)
}

impl Config {
    /// Settings from the values found in the environment; a missing voice,
    /// speech model or agent name falls back to its default, and a missing
    /// default message is the agent name followed by the default suffix.
    pub fn from_values(
        eleven_labs_api_key: Option<String>,
        eleven_labs_voice_id: Option<String>,
        cache_dir: String,
        eleven_labs_model_id: Option<String>,
        anthropic_api_key: Option<String>,
        anthropic_model: Option<String>,
        agent_name: Option<String>,
        default_message_text: Option<String>,
    ) -> (r: Config)
        ensures
            r.eleven_labs_api_key == eleven_labs_api_key,
            r.eleven_labs_voice_id@ == or_default(eleven_labs_voice_id, DEFAULT_VOICE_ID@),
            r.cache_dir == cache_dir,
            r.eleven_labs_model_id@ == or_default(eleven_labs_model_id, DEFAULT_MODEL_ID@),
            r.anthropic_api_key == anthropic_api_key,
            r.anthropic_model == anthropic_model,
            r.agent_name@ == or_default(agent_name, DEFAULT_AGENT_NAME@),
            r.default_message@ == or_default(default_message_text, default_text(r.agent_name@)),
    {
        let voice = match eleven_labs_voice_id {
            Some(v) => v,
            None => default_voice_id(),
        };
        let model = match eleven_labs_model_id {
            Some(m) => m,
            None => default_model_id(),
        };
        let agent = match agent_name {
            Some(a) => a,
            None => default_agent_name(),
        };
        let fallback = match default_message_text {
            Some(d) => d,
            None => default_message(agent.as_str()),
        };
        Config {
            eleven_labs_api_key,
            eleven_labs_voice_id: voice,
            cache_dir,
            eleven_labs_model_id: model,
            anthropic_api_key,
            anthropic_model,
            agent_name: agent,
            default_message: fallback,
        }
    }

    /// The summariser client: present whenever a key is configured and a
    /// model could be chosen (see `choose_model`); `listed` holds the
    /// service's model ids where they were asked for and could be read.
    pub fn summarizer(&self, listed: Option<Vec<String>>) -> (r: Option<AnthropicClient>)
        ensures
            r is Some <==> (self.anthropic_api_key is Some && chosen_model(
                self.anthropic_model,
                listed,
            ) is Some),
            r is Some ==> r->0.key() == self.anthropic_api_key->0@ && Some(r->0.model())
                == chosen_model(self.anthropic_model, listed) && r->0.agent() == self.agent_name@,
    {
        match &self.anthropic_api_key {
            Some(key) => match choose_model(self.anthropic_model.clone(), listed) {
                Some(model) => Some(AnthropicClient::new(key.clone(), model, self.agent_name.clone())),
                None => None,
            },
            None => None,
        }
    }

    /// The speech service client, when a key is configured.
    pub fn speech_client(&self) -> (r: Option<ElevenLabsClient>)
        ensures
            r is Some <==> self.eleven_labs_api_key is Some,
            r is Some ==> r->0.key() == self.eleven_labs_api_key->0@ && r->0.voice()
                == self.eleven_labs_voice_id@ && r->0.model() == self.eleven_labs_model_id@,
    {
        match &self.eleven_labs_api_key {
            Some(key) => Some(
                ElevenLabsClient::new(
                    key.clone(),
                    self.eleven_labs_voice_id.clone(),
                    self.eleven_labs_model_id.clone(),
                ),
            ),
            None => None,
        }
    }

    pub fn has_eleven_labs_config(&self) -> (r: bool)
        ensures
            r == self.eleven_labs_api_key is Some,
    {
        self.eleven_labs_api_key.is_some()
    }
}

} // verus!
