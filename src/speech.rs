use vstd::prelude::*;
use vstd::string::*;

use crate::http::ApiError;
use crate::text::ELLIPSIS;

verus! {

/// Longest text sent to the speech service, in characters.
pub const MAX_TTS_LENGTH: usize = 1000;

/// Speech endpoint of the text-to-speech service; the voice id follows it.
pub const TTS_ENDPOINT: &'static str = "https://api.elevenlabs.io/v1/text-to-speech/";

/// Audio format asked of the speech service.
pub const AUDIO_MIME: &'static str = "audio/mpeg";

/// The text that is sent for `t`: longer text is cut to `MAX_TTS_LENGTH`
/// characters and marked with an ellipsis.
pub open spec fn capped(t: Seq<char>) -> Seq<char> {
    if t.len() > MAX_TTS_LENGTH {
        t.subrange(0, MAX_TTS_LENGTH as int) + ELLIPSIS@
    } else {
        t
    }
}

pub fn speech_text(text: &str) -> (r: String)
    ensures
        r@ == capped(text@),
{
    if text.unicode_len() > MAX_TTS_LENGTH {
        String::from_str(text.substring_char(0, MAX_TTS_LENGTH)).concat(ELLIPSIS)
    } else {
        String::from_str(text)
    }
}

/// One synthesis request; the fixed voice settings are part of the wire
/// format and are added where the request is encoded.
#[derive(Debug, Clone)]
pub struct SpeechRequest {
    pub text: String,
    pub model_id: String,
}

/// Client settings for the text-to-speech service.
#[derive(Debug, Clone)]
pub struct ElevenLabsClient {
    api_key: String,
    voice_id: String,
    model_id: String,
}

impl ElevenLabsClient {
    pub closed spec fn key(&self) -> Seq<char> {
        self.api_key@
    }

    pub closed spec fn voice(&self) -> Seq<char> {
        self.voice_id@
    }

    pub closed spec fn model(&self) -> Seq<char> {
        self.model_id@
    }

    pub fn new(api_key: String, voice_id: String, model_id: String) -> (r: ElevenLabsClient)
        ensures
            r.key() == api_key@,
            r.voice() == voice_id@,
            r.model() == model_id@,
    {
        ElevenLabsClient { api_key, voice_id, model_id }
    }

    pub fn api_key(&self) -> (r: &String)
        ensures
            r@ == self.key(),
    {
        &self.api_key
    }

    /// The voice-specific endpoint.
    pub fn endpoint(&self) -> (r: String)
        ensures
            r@ == TTS_ENDPOINT@ + self.voice(),
    {
        String::from_str(TTS_ENDPOINT).concat(self.voice_id.as_str())
    }

    /// The request that synthesises `text`, capped in length.
    pub fn request(&self, text: &str) -> (r: SpeechRequest)
        ensures
            r.text@ == capped(text@),
            r.model_id@ == self.model(),
    {
        SpeechRequest { text: speech_text(text), model_id: self.model_id.clone() }
    }
}

/// Why no audio file was produced.
#[derive(Debug, Clone, PartialEq, Eq)]
pub enum SpeechError {
    /// The service answered outside the success class.
    Api(ApiError),
    /// The request or the download did not complete.
    Transport(String),
    /// The audio could not be written to its file.
    Write(String),
}

} // verus!
