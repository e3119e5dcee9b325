use vstd::prelude::*;
use vstd::string::*;

verus! {

/// What follows the agent name in the default message.
pub const DEFAULT_SUFFIX: &'static str = " has finished a task";

/// File name of the kept audio inside the cache directory.
pub const CACHE_FILE_NAME: &'static str = "default.mp3";

/// The default message of an agent when none is configured.
pub open spec fn default_text(agent: Seq<char>) -> Seq<char> {
    agent + DEFAULT_SUFFIX@
}

pub fn default_message(agent: &str) -> (r: String)
    ensures
        r@ == default_text(agent@),
{
    String::from_str(agent).concat(DEFAULT_SUFFIX)
}

/// The kept audio after synthesised `audio` for `text` was offered to a
/// store keyed by `key` that held `kept`: only the key's audio is kept, and
/// the newest audio replaces the older.
pub open spec fn populated(kept: Option<Seq<u8>>, key: Seq<char>, text: Seq<char>, audio: Seq<u8>) -> Option<
    Seq<u8>,
> {
    if text == key {
        Some(audio)
    } else {
        kept
    }
}

/// The single cached audio artifact, kept for the canonical default message.
pub struct CacheStore {
    key: String,
    artifact: Option<Vec<u8>>,
}

impl View for CacheStore {
    type V = Option<Seq<u8>>;

    closed spec fn view(&self) -> Option<Seq<u8>> {
        match self.artifact {
            Some(a) => Some(a@),
            None => None,
        }
    }
}

impl CacheStore {
    /// The only text whose audio this store keeps.
    pub closed spec fn key(&self) -> Seq<char> {
        self.key@
    }

    /// An empty store for the canonical default message `default_message`.
    pub fn new(default_message: &str) -> (r: CacheStore)
        ensures
            r@ is None,
            r.key() == default_message@,
    {
        CacheStore { key: String::from_str(default_message), artifact: None }
    }

    /// Keeps `audio` when `text` is the key.
    pub fn populate(&mut self, text: &str, audio: Vec<u8>)
        ensures
            final(self).key() == old(self).key(),
            final(self)@ == populated(old(self)@, old(self).key(), text@, audio@),
    {
        if String::from_str(text) == self.key {
            self.artifact = Some(audio);
        }
    }

    /// The kept audio, offered only for the key.
    pub fn cached(&self, text: &str) -> (r: Option<&Vec<u8>>)
        ensures
            text@ == self.key() && self@ is Some ==> r is Some && r->0@ == self@->0,
            !(text@ == self.key() && self@ is Some) ==> r is None,
    {
        if String::from_str(text) == self.key {
            match &self.artifact {
                Some(a) => Some(a),
                None => None,
            }
        } else {
            None
        }
    }
}

/// Offering the same synthesis twice leaves one artifact, the same as after
/// the first offer.
pub proof fn lemma_populate_idempotent(
    kept: Option<Seq<u8>>,
    key: Seq<char>,
    text: Seq<char>,
    audio: Seq<u8>,
)
    ensures
        populated(populated(kept, key, text, audio), key, text, audio) == populated(
            kept,
            key,
            text,
            audio,
        ),
{
}

/// After two offers of the key's text the artifact is the audio of the last one.
pub proof fn lemma_populate_keeps_last(
    kept: Option<Seq<u8>>,
    key: Seq<char>,
    first: Seq<u8>,
    last: Seq<u8>,
)
    ensures
        populated(populated(kept, key, key, first), key, key, last) == Some(last),
{
}

} // verus!
