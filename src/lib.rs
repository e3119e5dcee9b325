//! Voice notifications for coding-assistant events: the decision logic
//! behind the lock gate, transcript selection, summarisation fallback,
//! speech synthesis requests, cached audio and the delivery fallback chain.

/// Trimming, truncation and name templates over character sequences.
pub mod text;
/// Status classes of the hosted services' answers.
pub mod http;
/// Prompts, requests and replies of the text-generation service.
pub mod summary;
/// Requests to the text-to-speech service.
pub mod speech;
/// Choice of the last assistant message of a transcript.
pub mod transcript;
/// The cross-invocation lock gate.
pub mod gate;
/// Settings and their defaults.
pub mod config;
/// Invocations of the local audio facilities.
pub mod audio;
/// The cached audio of the default message.
pub mod cache;
/// Request resolution and the delivery fallback chain.
pub mod pipeline;
