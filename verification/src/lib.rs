//! Client library for the DeepInfra hosted-model API: request assembly,
//! bearer authentication and response decoding for chat completion and
//! audio transcription.

pub mod audio_transcription;
pub mod chat_completition;
pub mod client;
pub mod codec;
pub mod json;
pub mod multipart;
pub mod text;

pub use http;
pub use reqwest;
