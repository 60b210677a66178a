//! A uniform read/write surface for the descriptive metadata of audio files.
//!
//! A [`tagger::MusicTagger`] holds one loaded file. Whatever tag formats the
//! file carries, its fields are read and written through one vocabulary
//! ([`fields`]) and one tag, the primary one where the file has it, else the
//! first. Loudness values have their own text codec ([`replay_gain`]),
//! artwork lists are reconciled position by position ([`artwork`]), and the
//! quality tier and a bit-rate estimate are derived from what the container
//! reports ([`quality`]). Parsing and writing the containers is the work of
//! an outside engine, reached through [`engine`].

pub mod artwork;
pub mod decimal;
pub mod engine;
pub mod error;
pub mod fields;
pub mod laws;
pub mod meta_picture;
pub mod quality;
pub mod replay_gain;
pub mod tagger;
pub mod text;
