//! Audio fingerprints and how alike two of them are.
//!
//! A fingerprint is a sequence of 32-bit codes, one per analysis frame of a
//! recording. This crate serializes fingerprints, produces them from PCM
//! samples, and reduces the alignment of two fingerprints to one score.

pub mod codec;
pub mod generator;
pub mod matcher;
pub mod preset;
pub mod score;
pub mod segment;
pub mod text;
