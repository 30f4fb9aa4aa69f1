//! Normalisation of dictionary entries.
//!
//! A lexical provider answers a lookup with a loosely shaped JSON document.
//! This library reads such a document strictly and turns it into a fixed
//! result: pronunciations with their audio, senses grouped by part of speech,
//! related words and example sentences. Any field that is missing or of the
//! wrong type fails the whole lookup; nothing partial is ever returned.
//!
//! The library performs no I/O. Audio is obtained by the caller, either
//! through a callback handed to [`normalize::normalize`] or by driving the
//! steps of [`normalize::begin`] by hand.

pub mod json;
pub mod laws;
pub mod normalize;
pub mod outcome;
pub mod reading;
pub mod region;
pub mod request;
