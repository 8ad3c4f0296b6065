//! Client-side engine for a Matrix-style chat protocol: session state,
//! request framing, response decoding and room-state resolution.

use vstd::prelude::*;

pub mod avatar;
pub mod backend;
pub mod clock;
pub mod command;
pub mod directory;
pub mod engine;
pub mod error;
pub mod history;
pub mod icon;
pub mod json;
pub mod laws;
pub mod markup;
pub mod media;
pub mod protocol;
pub mod request;
pub mod respond;
pub mod room;
pub mod text;
pub mod timeline;
pub mod types;
pub mod web;
