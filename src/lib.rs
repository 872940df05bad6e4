//! A data model and builder API for text tables: cells with content, alignment,
//! padding, overflow policy, column spans and formatter chains, assembled into
//! tables that an outside rendering engine turns into text.

pub mod engine;
pub mod errors;
pub mod settings;
pub mod table;
pub mod text;
