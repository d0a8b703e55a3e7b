//! Typed collections over an embedded, persistent, byte-ordered key-value
//! store: one partition per record type, a key-encoding policy fixed when the
//! type is registered, and a handle over the stored bytes of each read.

pub mod collection;
pub mod keys;
pub mod laws;
pub mod registration;
mod store;

pub use collection::{Collection, Error, TypedIVec};
pub use keys::KeyPolicy;
pub use registration::{
    derive_collection, generate_collection, generate_key_serializing, parse_key, FieldDecl,
    KeyError, KeyMarker, KeyOption, KeyParams, RecordShape, RecordSpec,
};
