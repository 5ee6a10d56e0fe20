//! A verified post store: validated create/update/delete transitions over
//! records addressed by their owner's key and their creation-time title.

pub mod errors;
pub mod events;
pub mod state;
pub mod store;
