//! Funck: the values that cross the boundary between a host and a loaded
//! function plugin, the capability every plugin offers, and the rule by which a
//! plugin's call turns a handler that unwound into an ordinary error.
mod boundary;
mod error;
mod funcktion;
mod message;
mod metadata;
mod request;
mod response;

pub use boundary::{contain_outcome, HandlerOutcome};
pub use error::{CallError, CallResult, UNWIND_MESSAGE};
pub use funcktion::Funcktion;
pub use message::{
    lemma_bytes_concatenate, lemma_meta_last_write_wins, lemma_text_encoded_at_end, MessageView,
};
pub use metadata::{entries_map, keys_distinct, Metadata};
pub use request::Request;
pub use response::Response;
