//! Error vocabulary of an SDP parsing library: one closed set of failure
//! kinds, with value equality and a stable diagnostic message for each.

mod error;
mod outside;

pub use error::{
    lemma_bare_kind_equality, lemma_conversions, lemma_io_equality_by_category,
    lemma_text_payload_equality, framed, Error, IoError, Result,
};
pub use outside::io_error_kind;
