//! A text summarization service around a pretrained sequence-to-sequence
//! model: which model to load and how, how one text becomes one summary, and
//! what to answer to a request. A second, smaller part guesses the word
//! behind a mask with a masked-language model.
//!
//! The models themselves are run by the caller. Every function that needs
//! one takes the call as a closure and says in its contract what the closure
//! is handed and what becomes of its answer.

use vstd::prelude::*;

pub mod config;
pub mod fill_mask;
pub mod http;
pub mod loader;
pub mod session;

verus! {

/// A result with its text taken as characters.
pub open spec fn text_of<X>(result: Result<String, X>) -> Result<Seq<char>, X> {
    match result {
        Ok(text) => Ok(text@),
        Err(e) => Err(e),
    }
}

} // verus!
