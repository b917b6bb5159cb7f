//! One summary from one text.
//!
//! The engine takes a batch of texts and gives a batch of summaries. A
//! request carries one text, so the engine is handed a batch of one and the
//! first summary that comes back is the answer. The caller passes in how the
//! engine is run, and holds whatever lock guards it for as long as that call
//! lasts.

use crate::loader::EngineHolder;
use crate::text_of;
use vstd::prelude::*;

verus! {

/// The engine could not turn the batch into summaries.
#[derive(Clone, Copy, Debug, PartialEq, Eq, Structural)]
pub struct EngineFault;

/// Why a text got no summary.
#[derive(Clone, Copy, Debug, PartialEq, Eq, Structural)]
pub enum InferenceError {
    /// No engine is in place.
    EngineUnavailable,
    /// The engine ran and failed.
    EngineFailed,
    /// The engine ran and gave back an empty batch.
    NoOutput,
}

/// A batch that holds `text` and nothing else.
pub open spec fn is_single_batch(batch: Seq<String>, text: Seq<char>) -> bool {
    batch.len() == 1 && batch[0]@ == text
}

/// The summary in what an engine gave back: the first of the batch.
pub open spec fn summary_of(outcome: Result<Vec<String>, EngineFault>) -> Result<
    Seq<char>,
    InferenceError,
> {
    match outcome {
        Ok(outputs) => if outputs@.len() > 0 {
            Ok(outputs@[0]@)
        } else {
            Err(InferenceError::NoOutput)
        },
        Err(_) => Err(InferenceError::EngineFailed),
    }
}

/// Puts one text into a batch of its own.
pub fn single_batch(text: &str) -> (batch: Vec<String>)
    ensures
        is_single_batch(batch@, text@),
{
    let mut batch: Vec<String> = Vec::new();
    batch.push(text.to_owned());
    batch
}

/// Takes the summary out of what an engine gave back.
pub fn first_output(outcome: Result<Vec<String>, EngineFault>) -> (r: Result<
    String,
    InferenceError,
>)
    ensures
        text_of(r) == summary_of(outcome),
{
    match outcome {
        Ok(outputs) => {
            let mut outputs = outputs;
            if outputs.len() > 0 {
                Ok(outputs.swap_remove(0))
            } else {
                Err(InferenceError::NoOutput)
            }
        },
        Err(_) => Err(InferenceError::EngineFailed),
    }
}

/// Summarizes one text with the engine in place. The engine is run once, on
/// a batch that holds the text alone, and only if there is an engine.
pub fn summarize<E, R>(holder: &EngineHolder<E>, text: &str, run: R) -> (r: Result<
    String,
    InferenceError,
>) where R: FnOnce(&E, Vec<String>) -> Result<Vec<String>, EngineFault>
    requires
        holder@ matches Some(pair) ==> forall|batch: Vec<String>|
            is_single_batch(batch@, text@) ==> call_requires(run, (&pair.1, batch)),
    ensures
        match holder@ {
            None => r == Err::<String, InferenceError>(InferenceError::EngineUnavailable),
            Some(pair) => exists|batch: Vec<String>, outcome: Result<Vec<String>, EngineFault>|
                {
                    &&& is_single_batch(batch@, text@)
                    &&& #[trigger] call_ensures(run, (&pair.1, batch), outcome)
                    &&& text_of(r) == summary_of(outcome)
                },
        },
{
    match holder.engine() {
        None => Err(InferenceError::EngineUnavailable),
        Some(engine) => {
            let batch = single_batch(text);
            let outcome = run(engine, batch);
            first_output(outcome)
        },
    }
}

/// An engine that hands its batch back gives every text as its own summary.
pub proof fn lemma_echo_is_returned(batch: Vec<String>, text: Seq<char>)
    requires
        is_single_batch(batch@, text),
    ensures
        summary_of(Ok(batch)) == Ok::<Seq<char>, InferenceError>(text),
{
}

} // verus!
