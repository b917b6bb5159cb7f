//! Guessing the word behind a mask.
//!
//! A sentence with one word replaced by the mask token is encoded into token
//! ids. A masked-language model scores, for every position, every word of the
//! vocabulary; the word with the highest score at the mask's position is the
//! guess. The model is run by the caller. Its scores arrive as whole numbers
//! that keep the order of the scores themselves.

use crate::text_of;
use tokenizers::tokenizer::Tokenizer;
use vstd::prelude::*;

verus! {

/// `Tokenizer` of the crate `tokenizers`, taken as it comes: nothing is
/// claimed of what is inside one.
#[verifier::external_type_specification]
#[verifier::external_body]
pub struct ExTokenizer(tokenizers::tokenizer::Tokenizer);

/// The vocabulary of a tokenizer: the id of every token it knows. This is the
/// table that `Tokenizer::token_to_id` reads; nothing is claimed of what it
/// holds.
pub uninterp spec fn token_ids(tokenizer: Tokenizer) -> Map<Seq<char>, u32>;

/// The vocabulary of a tokenizer read the other way: the token of every id
/// it knows. This is the table that `Tokenizer::id_to_token` reads; nothing
/// is claimed of what it holds, nor that it mirrors `token_ids`.
pub uninterp spec fn id_tokens(tokenizer: Tokenizer) -> Map<u32, Seq<char>>;

/// An encoded sentence, as the tokenizer gives it.
#[derive(Clone, Debug)]
pub struct Encoded {
    pub ids: Vec<u32>,
    pub attention_mask: Vec<u32>,
    pub type_ids: Vec<u32>,
}

/// The three rows that the model takes, and where the mask stands in them.
#[derive(Clone, Debug)]
pub struct ModelInput {
    pub input_ids: Vec<i64>,
    pub attention_mask: Vec<i64>,
    pub token_type_ids: Vec<i64>,
    pub mask_pos: usize,
}

/// A model input as plain sequences.
pub ghost struct ModelInputView {
    pub input_ids: Seq<i64>,
    pub attention_mask: Seq<i64>,
    pub token_type_ids: Seq<i64>,
    pub mask_pos: int,
}

/// The model could not be run on the input.
#[derive(Clone, Copy, Debug, PartialEq, Eq, Structural)]
pub struct RunFault;

/// Why there is no guess.
#[derive(Clone, Copy, Debug, PartialEq, Eq, Structural)]
pub enum FillMaskError {
    /// The vocabulary has no mask token.
    NoMaskToken,
    /// The sentence has no mask in it.
    NoMaskInText,
    /// The rows of the encoded sentence differ in length.
    ShapeMismatch,
    /// The model failed on the input.
    ModelFailed,
    /// The scores have no row for the mask, or an empty one.
    BadScores,
    /// The vocabulary has no word for the id with the highest score.
    UnknownWord,
}

/// The token that stands for the hidden word.
pub open spec fn mask_token() -> Seq<char> {
    "[MASK]"@
}

/// The id under which a vocabulary knows a token.
pub open spec fn id_in(vocabulary: Map<Seq<char>, u32>, token: Seq<char>) -> Option<u32> {
    if vocabulary.contains_key(token) {
        Some(vocabulary[token])
    } else {
        None
    }
}

/// The token that a vocabulary has for an id.
pub open spec fn token_in(vocabulary: Map<u32, Seq<char>>, id: u32) -> Option<Seq<char>> {
    if vocabulary.contains_key(id) {
        Some(vocabulary[id])
    } else {
        None
    }
}

/// `pos` is where `mask_id` stands first in `ids`.
pub open spec fn first_mask_at(ids: Seq<u32>, mask_id: u32, pos: int) -> bool {
    &&& 0 <= pos < ids.len()
    &&& ids[pos] == mask_id
    &&& forall|j: int| 0 <= j < pos ==> ids[j] != mask_id
}

/// Where `mask_id` stands first in `ids`, if it is there at all.
pub open spec fn first_mask(ids: Seq<u32>, mask_id: u32) -> Option<int> {
    if exists|pos: int| first_mask_at(ids, mask_id, pos) {
        Some(choose|pos: int| first_mask_at(ids, mask_id, pos))
    } else {
        None
    }
}

/// The same numbers, each as a signed 64-bit one.
pub open spec fn widened(values: Seq<u32>) -> Seq<i64> {
    Seq::new(values.len(), |i: int| values[i] as i64)
}

/// `best` is where the highest number of `row` stands last.
pub open spec fn last_max_at(row: Seq<i64>, best: int) -> bool {
    &&& 0 <= best < row.len()
    &&& forall|k: int| 0 <= k < row.len() ==> row[k] <= row[best]
    &&& forall|k: int| best < k < row.len() ==> row[k] < row[best]
}

/// Where the highest number of a row that is not empty stands last.
pub open spec fn last_max(row: Seq<i64>) -> int {
    choose|best: int| last_max_at(row, best)
}

/// The input made of an encoded sentence, or the reason why there is none:
/// no mask token in the vocabulary, no mask in the sentence, or rows that
/// differ in length, asked in this order.
pub open spec fn prepared(encoded: Encoded, mask_id: Option<u32>) -> Result<
    ModelInputView,
    FillMaskError,
> {
    match mask_id {
        None => Err(FillMaskError::NoMaskToken),
        Some(id) => match first_mask(encoded.ids@, id) {
            None => Err(FillMaskError::NoMaskInText),
            Some(pos) => if encoded.attention_mask@.len() == encoded.ids@.len()
                && encoded.type_ids@.len() == encoded.ids@.len() {
                Ok(
                    ModelInputView {
                        input_ids: widened(encoded.ids@),
                        attention_mask: widened(encoded.attention_mask@),
                        token_type_ids: widened(encoded.type_ids@),
                        mask_pos: pos,
                    },
                )
            } else {
                Err(FillMaskError::ShapeMismatch)
            },
        },
    }
}

/// The id with the highest score at a position of the first sentence of the
/// batch; among equal scores the last one. There is none where the scores
/// have no such row, where the row is empty, or where the id is too large to
/// be one.
pub open spec fn best_id(scores: Seq<Vec<Vec<i64>>>, position: int) -> Result<
    u32,
    FillMaskError,
> {
    if 0 < scores.len() && 0 <= position < scores[0]@.len() && 0 < scores[0]@[position]@.len()
        && last_max(scores[0]@[position]@) <= u32::MAX {
        Ok(last_max(scores[0]@[position]@) as u32)
    } else {
        Err(FillMaskError::BadScores)
    }
}

/// The guess, given what the model answered for an input with its mask at
/// `position` and the words that the vocabulary has.
pub open spec fn guess(
    words: Map<u32, Seq<char>>,
    outcome: Result<Vec<Vec<Vec<i64>>>, RunFault>,
    position: int,
) -> Result<Seq<char>, FillMaskError> {
    match outcome {
        Err(_) => Err(FillMaskError::ModelFailed),
        Ok(scores) => match best_id(scores@, position) {
            Err(e) => Err(e),
            Ok(id) => match token_in(words, id) {
                Some(word) => Ok(word),
                None => Err(FillMaskError::UnknownWord),
            },
        },
    }
}

impl FillMaskError {
    /// Says in a few words why there is no guess.
    pub fn label(&self) -> (r: &'static str)
        ensures
            r@ == (match *self {
                FillMaskError::NoMaskToken => "no mask token in the vocabulary"@,
                FillMaskError::NoMaskInText => "no mask in the sentence"@,
                FillMaskError::ShapeMismatch => "rows differ in length"@,
                FillMaskError::ModelFailed => "model failed"@,
                FillMaskError::BadScores => "no scores for the mask"@,
                FillMaskError::UnknownWord => "no word for the best id"@,
            }),
    {
        match self {
            FillMaskError::NoMaskToken => "no mask token in the vocabulary",
            FillMaskError::NoMaskInText => "no mask in the sentence",
            FillMaskError::ShapeMismatch => "rows differ in length",
            FillMaskError::ModelFailed => "model failed",
            FillMaskError::BadScores => "no scores for the mask",
            FillMaskError::UnknownWord => "no word for the best id",
        }
    }
}

impl ModelInput {
    /// The rows as sequences and the position of the mask.
    pub open spec fn view(&self) -> ModelInputView {
        ModelInputView {
            input_ids: self.input_ids@,
            attention_mask: self.attention_mask@,
            token_type_ids: self.token_type_ids@,
            mask_pos: self.mask_pos as int,
        }
    }

    /// The rows are equally long and the mask stands inside them.
    pub open spec fn well_formed(&self) -> bool {
        &&& self.attention_mask@.len() == self.input_ids@.len()
        &&& self.token_type_ids@.len() == self.input_ids@.len()
        &&& self.mask_pos < self.input_ids@.len()
    }
}

/// The position of the highest number is unique, so it is the one that
/// `last_max` names.
pub proof fn lemma_last_max_is_unique(row: Seq<i64>, best: int)
    requires
        last_max_at(row, best),
    ensures
        last_max(row) == best,
{
    let other = last_max(row);
    assert(last_max_at(row, other));
    if other < best {
        assert(row[best] < row[other]);
    } else if best < other {
        assert(row[other] < row[best]);
    }
}

/// The first position of the mask is unique, so it is the one that
/// `first_mask` names.
pub proof fn lemma_first_mask_is_unique(ids: Seq<u32>, mask_id: u32, pos: int)
    requires
        first_mask_at(ids, mask_id, pos),
    ensures
        first_mask(ids, mask_id) == Some(pos),
{
}

/// `Tokenizer::token_to_id` of the crate `tokenizers`: looks the token up
/// among the added tokens and then in the model's vocabulary, and gives its
/// id or `None`. The contract names that lookup table `token_ids` and claims
/// no more than that the answer is read from it.
#[verifier::external_body]
fn token_id(tokenizer: &Tokenizer, token: &str) -> (r: Option<u32>)
    ensures
        r == id_in(token_ids(*tokenizer), token@),
{
    tokenizer.token_to_id(token)
}

/// `Tokenizer::id_to_token` of the crate `tokenizers`: looks the id up among
/// the added tokens and then in the model's vocabulary, and gives a copy of
/// its token or `None`. The contract names that lookup table `id_tokens` and
/// claims no more than that the answer is read from it.
#[verifier::external_body]
fn token_text(tokenizer: &Tokenizer, id: u32) -> (r: Option<String>)
    ensures
        match r {
            Some(token) => token_in(id_tokens(*tokenizer), id) == Some(token@),
            None => token_in(id_tokens(*tokenizer), id) is None,
        },
{
    tokenizer.id_to_token(id)
}

/// Finds the first position at which `mask_id` stands in `ids`.
pub fn mask_position(ids: &Vec<u32>, mask_id: u32) -> (r: Option<usize>)
    ensures
        match r {
            Some(pos) => first_mask(ids@, mask_id) == Some(pos as int),
            None => first_mask(ids@, mask_id) is None,
        },
{
    let mut i: usize = 0;
    while i < ids.len()
        invariant
            i <= ids.len(),
            forall|j: int| 0 <= j < i ==> ids@[j] != mask_id,
        decreases ids.len() - i,
    {
        if ids[i] == mask_id {
            proof {
                lemma_first_mask_is_unique(ids@, mask_id, i as int);
            }
            return Some(i);
        }
        i += 1;
    }
    None
}

/// Copies a row of ids into the signed 64-bit numbers that the model takes.
pub fn widen(values: &Vec<u32>) -> (r: Vec<i64>)
    ensures
        r@ == widened(values@),
{
    let mut out: Vec<i64> = Vec::new();
    let mut i: usize = 0;
    while i < values.len()
        invariant
            i <= values.len(),
            out@.len() == i,
            forall|j: int| 0 <= j < i ==> out@[j] == values@[j] as i64,
        decreases values.len() - i,
    {
        out.push(values[i] as i64);
        i += 1;
    }
    out
}

/// Makes the model's input of an encoded sentence and the id of the mask
/// token, as far as the vocabulary has one.
pub fn model_input(encoded: &Encoded, mask_id: Option<u32>) -> (r: Result<
    ModelInput,
    FillMaskError,
>)
    ensures
        match r {
            Ok(input) => prepared(*encoded, mask_id) == Ok::<ModelInputView, FillMaskError>(
                input@,
            ) && input.well_formed(),
            Err(e) => prepared(*encoded, mask_id) == Err::<ModelInputView, FillMaskError>(e),
        },
{
    let id = match mask_id {
        Some(id) => id,
        None => {
            return Err(FillMaskError::NoMaskToken);
        },
    };
    let mask_pos = match mask_position(&encoded.ids, id) {
        Some(pos) => pos,
        None => {
            return Err(FillMaskError::NoMaskInText);
        },
    };
    let length = encoded.ids.len();
    if encoded.attention_mask.len() != length || encoded.type_ids.len() != length {
        return Err(FillMaskError::ShapeMismatch);
    }
    Ok(
        ModelInput {
            input_ids: widen(&encoded.ids),
            attention_mask: widen(&encoded.attention_mask),
            token_type_ids: widen(&encoded.type_ids),
            mask_pos,
        },
    )
}

/// Finds the highest number of a row; where it stands more than once, the
/// last place counts.
pub fn argmax_last(row: &Vec<i64>) -> (r: Option<usize>)
    ensures
        match r {
            Some(best) => last_max_at(row@, best as int) && last_max(row@) == best,
            None => row@.len() == 0,
        },
{
    if row.len() == 0 {
        return None;
    }
    let mut best: usize = 0;
    let mut j: usize = 1;
    while j < row.len()
        invariant
            1 <= j <= row.len(),
            best < j,
            forall|k: int| 0 <= k < j ==> row@[k] <= row@[best as int],
            forall|k: int| best < k < j ==> row@[k] < row@[best as int],
        decreases row.len() - j,
    {
        if row[j] >= row[best] {
            best = j;
        }
        j += 1;
    }
    proof {
        lemma_last_max_is_unique(row@, best as int);
    }
    Some(best)
}

/// Picks the id with the highest score at `position` in the first sentence of
/// the batch.
pub fn best_token(scores: &Vec<Vec<Vec<i64>>>, position: usize) -> (r: Result<u32, FillMaskError>)
    ensures
        r == best_id(scores@, position as int),
{
    if scores.len() == 0 {
        return Err(FillMaskError::BadScores);
    }
    let sentence = &scores[0];
    if position >= sentence.len() {
        return Err(FillMaskError::BadScores);
    }
    match argmax_last(&sentence[position]) {
        Some(best) => if best <= u32::MAX as usize {
            Ok(best as u32)
        } else {
            Err(FillMaskError::BadScores)
        },
        None => Err(FillMaskError::BadScores),
    }
}

/// Guesses the word behind the mask of an encoded sentence. The model is run
/// once, on the input made of the sentence, and only if there is such an
/// input. The guess is the vocabulary's word for the id that scores highest
/// at the mask.
pub fn abert_onnx<R>(tokenizer: &Tokenizer, encoded: &Encoded, run: R) -> (r: Result<
    String,
    FillMaskError,
>) where R: FnOnce(&ModelInput) -> Result<Vec<Vec<Vec<i64>>>, RunFault>
    requires
        forall|mask_id: u32, input: ModelInput|
            prepared(*encoded, Some(mask_id)) == Ok::<ModelInputView, FillMaskError>(input@)
                ==> call_requires(run, (&input,)),
    ensures
        match prepared(*encoded, id_in(token_ids(*tokenizer), mask_token())) {
            Err(e) => r == Err::<String, FillMaskError>(e),
            Ok(view) => exists|
                input: ModelInput,
                outcome: Result<Vec<Vec<Vec<i64>>>, RunFault>,
            |
                {
                    &&& input@ == view
                    &&& #[trigger] call_ensures(run, (&input,), outcome)
                    &&& text_of(r) == guess(
                        id_tokens(*tokenizer),
                        outcome,
                        view.mask_pos,
                    )
                },
        },
{
    let mask_id = token_id(tokenizer, "[MASK]");
    let input = match model_input(encoded, mask_id) {
        Ok(input) => input,
        Err(e) => {
            return Err(e);
        },
    };
    let outcome = run(&input);
    let scores = match outcome {
        Ok(scores) => scores,
        Err(_) => {
            return Err(FillMaskError::ModelFailed);
        },
    };
    let id = match best_token(&scores, input.mask_pos) {
        Ok(id) => id,
        Err(e) => {
            return Err(e);
        },
    };
    match token_text(tokenizer, id) {
        Some(word) => Ok(word),
        None => Err(FillMaskError::UnknownWord),
    }
}

} // verus!
