//! What the library takes from other crates, and what it takes their functions to do.

use std::path::PathBuf;
use regex_automata::meta::{BuildError, Regex};
use tokenizers::models::ModelWrapper;
use tokenizers::pre_tokenizers::PreTokenizerWrapper;
use tokenizers::Tokenizer;
use vstd::prelude::*;

verus! {

/// The element type of a model's activations, as `candle_core` has it. Carried through only.
#[verifier::external_type_specification]
#[verifier::external_body]
pub struct ExDType(candle_core::DType);

/// A compiled regular expression of `regex_automata`.
#[verifier::external_type_specification]
#[verifier::external_body]
pub struct ExRegex(regex_automata::meta::Regex);

/// Why a regular expression could not be compiled. Carried through only.
#[verifier::external_type_specification]
#[verifier::external_body]
pub struct ExBuildError(regex_automata::meta::BuildError);

/// A tokenizer of `tokenizers`.
#[verifier::external_type_specification]
#[verifier::external_body]
pub struct ExTokenizer(tokenizers::Tokenizer);

/// A path of `std`. Carried through and copied only.
#[verifier::external_type_specification]
#[verifier::external_body]
pub struct ExPathBuf(std::path::PathBuf);

/// `std::path::PathBuf::clone`: the same path.
pub assume_specification[ <PathBuf as Clone>::clone ](path: &PathBuf) -> (r: PathBuf)
    ensures
        r == *path,
;

/// The texts in which a compiled regular expression finds a match.
pub uninterp spec fn matched_texts(regex: Regex) -> Set<Seq<char>>;

/// The texts in which the regular expression that `pattern` writes finds a match, under the
/// default syntax.
pub uninterp spec fn texts_of_pattern(pattern: Seq<char>) -> Set<Seq<char>>;

/// The ids of the tokens that a tokenizer knows, added ones before those of its model.
pub uninterp spec fn vocabulary(tokenizer: Tokenizer) -> Map<Seq<char>, u32>;

/// The errors that compiling `pattern` may end in, on one machine or another.
pub uninterp spec fn refusals(pattern: Seq<char>) -> Set<BuildError>;

/// `regex_automata::meta::Regex::new`: a regex that comes back matches as its pattern says, and
/// an error is one that this pattern may end in. Which patterns compile is left open, since the
/// size limit on a compiled regex depends on the machine.
pub assume_specification[ Regex::new ](pattern: &str) -> (r: Result<Regex, BuildError>)
    ensures
        match r {
            Ok(regex) => matched_texts(regex) == texts_of_pattern(pattern@),
            Err(e) => refusals(pattern@).contains(e),
        },
;

/// `regex_automata::meta::Regex::is_match`: true if and only if the regex matches somewhere in
/// `text`.
#[verifier::external_body]
pub(crate) fn regex_is_match(regex: &Regex, text: &str) -> (r: bool)
    ensures
        r == matched_texts(*regex).contains(text@),
{
    regex.is_match(text)
}

/// `tokenizers::Tokenizer::token_to_id`: the id of `token`, where the vocabulary has it.
#[verifier::external_body]
pub(crate) fn tokenizer_token_to_id(tokenizer: &Tokenizer, token: &str) -> (r: Option<u32>)
    ensures
        r == (if vocabulary(*tokenizer).contains_key(token@) {
            Some(vocabulary(*tokenizer)[token@])
        } else {
            None
        }),
{
    tokenizer.token_to_id(token)
}

/// How a tokenizer cuts off long texts: the number of tokens that are kept, and how many of them
/// the next piece repeats.
pub uninterp spec fn truncation(tokenizer: Tokenizer) -> Option<(usize, usize)>;

/// `tokenizers::Tokenizer::get_truncation`: the largest length and the stride, where the
/// tokenizer cuts off long texts.
#[verifier::external_body]
pub(crate) fn tokenizer_truncation(tokenizer: &Tokenizer) -> (r: Option<(usize, usize)>)
    ensures
        r == truncation(*tokenizer),
{
    tokenizer.get_truncation().map(|params| (params.max_length, params.stride))
}

/// The ways in which a tokenizer can split a text before its model sees it.
#[derive(Clone, Copy, Debug, PartialEq, Eq, Structural)]
pub enum PreTokenizerKind {
    Bert,
    ByteLevel,
    Delimiter,
    Metaspace,
    /// At white space, and where words and punctuation meet.
    Whitespace,
    Sequence,
    Split,
    Punctuation,
    /// At white space.
    WhitespaceSplit,
    Digits,
    UnicodeScripts,
    FixedLength,
}

/// The families of models that a tokenizer can have.
#[derive(Clone, Copy, Debug, PartialEq, Eq, Structural)]
pub enum ModelFamily {
    Bpe,
    WordPiece,
    WordLevel,
    Unigram,
}

/// How a tokenizer splits a text before its model sees it, where it does.
pub uninterp spec fn pre_tokenizer(tokenizer: Tokenizer) -> Option<PreTokenizerKind>;

/// `tokenizers::Tokenizer::get_pre_tokenizer`: which one it is, where there is one.
#[verifier::external_body]
pub(crate) fn tokenizer_pre_tokenizer(tokenizer: &Tokenizer) -> (r: Option<PreTokenizerKind>)
    ensures
        r == pre_tokenizer(*tokenizer),
{
    Some(match tokenizer.get_pre_tokenizer()? {
        PreTokenizerWrapper::BertPreTokenizer(_) => PreTokenizerKind::Bert,
        PreTokenizerWrapper::ByteLevel(_) => PreTokenizerKind::ByteLevel,
        PreTokenizerWrapper::Delimiter(_) => PreTokenizerKind::Delimiter,
        PreTokenizerWrapper::Metaspace(_) => PreTokenizerKind::Metaspace,
        PreTokenizerWrapper::Whitespace(_) => PreTokenizerKind::Whitespace,
        PreTokenizerWrapper::Sequence(_) => PreTokenizerKind::Sequence,
        PreTokenizerWrapper::Split(_) => PreTokenizerKind::Split,
        PreTokenizerWrapper::Punctuation(_) => PreTokenizerKind::Punctuation,
        PreTokenizerWrapper::WhitespaceSplit(_) => PreTokenizerKind::WhitespaceSplit,
        PreTokenizerWrapper::Digits(_) => PreTokenizerKind::Digits,
        PreTokenizerWrapper::UnicodeScripts(_) => PreTokenizerKind::UnicodeScripts,
        PreTokenizerWrapper::FixedLength(_) => PreTokenizerKind::FixedLength,
    })
}

/// The family of a tokenizer's model.
pub uninterp spec fn model_family(tokenizer: Tokenizer) -> ModelFamily;

/// `tokenizers::Tokenizer::get_model`: the family that it belongs to.
#[verifier::external_body]
pub(crate) fn tokenizer_model(tokenizer: &Tokenizer) -> (r: ModelFamily)
    ensures
        r == model_family(*tokenizer),
{
    match tokenizer.get_model() {
        ModelWrapper::BPE(_) => ModelFamily::Bpe,
        ModelWrapper::WordPiece(_) => ModelFamily::WordPiece,
        ModelWrapper::WordLevel(_) => ModelFamily::WordLevel,
        ModelWrapper::Unigram(_) => ModelFamily::Unigram,
    }
}

/// A tokenizer changes a text before it splits it.
pub uninterp spec fn has_normalizer(tokenizer: Tokenizer) -> bool;

/// `tokenizers::Tokenizer::get_normalizer`: whether there is one.
#[verifier::external_body]
pub(crate) fn tokenizer_has_normalizer(tokenizer: &Tokenizer) -> (r: bool)
    ensures
        r == has_normalizer(*tokenizer),
{
    tokenizer.get_normalizer().is_some()
}

/// A tokenizer rearranges the tokens of a text.
pub uninterp spec fn has_post_processor(tokenizer: Tokenizer) -> bool;

/// `tokenizers::Tokenizer::get_post_processor`: whether there is one.
#[verifier::external_body]
pub(crate) fn tokenizer_has_post_processor(tokenizer: &Tokenizer) -> (r: bool)
    ensures
        r == has_post_processor(*tokenizer),
{
    tokenizer.get_post_processor().is_some()
}

/// A tokenizer fills up short texts.
pub uninterp spec fn has_padding(tokenizer: Tokenizer) -> bool;

/// `tokenizers::Tokenizer::get_padding`: whether there is any.
#[verifier::external_body]
pub(crate) fn tokenizer_has_padding(tokenizer: &Tokenizer) -> (r: bool)
    ensures
        r == has_padding(*tokenizer),
{
    tokenizer.get_padding().is_some()
}

/// A tokenizer has tokens besides those of its model.
pub uninterp spec fn has_added_tokens(tokenizer: Tokenizer) -> bool;

/// `tokenizers::Tokenizer::get_added_vocabulary`: whether it holds any token.
#[verifier::external_body]
pub(crate) fn tokenizer_has_added_tokens(tokenizer: &Tokenizer) -> (r: bool)
    ensures
        r == has_added_tokens(*tokenizer),
{
    !tokenizer.get_added_vocabulary().is_empty()
}

/// Where a tokenizer cuts off long texts, the next piece begins after the one before it.
pub open spec fn cuts_advance(tokenizer: Tokenizer) -> bool {
    truncation(tokenizer) matches Some((max_length, stride)) ==> max_length == 0 || stride
        < max_length
}

/// A tokenizer that comes back from every text, as can be told from its parts: it looks up the
/// words of the text in its vocabulary, and its cuts advance.
pub open spec fn is_plain(tokenizer: Tokenizer) -> bool {
    &&& !has_normalizer(tokenizer)
    &&& !has_post_processor(tokenizer)
    &&& !has_padding(tokenizer)
    &&& !has_added_tokens(tokenizer)
    &&& pre_tokenizer(tokenizer) matches Some(kind) ==> kind is Whitespace || kind is WhitespaceSplit
    &&& model_family(tokenizer) is WordPiece || model_family(tokenizer) is WordLevel
    &&& cuts_advance(tokenizer)
}

/// Encoding `text` without special tokens comes back, whatever chance brings. Parts of a tokenizer
/// can panic: a regular expression that backtracks too long on the text, pieces of no length, a
/// template that asks for a second text, or tokens whose white space overlaps.
pub uninterp spec fn returns_on(tokenizer: Tokenizer, text: Seq<char>) -> bool;

/// What encoding `text` without special tokens may come to: token ids, or a message that says why
/// there are none. A tokenizer that drops merges at random has several outcomes for one text.
pub uninterp spec fn encodings(tokenizer: Tokenizer, text: Seq<char>) -> Set<
    Result<Seq<u32>, Seq<char>>,
>;

/// `tokenizers::Tokenizer::encode`, without special tokens: one of the outcomes that the tokenizer
/// may come to on `text`. Which one is left open, since a tokenizer may drop merges at random. It
/// comes back from every text where the tokenizer is a plain one; otherwise some parts panic on
/// some texts, and those are left out.
#[verifier::external_body]
pub(crate) fn tokenizer_encode(tokenizer: &Tokenizer, text: &str) -> (r: Result<Vec<u32>, String>)
    requires
        is_plain(*tokenizer) || returns_on(*tokenizer, text@),
    ensures
        match r {
            Ok(ids) => returns_on(*tokenizer, text@) && encodings(*tokenizer, text@).contains(
                Ok(ids@),
            ),
            Err(reason) => returns_on(*tokenizer, text@) && encodings(*tokenizer, text@).contains(
                Err(reason@),
            ),
        },
{
    match tokenizer.encode(text, false) {
        Ok(encoding) => Ok(encoding.get_ids().to_vec()),
        Err(e) => Err(e.to_string()),
    }
}

} // verus!
