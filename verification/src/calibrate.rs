//! Cutting up the text from which an importance matrix is collected.

use tokenizers::Tokenizer;
use vstd::prelude::*;
use crate::error::LoadError;
use crate::outside::{
    tokenizer_encode, tokenizer_has_added_tokens, tokenizer_has_normalizer, tokenizer_has_padding,
    tokenizer_has_post_processor, tokenizer_model, tokenizer_pre_tokenizer, tokenizer_token_to_id,
    tokenizer_truncation, ModelFamily, PreTokenizerKind,
};
#[allow(unused_imports)]
use crate::outside::{encodings, is_plain, returns_on, vocabulary};

verus! {

/// Number of calibration tokens in a full chunk, not counting the leading one.
pub const CHUNK_SIZE: usize = 1024;

/// How chats are laid out, as far as the pipeline reads it.
#[derive(Debug)]
pub struct ChatTemplate {
    /// The token that a text begins with.
    pub bos_tok: Option<String>,
}

/// The smaller of two numbers.
pub open spec fn min(a: int, b: int) -> int {
    if a <= b {
        a
    } else {
        b
    }
}

/// Number of chunks that `n` tokens make.
pub open spec fn chunk_count(n: nat) -> nat {
    (n + CHUNK_SIZE as nat - 1) as nat / CHUNK_SIZE as nat
}

/// The tokens that chunk `i` is made of.
pub open spec fn chunk_tokens(tokens: Seq<u32>, i: int) -> Seq<u32> {
    tokens.subrange(i * CHUNK_SIZE, min((i + 1) * CHUNK_SIZE, tokens.len() as int))
}

/// `chunks` cuts `tokens` up in order, and puts `bos` before each piece.
pub open spec fn is_chunking(bos: u32, tokens: Seq<u32>, chunks: Seq<Vec<u32>>) -> bool {
    &&& chunks.len() == chunk_count(tokens.len())
    &&& forall|i: int|
        0 <= i < chunks.len() ==> (#[trigger] chunks[i])@ == seq![bos] + chunk_tokens(tokens, i)
}

/// Cuts the calibration tokens into chunks that each begin with `bos`.
pub fn calibration_chunks(bos: u32, tokens: &Vec<u32>) -> (r: Vec<Vec<u32>>)
    ensures
        is_chunking(bos, tokens@, r@),
{
    let n: usize = tokens.len();
    let mut chunks: Vec<Vec<u32>> = Vec::new();
    let mut start: usize = 0;
    while start < n
        invariant
            n == tokens@.len(),
            start <= n,
            start == min(chunks@.len() * CHUNK_SIZE, n as int),
            chunks@.len() * CHUNK_SIZE < n + CHUNK_SIZE,
            forall|i: int|
                0 <= i < chunks@.len() ==> (#[trigger] chunks@[i])@ == seq![bos] + chunk_tokens(
                    tokens@,
                    i,
                ),
        decreases n - start,
    {
        let end: usize = if n - start > CHUNK_SIZE {
            start + CHUNK_SIZE
        } else {
            n
        };
        let mut chunk: Vec<u32> = Vec::new();
        chunk.push(bos);
        let mut j: usize = start;
        proof {
            assert(chunk@ =~= seq![bos] + tokens@.subrange(start as int, start as int));
        }
        while j < end
            invariant
                start <= j <= end <= n,
                n == tokens@.len(),
                chunk@ == seq![bos] + tokens@.subrange(start as int, j as int),
            decreases end - j,
        {
            chunk.push(tokens[j]);
            j = j + 1;
            proof {
                assert(chunk@ =~= seq![bos] + tokens@.subrange(start as int, j as int));
            }
        }
        chunks.push(chunk);
        start = end;
    }
    chunks
}

/// The tokens of the chunks, without the one that each begins with.
pub open spec fn unchunked(chunks: Seq<Vec<u32>>) -> Seq<Seq<u32>> {
    chunks.map_values(|c: Vec<u32>| c@.skip(1))
}

proof fn lemma_chunks_flatten(tokens: Seq<u32>, pieces: Seq<Seq<u32>>, k: int)
    requires
        pieces.len() == chunk_count(tokens.len()),
        forall|i: int|
            0 <= i < pieces.len() ==> #[trigger] pieces[i] == chunk_tokens(tokens, i),
        0 <= k <= pieces.len(),
    ensures
        pieces.skip(k).flatten() == tokens.skip(min(k * CHUNK_SIZE, tokens.len() as int)),
    decreases pieces.len() - k,
{
    let n = tokens.len() as int;
    let from = min(k * CHUNK_SIZE, n);
    if k == pieces.len() {
        assert(from == n);
        assert(pieces.skip(k) =~= Seq::<Seq<u32>>::empty());
        assert(tokens.skip(n) =~= Seq::<u32>::empty());
    } else {
        lemma_chunks_flatten(tokens, pieces, k + 1);
        assert(pieces.skip(k).drop_first() =~= pieces.skip(k + 1));
        assert(pieces.skip(k).first() == chunk_tokens(tokens, k));
        let to = min((k + 1) * CHUNK_SIZE, n);
        assert(tokens.skip(from) =~= tokens.subrange(from, to) + tokens.skip(to));
    }
}

/// Calibration goes over every token once and in order: without the token that each chunk begins
/// with, the chunks put together are the text's tokens.
pub proof fn law_chunks_cover_the_text(bos: u32, tokens: Seq<u32>, chunks: Seq<Vec<u32>>)
    requires
        is_chunking(bos, tokens, chunks),
    ensures
        unchunked(chunks).flatten() == tokens,
{
    let pieces = unchunked(chunks);
    assert forall|i: int| 0 <= i < pieces.len() implies #[trigger] pieces[i] == chunk_tokens(
        tokens,
        i,
    ) by {
        assert(chunks[i]@ == seq![bos] + chunk_tokens(tokens, i));
        assert(chunks[i]@.skip(1) =~= chunk_tokens(tokens, i));
    }
    lemma_chunks_flatten(tokens, pieces, 0);
    assert(pieces.skip(0) =~= pieces);
    assert(tokens.skip(0) =~= tokens);
}

/// Every chunk begins with the leading token, holds at least one more, and at most a full chunk
/// of them; only the last may hold fewer.
pub proof fn law_chunks_are_full_but_the_last(
    bos: u32,
    tokens: Seq<u32>,
    chunks: Seq<Vec<u32>>,
    i: int,
)
    requires
        is_chunking(bos, tokens, chunks),
        0 <= i < chunks.len(),
    ensures
        chunks[i]@[0] == bos,
        2 <= chunks[i]@.len() <= CHUNK_SIZE + 1,
        i + 1 < chunks.len() ==> chunks[i]@.len() == CHUNK_SIZE + 1,
{
    assert(chunks[i]@ == seq![bos] + chunk_tokens(tokens, i));
}

/// What tokenising the calibration text comes to.
pub fn tokenised(encoded: Result<Vec<u32>, String>) -> (r: Result<Vec<u32>, LoadError>)
    ensures
        match encoded {
            Ok(tokens) => r == Ok::<Vec<u32>, LoadError>(tokens),
            Err(reason) => r == Err::<Vec<u32>, LoadError>(LoadError::Tokenize { reason }),
        },
{
    match encoded {
        Ok(tokens) => Ok(tokens),
        Err(reason) => Err(LoadError::Tokenize { reason }),
    }
}

/// `r` is what the tokenizer may make of the text: its tokens, or a failure to tokenise it.
pub open spec fn is_tokenising(
    tokenizer: Tokenizer,
    text: Seq<char>,
    r: Result<Vec<u32>, LoadError>,
) -> bool {
    match r {
        Ok(tokens) => encodings(tokenizer, text).contains(Ok(tokens@)),
        Err(e) => e matches LoadError::Tokenize { reason } && encodings(tokenizer, text).contains(
            Err(reason@),
        ),
    }
}

/// Tokenises the calibration text, without any token before it. The tokens are whatever the
/// tokenizer makes of the text; a failure is always one to tokenise.
pub fn calibration_tokens(tokenizer: &Tokenizer, text: &str) -> (r: Result<Vec<u32>, LoadError>)
    requires
        is_plain(*tokenizer) || returns_on(*tokenizer, text@),
    ensures
        is_tokenising(*tokenizer, text@, r),
        returns_on(*tokenizer, text@),
{
    tokenised(tokenizer_encode(tokenizer, text))
}

/// Tests whether it is plain that a tokenizer comes back from every text.
pub fn is_plain_tokenizer(tokenizer: &Tokenizer) -> (r: bool)
    ensures
        r == is_plain(*tokenizer),
{
    let splits_plainly = match tokenizer_pre_tokenizer(tokenizer) {
        Some(PreTokenizerKind::Whitespace) | Some(PreTokenizerKind::WhitespaceSplit) => true,
        Some(_) => false,
        None => true,
    };
    let looks_words_up = match tokenizer_model(tokenizer) {
        ModelFamily::WordPiece | ModelFamily::WordLevel => true,
        _ => false,
    };
    let advances = match tokenizer_truncation(tokenizer) {
        Some((max_length, stride)) => max_length == 0 || stride < max_length,
        None => true,
    };
    advances && splits_plainly && looks_words_up && !tokenizer_has_normalizer(tokenizer)
        && !tokenizer_has_post_processor(tokenizer) && !tokenizer_has_padding(tokenizer)
        && !tokenizer_has_added_tokens(tokenizer)
}

/// The id of the token that a text begins with. There is none where the template names no such
/// token, or the tokenizer does not know it.
pub open spec fn leading_token(tokenizer: Tokenizer, chat_template: ChatTemplate) -> Option<u32> {
    match chat_template.bos_tok {
        Some(bos) if vocabulary(tokenizer).contains_key(bos@) => Some(vocabulary(tokenizer)[bos@]),
        _ => None,
    }
}

/// Finds the id of the token that a text begins with.
pub fn bos_token_id(tokenizer: &Tokenizer, chat_template: &ChatTemplate) -> (r: Option<u32>)
    ensures
        r == leading_token(*tokenizer, *chat_template),
{
    match &chat_template.bos_tok {
        Some(bos) => tokenizer_token_to_id(tokenizer, bos.as_str()),
        None => None,
    }
}

/// Token `i` of the text stands in chunk `i / 1024`, at place `i % 1024` behind the leading token,
/// and there is no chunk without a token of the text.
pub proof fn law_every_token_has_its_chunk(
    bos: u32,
    tokens: Seq<u32>,
    chunks: Seq<Vec<u32>>,
    i: int,
)
    requires
        is_chunking(bos, tokens, chunks),
        0 <= i < tokens.len(),
    ensures
        i / 1024 < chunks.len(),
        i % 1024 + 1 < chunks[i / 1024]@.len() <= 1025,
        chunks[i / 1024]@[0] == bos,
        chunks[i / 1024]@[i % 1024 + 1] == tokens[i],
        (chunks.len() - 1) * 1024 < tokens.len() <= chunks.len() * 1024,
{
    let c = i / 1024;
    assert(chunks[c]@ == seq![bos] + chunk_tokens(tokens, c));
}

/// A text begins with the token that the template names, under the id that the tokenizer has for
/// it, and with none where either is missing.
pub proof fn law_leading_token_is_the_named_one(
    tokenizer: Tokenizer,
    template: ChatTemplate,
    bos: String,
    id: u32,
)
    requires
        template.bos_tok == Some(bos),
    ensures
        vocabulary(tokenizer).contains_pair(bos@, id) ==> leading_token(tokenizer, template) == Some(
            id,
        ),
        !vocabulary(tokenizer).contains_key(bos@) ==> leading_token(tokenizer, template) is None,
        leading_token(tokenizer, ChatTemplate { bos_tok: None }) is None,
{
}

} // verus!
