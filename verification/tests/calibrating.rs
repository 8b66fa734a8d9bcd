use std::str::FromStr;

use normal_pipeline::calibrate::{
    bos_token_id, calibration_chunks, calibration_tokens, is_plain_tokenizer, tokenised,
    ChatTemplate, CHUNK_SIZE,
};
use normal_pipeline::error::LoadError;
use normal_pipeline::load::LoadEvent;
use tokenizers::Tokenizer;

struct Parts<'a> {
    truncation: &'a str,
    padding: &'a str,
    added_tokens: &'a str,
    normalizer: &'a str,
    pre_tokenizer: &'a str,
    post_processor: &'a str,
    model: &'a str,
}

const WORD_LEVEL: &str = r#"{
    "type": "WordLevel",
    "vocab": {"[UNK]": 0, "bos": 1, "hello": 5, "world": 6},
    "unk_token": "[UNK]"
}"#;

fn plain() -> Parts<'static> {
    Parts {
        truncation: "null",
        padding: "null",
        added_tokens: "[]",
        normalizer: "null",
        pre_tokenizer: r#"{"type": "Whitespace"}"#,
        post_processor: "null",
        model: WORD_LEVEL,
    }
}

fn made(p: Parts<'_>) -> Tokenizer {
    let text = format!(
        r#"{{
            "version": "1.0",
            "truncation": {},
            "padding": {},
            "added_tokens": {},
            "normalizer": {},
            "pre_tokenizer": {},
            "post_processor": {},
            "decoder": null,
            "model": {}
        }}"#,
        p.truncation,
        p.padding,
        p.added_tokens,
        p.normalizer,
        p.pre_tokenizer,
        p.post_processor,
        p.model
    );
    Tokenizer::from_str(&text).unwrap()
}

fn tokenizer() -> Tokenizer {
    made(plain())
}

fn cut(max_length: usize, stride: usize) -> Tokenizer {
    let truncation = format!(
        r#"{{"direction": "Right", "max_length": {max_length}, "strategy": "LongestFirst", "stride": {stride}}}"#
    );
    made(Parts { truncation: &truncation, ..plain() })
}

fn read(t: &Tokenizer, text: &str) -> Option<Vec<u32>> {
    let template = ChatTemplate { bos_tok: Some("bos".to_string()) };
    match LoadEvent::try_read_calibration(t, &template, text)?.unwrap().unwrap() {
        LoadEvent::CalibrationRead { bos: 1, tokens } => Some(tokens),
        _ => panic!(),
    }
}

#[test]
fn plain_tokenizers_are_read_with() {
    let text = "hello world hello";
    assert_eq!(read(&tokenizer(), text), Some(vec![5, 6, 5]));
    assert_eq!(read(&tokenizer(), ""), Some(vec![]));
    let split = r#"{"type": "WhitespaceSplit"}"#;
    assert_eq!(read(&made(Parts { pre_tokenizer: split, ..plain() }), text), Some(vec![5, 6, 5]));
    assert_eq!(read(&made(Parts { pre_tokenizer: "null", ..plain() }), "hello"), Some(vec![5]));
    let word_piece = r###"{
        "type": "WordPiece",
        "vocab": {"[UNK]": 0, "bos": 1, "hel": 2, "##lo": 3},
        "unk_token": "[UNK]",
        "continuing_subword_prefix": "##",
        "max_input_chars_per_word": 100
    }"###;
    assert_eq!(read(&made(Parts { model: word_piece, ..plain() }), "hello x"), Some(vec![2, 3, 0]));
    assert_eq!(read(&cut(2, 1), text), Some(vec![5, 6]));
    assert_eq!(read(&cut(0, 0), text), Some(vec![]));
}

#[test]
fn other_tokenizers_are_told_apart() {
    assert!(is_plain_tokenizer(&tokenizer()));
    assert!(!is_plain_tokenizer(&cut(2, 2)));
    assert!(!is_plain_tokenizer(&cut(1, 3)));
    for pre_tokenizer in [
        r#"{"type": "FixedLength", "length": 0}"#,
        r#"{"type": "Split", "pattern": {"Regex": "(a|a)*b"}, "behavior": "Isolated", "invert": false}"#,
        r#"{"type": "Sequence", "pretokenizers": []}"#,
        r#"{"type": "ByteLevel", "add_prefix_space": false, "trim_offsets": true, "use_regex": true}"#,
    ] {
        assert!(!is_plain_tokenizer(&made(Parts { pre_tokenizer, ..plain() })));
    }
    let normalizer = r#"{"type": "Replace", "pattern": {"Regex": "(a|a)*b"}, "content": "x"}"#;
    assert!(!is_plain_tokenizer(&made(Parts { normalizer, ..plain() })));
    let post_processor = r#"{
        "type": "TemplateProcessing",
        "single": [{"Sequence": {"id": "B", "type_id": 0}}],
        "pair": [],
        "special_tokens": {}
    }"#;
    assert!(!is_plain_tokenizer(&made(Parts { post_processor, ..plain() })));
    let padding = r#"{
        "strategy": "BatchLongest", "direction": "Right", "pad_to_multiple_of": null,
        "pad_id": 0, "pad_type_id": 0, "pad_token": "[PAD]"
    }"#;
    assert!(!is_plain_tokenizer(&made(Parts { padding, ..plain() })));
    let added_tokens = r#"[{
        "id": 1, "content": "bos", "single_word": false, "lstrip": true, "rstrip": true,
        "normalized": false, "special": true
    }]"#;
    assert!(!is_plain_tokenizer(&made(Parts { added_tokens, ..plain() })));
    let bpe = r#"{"type": "BPE", "vocab": {"a": 0}, "merges": []}"#;
    assert!(!is_plain_tokenizer(&made(Parts { model: bpe, ..plain() })));
    let template = ChatTemplate { bos_tok: Some("bos".to_string()) };
    assert!(LoadEvent::try_read_calibration(&cut(2, 2), &template, "hello").is_none());
}

#[test]
fn calibration_event_holds_the_text_and_the_leading_token() {
    let t = tokenizer();
    let named = ChatTemplate { bos_tok: Some("bos".to_string()) };
    match LoadEvent::read_calibration(&t, &named, "world") {
        Ok(Some(LoadEvent::CalibrationRead { bos, tokens })) => {
            assert_eq!(bos, 1);
            assert_eq!(tokens, vec![6]);
        }
        _ => panic!(),
    }
    let unnamed = ChatTemplate { bos_tok: None };
    assert!(matches!(LoadEvent::read_calibration(&t, &unnamed, "world"), Ok(None)));
    let strict = r#"{"type": "WordLevel", "vocab": {"bos": 1}, "unk_token": "[UNK]"}"#;
    let strict = made(Parts { model: strict, ..plain() });
    assert!(matches!(
        LoadEvent::read_calibration(&strict, &unnamed, "world"),
        Err(LoadError::Tokenize { .. })
    ));
}

#[test]
fn text_is_tokenised_without_a_leading_token() {
    assert_eq!(calibration_tokens(&tokenizer(), "hello world hello").unwrap(), vec![5, 6, 5]);
    assert_eq!(calibration_tokens(&tokenizer(), "").unwrap(), Vec::<u32>::new());
}

#[test]
fn failure_to_tokenise_is_passed_on() {
    assert_eq!(tokenised(Ok(vec![3])).unwrap(), vec![3]);
    let err = tokenised(Err("broken".to_string())).unwrap_err();
    assert!(matches!(err, LoadError::Tokenize { .. }));
    assert_eq!(err.message(), "broken");
}

#[test]
fn leading_token_is_looked_up_in_the_vocabulary() {
    let t = tokenizer();
    assert_eq!(bos_token_id(&t, &ChatTemplate { bos_tok: Some("bos".to_string()) }), Some(1));
    assert_eq!(bos_token_id(&t, &ChatTemplate { bos_tok: Some("nope".to_string()) }), None);
    assert_eq!(bos_token_id(&t, &ChatTemplate { bos_tok: None }), None);
}

#[test]
fn chunks_cover_the_text_once() {
    let tokens: Vec<u32> = (0..2500).collect();
    let chunks = calibration_chunks(77, &tokens);
    assert_eq!(chunks.len(), 3);
    assert_eq!(chunks[0].len(), CHUNK_SIZE + 1);
    assert_eq!(chunks[1].len(), CHUNK_SIZE + 1);
    assert_eq!(chunks[2].len(), 453);
    let mut all: Vec<u32> = vec![];
    for c in &chunks {
        assert_eq!(c[0], 77);
        all.extend_from_slice(&c[1..]);
    }
    assert_eq!(all, tokens);
    assert_eq!(calibration_chunks(1, &vec![]), Vec::<Vec<u32>>::new());
    assert_eq!(calibration_chunks(1, &(0..1024).collect()).len(), 1);
}
