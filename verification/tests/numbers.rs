use normal_pipeline::outcome::{all_agree, all_done, collect_results, concatenate};
use normal_pipeline::sizing::{
    checked_model_size, checked_sum, does_average, quant_type_byte, weight_pack_factor,
    UqffArtifact,
};
use normal_pipeline::text::{chars_of, parse_chars, parse_usize, usize_to_string, ParseFailure};

#[test]
fn numbers_are_read_with_an_optional_plus_sign_only() {
    assert_eq!(parse_usize("0"), Ok(0));
    assert_eq!(parse_usize("0042"), Ok(42));
    assert_eq!(parse_usize("+7"), Ok(7));
    assert_eq!(parse_usize("18446744073709551615"), Ok(usize::MAX));
    assert_eq!(parse_usize(""), Err(ParseFailure::Empty));
    for s in ["+", "++1", "-1", "-", " 1", "1_000", "１", "12a"] {
        assert_eq!(parse_usize(s), Err(ParseFailure::InvalidDigit));
    }
    for s in ["18446744073709551616", "+99999999999999999999999", "18446744073709551616x"] {
        assert_eq!(parse_usize(s), Err(ParseFailure::PosOverflow));
    }
    assert_eq!(parse_usize("1844674407370955161x"), Err(ParseFailure::InvalidDigit));
    assert_eq!(parse_chars(&chars_of("a12b"), 1, 3), Ok(12));
    assert_eq!(parse_chars(&chars_of("a12b"), 1, 1), Err(ParseFailure::Empty));
}

#[test]
fn reading_agrees_with_the_standard_library() {
    for s in [
        "1", "+0", "12a", "a", "007", "+-1", "4294967296", "é", "", "+", "-", "-0", "++", "+ 1",
        "18446744073709551615", "18446744073709551616", "18446744073709551616x",
        "1844674407370955161x", "99999999999999999999x", "00000000000000000000000001",
        "0000000000000000000000000x", "x99999999999999999999999",
    ] {
        match (parse_usize(s), s.parse::<usize>()) {
            (Ok(n), Ok(m)) => assert_eq!(n, m),
            (Err(e), Err(f)) => {
                assert_eq!(format!("{e:?}"), format!("{:?}", f.kind()));
                assert_eq!(e.message(), f.to_string());
            }
            _ => panic!("{s}"),
        }
    }
}

#[test]
fn numbers_are_written_in_decimal() {
    for n in [0usize, 7, 10, 99, 100, 1024, usize::MAX] {
        assert_eq!(usize_to_string(n), n.to_string());
        assert_eq!(parse_usize(&usize_to_string(n)), Ok(n));
    }
}

#[test]
fn characters_are_taken_apart() {
    assert_eq!(chars_of("a.é"), vec!['a', '.', 'é']);
}

#[test]
fn pack_factor_is_the_rounded_average() {
    let artifacts = vec![
        UqffArtifact::Hqq { pack_factor: 4 },
        UqffArtifact::Gguf { pack_factor: 3 },
        UqffArtifact::Fp8 { pack_factor: 2 },
        UqffArtifact::Unquant,
    ];
    assert!(does_average(&artifacts));
    assert_eq!(weight_pack_factor(&artifacts), 2);
    assert!(!does_average(&vec![]));
    assert!(!does_average(&vec![
        UqffArtifact::Fp8 { pack_factor: usize::MAX },
        UqffArtifact::Unquant
    ]));
}

#[test]
fn quantisation_is_in_the_fifth_byte() {
    assert_eq!(quant_type_byte(&[9, 8, 7, 6, 5, 4]), 5);
}

#[test]
fn sizes_add_up_unless_they_overflow() {
    assert_eq!(checked_sum(&vec![1, 2, 3]), Some(6));
    assert_eq!(checked_sum(&vec![]), Some(0));
    assert_eq!(checked_sum(&vec![usize::MAX, 1]), None);
    assert_eq!(checked_model_size(&vec![10, 20], 5), Some(35));
    assert_eq!(checked_model_size(&vec![usize::MAX], 1), None);
}

#[test]
fn results_are_collected_up_to_the_first_error() {
    assert_eq!(collect_results::<u8, &str>(vec![Ok(1), Ok(2)]), Ok(vec![1, 2]));
    assert_eq!(collect_results(vec![Ok(1u8), Err("a"), Err("b")]), Err("a"));
    assert_eq!(all_done::<u8, &str>(vec![]), Ok(()));
    assert_eq!(all_done(vec![Ok(1u8), Err("x")]), Err("x"));
}

#[test]
fn lists_are_put_one_behind_the_other() {
    assert_eq!(concatenate(vec![vec![1, 2], vec![], vec![3]]), vec![1, 2, 3]);
    assert_eq!(concatenate::<u8>(vec![]), Vec::<u8>::new());
    assert!(all_agree(&vec![true, true]));
    assert!(!all_agree(&vec![true, false]));
    assert!(all_agree(&vec![]));
}
