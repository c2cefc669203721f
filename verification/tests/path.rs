use signature_to_keys::signature_generators::eth::trezor::{bip32_path_to_vec, parse_bip32_path};
use signature_to_keys::KeyError;

#[test]
fn parses_hardened_and_plain_segments() {
    let indices = bip32_path_to_vec("m/44h/60h/0h/0/12").unwrap();
    assert_eq!(indices, vec![0x8000002Cu32, 0x8000003C, 0x80000000, 0, 12]);
}

#[test]
fn rejects_a_segment_that_is_no_number() {
    assert_eq!(bip32_path_to_vec("m/abc"), Err(KeyError::PathParse));
}

#[test]
fn parses_the_default_path() {
    let indices = bip32_path_to_vec("m/44h/60h/11h/0/12").unwrap();
    assert_eq!(indices, vec![0x8000002Cu32, 0x8000003C, 0x8000000B, 0, 12]);
}

#[test]
fn tick_hardens_like_h() {
    assert_eq!(bip32_path_to_vec("m/44'/0'/7"), Ok(vec![0x8000002Cu32, 0x80000000, 7]));
}

#[test]
fn root_alone_is_the_empty_list() {
    assert_eq!(bip32_path_to_vec("m"), Ok(vec![]));
    assert_eq!(bip32_path_to_vec(""), Ok(vec![]));
}

#[test]
fn root_marker_is_dropped_whatever_it_holds() {
    assert_eq!(bip32_path_to_vec("x/1/2"), Ok(vec![1u32, 2]));
    assert_eq!(bip32_path_to_vec("/1/2"), Ok(vec![1u32, 2]));
    assert_eq!(bip32_path_to_vec("12h/3"), Ok(vec![3u32]));
}

#[test]
fn empty_segment_is_rejected() {
    assert_eq!(bip32_path_to_vec("m/"), Err(KeyError::PathParse));
    assert_eq!(bip32_path_to_vec("m//1"), Err(KeyError::PathParse));
    assert_eq!(bip32_path_to_vec("m/1/"), Err(KeyError::PathParse));
}

#[test]
fn marker_without_digits_is_rejected() {
    assert_eq!(bip32_path_to_vec("m/h"), Err(KeyError::PathParse));
    assert_eq!(bip32_path_to_vec("m/'"), Err(KeyError::PathParse));
    assert_eq!(bip32_path_to_vec("m/+h"), Err(KeyError::PathParse));
    assert_eq!(bip32_path_to_vec("m/+"), Err(KeyError::PathParse));
}

#[test]
fn largest_index_fits_and_the_next_does_not() {
    assert_eq!(bip32_path_to_vec("m/4294967295"), Ok(vec![u32::MAX]));
    assert_eq!(bip32_path_to_vec("m/4294967296"), Err(KeyError::PathParse));
    assert_eq!(bip32_path_to_vec("m/99999999999999999999999"), Err(KeyError::PathParse));
    assert_eq!(bip32_path_to_vec("m/4294967296h"), Err(KeyError::PathParse));
}

#[test]
fn hardening_sets_the_top_bit_and_keeps_a_set_one() {
    assert_eq!(bip32_path_to_vec("m/2147483647h"), Ok(vec![0xFFFFFFFFu32]));
    assert_eq!(bip32_path_to_vec("m/2147483648"), Ok(vec![0x80000000u32]));
    assert_eq!(bip32_path_to_vec("m/2147483648h"), Ok(vec![0x80000000u32]));
    assert_eq!(bip32_path_to_vec("m/4294967295'"), Ok(vec![0xFFFFFFFFu32]));
}

#[test]
fn leading_zeros_and_a_plus_sign_are_read() {
    assert_eq!(bip32_path_to_vec("m/007"), Ok(vec![7u32]));
    assert_eq!(bip32_path_to_vec("m/000000000000000000000001h"), Ok(vec![0x80000001u32]));
    assert_eq!(bip32_path_to_vec("m/+5"), Ok(vec![5u32]));
    assert_eq!(bip32_path_to_vec("m/+5h"), Ok(vec![0x80000005u32]));
}

#[test]
fn signs_spaces_and_other_text_are_rejected() {
    assert_eq!(bip32_path_to_vec("m/-1"), Err(KeyError::PathParse));
    assert_eq!(bip32_path_to_vec("m/++1"), Err(KeyError::PathParse));
    assert_eq!(bip32_path_to_vec("m/ 1"), Err(KeyError::PathParse));
    assert_eq!(bip32_path_to_vec("m/1 "), Err(KeyError::PathParse));
    assert_eq!(bip32_path_to_vec("m/1hh"), Err(KeyError::PathParse));
    assert_eq!(bip32_path_to_vec("m/1'h"), Err(KeyError::PathParse));
    assert_eq!(bip32_path_to_vec("m/0x10"), Err(KeyError::PathParse));
    assert_eq!(bip32_path_to_vec("m/1H"), Err(KeyError::PathParse));
    assert_eq!(bip32_path_to_vec("m/\u{e9}"), Err(KeyError::PathParse));
    assert_eq!(bip32_path_to_vec("m/\u{661}"), Err(KeyError::PathParse));
}

#[test]
fn a_bad_segment_anywhere_fails_the_whole_path() {
    assert_eq!(bip32_path_to_vec("m/44h/60h/abc/0/12"), Err(KeyError::PathParse));
    assert_eq!(bip32_path_to_vec("m/44h/60h/0h/0/12x"), Err(KeyError::PathParse));
}

#[test]
fn bytes_and_text_are_read_alike() {
    assert_eq!(parse_bip32_path(b"m/44h/60h/0h/0/12"), bip32_path_to_vec("m/44h/60h/0h/0/12"));
    assert_eq!(parse_bip32_path(b"m/abc"), Err(KeyError::PathParse));
    assert_eq!(parse_bip32_path(&[0x6d, 0x2f, 0xff]), Err(KeyError::PathParse));
    assert_eq!(parse_bip32_path(b""), Ok(vec![]));
}

#[test]
fn a_written_index_list_reads_back() {
    let lists: Vec<Vec<u32>> = vec![
        vec![],
        vec![0],
        vec![0x80000000],
        vec![0x8000002C, 0x8000003C, 0x80000000, 0, 12],
        vec![u32::MAX, 0x7FFFFFFF, 10, 0x8000000A],
    ];
    for list in lists {
        let mut text = String::from("m");
        for index in &list {
            text.push('/');
            if *index >= 0x80000000 {
                text.push_str(&format!("{}h", index - 0x80000000));
            } else {
                text.push_str(&format!("{}", index));
            }
        }
        assert_eq!(bip32_path_to_vec(&text), Ok(list));
    }
}
