use paddle_inference::utils::{from_c_str, to_c_str, to_c_strs};

#[test]
fn to_c_str_appends_one_zero_byte() {
    assert_eq!(to_c_str("abc"), vec![b'a', b'b', b'c', 0]);
    assert_eq!(to_c_str(""), vec![0]);
}

#[test]
fn to_c_str_encodes_as_utf8() {
    assert_eq!(to_c_str("é"), vec![0xC3, 0xA9, 0]);
    assert_eq!(to_c_str("张量"), vec![0xE5, 0xBC, 0xA0, 0xE9, 0x87, 0x8F, 0]);
}

#[test]
fn to_c_str_keeps_an_embedded_zero_byte() {
    assert_eq!(to_c_str("ab\0cd"), vec![b'a', b'b', 0, b'c', b'd', 0]);
}

#[test]
fn from_c_str_stops_at_the_first_zero_byte() {
    assert_eq!(from_c_str(&[b'a', b'b', 0, b'c', 0]), vec![b'a', b'b']);
    assert_eq!(from_c_str(&[b'a', b'b']), vec![b'a', b'b']);
    assert_eq!(from_c_str(&[0, b'a']), Vec::<u8>::new());
    assert_eq!(from_c_str(&[]), Vec::<u8>::new());
}

#[test]
fn a_string_without_zero_byte_comes_back_whole() {
    for text in ["x", "image", "conv2d_0.tmp_1", "é", "张量", ""] {
        assert_eq!(from_c_str(&to_c_str(text)), text.as_bytes().to_vec());
    }
}

#[test]
fn a_string_with_zero_byte_comes_back_cut() {
    assert_eq!(from_c_str(&to_c_str("ab\0cd")), b"ab".to_vec());
    assert_eq!(from_c_str(&to_c_str("\0cd")), Vec::<u8>::new());
}

#[test]
fn to_c_strs_converts_each_in_place() {
    let names = vec!["conv2d".to_string(), "pool2d".to_string(), String::new()];
    assert_eq!(
        to_c_strs(&names),
        vec![b"conv2d\0".to_vec(), b"pool2d\0".to_vec(), b"\0".to_vec()]
    );
    assert_eq!(to_c_strs(&Vec::new()), Vec::<Vec<u8>>::new());
}
