//! Bridging of strings to and from the null-terminated form that the native
//! engine reads.
//!
//! A string crosses the boundary as its UTF-8 bytes followed by one zero
//! byte. The engine reads such a buffer up to the first zero byte, so a
//! string that itself holds a zero byte reaches the engine cut short. That
//! loss is accepted here and stated, not repaired.

use vstd::prelude::*;
use vstd::string::*;
use vstd::utf8::*;

verus! {

/// The buffer handed to the engine for `text`: its UTF-8 encoding followed
/// by a zero byte.
pub open spec fn c_str_bytes(text: Seq<char>) -> Seq<u8> {
    encode_utf8(text).push(0u8)
}

/// A buffer that a native reader can walk without leaving it: it ends in a
/// zero byte.
pub open spec fn nul_terminated(bytes: Seq<u8>) -> bool {
    bytes.len() > 0 && bytes.last() == 0u8
}

/// Every buffer of `names` ends in a zero byte.
pub open spec fn all_nul_terminated(names: Seq<Seq<u8>>) -> bool {
    forall|i: int| 0 <= i < names.len() ==> nul_terminated(#[trigger] names[i])
}

/// The buffers handed to the engine for a list of strings, one for one.
pub open spec fn c_strs(texts: Seq<String>) -> Seq<Seq<u8>> {
    Seq::new(texts.len(), |i: int| c_str_bytes(texts[i]@))
}

/// The views of a sequence of vectors, one for one.
pub open spec fn seq_views<T>(v: Seq<Vec<T>>) -> Seq<Seq<T>> {
    Seq::new(v.len(), |i: int| v[i]@)
}

/// The number of bytes before the first zero byte of `bytes`, or its length
/// when it holds none.
pub open spec fn c_str_len(bytes: Seq<u8>) -> nat
    decreases bytes.len(),
{
    if bytes.len() == 0 || bytes[0] == 0u8 {
        0
    } else {
        1 + c_str_len(bytes.drop_first())
    }
}

/// What a native reader takes from `bytes`: everything before the first zero
/// byte.
pub open spec fn c_str_value(bytes: Seq<u8>) -> Seq<u8> {
    bytes.take(c_str_len(bytes) as int)
}

/// What the engine reads when it is handed `text`.
pub open spec fn native_text(text: Seq<char>) -> Seq<u8> {
    c_str_value(c_str_bytes(text))
}

/// `c_str_len` is the position of the first zero byte: it lies within the
/// buffer, no byte before it is zero, and the byte at it, if any, is zero.
pub proof fn lemma_c_str_len(bytes: Seq<u8>)
    ensures
        c_str_len(bytes) <= bytes.len(),
        forall|i: int| 0 <= i < c_str_len(bytes) ==> bytes[i] != 0u8,
        c_str_len(bytes) < bytes.len() ==> bytes[c_str_len(bytes) as int] == 0u8,
    decreases bytes.len(),
{
    if bytes.len() == 0 || bytes[0] == 0u8 {
    } else {
        let rest = bytes.drop_first();
        lemma_c_str_len(rest);
        assert forall|i: int| 0 <= i < c_str_len(bytes) implies bytes[i] != 0u8 by {
            if i > 0 {
                assert(bytes[i] == rest[i - 1]);
            }
        }
        if c_str_len(bytes) < bytes.len() {
            assert(bytes[c_str_len(bytes) as int] == rest[c_str_len(rest) as int]);
        }
    }
}

/// Only one position is that of the first zero byte.
pub proof fn lemma_c_str_len_is(bytes: Seq<u8>, n: int)
    requires
        0 <= n <= bytes.len(),
        forall|i: int| 0 <= i < n ==> bytes[i] != 0u8,
        n < bytes.len() ==> bytes[n] == 0u8,
    ensures
        c_str_len(bytes) == n,
{
    lemma_c_str_len(bytes);
    let m = c_str_len(bytes) as int;
    if m < n {
        assert(bytes[m] != 0u8);
    } else if n < m {
        assert(bytes[n] != 0u8);
    }
}

/// The terminator that the bridge appends changes nothing of what is read,
/// and a buffer without a zero byte is read whole.
pub proof fn lemma_c_str_value_terminated(bytes: Seq<u8>)
    ensures
        c_str_value(bytes.push(0u8)) == c_str_value(bytes),
        !bytes.contains(0u8) ==> c_str_value(bytes.push(0u8)) == bytes,
{
    lemma_c_str_len(bytes);
    let n = c_str_len(bytes) as int;
    let ended = bytes.push(0u8);
    assert forall|i: int| 0 <= i < n implies ended[i] != 0u8 by {
        assert(ended[i] == bytes[i]);
    }
    if n < bytes.len() {
        assert(ended[n] == bytes[n]);
    }
    lemma_c_str_len_is(ended, n);
    assert(ended.take(n) =~= bytes.take(n));
    if !bytes.contains(0u8) {
        if n < bytes.len() {
            assert(bytes.contains(bytes[n]));
        }
        assert(bytes.take(n) =~= bytes);
    }
}

/// What is read holds no zero byte and is a prefix of the buffer.
pub proof fn lemma_c_str_value_prefix(bytes: Seq<u8>)
    ensures
        c_str_value(bytes).is_prefix_of(bytes),
        !c_str_value(bytes).contains(0u8),
        c_str_value(c_str_value(bytes)) == c_str_value(bytes),
{
    lemma_c_str_len(bytes);
    let value = c_str_value(bytes);
    assert(value.len() == c_str_len(bytes));
    if value.contains(0u8) {
        let i = choose|i: int| 0 <= i < value.len() && value[i] == 0u8;
        assert(bytes[i] == value[i]);
    }
    lemma_c_str_len_is(value, value.len() as int);
    assert(value.take(value.len() as int) =~= value);
}

/// The encoding of a character other than the null character holds no
/// zero byte.
proof fn lemma_scalar_no_nul(c: char)
    requires
        c != '\0',
    ensures
        !encode_scalar(c as u32).contains(0u8),
{
    let s = c as u32;
    char_is_scalar(c);
    assert(s != 0);
    assert(s <= 0x7F && s != 0 ==> (s & 0x7F) as u8 != 0u8) by (bit_vector);
    assert(0xC0u8 | ((s >> 6) & 0x1F) as u8 != 0u8) by (bit_vector);
    assert(0xE0u8 | ((s >> 12) & 0x0F) as u8 != 0u8) by (bit_vector);
    assert(0xF0u8 | ((s >> 18) & 0x7) as u8 != 0u8) by (bit_vector);
    assert(0x80u8 | (s & 0x3F) as u8 != 0u8) by (bit_vector);
    assert(0x80u8 | ((s >> 6) & 0x3F) as u8 != 0u8) by (bit_vector);
    assert(0x80u8 | ((s >> 12) & 0x3F) as u8 != 0u8) by (bit_vector);
    let bytes = encode_scalar(s);
    assert forall|i: int| 0 <= i < bytes.len() implies bytes[i] != 0u8 by {}
}

/// A text without the null character is encoded without a zero byte.
pub proof fn lemma_encode_no_nul(text: Seq<char>)
    requires
        !text.contains('\0'),
    ensures
        !encode_utf8(text).contains(0u8),
    decreases text.len(),
{
    if text.len() > 0 {
        let rest = text.drop_first();
        assert(text.contains(text[0]));
        assert forall|i: int| 0 <= i < rest.len() implies rest[i] != '\0' by {
            assert(rest[i] == text[i + 1]);
            assert(text.contains(text[i + 1]));
        }
        lemma_scalar_no_nul(text[0]);
        lemma_encode_no_nul(rest);
        let head = encode_scalar(text[0] as u32);
        let tail = encode_utf8(rest);
        let bytes = encode_utf8(text);
        assert forall|i: int| 0 <= i < bytes.len() implies bytes[i] != 0u8 by {
            if i < head.len() {
                assert(bytes[i] == head[i]);
                assert(head.contains(head[i]));
            } else {
                assert(bytes[i] == tail[i - head.len()]);
                assert(tail.contains(tail[i - head.len()]));
            }
        }
    }
}

/// A string without the null character reaches the engine whole: what the
/// engine reads from its buffer is its UTF-8 encoding, byte for byte.
pub proof fn lemma_native_text_whole(text: Seq<char>)
    requires
        !text.contains('\0'),
    ensures
        native_text(text) == encode_utf8(text),
{
    lemma_encode_no_nul(text);
    lemma_c_str_value_terminated(encode_utf8(text));
}

/// A string reaches the engine cut at its first zero byte: nothing of it
/// is added to, and nothing before that byte is lost.
pub proof fn lemma_native_text_cut(text: Seq<char>)
    ensures
        native_text(text) == c_str_value(encode_utf8(text)),
        native_text(text).is_prefix_of(encode_utf8(text)),
        !native_text(text).contains(0u8),
{
    lemma_c_str_value_terminated(encode_utf8(text));
    lemma_c_str_value_prefix(encode_utf8(text));
}

/// Converts `s` to the buffer that is handed to the engine in its place.
pub fn to_c_str(s: &str) -> (buf: Vec<u8>)
    ensures
        buf@ == c_str_bytes(s@),
        nul_terminated(buf@),
{
    let mut buf = s.as_bytes_vec();
    buf.push(0u8);
    buf
}

/// Converts a list of strings to the buffers that are handed to the engine
/// in their place. The buffers are returned together, so that all of them
/// live until the call that reads them has returned.
pub fn to_c_strs(texts: &Vec<String>) -> (bufs: Vec<Vec<u8>>)
    ensures
        seq_views(bufs@) == c_strs(texts@),
        all_nul_terminated(seq_views(bufs@)),
{
    let mut bufs: Vec<Vec<u8>> = Vec::new();
    let mut i: usize = 0;
    while i < texts.len()
        invariant
            0 <= i <= texts.len(),
            bufs@.len() == i,
            forall|j: int| 0 <= j < i ==> (#[trigger] bufs@[j])@ == c_str_bytes(texts@[j]@),
        decreases texts.len() - i,
    {
        bufs.push(to_c_str(texts[i].as_str()));
        i = i + 1;
    }
    assert(seq_views(bufs@) =~= c_strs(texts@));
    bufs
}

/// Reads a buffer as the engine does: the bytes before the first zero byte,
/// or all of them when there is none.
pub fn from_c_str(buf: &[u8]) -> (text: Vec<u8>)
    ensures
        text@ == c_str_value(buf@),
{
    let mut text: Vec<u8> = Vec::new();
    let mut i: usize = 0;
    while i < buf.len() && buf[i] != 0u8
        invariant
            0 <= i <= buf.len(),
            text@ == buf@.take(i as int),
            forall|j: int| 0 <= j < i ==> buf@[j] != 0u8,
        decreases buf.len() - i,
    {
        text.push(buf[i]);
        i = i + 1;
        assert(text@ =~= buf@.take(i as int));
    }
    proof {
        lemma_c_str_len_is(buf@, i as int);
    }
    text
}

} // verus!
