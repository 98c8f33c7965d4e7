//! NUL-terminated byte strings, as the runtimes hand them out and take them.
use vstd::prelude::*;
use vstd::slice::{slice_subrange, slice_to_vec};
use vstd::string::StringSliceAdditionalSpecFns;
use vstd::utf8::{decode_utf8, encode_utf8, valid_utf8};

verus! {

/// Whether `end` is where the C string at the start of `bytes` ends: at the
/// first NUL, or at the end of `bytes` where they hold none.
pub open spec fn is_text_end(bytes: Seq<u8>, end: int) -> bool {
    &&& 0 <= end <= bytes.len()
    &&& forall|i: int| 0 <= i < end ==> bytes[i] != 0
    &&& end < bytes.len() ==> bytes[end] == 0
}

/// Where the C string at the start of `bytes` ends.
pub open spec fn text_end(bytes: Seq<u8>) -> int
    decreases bytes.len(),
{
    if bytes.len() == 0 || bytes[0] == 0 {
        0
    } else {
        1 + text_end(bytes.drop_first())
    }
}

/// The bytes of the C string at the start of `bytes`, without the NUL.
pub open spec fn text_bytes(bytes: Seq<u8>) -> Seq<u8> {
    bytes.take(text_end(bytes))
}

/// `text_end` is an end of the C string.
pub proof fn lemma_text_end_is_end(bytes: Seq<u8>)
    ensures
        is_text_end(bytes, text_end(bytes)),
    decreases bytes.len(),
{
    if bytes.len() == 0 || bytes[0] == 0 {
    } else {
        let rest = bytes.drop_first();
        lemma_text_end_is_end(rest);
        assert forall|i: int| 0 <= i < 1 + text_end(rest) implies bytes[i] != 0 by {
            if i > 0 {
                assert(bytes[i] == rest[i - 1]);
            }
        }
        if 1 + text_end(rest) < bytes.len() {
            assert(bytes[1 + text_end(rest)] == rest[text_end(rest)]);
        }
    }
}

/// A C string has one end only.
pub proof fn lemma_text_end_unique(bytes: Seq<u8>, end: int)
    requires
        is_text_end(bytes, end),
    ensures
        end == text_end(bytes),
{
    lemma_text_end_is_end(bytes);
    let other = text_end(bytes);
    if end < other {
        assert(bytes[end] != 0);
    } else if other < end {
        assert(bytes[other] != 0);
    }
}

/// The length of the C string at the start of `bytes`: the index of the first
/// NUL, or the length of `bytes` where they hold none.
pub fn text_len(bytes: &[u8]) -> (len: usize)
    ensures
        len == text_end(bytes@),
        is_text_end(bytes@, len as int),
{
    let mut i: usize = 0;
    while i < bytes.len() && bytes[i] != 0
        invariant
            i <= bytes.len(),
            forall|j: int| 0 <= j < i ==> bytes@[j] != 0,
        decreases bytes.len() - i,
    {
        i += 1;
    }
    proof {
        lemma_text_end_unique(bytes@, i as int);
    }
    i
}

/// The text that `String::from_utf8_lossy` makes of `bytes`.
pub uninterp spec fn lossy_text(bytes: Seq<u8>) -> Seq<char>;

/// Calls `String::from_utf8_lossy` and takes ownership of what it returns.
///
/// Believed, not proved: the text depends on the bytes alone, and bytes that
/// are valid UTF-8 come back as the text they encode. What replaces a
/// sequence that is not valid is left to the standard library.
#[verifier::external_body]
fn decode_lossy(bytes: &[u8]) -> (text: String)
    ensures
        text@ == lossy_text(bytes@),
        valid_utf8(bytes@) ==> text@ == decode_utf8(bytes@),
{
    String::from_utf8_lossy(bytes).into_owned()
}

/// Reads the C string at the start of `buffer` as text: the bytes before the
/// first NUL (all of them where there is none), decoded as UTF-8, with each
/// sequence that is not valid replaced.
pub fn text_from_buffer(buffer: &[u8]) -> (text: String)
    ensures
        text@ == lossy_text(text_bytes(buffer@)),
        valid_utf8(text_bytes(buffer@)) ==> text@ == decode_utf8(text_bytes(buffer@)),
{
    let len = text_len(buffer);
    decode_lossy(slice_subrange(buffer, 0, len))
}

/// Reads a string that the runtime may have withheld: a null pointer, here
/// `None`, gives the empty text and no error; bytes are read as by
/// `text_from_buffer`.
pub fn text_or_empty(bytes: Option<&[u8]>) -> (text: String)
    ensures
        bytes is None ==> text@ == Seq::<char>::empty(),
        bytes is Some ==> text@ == lossy_text(text_bytes(bytes.unwrap()@)),
        bytes is Some && valid_utf8(text_bytes(bytes.unwrap()@)) ==> text@ == decode_utf8(
            text_bytes(bytes.unwrap()@),
        ),
{
    match bytes {
        None => String::new(),
        Some(bytes) => text_from_buffer(bytes),
    }
}

/// The C string for `bytes`: they cannot hold a NUL of their own, and get
/// one at the end.
pub open spec fn spec_c_string(bytes: Seq<u8>) -> Option<Seq<u8>> {
    if bytes.contains(0u8) {
        None
    } else {
        Some(bytes.push(0u8))
    }
}

/// Makes the C string that carries `text` to a runtime: its UTF-8 bytes and a
/// closing NUL. A text that holds a NUL has no C string.
pub fn c_string(text: &str) -> (terminated: Option<Vec<u8>>)
    ensures
        match spec_c_string(text.spec_bytes()) {
            None => terminated is None,
            Some(bytes) => terminated is Some && terminated.unwrap()@ == bytes,
        },
{
    let bytes = text.as_bytes();
    let len = text_len(bytes);
    if len < bytes.len() {
        assert(bytes@[len as int] == 0u8);
        None
    } else {
        let mut terminated = slice_to_vec(bytes);
        terminated.push(0u8);
        Some(terminated)
    }
}

/// Bytes without a NUL are read back unchanged from their C string.
pub proof fn lemma_c_string_holds_bytes(bytes: Seq<u8>)
    requires
        !bytes.contains(0u8),
    ensures
        spec_c_string(bytes) is Some,
        text_bytes(spec_c_string(bytes).unwrap()) == bytes,
{
    let terminated = bytes.push(0u8);
    assert forall|i: int| 0 <= i < bytes.len() implies terminated[i] != 0 by {
        assert(bytes.contains(bytes[i]));
    }
    lemma_text_end_unique(terminated, bytes.len() as int);
    assert(terminated.take(bytes.len() as int) =~= bytes);
}

/// A text whose UTF-8 bytes hold no NUL survives the way to a runtime and
/// back: its C string is valid UTF-8 up to the NUL, and decodes to the text.
pub proof fn lemma_c_string_round_trip(text: Seq<char>)
    requires
        !encode_utf8(text).contains(0u8),
    ensures
        spec_c_string(encode_utf8(text)) is Some,
        valid_utf8(text_bytes(spec_c_string(encode_utf8(text)).unwrap())),
        decode_utf8(text_bytes(spec_c_string(encode_utf8(text)).unwrap())) == text,
{
    broadcast use vstd::utf8::encode_utf8_valid_utf8, vstd::utf8::encode_utf8_decode_utf8;

    lemma_c_string_holds_bytes(encode_utf8(text));
}

} // verus!
