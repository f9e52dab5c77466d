//! NUL-terminated byte buffers as they come out of kernel structures.
use vstd::prelude::*;
use vstd::utf8::*;
use vstd::string::*;

verus! {

/// Length of the C string held in `s`: the index of the first NUL byte,
/// or the whole buffer when there is none.
pub open spec fn c_str_len(s: Seq<u8>) -> nat
    decreases s.len(),
{
    if s.len() == 0 {
        0
    } else if s[0] == 0 {
        0
    } else {
        1 + c_str_len(s.drop_first())
    }
}

/// The bytes of the C string held in `s`.
pub open spec fn c_str_bytes(s: Seq<u8>) -> Seq<u8> {
    s.take(c_str_len(s) as int)
}

/// What decoding a NUL-terminated buffer gives: nothing for an empty string
/// or for bytes that are not UTF-8, otherwise the decoded text.
pub open spec fn c_str_text(s: Seq<u8>) -> Option<Seq<char>> {
    let b = c_str_bytes(s);
    if b.len() == 0 || !valid_utf8(b) {
        None
    } else {
        Some(decode_utf8(b))
    }
}

/// `end` is the first NUL index (or the length) exactly when every earlier
/// byte is non-NUL and `end` is either the length or a NUL.
pub proof fn lemma_c_str_len_char(s: Seq<u8>, end: int)
    requires
        0 <= end <= s.len(),
        forall|j: int| 0 <= j < end ==> s[j] != 0,
        end == s.len() || s[end] == 0,
    ensures
        c_str_len(s) == end,
    decreases end,
{
    if end > 0 {
        let t = s.drop_first();
        assert forall|j: int| 0 <= j < end - 1 implies t[j] != 0 by {
            assert(t[j] == s[j + 1]);
        }
        if end < s.len() {
            assert(t[end - 1] == s[end]);
        }
        lemma_c_str_len_char(t, end - 1);
    }
}

/// Index of the first NUL byte of `bytes`, or its length.
pub fn c_str_end(bytes: &[u8]) -> (end: usize)
    ensures
        end == c_str_len(bytes@),
        end <= bytes@.len(),
{
    let mut i: usize = 0;
    while i < bytes.len()
        invariant
            i <= bytes@.len(),
            forall|j: int| 0 <= j < i ==> bytes@[j] != 0,
        decreases bytes@.len() - i,
    {
        if bytes[i] == 0 {
            proof {
                lemma_c_str_len_char(bytes@, i as int);
            }
            return i;
        }
        i = i + 1;
    }
    proof {
        lemma_c_str_len_char(bytes@, i as int);
    }
    i
}

/// Wraps `std::str::from_utf8`: by its documentation it succeeds exactly on
/// valid UTF-8 input and the text it gives back has the same bytes.
#[verifier::external_body]
pub(crate) fn str_from_utf8(bytes: &[u8]) -> (r: Option<&str>)
    ensures
        r.is_some() <==> valid_utf8(bytes@),
        r matches Some(s) ==> s.spec_bytes() == bytes@,
{
    std::str::from_utf8(bytes).ok()
}

/// Decodes the C string held in `bytes` as UTF-8 text.
pub fn decode_c_str(bytes: &[u8]) -> (r: Option<String>)
    ensures
        r matches Some(s) ==> c_str_text(bytes@) == Some(s@),
        r is None ==> c_str_text(bytes@) is None,
{
    let end = c_str_end(bytes);
    if end == 0 {
        return None;
    }
    let (head, _tail) = bytes.split_at(end);
    assert(head@ == c_str_bytes(bytes@));
    match str_from_utf8(head) {
        Some(s) => {
            proof {
                decode_utf8_encode_utf8(head@);
                encode_utf8_decode_utf8(s@);
            }
            let owned = s.to_owned();
            Some(owned)
        },
        None => None,
    }
}

} // verus!
