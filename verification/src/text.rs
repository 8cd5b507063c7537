//! Byte-exact string comparison and substring search.
//!
//! The prompt-synchronized channel recognizes the shell prompt by
//! substring containment, and the status codec compares stored text
//! against a closed set of words. Both are implemented here over the
//! UTF-8 bytes of the strings and related back to their character
//! views through vstd's UTF-8 round-trip lemmas.

use vstd::prelude::*;

verus! {

use vstd::string::StringSliceAdditionalSpecFns;
use vstd::utf8::encode_utf8;
use vstd::utf8::encode_utf8_decode_utf8;

/// `needle` occurs contiguously somewhere in `hay`.
pub open spec fn bytes_contain(hay: Seq<u8>, needle: Seq<u8>) -> bool {
    exists|i: int|
        0 <= i && i + needle.len() <= hay.len() && #[trigger] hay.subrange(i, i + needle.len())
            == needle
}

/// `needle` occurs as a substring of `hay`, judged on their UTF-8 bytes.
pub open spec fn text_contains(hay: Seq<char>, needle: Seq<char>) -> bool {
    bytes_contain(encode_utf8(hay), encode_utf8(needle))
}

fn bytes_eq(a: &[u8], b: &[u8]) -> (r: bool)
    ensures
        r == (a@ == b@),
{
    if a.len() != b.len() {
        assert(a@ != b@);
        return false;
    }
    let n = a.len();
    let mut i: usize = 0;
    while i < n
        invariant
            n == a@.len(),
            n == b@.len(),
            i <= n,
            forall|j: int| 0 <= j < i ==> a@[j] == b@[j],
        decreases n - i,
    {
        if a[i] != b[i] {
            assert(a@ != b@);
            return false;
        }
        i = i + 1;
    }
    assert(a@ =~= b@);
    true
}

/// Character-for-character equality of two string slices.
pub fn str_eq(a: &str, b: &str) -> (r: bool)
    ensures
        r == (a@ == b@),
{
    let r = bytes_eq(a.as_bytes(), b.as_bytes());
    proof {
        encode_utf8_decode_utf8(a@);
        encode_utf8_decode_utf8(b@);
    }
    r
}

fn match_at(hay: &[u8], needle: &[u8], pos: usize) -> (r: bool)
    requires
        pos + needle@.len() <= hay@.len(),
    ensures
        r == (hay@.subrange(pos as int, pos + needle@.len()) == needle@),
{
    let nh = hay.len();
    let n = needle.len();
    let mut j: usize = 0;
    while j < n
        invariant
            nh == hay@.len(),
            n == needle@.len(),
            pos + n <= nh,
            j <= n,
            forall|k: int| 0 <= k < j ==> hay@[pos + k] == needle@[k],
        decreases n - j,
    {
        if hay[pos + j] != needle[j] {
            assert(hay@.subrange(pos as int, pos + needle@.len())[j as int] == hay@[pos + j]);
            return false;
        }
        j = j + 1;
    }
    assert(hay@.subrange(pos as int, pos + needle@.len()) =~= needle@);
    true
}

fn bytes_contain_exec(hay: &[u8], needle: &[u8]) -> (r: bool)
    ensures
        r == bytes_contain(hay@, needle@),
{
    let nh = hay.len();
    let nn = needle.len();
    if nn > nh {
        assert(!bytes_contain(hay@, needle@));
        return false;
    }
    let last = nh - nn;
    let mut pos: usize = 0;
    while pos <= last
        invariant
            nh == hay@.len(),
            nn == needle@.len(),
            last == nh - nn,
            pos <= last + 1,
            forall|p: int|
                0 <= p < pos ==> #[trigger] hay@.subrange(p, p + needle@.len()) != needle@,
        decreases last + 1 - pos,
    {
        if match_at(hay, needle, pos) {
            return true;
        }
        if pos == last {
            return false;
        }
        pos = pos + 1;
    }
    false
}

/// `needle` occurs as a substring of `hay`; the executable face of
/// [`text_contains`].
pub fn str_contains(hay: &str, needle: &str) -> (r: bool)
    ensures
        r == text_contains(hay@, needle@),
{
    bytes_contain_exec(hay.as_bytes(), needle.as_bytes())
}

} // verus!
