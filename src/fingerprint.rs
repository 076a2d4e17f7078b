//! Byte framing for frame fingerprints, and the digest they are hashed with.
use sha2::{Digest, Sha512};
use vstd::prelude::*;
use vstd::utf8::encode_utf8;

verus! {

/// The SHA-512 digest of `data`, written as 128 lowercase hex digits.
pub uninterp spec fn sha512_hex(data: Seq<u8>) -> Seq<char>;

/// `c` is one of `0-9a-f`.
pub open spec fn is_lower_hex_digit(c: char) -> bool {
    ('0' <= c && c <= '9') || ('a' <= c && c <= 'f')
}

/// Relies on sha2's `Sha512::digest`, which hashes `data` into a 64-byte
/// output, and on generic_array's `LowerHex` for that output, which writes
/// each byte as two lowercase hex digits.
#[verifier::external_body]
pub(crate) fn sha512_lower_hex(data: &[u8]) -> (r: String)
    ensures
        r@ == sha512_hex(data@),
        r@.len() == 128,
        forall|i: int| 0 <= i < r@.len() ==> is_lower_hex_digit(#[trigger] r@[i]),
{
    format!("{:x}", Sha512::digest(data))
}

/// The four bytes of `n`, most significant first.
pub open spec fn be_bytes(n: u32) -> Seq<u8> {
    seq![
        (n / 0x1000000) as u8,
        (n / 0x10000 % 0x100) as u8,
        (n / 0x100 % 0x100) as u8,
        (n % 0x100) as u8,
    ]
}

/// The UTF-8 bytes of each string in turn, with nothing between them.
pub open spec fn joined_bytes(texts: Seq<Seq<char>>) -> Seq<u8> {
    texts.map_values(|t: Seq<char>| encode_utf8(t)).flatten()
}

/// Appends the four big-endian bytes of `n`.
pub fn push_be_bytes(out: &mut Vec<u8>, n: u32)
    ensures
        final(out)@ == old(out)@ + be_bytes(n),
{
    out.push((n / 0x1000000) as u8);
    out.push((n / 0x10000 % 0x100) as u8);
    out.push((n / 0x100 % 0x100) as u8);
    out.push((n % 0x100) as u8);
    assert(final(out)@ =~= old(out)@ + be_bytes(n));
}

/// Appends the UTF-8 bytes of `s`.
pub fn push_str_bytes(out: &mut Vec<u8>, s: &str)
    ensures
        final(out)@ == old(out)@ + encode_utf8(s@),
{
    let b = s.as_bytes();
    let ghost start = out@;
    let mut i: usize = 0;
    while i < b.len()
        invariant
            b@ == encode_utf8(s@),
            i <= b@.len(),
            out@ == start + b@.take(i as int),
        decreases b@.len() - i,
    {
        out.push(b[i]);
        i += 1;
        assert(out@ =~= start + b@.take(i as int));
    }
    assert(b@.take(i as int) =~= b@);
}

/// Appends the UTF-8 bytes of each string of `texts` in turn.
pub fn push_all_bytes(out: &mut Vec<u8>, texts: &Vec<String>)
    ensures
        final(out)@ == old(out)@ + joined_bytes(texts@.map_values(|t: String| t@)),
{
    let ghost start = out@;
    let ghost views = texts@.map_values(|t: String| t@);
    let mut i: usize = 0;
    while i < texts.len()
        invariant
            i <= texts@.len(),
            views == texts@.map_values(|t: String| t@),
            out@ == start + joined_bytes(views.take(i as int)),
        decreases texts@.len() - i,
    {
        push_str_bytes(out, texts[i].as_str());
        proof {
            let f = |t: Seq<char>| encode_utf8(t);
            let pre = views.take(i as int).map_values(f);
            assert(views[i as int] == texts@[i as int]@);
            assert(views.take(i + 1).map_values(f) =~= pre.push(encode_utf8(views[i as int])));
            pre.lemma_flatten_push(encode_utf8(views[i as int]));
        }
        i += 1;
    }
    assert(views.take(i as int) =~= views);
}

} // verus!
