//! SHA-256 digests rendered as lower-case hexadecimal text.
use sha2::Digest;
use vstd::prelude::*;
use vstd::string::StringExecFns;
use vstd::utf8::encode_utf8;
use crate::text::lower_hex;
use crate::text::lower_hex_string;

verus! {

/// The SHA-256 digest of `data`, as the `sha2` crate computes it.
pub uninterp spec fn sha256(data: Seq<u8>) -> Seq<u8>;

/// `sha2::Sha256::digest`: the 32-byte SHA-256 digest of `data`.
#[verifier::external_body]
fn sha256_bytes(data: &[u8]) -> (out: Vec<u8>)
    ensures
        out@ == sha256(data@),
        out@.len() == 32,
{
    sha2::Sha256::digest(data).to_vec()
}

/// The texts of `parts`, one after another.
pub open spec fn joined(parts: Seq<&str>) -> Seq<char>
    decreases parts.len(),
{
    if parts.len() == 0 {
        Seq::empty()
    } else {
        joined(parts.drop_last()) + parts.last()@
    }
}

/// The lower-case hexadecimal SHA-256 digest of the UTF-8 bytes of `text`.
pub open spec fn text_digest(text: Seq<char>) -> Seq<char> {
    lower_hex(sha256(encode_utf8(text)))
}

/// The hexadecimal SHA-256 digest of the parts fed one after another.
pub fn digest(parts: &[&str]) -> (d: String)
    ensures
        d@ == text_digest(joined(parts@)),
        d@.len() == 64,
{
    let mut all = String::new();
    let mut i: usize = 0;
    while i < parts.len()
        invariant
            i <= parts@.len(),
            all@ == joined(parts@.take(i as int)),
        decreases parts@.len() - i,
    {
        assert(parts@.take(i + 1).drop_last() =~= parts@.take(i as int));
        all.append(parts[i]);
        i = i + 1;
    }
    assert(parts@.take(parts@.len() as int) =~= parts@);
    let bytes = sha256_bytes(all.as_str().as_bytes());
    lower_hex_string(bytes.as_slice())
}

/// The hexadecimal SHA-256 digest of `bytes`.
pub fn digest_bytes(bytes: &[u8]) -> (d: String)
    ensures
        d@ == lower_hex(sha256(bytes@)),
        d@.len() == 64,
{
    let out = sha256_bytes(bytes);
    lower_hex_string(out.as_slice())
}

} // verus!
