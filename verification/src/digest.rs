//! Content fingerprints: a short digest of an asset's bytes, formatted as a
//! weak entity tag.

use crate::text::{hex_of, lemma_hex_digit_injective, push_hex};
use vstd::prelude::*;
use vstd::slice::slice_subrange;
use vstd::string::StringExecFns;

verus! {

/// The MD5 digest of a byte sequence.
pub uninterp spec fn md5_digest(data: Seq<u8>) -> Seq<u8>;

/// `crypto::md5::Md5`, fed `data` in one piece through `Digest::input` and
/// read out through `Digest::result`: the sixteen bytes of the MD5 digest,
/// which depend on `data` alone.
#[verifier::external_body]
pub(crate) fn md5(data: &[u8]) -> (digest: Vec<u8>)
    ensures
        digest@ == md5_digest(data@),
        digest@.len() == 16,
{
    let mut hasher = crypto::md5::Md5::new();
    crypto::digest::Digest::input(&mut hasher, data);
    let mut out = [0u8; 16];
    crypto::digest::Digest::result(&mut hasher, &mut out);
    out.to_vec()
}

/// How many digest bytes a fingerprint keeps: sixteen hexadecimal digits.
pub const FINGERPRINT_BYTES: usize = 8;

/// The weak entity tag that is made of a digest: `W/"`, the hexadecimal
/// digits of the leading bytes of the digest, and a closing quote. A digest
/// that is shorter than a fingerprint is used whole.
pub open spec fn weak_tag(digest: Seq<u8>) -> Seq<char> {
    let kept = if digest.len() < FINGERPRINT_BYTES {
        digest
    } else {
        digest.take(FINGERPRINT_BYTES as int)
    };
    seq!['W', '/', '"'] + hex_of(kept) + seq!['"']
}

/// The entity tag of a content: the weak tag of its digest.
pub open spec fn etag_of(content: Seq<u8>) -> Seq<char> {
    weak_tag(md5_digest(content))
}

/// Two digests with the same weak tag have the same leading bytes: the tag
/// loses nothing of the part of the digest that it keeps.
pub proof fn lemma_weak_tag_keeps_fingerprint(first: Seq<u8>, second: Seq<u8>)
    requires
        first.len() >= FINGERPRINT_BYTES,
        second.len() >= FINGERPRINT_BYTES,
        weak_tag(first) == weak_tag(second),
    ensures
        first.take(FINGERPRINT_BYTES as int) == second.take(FINGERPRINT_BYTES as int),
{
    let a = first.take(FINGERPRINT_BYTES as int);
    let b = second.take(FINGERPRINT_BYTES as int);
    let head = seq!['W', '/', '"'];
    let tail = seq!['"'];
    assert forall|i: int| 0 <= i < FINGERPRINT_BYTES implies a[i] == b[i] by {
        let tag_a = head + hex_of(a) + tail;
        let tag_b = head + hex_of(b) + tail;
        assert(tag_a[3 + 2 * i] == hex_of(a)[2 * i]);
        assert(tag_b[3 + 2 * i] == hex_of(b)[2 * i]);
        assert(tag_a[3 + 2 * i + 1] == hex_of(a)[2 * i + 1]);
        assert(tag_b[3 + 2 * i + 1] == hex_of(b)[2 * i + 1]);
        lemma_hex_digit_injective(a[i] as int / 16, b[i] as int / 16);
        lemma_hex_digit_injective(a[i] as int % 16, b[i] as int % 16);
    }
    assert(a =~= b);
}

/// Formats a digest as a weak entity tag.
pub fn format_weak_tag(digest: &[u8]) -> (etag: String)
    ensures
        etag@ == weak_tag(digest@),
        etag@.len() == 4 + 2 * if digest@.len() < FINGERPRINT_BYTES {
            digest@.len() as int
        } else {
            FINGERPRINT_BYTES as int
        },
{
    let kept: &[u8] = if digest.len() < FINGERPRINT_BYTES {
        digest
    } else {
        slice_subrange(digest, 0, FINGERPRINT_BYTES)
    };
    let mut etag: String = String::from_str("W/\"");
    proof {
        reveal_strlit("W/\"");
        assert("W/\""@ =~= seq!['W', '/', '"']);
    }
    push_hex(&mut etag, kept);
    etag.push('"');
    proof {
        assert(etag@ =~= weak_tag(digest@));
    }
    etag
}

/// Computes the weak entity tag of `content`.
///
/// The tag is a function of the bytes alone, so equal contents always carry
/// equal tags.
pub fn mk_etag(content: &[u8]) -> (etag: String)
    ensures
        etag@ == etag_of(content@),
        etag@.len() == 20,
{
    let digest: Vec<u8> = md5(content);
    format_weak_tag(digest.as_slice())
}

} // verus!
