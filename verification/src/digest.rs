//! Content digests: a fixed-size checksum of configuration content, used to
//! detect change without transferring the full content.

use vstd::prelude::*;

verus! {

/// The digest of a configuration content string. The checksum itself is
/// computed by an outside crate; the engine only relies on the digest being
/// a function of the content alone.
pub uninterp spec fn digest_of(content: Seq<char>) -> Seq<char>;

/// Relies on md5::compute: a pure checksum of the input bytes, so the
/// lower-hex rendering depends on the content alone.
#[verifier::external_body]
pub fn content_digest(content: &str) -> (r: String)
    ensures
        r@ == digest_of(content@),
{
    format!("{:x}", md5::compute(content.as_bytes()))
}

} // verus!
