//! Content fingerprints that let an unchanged sysinfo snapshot skip its
//! upload to a shared server.
use vstd::prelude::*;
use vstd::string::StringSliceAdditionalSpecFns;

verus! {

/// SHA-256 digest of a byte string.
pub uninterp spec fn sha256_of(data: Seq<u8>) -> Seq<u8>;

/// Standard, padded base64 text of a byte string.
pub uninterp spec fn base64_of(data: Seq<u8>) -> Seq<char>;

/// Relies on sha2::Sha256 through digest::Digest (`new`, `update`, `finalize`):
/// feeding `a` and then `b` yields the 32-byte digest of their concatenation.
#[verifier::external_body]
fn sha256_pair(a: &[u8], b: &[u8]) -> (r: Vec<u8>)
    ensures
        r@ == sha256_of(a@ + b@),
        r@.len() == 32,
{
    let mut hasher = <sha2::Sha256 as sha2::Digest>::new();
    sha2::Digest::update(&mut hasher, a);
    sha2::Digest::update(&mut hasher, b);
    sha2::Digest::finalize(hasher).to_vec()
}

/// Relies on base64's `Engine::encode` with the `STANDARD` engine: the padded
/// base64 text of `data`.
#[verifier::external_body]
fn encode64(data: &[u8]) -> (r: String)
    ensures
        r@ == base64_of(data@),
{
    base64::Engine::encode(&base64::engine::general_purpose::STANDARD, data)
}

/// The fingerprint of an upload: base64 of the SHA-256 digest of the endpoint's
/// bytes followed by the serialized snapshot's bytes.
pub open spec fn fingerprint_of(url: &str, payload: &str) -> Seq<char> {
    base64_of(sha256_of(url.spec_bytes() + payload.spec_bytes()))
}

/// Computes the fingerprint of sending `payload` to `url`.
pub fn fingerprint(url: &str, payload: &str) -> (r: String)
    ensures
        r@ == fingerprint_of(url, payload),
{
    let digest = sha256_pair(url.as_bytes(), payload.as_bytes());
    encode64(digest.as_slice())
}

} // verus!
