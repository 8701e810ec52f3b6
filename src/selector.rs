//! Method selectors of delegated calls: the first eight bytes of the SHA-256
//! digest of `global:` followed by the method name.
use vstd::prelude::*;
use vstd::string::StringSliceAdditionalSpecFns;

verus! {

/// The SHA-256 digest of a byte string.
pub uninterp spec fn sha256_digest(data: Seq<u8>) -> Seq<u8>;

/// Relies on `solana_program::hash::hash`: the SHA-256 digest of the bytes.
#[verifier::external_body]
fn sha256(data: &[u8]) -> (r: [u8; 32])
    ensures
        r@ == sha256_digest(data@),
{
    solana_program::hash::hash(data).to_bytes()
}

/// The bytes of `global:`, the namespace of every selector.
pub open spec fn global_namespace() -> Seq<u8> {
    seq![103u8, 108, 111, 98, 97, 108, 58]
}

/// What is hashed to select the method `name`.
pub open spec fn preimage_of(name: Seq<u8>) -> Seq<u8> {
    global_namespace() + name
}

/// The selector of the method whose name has the bytes `name`.
pub open spec fn selector_of(name: Seq<u8>) -> Seq<u8> {
    sha256_digest(preimage_of(name)).subrange(0, 8)
}

/// The bytes that are hashed to select the method `name`.
pub fn selector_preimage(name: &str) -> (r: Vec<u8>)
    ensures
        r@ == preimage_of(name.spec_bytes()),
{
    let mut r: Vec<u8> = vec![103u8, 108, 111, 98, 97, 108, 58];
    assert(r@ =~= global_namespace());
    let b = name.as_bytes();
    let mut i: usize = 0;
    while i < b.len()
        invariant
            i <= b@.len(),
            b@ == name.spec_bytes(),
            r@ == global_namespace() + b@.subrange(0, i as int),
        decreases b@.len() - i,
    {
        r.push(b[i]);
        i = i + 1;
        assert(r@ =~= global_namespace() + b@.subrange(0, i as int));
    }
    assert(b@.subrange(0, b@.len() as int) =~= b@);
    r
}

/// The selector carried in a digest: its first eight bytes.
pub fn selector_from_digest(digest: &[u8; 32]) -> (r: [u8; 8])
    ensures
        r@ == digest@.subrange(0, 8),
{
    let r = [
        digest[0], digest[1], digest[2], digest[3], digest[4], digest[5], digest[6], digest[7],
    ];
    assert(r@ =~= digest@.subrange(0, 8));
    r
}

/// The selector of the method `name`.
pub fn instruction_discriminator(name: &str) -> (r: [u8; 8])
    ensures
        r@ == selector_of(name.spec_bytes()),
{
    let preimage = selector_preimage(name);
    let digest = sha256(preimage.as_slice());
    selector_from_digest(&digest)
}

/// A selector depends on the method name alone: two names with the same
/// characters have the same selector, however often it is computed.
pub proof fn lemma_selector_deterministic(a: &str, b: &str)
    requires
        a@ == b@,
    ensures
        selector_of(a.spec_bytes()) == selector_of(b.spec_bytes()),
{
}

} // verus!
