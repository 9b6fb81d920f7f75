//! SHA-256 based derivations: per-context key derivation and the salted
//! commitments stored beside payroll amounts and votes.
use vstd::prelude::*;
use vstd::utf8::*;
use vstd::string::*;
use sha2::Digest;
use crate::encoding::{hex_encode, hex_lower, is_lower_hex_char, lemma_hex_lower_shape};

verus! {

/// The SHA-256 digest of a byte string (FIPS 180-4).
pub uninterp spec fn sha256(data: Seq<u8>) -> Seq<u8>;

/// `sha2::Sha256::digest`: the digest of `data`, which is 32 bytes long.
#[verifier::external_body]
pub(crate) fn sha256_digest(data: &[u8]) -> (d: Vec<u8>)
    ensures
        d@ == sha256(data@),
        d@.len() == 32,
{
    sha2::Sha256::digest(data).to_vec()
}

/// Appends the bytes of `s` to `v`.
pub fn append_bytes(v: &mut Vec<u8>, s: &[u8])
    ensures
        final(v)@ == old(v)@ + s@,
{
    let mut i: usize = 0;
    while i < s.len()
        invariant
            i <= s@.len(),
            v@ == old(v)@ + s@.subrange(0, i as int),
        decreases s@.len() - i,
    {
        v.push(s[i]);
        i = i + 1;
        assert(v@ =~= old(v)@ + s@.subrange(0, i as int));
    }
    assert(s@.subrange(0, s@.len() as int) =~= s@);
}

/// Key material for a context: the UTF-8 of the master secret, `:`, then the
/// UTF-8 of the context label.
pub open spec fn key_material(master: Seq<char>, context: Seq<char>) -> Seq<u8> {
    encode_utf8(master) + seq![58u8] + encode_utf8(context)
}

/// Domain separation: under one master secret, distinct context labels are
/// hashed from distinct key material.
pub proof fn law_contexts_get_distinct_key_material(master: Seq<char>, c1: Seq<char>, c2: Seq<char>)
    requires
        c1 != c2,
    ensures
        key_material(master, c1) != key_material(master, c2),
{
    let prefix = encode_utf8(master) + seq![58u8];
    let n = prefix.len() as int;
    if key_material(master, c1) == key_material(master, c2) {
        assert(key_material(master, c1).subrange(n, key_material(master, c1).len() as int) =~= encode_utf8(c1));
        assert(key_material(master, c2).subrange(n, key_material(master, c2).len() as int) =~= encode_utf8(c2));
        encode_utf8_decode_utf8(c1);
        encode_utf8_decode_utf8(c2);
    }
}

/// The 256-bit key for `context`: SHA-256 of its key material.
pub open spec fn derive_key_spec(master: Seq<char>, context: Seq<char>) -> Seq<u8> {
    sha256(key_material(master, context))
}

/// Derives the 256-bit key of a context label from the master secret, so that
/// each kind of field is sealed under a key of its own.
pub fn derive_key(master: &str, context: &str) -> (key: Vec<u8>)
    ensures
        key@ == derive_key_spec(master@, context@),
        key@.len() == 32,
{
    let mut material: Vec<u8> = Vec::new();
    append_bytes(&mut material, master.as_bytes());
    material.push(58u8);
    append_bytes(&mut material, context.as_bytes());
    assert(material@ =~= key_material(master@, context@));
    sha256_digest(material.as_slice())
}

/// The commitment to `value` under `salt`: lowercase hex of the SHA-256 of
/// the UTF-8 of `value`, `||`, and the UTF-8 of `salt`.
pub open spec fn zk_commit_spec(value: Seq<char>, salt: Seq<char>) -> Seq<char> {
    hex_lower(sha256(encode_utf8(value) + seq![124u8, 124u8] + encode_utf8(salt)))
}

/// Produces the commitment hash for a value without revealing it.
pub fn zk_commit(value: &str, salt: &str) -> (commitment: String)
    ensures
        commitment@ == zk_commit_spec(value@, salt@),
        commitment@.len() == 64,
        forall|i: int| 0 <= i < 64 ==> #[trigger] is_lower_hex_char(commitment@[i]),
{
    let mut material: Vec<u8> = Vec::new();
    append_bytes(&mut material, value.as_bytes());
    material.push(124u8);
    material.push(124u8);
    append_bytes(&mut material, salt.as_bytes());
    assert(material@ =~= encode_utf8(value@) + seq![124u8, 124u8] + encode_utf8(salt@));
    let digest = sha256_digest(material.as_slice());
    proof {
        lemma_hex_lower_shape(digest@);
    }
    hex_encode(digest.as_slice())
}

} // verus!
