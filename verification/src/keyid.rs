use vstd::prelude::*;

verus! {

/// What `murmurhash32::murmurhash3` returns for a sequence of bytes: the
/// 32-bit MurmurHash3 of the bytes under that crate's fixed seed.
pub uninterp spec fn murmurhash3_of(data: Seq<u8>) -> u32;

/// `murmurhash32::murmurhash3` reads the bytes and nothing else, takes input
/// of any length, and returns for equal bytes the same hash. The contract
/// claims no more than that: the hash itself is left unstated.
pub assume_specification[ murmurhash32::murmurhash3 ](key: &[u8]) -> (hash: u32)
    ensures
        hash == murmurhash3_of(key@),
;

/// Derives the key id of a payload: the hash of all its bytes.
///
/// The id is no secret and carries no security: it only picks one secret
/// out of the keyspace. What keeps the secrets secret is the access control
/// on their files.
pub fn derive_key_id(payload: &[u8]) -> (key_id: u32)
    ensures
        key_id == murmurhash3_of(payload@),
{
    murmurhash32::murmurhash3(payload)
}

} // verus!
