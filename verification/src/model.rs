use vstd::prelude::*;

use crate::errors::SecretReadError;
use crate::errors::SigningError;
use crate::handler::answer;
use crate::handler::bad_request;
use crate::handler::ok;
use crate::handler::ResponseView;
use crate::keyid::murmurhash3_of;
use crate::layout::file_count;
use crate::layout::file_index;
use crate::layout::hex4;
use crate::layout::lemma_halves_are_masks;
use crate::layout::lemma_location_in_layout;
use crate::layout::location;
use crate::layout::required_file;
use crate::layout::SecretFile;
use crate::layout::SecretLocation;
use crate::mode::Mode;
use crate::signing::hmac_sha256_of;
use crate::signing::signed;
use crate::store::all_fit;
use crate::store::size_fits;

verus! {

/// What a read of the 32 bytes at a location gives, in a secret directory
/// whose readable files are `files`, each under its name: the bytes, or
/// the reason why they cannot be had.
pub open spec fn stored(files: Map<Seq<char>, Seq<u8>>, at: SecretLocation) -> Result<
    Seq<u8>,
    SecretReadError,
> {
    let name = at.file.name();
    if !files.contains_key(name) {
        Err(SecretReadError::Missing)
    } else if files[name].len() < at.offset + 32 {
        Err(SecretReadError::Truncated)
    } else {
        Ok(files[name].subrange(at.offset as int, at.offset + 32))
    }
}

/// What signing a payload gives over a secret directory: the key id of the
/// payload selects the secret, and the secret is the key of the digest.
pub open spec fn signature(files: Map<Seq<char>, Seq<u8>>, mode: Mode, payload: Seq<u8>) -> Result<
    Seq<u8>,
    SigningError,
> {
    signed(payload, stored(files, location(mode, murmurhash3_of(payload))))
}

/// The answer to a request over a secret directory.
pub open spec fn reply(
    files: Map<Seq<char>, Seq<u8>>,
    mode: Mode,
    method: Seq<char>,
    path: Seq<char>,
    body: Seq<u8>,
) -> ResponseView {
    answer(method, path, body, stored(files, location(mode, murmurhash3_of(body))))
}

/// Whether a secret directory is laid out as a mode demands: each file of
/// the mode is there and has exactly its length.
pub open spec fn laid_out(files: Map<Seq<char>, Seq<u8>>, mode: Mode) -> bool {
    forall|i: int|
        0 <= i < file_count(mode) ==> {
            let file = #[trigger] required_file(mode, i);
            files.contains_key(file.name()) && files[file.name()].len() == file.len()
        }
}

/// What is found of a file in a secret directory: its length, or `None`
/// where it is missing.
pub open spec fn found_of(files: Map<Seq<char>, Seq<u8>>, file: SecretFile) -> Option<u64> {
    if files.contains_key(file.name()) {
        Some(files[file.name()].len() as u64)
    } else {
        None
    }
}

/// What is found of each file of a mode, in their order.
pub open spec fn found_in(files: Map<Seq<char>, Seq<u8>>, mode: Mode) -> Seq<Option<u64>> {
    Seq::new(file_count(mode), |i: int| found_of(files, required_file(mode, i)))
}

/// The validation at startup passes on what is found in a secret directory
/// exactly if the directory is laid out as the mode demands.
pub proof fn lemma_validation_passes_iff_laid_out(files: Map<Seq<char>, Seq<u8>>, mode: Mode)
    requires
        forall|name: Seq<char>| #[trigger]
            files.contains_key(name) ==> files[name].len() <= u64::MAX,
    ensures
        all_fit(mode, found_in(files, mode)) <==> laid_out(files, mode),
{
    let found = found_in(files, mode);
    if all_fit(mode, found) {
        assert forall|i: int| 0 <= i < file_count(mode) implies {
            let file = #[trigger] required_file(mode, i);
            files.contains_key(file.name()) && files[file.name()].len() == file.len()
        } by {
            assert(size_fits(required_file(mode, i), found[i]));
        }
    }
    if laid_out(files, mode) {
        assert forall|i: int| 0 <= i < file_count(mode) implies i < found.len() && size_fits(
            required_file(mode, i),
            #[trigger] found[i],
        ) by {
            assert(files.contains_key(required_file(mode, i).name()));
        }
    }
}

/// In a directory that is laid out as the mode demands, the secret for
/// every key id can be read, and is 32 bytes long.
pub proof fn lemma_laid_out_store_serves_every_key(
    files: Map<Seq<char>, Seq<u8>>,
    mode: Mode,
    key_id: u32,
)
    requires
        laid_out(files, mode),
    ensures
        stored(files, location(mode, key_id)) is Ok,
        stored(files, location(mode, key_id))->Ok_0.len() == 32,
{
    lemma_location_in_layout(mode, key_id);
    assert(files.contains_key(required_file(mode, file_index(mode, key_id)).name()));
}

/// Over a directory that is laid out as the mode demands, every `POST` to
/// `/hmac` with a body that is not empty is answered with status 200 and the
/// digest of the body under the secret that the body selects.
pub proof fn lemma_laid_out_store_answers(
    files: Map<Seq<char>, Seq<u8>>,
    mode: Mode,
    body: Seq<u8>,
)
    requires
        laid_out(files, mode),
        body.len() > 0,
    ensures
        reply(files, mode, "POST"@, "/hmac"@, body) == ok(
            hmac_sha256_of(
                stored(files, location(mode, murmurhash3_of(body)))->Ok_0,
                body,
            ),
        ),
{
    lemma_laid_out_store_serves_every_key(files, mode, murmurhash3_of(body));
}

/// Where the file that a request's body selects is gone from the directory,
/// or ends before the end of the secret, the request is answered with status
/// 400 and no body, whether or not the directory was once laid out as the
/// mode demands.
pub proof fn lemma_lost_secret_is_refused(
    files: Map<Seq<char>, Seq<u8>>,
    mode: Mode,
    method: Seq<char>,
    path: Seq<char>,
    body: Seq<u8>,
)
    requires
        ({
            let at = location(mode, murmurhash3_of(body));
            !files.contains_key(at.file.name()) || files[at.file.name()].len() < at.offset + 32
        }),
    ensures
        stored(files, location(mode, murmurhash3_of(body))) is Err,
        reply(files, mode, method, path, body) == bad_request(),
{
}

/// Signing depends on the store only through the secret that the payload
/// selects: over two directories that hold the same bytes there, and so over
/// one directory that did not change, a payload has the same signature.
pub proof fn lemma_signature_is_determined(
    before: Map<Seq<char>, Seq<u8>>,
    after: Map<Seq<char>, Seq<u8>>,
    mode: Mode,
    payload: Seq<u8>,
)
    requires
        stored(before, location(mode, murmurhash3_of(payload))) == stored(
            after,
            location(mode, murmurhash3_of(payload)),
        ),
    ensures
        signature(before, mode, payload) == signature(after, mode, payload),
        forall|method: Seq<char>, path: Seq<char>| #[trigger]
            reply(before, mode, method, path, payload) == reply(
                after,
                mode,
                method,
                path,
                payload,
            ),
{
}

/// Under `Mode0` every payload is signed with the one secret: where the
/// file `secret` holds the 32 bytes of a secret, the signature of a payload
/// is its HMAC-SHA256 under that secret.
pub proof fn lemma_mode0_signs_with_the_secret(
    files: Map<Seq<char>, Seq<u8>>,
    secret: Seq<u8>,
    payload: Seq<u8>,
)
    requires
        secret.len() == 32,
        files.contains_key("secret"@),
        files["secret"@] == secret,
    ensures
        signature(files, Mode::Mode0, payload) == Ok::<Seq<u8>, SigningError>(
            hmac_sha256_of(secret, payload),
        ),
{
    assert(secret.subrange(0, 32) =~= secret);
}

/// Under `Mode16` a payload whose key id is `k` is signed with the 32 bytes
/// of the file `0000` at the offset `(k & 0xffff) * 32`.
pub proof fn lemma_mode16_addressing(files: Map<Seq<char>, Seq<u8>>, payload: Seq<u8>)
    requires
        files.contains_key("0000"@),
        files["0000"@].len() == 2_097_152,
    ensures
        ({
            let k = murmurhash3_of(payload);
            let offset = (k & 0xffff) * 32;
            let secret = files["0000"@].subrange(offset, offset + 32);
            &&& location(Mode::Mode16, k).file.name() == "0000"@
            &&& location(Mode::Mode16, k).offset == offset
            &&& stored(files, location(Mode::Mode16, k)) == Ok::<Seq<u8>, SecretReadError>(secret)
            &&& signature(files, Mode::Mode16, payload) == Ok::<Seq<u8>, SigningError>(
                hmac_sha256_of(secret, payload),
            )
        }),
{
    lemma_halves_are_masks(murmurhash3_of(payload));
}

/// Under `Mode16` two payloads whose key ids have the same low 16 bits are
/// signed with the same secret.
pub proof fn lemma_mode16_same_slot_same_secret(
    files: Map<Seq<char>, Seq<u8>>,
    payload: Seq<u8>,
    other: Seq<u8>,
)
    requires
        murmurhash3_of(payload) & 0xffff == murmurhash3_of(other) & 0xffff,
    ensures
        location(Mode::Mode16, murmurhash3_of(payload)) == location(
            Mode::Mode16,
            murmurhash3_of(other),
        ),
        stored(files, location(Mode::Mode16, murmurhash3_of(payload))) == stored(
            files,
            location(Mode::Mode16, murmurhash3_of(other)),
        ),
{
    lemma_halves_are_masks(murmurhash3_of(payload));
    lemma_halves_are_masks(murmurhash3_of(other));
}

/// Under `Mode32` a payload whose key id is `k` is signed with a secret of
/// the shard file that the high 16 bits of `k` select, whose name is those
/// bits as four lowercase hexadecimal digits: with the 32 bytes at the offset
/// `(k & 0xffff) * 32`, which the low 16 bits select.
pub proof fn lemma_mode32_addressing(files: Map<Seq<char>, Seq<u8>>, payload: Seq<u8>)
    requires
        ({
            let k = murmurhash3_of(payload);
            let shard = hex4(((k & 0xffff0000) >> 16) as int);
            files.contains_key(shard) && files[shard].len() == 2_097_152
        }),
    ensures
        ({
            let k = murmurhash3_of(payload);
            let shard = hex4(((k & 0xffff0000) >> 16) as int);
            let offset = (k & 0xffff) * 32;
            let secret = files[shard].subrange(offset, offset + 32);
            &&& location(Mode::Mode32, k).file.name() == shard
            &&& location(Mode::Mode32, k).offset == offset
            &&& stored(files, location(Mode::Mode32, k)) == Ok::<Seq<u8>, SecretReadError>(secret)
            &&& signature(files, Mode::Mode32, payload) == Ok::<Seq<u8>, SigningError>(
                hmac_sha256_of(secret, payload),
            )
        }),
{
    lemma_halves_are_masks(murmurhash3_of(payload));
}

} // verus!
