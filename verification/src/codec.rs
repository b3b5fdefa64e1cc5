//! Byte-level codecs shared by the security core: base64 text, UTF-8 text,
//! and the on-disk master-password record.
//!
//! The persisted master-password record is one opaque string:
//! `base64(salt ++ utf8(phc))`, where `salt` is the 32-byte vault salt and
//! `phc` is the PHC-format hash text of the master password. This joining
//! scheme is the on-disk contract; changing it would orphan existing vaults.

use base64ct::Encoding;
use vstd::prelude::*;
use vstd::slice::{slice_subrange, slice_to_vec};
use vstd::utf8::{encode_utf8, valid_utf8};

use crate::errors::AppError;

verus! {

broadcast use vstd::utf8::group_utf8_lib;

/// The text that the standard, padded base64 alphabet assigns to a byte
/// sequence. Named rather than written out: the library only ever produces
/// and consumes it through `base64ct`.
pub uninterp spec fn b64_of(bytes: Seq<u8>) -> Seq<char>;

/// Inputs this long are guaranteed not to overflow the base64 encoder's
/// length computation on a 64-bit machine.
pub const B64_MAX_INPUT_LEN: u64 = 0x1000_0000_0000_0000;

/// Relies on `base64ct::Base64::encode_string`: standard alphabet with
/// padding, one canonical text per byte sequence, deterministic. The length
/// bound keeps the encoder's internal length computation from overflowing,
/// which is the one input on which it panics.
#[verifier::external_body]
pub(crate) fn b64_encode(bytes: &[u8]) -> (r: String)
    requires
        bytes@.len() <= B64_MAX_INPUT_LEN,
    ensures
        r@ == b64_of(bytes@),
{
    base64ct::Base64::encode_string(bytes)
}

/// Relies on `base64ct::Base64::decode_vec`: strict decoding that accepts
/// exactly the canonical base64 text of some byte sequence and returns that
/// sequence; anything else is rejected.
#[verifier::external_body]
pub(crate) fn b64_decode(text: &str) -> (r: Option<Vec<u8>>)
    ensures
        r matches Some(b) ==> text@ == b64_of(b@),
        r matches Some(b) ==> forall|b2: Seq<u8>| text@ == b64_of(b2) ==> b2 == b@,
        r is None ==> forall|b: Seq<u8>| text@ != b64_of(b),
{
    base64ct::Base64::decode_vec(text).ok()
}

/// Relies on `String::from_utf8`: succeeds exactly on valid UTF-8 input and
/// returns the string those bytes encode.
#[verifier::external_body]
pub(crate) fn string_from_utf8(bytes: Vec<u8>) -> (r: Option<String>)
    ensures
        r matches Some(s) ==> encode_utf8(s@) == bytes@,
        r is None ==> !valid_utf8(bytes@),
{
    String::from_utf8(bytes).ok()
}

/// Appends every byte of `src` to `dst`.
pub fn push_all(dst: &mut Vec<u8>, src: &[u8])
    ensures
        final(dst)@ == old(dst)@ + src@,
{
    let ghost dst0 = dst@;
    let mut i: usize = 0;
    while i < src.len()
        invariant
            i <= src@.len(),
            dst@ == dst0 + src@.subrange(0, i as int),
        decreases src@.len() - i,
    {
        let b = *vstd::slice::slice_index_get(src, i);
        dst.push(b);
        proof {
            assert(dst@ =~= dst0 + src@.subrange(0, i + 1));
        }
        i = i + 1;
    }
    proof {
        assert(dst@ =~= dst0 + src@);
    }
}

/// The byte form of the master-password record before base64: the 32-byte
/// salt followed by the UTF-8 bytes of the PHC hash text.
pub open spec fn master_record_bytes(salt: Seq<u8>, phc: Seq<char>) -> Seq<u8> {
    salt + encode_utf8(phc)
}

/// `rec` is the persisted master-password record holding exactly this salt
/// and PHC hash text.
pub open spec fn is_master_record(rec: Seq<char>, salt: Seq<u8>, phc: Seq<char>) -> bool {
    salt.len() == 32 && rec == b64_of(master_record_bytes(salt, phc))
}

/// Encodes the salt and the PHC hash text into the one opaque string that is
/// persisted for the vault: `base64(salt ++ utf8(phc))`.
pub fn encode_b64_s_mph(salt: &[u8; 32], mph: &str) -> (r: String)
    requires
        encode_utf8(mph@).len() + 32 <= B64_MAX_INPUT_LEN,
    ensures
        is_master_record(r@, salt@, mph@),
{
    let mut buf: Vec<u8> = Vec::new();
    push_all(&mut buf, salt.as_slice());
    push_all(&mut buf, mph.as_bytes());
    proof {
        assert(buf@ =~= master_record_bytes(salt@, mph@));
    }
    b64_encode(buf.as_slice())
}

/// Decodes a persisted master-password record back into its 32-byte salt and
/// PHC hash text. Fails with `DataCorrupted` exactly when the string is not
/// a record that `encode_b64_s_mph` could have produced.
pub fn decode_b64_s_mph(b64_s_mph: &str) -> (r: Result<(Vec<u8>, String), AppError>)
    ensures
        r matches Ok(p) ==> is_master_record(b64_s_mph@, p.0@, p.1@),
        forall|salt: Seq<u8>, phc: Seq<char>| is_master_record(b64_s_mph@, salt, phc)
            ==> (r matches Ok(p) && p.0@ == salt && p.1@ == phc),
        r is Err ==> r == Err::<(Vec<u8>, String), AppError>(AppError::DataCorrupted),
{
    let bytes = match b64_decode(b64_s_mph) {
        Some(b) => b,
        None => {
            return Err(AppError::DataCorrupted);
        },
    };
    if bytes.len() < 32 {
        proof {
            assert forall|salt: Seq<u8>, phc: Seq<char>|
                !is_master_record(b64_s_mph@, salt, phc) by {
                if is_master_record(b64_s_mph@, salt, phc) {
                    assert(bytes@ == master_record_bytes(salt, phc));
                }
            }
        }
        return Err(AppError::DataCorrupted);
    }
    let salt = slice_to_vec(slice_subrange(bytes.as_slice(), 0, 32));
    let rest = slice_to_vec(slice_subrange(bytes.as_slice(), 32, bytes.len()));
    proof {
        assert(bytes@ =~= salt@ + rest@);
    }
    let ghost rest_view = rest@;
    match string_from_utf8(rest) {
        Some(mph) => {
            proof {
                assert(bytes@ == master_record_bytes(salt@, mph@));
                assert forall|salt2: Seq<u8>, phc: Seq<char>|
                    is_master_record(b64_s_mph@, salt2, phc)
                    implies salt2 == salt@ && phc == mph@ by {
                    assert(bytes@ == master_record_bytes(salt2, phc));
                    assert(salt2 =~= bytes@.subrange(0, 32));
                    assert(salt@ =~= bytes@.subrange(0, 32));
                    assert(encode_utf8(phc) =~= bytes@.subrange(32, bytes@.len() as int));
                    assert(encode_utf8(mph@) =~= bytes@.subrange(32, bytes@.len() as int));
                    vstd::utf8::encode_utf8_decode_utf8(phc);
                    vstd::utf8::encode_utf8_decode_utf8(mph@);
                }
            }
            Ok((salt, mph))
        },
        None => {
            proof {
                assert forall|salt2: Seq<u8>, phc: Seq<char>|
                    !is_master_record(b64_s_mph@, salt2, phc) by {
                    if is_master_record(b64_s_mph@, salt2, phc) {
                        assert(bytes@ == master_record_bytes(salt2, phc));
                        assert(rest_view =~= encode_utf8(phc));
                    }
                }
            }
            Err(AppError::DataCorrupted)
        },
    }
}

} // verus!
