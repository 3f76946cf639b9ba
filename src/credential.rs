//! The pairing credential: which bytes are materialized, and how they are
//! loaded back through the pairing protocol library.
use idevice::remote_pairing::RpPairingFile;
use idevice::IdeviceError;
use vstd::prelude::*;

verus! {

#[verifier::external_type_specification]
#[verifier::external_body]
pub struct ExRpPairingFile(RpPairingFile);

#[verifier::external_type_specification]
#[verifier::external_body]
pub struct ExIdeviceError(IdeviceError);

/// Whether the pairing protocol library accepts `bytes` as a pairing file.
pub uninterp spec fn pairing_file_parses(bytes: Seq<u8>) -> bool;

/// Relies on idevice's `RpPairingFile::from_bytes`, which parses a pairing
/// file from plist bytes (XML or binary). Its plist reader first reads an
/// eight-byte header, so shorter input is always refused.
#[verifier::external_body]
fn parse_pairing_file(bytes: &[u8]) -> (r: Result<RpPairingFile, IdeviceError>)
    ensures
        r is Ok <==> pairing_file_parses(bytes@),
        bytes@.len() < 8 ==> r is Err,
{
    RpPairingFile::from_bytes(bytes)
}

/// Relies on the `Display` impl of idevice's `IdeviceError`, for the text of
/// an error; nothing is assumed of that text.
#[verifier::external_body]
fn describe_error(e: &IdeviceError) -> (r: String) {
    e.to_string()
}

/// The bytes that a bootstrap attempt materializes: those the caller supplied,
/// or else the built-in default.
pub open spec fn chosen_credential(custom: Option<Seq<u8>>, default: Seq<u8>) -> Seq<u8> {
    match custom {
        Some(b) => b,
        None => default,
    }
}

/// Picks the credential to materialize, verbatim.
pub fn choose_credential(custom: Option<Vec<u8>>, default: Vec<u8>) -> (r: Vec<u8>)
    ensures
        r@ == chosen_credential(
            match custom {
                Some(b) => Some(b@),
                None => None,
            },
            default@,
        ),
{
    match custom {
        Some(b) => b,
        None => default,
    }
}

/// Loads a pairing file from the bytes read back from the transient file.
/// On failure the error carries the library's description of the problem.
pub fn load_credential(bytes: &[u8]) -> (r: Result<RpPairingFile, String>)
    ensures
        r is Ok <==> pairing_file_parses(bytes@),
        bytes@.len() < 8 ==> r is Err,
{
    match parse_pairing_file(bytes) {
        Ok(file) => Ok(file),
        Err(e) => Err(describe_error(&e)),
    }
}

} // verus!
