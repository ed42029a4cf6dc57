//! The closed error taxonomy surfaced by this layer, and the classification
//! of raw engine error codes into it.
//!
//! The engine reports transport and TLS failures as raw numeric codes, with 0
//! meaning "no error". One specific code is recognized as a TLS handshake
//! failure; every other non-zero code is surfaced as `Unknown`.

use vstd::prelude::*;

verus! {

/// The raw error code this layer recognizes as a TLS handshake failure.
/// The engine reports its internal failures in a dedicated error class
/// starting at 0x400; this is the one code of that class the taxonomy
/// singles out.
pub const TLS_HANDSHAKE_FAILED: u64 = 0x41D;

/// Every error this layer surfaces: the one specifically recognized failure,
/// and a catch-all for engine allocation failures and unrecognized codes.
#[derive(Clone, Copy, Debug, PartialEq, Eq, Structural)]
pub enum ErrorKind {
    Unknown,
    TLSHandshakeError,
}

/// The category a non-zero raw error code is classified into.
pub open spec fn classify_spec(code: u64) -> ErrorKind {
    if code == TLS_HANDSHAKE_FAILED {
        ErrorKind::TLSHandshakeError
    } else {
        ErrorKind::Unknown
    }
}

/// The error condition derived from a connection's raw local and remote
/// error codes: none while both are 0, otherwise the classification of the
/// local code when it is non-zero, else of the remote one.
pub open spec fn connection_error_spec(local_code: u64, remote_code: u64) -> Option<ErrorKind> {
    if local_code != 0 {
        Some(classify_spec(local_code))
    } else if remote_code != 0 {
        Some(classify_spec(remote_code))
    } else {
        None
    }
}

/// Classifies a non-zero raw transport/TLS error code into the taxonomy.
/// Deterministic: classifying the same code again gives the same category.
pub fn classify(code: u64) -> (kind: ErrorKind)
    requires
        code != 0,
    ensures
        kind == classify_spec(code),
{
    if code == TLS_HANDSHAKE_FAILED {
        ErrorKind::TLSHandshakeError
    } else {
        ErrorKind::Unknown
    }
}

/// The classification law: no error is reported exactly when both raw codes
/// are 0; a non-zero local code takes precedence over the remote one; the
/// recognized code yields `TLSHandshakeError` and every other non-zero code
/// yields `Unknown`.
pub proof fn lemma_connection_error_classification(local_code: u64, remote_code: u64)
    ensures
        (connection_error_spec(local_code, remote_code) is None) <==> (local_code == 0
            && remote_code == 0),
        local_code != 0 ==> connection_error_spec(local_code, remote_code) == Some(
            classify_spec(local_code),
        ),
        local_code == 0 && remote_code != 0 ==> connection_error_spec(local_code, remote_code)
            == Some(classify_spec(remote_code)),
        classify_spec(TLS_HANDSHAKE_FAILED) == ErrorKind::TLSHandshakeError,
        forall|code: u64|
            code != TLS_HANDSHAKE_FAILED ==> classify_spec(code) == ErrorKind::Unknown,
{
}

} // verus!
