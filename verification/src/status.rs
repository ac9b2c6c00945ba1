//! UEFI status codes and their meaning.

use vstd::prelude::*;
use crate::wide::{w, wide, has_no_nul, is_nul_terminated, lemma_wide_is_nul_terminated};

verus! {

/// The top bit of the native word: set in every error code.
pub const ERROR_BIT: usize = 1usize << (usize::BITS - 1);

/// The operation completed successfully.
pub const SUCCESS: usize = 0;
pub const LOAD_ERROR: usize = ERROR_BIT | 1;
pub const INVALID_PARAMETER: usize = ERROR_BIT | 2;
pub const UNSUPPORTED: usize = ERROR_BIT | 3;
pub const BAD_BUFFER_SIZE: usize = ERROR_BIT | 4;
pub const BUFFER_TOO_SMALL: usize = ERROR_BIT | 5;
pub const NOT_READY: usize = ERROR_BIT | 6;
pub const DEVICE_ERROR: usize = ERROR_BIT | 7;
pub const WRITE_PROTECTED: usize = ERROR_BIT | 8;
pub const OUT_OF_RESOURCES: usize = ERROR_BIT | 9;
pub const VOLUME_CORRUPTED: usize = ERROR_BIT | 10;
pub const VOLUME_FULL: usize = ERROR_BIT | 11;
pub const NO_MEDIA: usize = ERROR_BIT | 12;
pub const MEDIA_CHANGED: usize = ERROR_BIT | 13;
pub const NOT_FOUND: usize = ERROR_BIT | 14;
pub const ACCESS_DENIED: usize = ERROR_BIT | 15;
pub const NO_RESPONSE: usize = ERROR_BIT | 16;
pub const NO_MAPPING: usize = ERROR_BIT | 17;
pub const TIMEOUT: usize = ERROR_BIT | 18;
pub const NOT_STARTED: usize = ERROR_BIT | 19;
pub const ALREADY_STARTED: usize = ERROR_BIT | 20;
pub const ABORTED: usize = ERROR_BIT | 21;
pub const ICMP_ERROR: usize = ERROR_BIT | 22;
pub const TFTP_ERROR: usize = ERROR_BIT | 23;
pub const PROTOCOL_ERROR: usize = ERROR_BIT | 24;
pub const INCOMPATIBLE_VERSION: usize = ERROR_BIT | 25;
pub const SECURITY_VIOLATION: usize = ERROR_BIT | 26;
pub const CRC_ERROR: usize = ERROR_BIT | 27;
pub const END_OF_MEDIA: usize = ERROR_BIT | 28;
pub const END_OF_FILE: usize = ERROR_BIT | 31;
pub const INVALID_LANGUAGE: usize = ERROR_BIT | 32;
pub const COMPROMISED_DATA: usize = ERROR_BIT | 33;
pub const IP_ADDRESS_CONFLICT: usize = ERROR_BIT | 34;
pub const HTTP_ERROR: usize = ERROR_BIT | 35;

pub const WARN_UNKNOWN_GLYPH: usize = 1;
pub const WARN_DELETE_FAILURE: usize = 2;
pub const WARN_WRITE_FAILURE: usize = 3;
pub const WARN_BUFFER_TOO_SMALL: usize = 4;
pub const WARN_STALE_DATA: usize = 5;
pub const WARN_FILE_SYSTEM: usize = 6;
pub const WARN_RESET_REQUIRED: usize = 7;

/// The value that a UEFI service returns: success, a warning, or an error.
#[derive(Clone, Copy, Debug, PartialEq, Eq, Structural, PartialOrd, Ord, Hash)]
pub struct Status(pub usize);

/// The outcome of a UEFI service call: a value, or the status that stopped it.
pub type Result<T = (), E = Status> = core::result::Result<T, E>;

/// An error code has the top bit of the native word set.
pub open spec fn is_error_code(code: usize) -> bool {
    code >= ERROR_BIT
}

/// A warning code is neither success nor an error.
pub open spec fn is_warning_code(code: usize) -> bool {
    0 < code < ERROR_BIT
}

/// `ERROR_BIT` is the top bit of the native word, whatever its width.
pub proof fn lemma_error_bit()
    ensures
        ERROR_BIT as int == usize::MAX as int / 2 + 1,
        forall|k: usize| k < ERROR_BIT ==> #[trigger] (k | ERROR_BIT) == k + ERROR_BIT,
        forall|k: usize| k < ERROR_BIT ==> #[trigger] (ERROR_BIT | k) == k + ERROR_BIT,
        forall|k: usize| (k | ERROR_BIT) >= ERROR_BIT,
        forall|x: usize| (x & ERROR_BIT != 0) == (x >= ERROR_BIT),
{
    assert(usize::BITS == 64 ==> ERROR_BIT as u64 == 0x8000_0000_0000_0000u64) by (bit_vector);
    assert(usize::BITS == 32 ==> ERROR_BIT as u64 == 0x8000_0000u64) by (bit_vector);
    assert(forall|k: usize| k < ERROR_BIT ==> #[trigger] (k | ERROR_BIT) == k + ERROR_BIT)
        by (bit_vector);
    assert(forall|k: usize| k < ERROR_BIT ==> #[trigger] (ERROR_BIT | k) == k + ERROR_BIT)
        by (bit_vector);
    assert(forall|k: usize| (k | ERROR_BIT) >= ERROR_BIT) by (bit_vector);
    assert(forall|x: usize| (x & ERROR_BIT != 0) == (x >= ERROR_BIT)) by (bit_vector);
}

/// The text that describes a status code.
pub open spec fn description_text(code: usize) -> Seq<char> {
    if code == SUCCESS {
        "The operation completed successfully."@
    } else if code == LOAD_ERROR {
        "The image failed to load."@
    } else if code == INVALID_PARAMETER {
        "A parameter was incorrect."@
    } else if code == UNSUPPORTED {
        "The operation is not supported."@
    } else if code == BAD_BUFFER_SIZE {
        "The buffer was not the proper size for the request."@
    } else if code == BUFFER_TOO_SMALL {
        "The buffer is not large enough to hold the requested data."@
    } else if code == NOT_READY {
        "There is no data pending upon return."@
    } else if code == DEVICE_ERROR {
        "The physical device reported an error while attempting the operation."@
    } else if code == WRITE_PROTECTED {
        "The device cannot be written to."@
    } else if code == OUT_OF_RESOURCES {
        "A resource has run out."@
    } else if code == VOLUME_CORRUPTED {
        "An inconstancy was detected on the file system causing the operating to fail."@
    } else if code == VOLUME_FULL {
        "There is no more space on the file system."@
    } else if code == NO_MEDIA {
        "The device does not contain any medium to perform the operation."@
    } else if code == MEDIA_CHANGED {
        "The medium in the device has changed since the last access."@
    } else if code == NOT_FOUND {
        "The item was not found."@
    } else if code == ACCESS_DENIED {
        "Access was denied."@
    } else if code == NO_RESPONSE {
        "The server was not found or did not respond to the request."@
    } else if code == NO_MAPPING {
        "A mapping to a device does not exist."@
    } else if code == TIMEOUT {
        "The timeout time expired."@
    } else if code == NOT_STARTED {
        "The protocol has not been started."@
    } else if code == ALREADY_STARTED {
        "The protocol has already been started."@
    } else if code == ABORTED {
        "The operation was aborted."@
    } else if code == ICMP_ERROR {
        "An ICMP error occurred during the network operation."@
    } else if code == TFTP_ERROR {
        "A TFTP error occurred during the network operation."@
    } else if code == PROTOCOL_ERROR {
        "A protocol error occurred during the network operation."@
    } else if code == INCOMPATIBLE_VERSION {
        "The function encountered an internal version that was incompatible with a version requested by the caller."@
    } else if code == SECURITY_VIOLATION {
        "The function was not performed due to a security violation."@
    } else if code == CRC_ERROR {
        "A CRC error was detected."@
    } else if code == END_OF_MEDIA {
        "Beginning or end of media was reached."@
    } else if code == END_OF_FILE {
        "The end of the file was reached."@
    } else if code == INVALID_LANGUAGE {
        "The language specified was invalid."@
    } else if code == COMPROMISED_DATA {
        "The security status of the data is unknown or compromised and the data must be updated or replaced to restore a valid security status."@
    } else if code == IP_ADDRESS_CONFLICT {
        "There is an address conflict address allocation"@
    } else if code == HTTP_ERROR {
        "A HTTP error occurred during the network operation."@
    } else if code == WARN_UNKNOWN_GLYPH {
        "The string contained one or more characters that the device could not render and were skipped."@
    } else if code == WARN_DELETE_FAILURE {
        "The handle was closed, but the file was not deleted."@
    } else if code == WARN_WRITE_FAILURE {
        "The handle was closed, but the data to the file was not flushed properly."@
    } else if code == WARN_STALE_DATA {
        "The data has not been updated within the timeframe set by local policy for this type of data."@
    } else if code == WARN_FILE_SYSTEM {
        "The resulting buffer contains UEFI-compliant file system."@
    } else if code == WARN_RESET_REQUIRED {
        "The operation will be processed across a system reset."@
    } else {
        "Unknown status."@
    }
}

/// The status codes that have a description of their own.
pub open spec fn has_description(code: usize) -> bool {
    ||| code == SUCCESS
    ||| code == LOAD_ERROR
    ||| code == INVALID_PARAMETER
    ||| code == UNSUPPORTED
    ||| code == BAD_BUFFER_SIZE
    ||| code == BUFFER_TOO_SMALL
    ||| code == NOT_READY
    ||| code == DEVICE_ERROR
    ||| code == WRITE_PROTECTED
    ||| code == OUT_OF_RESOURCES
    ||| code == VOLUME_CORRUPTED
    ||| code == VOLUME_FULL
    ||| code == NO_MEDIA
    ||| code == MEDIA_CHANGED
    ||| code == NOT_FOUND
    ||| code == ACCESS_DENIED
    ||| code == NO_RESPONSE
    ||| code == NO_MAPPING
    ||| code == TIMEOUT
    ||| code == NOT_STARTED
    ||| code == ALREADY_STARTED
    ||| code == ABORTED
    ||| code == ICMP_ERROR
    ||| code == TFTP_ERROR
    ||| code == PROTOCOL_ERROR
    ||| code == INCOMPATIBLE_VERSION
    ||| code == SECURITY_VIOLATION
    ||| code == CRC_ERROR
    ||| code == END_OF_MEDIA
    ||| code == END_OF_FILE
    ||| code == INVALID_LANGUAGE
    ||| code == COMPROMISED_DATA
    ||| code == IP_ADDRESS_CONFLICT
    ||| code == HTTP_ERROR
    ||| code == WARN_UNKNOWN_GLYPH
    ||| code == WARN_DELETE_FAILURE
    ||| code == WARN_WRITE_FAILURE
    ||| code == WARN_STALE_DATA
    ||| code == WARN_FILE_SYSTEM
    ||| code == WARN_RESET_REQUIRED
}

/// The description of each named status code, in the words of the UEFI specification;
/// every other code, the buffer-too-small warning among them, is "Unknown status.".
pub proof fn lemma_description_texts(code: usize)
    ensures
        description_text(SUCCESS) == "The operation completed successfully."@,
        description_text(LOAD_ERROR) == "The image failed to load."@,
        description_text(INVALID_PARAMETER) == "A parameter was incorrect."@,
        description_text(UNSUPPORTED) == "The operation is not supported."@,
        description_text(BAD_BUFFER_SIZE) == "The buffer was not the proper size for the request."@,
        description_text(BUFFER_TOO_SMALL) == "The buffer is not large enough to hold the requested data."@,
        description_text(NOT_READY) == "There is no data pending upon return."@,
        description_text(DEVICE_ERROR) == "The physical device reported an error while attempting the operation."@,
        description_text(WRITE_PROTECTED) == "The device cannot be written to."@,
        description_text(OUT_OF_RESOURCES) == "A resource has run out."@,
        description_text(VOLUME_CORRUPTED) == "An inconstancy was detected on the file system causing the operating to fail."@,
        description_text(VOLUME_FULL) == "There is no more space on the file system."@,
        description_text(NO_MEDIA) == "The device does not contain any medium to perform the operation."@,
        description_text(MEDIA_CHANGED) == "The medium in the device has changed since the last access."@,
        description_text(NOT_FOUND) == "The item was not found."@,
        description_text(ACCESS_DENIED) == "Access was denied."@,
        description_text(NO_RESPONSE) == "The server was not found or did not respond to the request."@,
        description_text(NO_MAPPING) == "A mapping to a device does not exist."@,
        description_text(TIMEOUT) == "The timeout time expired."@,
        description_text(NOT_STARTED) == "The protocol has not been started."@,
        description_text(ALREADY_STARTED) == "The protocol has already been started."@,
        description_text(ABORTED) == "The operation was aborted."@,
        description_text(ICMP_ERROR) == "An ICMP error occurred during the network operation."@,
        description_text(TFTP_ERROR) == "A TFTP error occurred during the network operation."@,
        description_text(PROTOCOL_ERROR) == "A protocol error occurred during the network operation."@,
        description_text(INCOMPATIBLE_VERSION) == "The function encountered an internal version that was incompatible with a version requested by the caller."@,
        description_text(SECURITY_VIOLATION) == "The function was not performed due to a security violation."@,
        description_text(CRC_ERROR) == "A CRC error was detected."@,
        description_text(END_OF_MEDIA) == "Beginning or end of media was reached."@,
        description_text(END_OF_FILE) == "The end of the file was reached."@,
        description_text(INVALID_LANGUAGE) == "The language specified was invalid."@,
        description_text(COMPROMISED_DATA) == "The security status of the data is unknown or compromised and the data must be updated or replaced to restore a valid security status."@,
        description_text(IP_ADDRESS_CONFLICT) == "There is an address conflict address allocation"@,
        description_text(HTTP_ERROR) == "A HTTP error occurred during the network operation."@,
        description_text(WARN_UNKNOWN_GLYPH) == "The string contained one or more characters that the device could not render and were skipped."@,
        description_text(WARN_DELETE_FAILURE) == "The handle was closed, but the file was not deleted."@,
        description_text(WARN_WRITE_FAILURE) == "The handle was closed, but the data to the file was not flushed properly."@,
        description_text(WARN_STALE_DATA) == "The data has not been updated within the timeframe set by local policy for this type of data."@,
        description_text(WARN_FILE_SYSTEM) == "The resulting buffer contains UEFI-compliant file system."@,
        description_text(WARN_RESET_REQUIRED) == "The operation will be processed across a system reset."@,
        description_text(WARN_BUFFER_TOO_SMALL) == "Unknown status."@,
        !has_description(code) ==> description_text(code) == "Unknown status."@,
{
    lemma_named_codes();
    lemma_error_bit();
}

/// Distinct status codes with a description of their own are described by distinct
/// texts, and none of them by "Unknown status.".
#[verifier::rlimit(100)]
pub proof fn lemma_descriptions_distinct(a: usize, b: usize)
    requires
        has_description(a),
        has_description(b),
        a != b,
    ensures
        description_text(a) != description_text(b),
        description_text(a) != "Unknown status."@,
{
    lemma_description_texts(a);
    lemma_description_texts(b);
    lemma_description_text_shapes();
    if a == SUCCESS {
        assert(description_text(a) == "The operation completed successfully."@);
    } else if a == LOAD_ERROR {
        assert(description_text(a) == "The image failed to load."@);
    } else if a == INVALID_PARAMETER {
        assert(description_text(a) == "A parameter was incorrect."@);
    } else if a == UNSUPPORTED {
        assert(description_text(a) == "The operation is not supported."@);
    } else if a == BAD_BUFFER_SIZE {
        assert(description_text(a) == "The buffer was not the proper size for the request."@);
    } else if a == BUFFER_TOO_SMALL {
        assert(description_text(a) == "The buffer is not large enough to hold the requested data."@);
    } else if a == NOT_READY {
        assert(description_text(a) == "There is no data pending upon return."@);
    } else if a == DEVICE_ERROR {
        assert(description_text(a) == "The physical device reported an error while attempting the operation."@);
    } else if a == WRITE_PROTECTED {
        assert(description_text(a) == "The device cannot be written to."@);
    } else if a == OUT_OF_RESOURCES {
        assert(description_text(a) == "A resource has run out."@);
    } else if a == VOLUME_CORRUPTED {
        assert(description_text(a) == "An inconstancy was detected on the file system causing the operating to fail."@);
    } else if a == VOLUME_FULL {
        assert(description_text(a) == "There is no more space on the file system."@);
    } else if a == NO_MEDIA {
        assert(description_text(a) == "The device does not contain any medium to perform the operation."@);
    } else if a == MEDIA_CHANGED {
        assert(description_text(a) == "The medium in the device has changed since the last access."@);
    } else if a == NOT_FOUND {
        assert(description_text(a) == "The item was not found."@);
    } else if a == ACCESS_DENIED {
        assert(description_text(a) == "Access was denied."@);
    } else if a == NO_RESPONSE {
        assert(description_text(a) == "The server was not found or did not respond to the request."@);
    } else if a == NO_MAPPING {
        assert(description_text(a) == "A mapping to a device does not exist."@);
    } else if a == TIMEOUT {
        assert(description_text(a) == "The timeout time expired."@);
    } else if a == NOT_STARTED {
        assert(description_text(a) == "The protocol has not been started."@);
    } else if a == ALREADY_STARTED {
        assert(description_text(a) == "The protocol has already been started."@);
    } else if a == ABORTED {
        assert(description_text(a) == "The operation was aborted."@);
    } else if a == ICMP_ERROR {
        assert(description_text(a) == "An ICMP error occurred during the network operation."@);
    } else if a == TFTP_ERROR {
        assert(description_text(a) == "A TFTP error occurred during the network operation."@);
    } else if a == PROTOCOL_ERROR {
        assert(description_text(a) == "A protocol error occurred during the network operation."@);
    } else if a == INCOMPATIBLE_VERSION {
        assert(description_text(a) == "The function encountered an internal version that was incompatible with a version requested by the caller."@);
    } else if a == SECURITY_VIOLATION {
        assert(description_text(a) == "The function was not performed due to a security violation."@);
    } else if a == CRC_ERROR {
        assert(description_text(a) == "A CRC error was detected."@);
    } else if a == END_OF_MEDIA {
        assert(description_text(a) == "Beginning or end of media was reached."@);
    } else if a == END_OF_FILE {
        assert(description_text(a) == "The end of the file was reached."@);
    } else if a == INVALID_LANGUAGE {
        assert(description_text(a) == "The language specified was invalid."@);
    } else if a == COMPROMISED_DATA {
        assert(description_text(a) == "The security status of the data is unknown or compromised and the data must be updated or replaced to restore a valid security status."@);
    } else if a == IP_ADDRESS_CONFLICT {
        assert(description_text(a) == "There is an address conflict address allocation"@);
    } else if a == HTTP_ERROR {
        assert(description_text(a) == "A HTTP error occurred during the network operation."@);
    } else if a == WARN_UNKNOWN_GLYPH {
        assert(description_text(a) == "The string contained one or more characters that the device could not render and were skipped."@);
    } else if a == WARN_DELETE_FAILURE {
        assert(description_text(a) == "The handle was closed, but the file was not deleted."@);
    } else if a == WARN_WRITE_FAILURE {
        assert(description_text(a) == "The handle was closed, but the data to the file was not flushed properly."@);
    } else if a == WARN_STALE_DATA {
        assert(description_text(a) == "The data has not been updated within the timeframe set by local policy for this type of data."@);
    } else if a == WARN_FILE_SYSTEM {
        assert(description_text(a) == "The resulting buffer contains UEFI-compliant file system."@);
    } else if a == WARN_RESET_REQUIRED {
        assert(description_text(a) == "The operation will be processed across a system reset."@);
    }
}

/// Lengths of the description texts, and the characters that tell apart texts of equal
/// length.
proof fn lemma_description_text_shapes()
    ensures
        "The operation completed successfully."@.len() == 37,
        "The image failed to load."@.len() == 25,
        "A parameter was incorrect."@.len() == 26,
        "The operation is not supported."@.len() == 31,
        "The buffer was not the proper size for the request."@.len() == 51,
        "The buffer is not large enough to hold the requested data."@.len() == 58,
        "There is no data pending upon return."@.len() == 37,
        "The physical device reported an error while attempting the operation."@.len() == 69,
        "The device cannot be written to."@.len() == 32,
        "A resource has run out."@.len() == 23,
        "An inconstancy was detected on the file system causing the operating to fail."@.len() == 77,
        "There is no more space on the file system."@.len() == 42,
        "The device does not contain any medium to perform the operation."@.len() == 64,
        "The medium in the device has changed since the last access."@.len() == 59,
        "The item was not found."@.len() == 23,
        "Access was denied."@.len() == 18,
        "The server was not found or did not respond to the request."@.len() == 59,
        "A mapping to a device does not exist."@.len() == 37,
        "The timeout time expired."@.len() == 25,
        "The protocol has not been started."@.len() == 34,
        "The protocol has already been started."@.len() == 38,
        "The operation was aborted."@.len() == 26,
        "An ICMP error occurred during the network operation."@.len() == 52,
        "A TFTP error occurred during the network operation."@.len() == 51,
        "A protocol error occurred during the network operation."@.len() == 55,
        "The function encountered an internal version that was incompatible with a version requested by the caller."@.len() == 106,
        "The function was not performed due to a security violation."@.len() == 59,
        "A CRC error was detected."@.len() == 25,
        "Beginning or end of media was reached."@.len() == 38,
        "The end of the file was reached."@.len() == 32,
        "The language specified was invalid."@.len() == 35,
        "The security status of the data is unknown or compromised and the data must be updated or replaced to restore a valid security status."@.len() == 134,
        "There is an address conflict address allocation"@.len() == 47,
        "A HTTP error occurred during the network operation."@.len() == 51,
        "The string contained one or more characters that the device could not render and were skipped."@.len() == 94,
        "The handle was closed, but the file was not deleted."@.len() == 52,
        "The handle was closed, but the data to the file was not flushed properly."@.len() == 73,
        "The data has not been updated within the timeframe set by local policy for this type of data."@.len() == 93,
        "The resulting buffer contains UEFI-compliant file system."@.len() == 57,
        "The operation will be processed across a system reset."@.len() == 54,
        "Unknown status."@.len() == 15,
        "The operation completed successfully."@[3] == ' ',
        "There is no data pending upon return."@[3] == 'r',
        "The operation completed successfully."@[0] == 'T',
        "A mapping to a device does not exist."@[0] == 'A',
        "The image failed to load."@[4] == 'i',
        "The timeout time expired."@[4] == 't',
        "The image failed to load."@[0] == 'T',
        "A CRC error was detected."@[0] == 'A',
        "A parameter was incorrect."@[0] == 'A',
        "The operation was aborted."@[0] == 'T',
        "The buffer was not the proper size for the request."@[0] == 'T',
        "A TFTP error occurred during the network operation."@[0] == 'A',
        "The buffer was not the proper size for the request."@[0] == 'T',
        "A HTTP error occurred during the network operation."@[0] == 'A',
        "There is no data pending upon return."@[0] == 'T',
        "A mapping to a device does not exist."@[0] == 'A',
        "The device cannot be written to."@[4] == 'd',
        "The end of the file was reached."@[4] == 'e',
        "A resource has run out."@[0] == 'A',
        "The item was not found."@[0] == 'T',
        "The medium in the device has changed since the last access."@[4] == 'm',
        "The server was not found or did not respond to the request."@[4] == 's',
        "The medium in the device has changed since the last access."@[4] == 'm',
        "The function was not performed due to a security violation."@[4] == 'f',
        "The server was not found or did not respond to the request."@[4] == 's',
        "The function was not performed due to a security violation."@[4] == 'f',
        "The timeout time expired."@[0] == 'T',
        "A CRC error was detected."@[0] == 'A',
        "The protocol has already been started."@[0] == 'T',
        "Beginning or end of media was reached."@[0] == 'B',
        "An ICMP error occurred during the network operation."@[0] == 'A',
        "The handle was closed, but the file was not deleted."@[0] == 'T',
        "A TFTP error occurred during the network operation."@[2] == 'T',
        "A HTTP error occurred during the network operation."@[2] == 'H',
{
    assert("The operation completed successfully."@.len() == 37) by {
        reveal_strlit("The operation completed successfully.");
    }
    assert("The image failed to load."@.len() == 25) by {
        reveal_strlit("The image failed to load.");
    }
    assert("A parameter was incorrect."@.len() == 26) by {
        reveal_strlit("A parameter was incorrect.");
    }
    assert("The operation is not supported."@.len() == 31) by {
        reveal_strlit("The operation is not supported.");
    }
    assert("The buffer was not the proper size for the request."@.len() == 51) by {
        reveal_strlit("The buffer was not the proper size for the request.");
    }
    assert("The buffer is not large enough to hold the requested data."@.len() == 58) by {
        reveal_strlit("The buffer is not large enough to hold the requested data.");
    }
    assert("There is no data pending upon return."@.len() == 37) by {
        reveal_strlit("There is no data pending upon return.");
    }
    assert("The physical device reported an error while attempting the operation."@.len() == 69) by {
        reveal_strlit("The physical device reported an error while attempting the operation.");
    }
    assert("The device cannot be written to."@.len() == 32) by {
        reveal_strlit("The device cannot be written to.");
    }
    assert("A resource has run out."@.len() == 23) by {
        reveal_strlit("A resource has run out.");
    }
    assert("An inconstancy was detected on the file system causing the operating to fail."@.len() == 77) by {
        reveal_strlit("An inconstancy was detected on the file system causing the operating to fail.");
    }
    assert("There is no more space on the file system."@.len() == 42) by {
        reveal_strlit("There is no more space on the file system.");
    }
    assert("The device does not contain any medium to perform the operation."@.len() == 64) by {
        reveal_strlit("The device does not contain any medium to perform the operation.");
    }
    assert("The medium in the device has changed since the last access."@.len() == 59) by {
        reveal_strlit("The medium in the device has changed since the last access.");
    }
    assert("The item was not found."@.len() == 23) by {
        reveal_strlit("The item was not found.");
    }
    assert("Access was denied."@.len() == 18) by {
        reveal_strlit("Access was denied.");
    }
    assert("The server was not found or did not respond to the request."@.len() == 59) by {
        reveal_strlit("The server was not found or did not respond to the request.");
    }
    assert("A mapping to a device does not exist."@.len() == 37) by {
        reveal_strlit("A mapping to a device does not exist.");
    }
    assert("The timeout time expired."@.len() == 25) by {
        reveal_strlit("The timeout time expired.");
    }
    assert("The protocol has not been started."@.len() == 34) by {
        reveal_strlit("The protocol has not been started.");
    }
    assert("The protocol has already been started."@.len() == 38) by {
        reveal_strlit("The protocol has already been started.");
    }
    assert("The operation was aborted."@.len() == 26) by {
        reveal_strlit("The operation was aborted.");
    }
    assert("An ICMP error occurred during the network operation."@.len() == 52) by {
        reveal_strlit("An ICMP error occurred during the network operation.");
    }
    assert("A TFTP error occurred during the network operation."@.len() == 51) by {
        reveal_strlit("A TFTP error occurred during the network operation.");
    }
    assert("A protocol error occurred during the network operation."@.len() == 55) by {
        reveal_strlit("A protocol error occurred during the network operation.");
    }
    assert("The function encountered an internal version that was incompatible with a version requested by the caller."@.len() == 106) by {
        reveal_strlit("The function encountered an internal version that was incompatible with a version requested by the caller.");
    }
    assert("The function was not performed due to a security violation."@.len() == 59) by {
        reveal_strlit("The function was not performed due to a security violation.");
    }
    assert("A CRC error was detected."@.len() == 25) by {
        reveal_strlit("A CRC error was detected.");
    }
    assert("Beginning or end of media was reached."@.len() == 38) by {
        reveal_strlit("Beginning or end of media was reached.");
    }
    assert("The end of the file was reached."@.len() == 32) by {
        reveal_strlit("The end of the file was reached.");
    }
    assert("The language specified was invalid."@.len() == 35) by {
        reveal_strlit("The language specified was invalid.");
    }
    assert("The security status of the data is unknown or compromised and the data must be updated or replaced to restore a valid security status."@.len() == 134) by {
        reveal_strlit("The security status of the data is unknown or compromised and the data must be updated or replaced to restore a valid security status.");
    }
    assert("There is an address conflict address allocation"@.len() == 47) by {
        reveal_strlit("There is an address conflict address allocation");
    }
    assert("A HTTP error occurred during the network operation."@.len() == 51) by {
        reveal_strlit("A HTTP error occurred during the network operation.");
    }
    assert("The string contained one or more characters that the device could not render and were skipped."@.len() == 94) by {
        reveal_strlit("The string contained one or more characters that the device could not render and were skipped.");
    }
    assert("The handle was closed, but the file was not deleted."@.len() == 52) by {
        reveal_strlit("The handle was closed, but the file was not deleted.");
    }
    assert("The handle was closed, but the data to the file was not flushed properly."@.len() == 73) by {
        reveal_strlit("The handle was closed, but the data to the file was not flushed properly.");
    }
    assert("The data has not been updated within the timeframe set by local policy for this type of data."@.len() == 93) by {
        reveal_strlit("The data has not been updated within the timeframe set by local policy for this type of data.");
    }
    assert("The resulting buffer contains UEFI-compliant file system."@.len() == 57) by {
        reveal_strlit("The resulting buffer contains UEFI-compliant file system.");
    }
    assert("The operation will be processed across a system reset."@.len() == 54) by {
        reveal_strlit("The operation will be processed across a system reset.");
    }
    assert("Unknown status."@.len() == 15) by {
        reveal_strlit("Unknown status.");
    }
    assert("The operation completed successfully."@[3] == ' ') by {
        reveal_strlit("The operation completed successfully.");
    }
    assert("There is no data pending upon return."@[3] == 'r') by {
        reveal_strlit("There is no data pending upon return.");
    }
    assert("The operation completed successfully."@[0] == 'T') by {
        reveal_strlit("The operation completed successfully.");
    }
    assert("A mapping to a device does not exist."@[0] == 'A') by {
        reveal_strlit("A mapping to a device does not exist.");
    }
    assert("The image failed to load."@[4] == 'i') by {
        reveal_strlit("The image failed to load.");
    }
    assert("The timeout time expired."@[4] == 't') by {
        reveal_strlit("The timeout time expired.");
    }
    assert("The image failed to load."@[0] == 'T') by {
        reveal_strlit("The image failed to load.");
    }
    assert("A CRC error was detected."@[0] == 'A') by {
        reveal_strlit("A CRC error was detected.");
    }
    assert("A parameter was incorrect."@[0] == 'A') by {
        reveal_strlit("A parameter was incorrect.");
    }
    assert("The operation was aborted."@[0] == 'T') by {
        reveal_strlit("The operation was aborted.");
    }
    assert("The buffer was not the proper size for the request."@[0] == 'T') by {
        reveal_strlit("The buffer was not the proper size for the request.");
    }
    assert("A TFTP error occurred during the network operation."@[0] == 'A') by {
        reveal_strlit("A TFTP error occurred during the network operation.");
    }
    assert("The buffer was not the proper size for the request."@[0] == 'T') by {
        reveal_strlit("The buffer was not the proper size for the request.");
    }
    assert("A HTTP error occurred during the network operation."@[0] == 'A') by {
        reveal_strlit("A HTTP error occurred during the network operation.");
    }
    assert("There is no data pending upon return."@[0] == 'T') by {
        reveal_strlit("There is no data pending upon return.");
    }
    assert("A mapping to a device does not exist."@[0] == 'A') by {
        reveal_strlit("A mapping to a device does not exist.");
    }
    assert("The device cannot be written to."@[4] == 'd') by {
        reveal_strlit("The device cannot be written to.");
    }
    assert("The end of the file was reached."@[4] == 'e') by {
        reveal_strlit("The end of the file was reached.");
    }
    assert("A resource has run out."@[0] == 'A') by {
        reveal_strlit("A resource has run out.");
    }
    assert("The item was not found."@[0] == 'T') by {
        reveal_strlit("The item was not found.");
    }
    assert("The medium in the device has changed since the last access."@[4] == 'm') by {
        reveal_strlit("The medium in the device has changed since the last access.");
    }
    assert("The server was not found or did not respond to the request."@[4] == 's') by {
        reveal_strlit("The server was not found or did not respond to the request.");
    }
    assert("The medium in the device has changed since the last access."@[4] == 'm') by {
        reveal_strlit("The medium in the device has changed since the last access.");
    }
    assert("The function was not performed due to a security violation."@[4] == 'f') by {
        reveal_strlit("The function was not performed due to a security violation.");
    }
    assert("The server was not found or did not respond to the request."@[4] == 's') by {
        reveal_strlit("The server was not found or did not respond to the request.");
    }
    assert("The function was not performed due to a security violation."@[4] == 'f') by {
        reveal_strlit("The function was not performed due to a security violation.");
    }
    assert("The timeout time expired."@[0] == 'T') by {
        reveal_strlit("The timeout time expired.");
    }
    assert("A CRC error was detected."@[0] == 'A') by {
        reveal_strlit("A CRC error was detected.");
    }
    assert("The protocol has already been started."@[0] == 'T') by {
        reveal_strlit("The protocol has already been started.");
    }
    assert("Beginning or end of media was reached."@[0] == 'B') by {
        reveal_strlit("Beginning or end of media was reached.");
    }
    assert("An ICMP error occurred during the network operation."@[0] == 'A') by {
        reveal_strlit("An ICMP error occurred during the network operation.");
    }
    assert("The handle was closed, but the file was not deleted."@[0] == 'T') by {
        reveal_strlit("The handle was closed, but the file was not deleted.");
    }
    assert("A TFTP error occurred during the network operation."@[2] == 'T') by {
        reveal_strlit("A TFTP error occurred during the network operation.");
    }
    assert("A HTTP error occurred during the network operation."@[2] == 'H') by {
        reveal_strlit("A HTTP error occurred during the network operation.");
    }
}

/// No description text holds a NUL character.
pub proof fn lemma_description_text_no_nul(code: usize)
    ensures
        has_no_nul(description_text(code)),
{
    if code == SUCCESS {
        reveal_strlit("The operation completed successfully.");
    } else if code == LOAD_ERROR {
        reveal_strlit("The image failed to load.");
    } else if code == INVALID_PARAMETER {
        reveal_strlit("A parameter was incorrect.");
    } else if code == UNSUPPORTED {
        reveal_strlit("The operation is not supported.");
    } else if code == BAD_BUFFER_SIZE {
        reveal_strlit("The buffer was not the proper size for the request.");
    } else if code == BUFFER_TOO_SMALL {
        reveal_strlit("The buffer is not large enough to hold the requested data.");
    } else if code == NOT_READY {
        reveal_strlit("There is no data pending upon return.");
    } else if code == DEVICE_ERROR {
        reveal_strlit("The physical device reported an error while attempting the operation.");
    } else if code == WRITE_PROTECTED {
        reveal_strlit("The device cannot be written to.");
    } else if code == OUT_OF_RESOURCES {
        reveal_strlit("A resource has run out.");
    } else if code == VOLUME_CORRUPTED {
        reveal_strlit("An inconstancy was detected on the file system causing the operating to fail.");
    } else if code == VOLUME_FULL {
        reveal_strlit("There is no more space on the file system.");
    } else if code == NO_MEDIA {
        reveal_strlit("The device does not contain any medium to perform the operation.");
    } else if code == MEDIA_CHANGED {
        reveal_strlit("The medium in the device has changed since the last access.");
    } else if code == NOT_FOUND {
        reveal_strlit("The item was not found.");
    } else if code == ACCESS_DENIED {
        reveal_strlit("Access was denied.");
    } else if code == NO_RESPONSE {
        reveal_strlit("The server was not found or did not respond to the request.");
    } else if code == NO_MAPPING {
        reveal_strlit("A mapping to a device does not exist.");
    } else if code == TIMEOUT {
        reveal_strlit("The timeout time expired.");
    } else if code == NOT_STARTED {
        reveal_strlit("The protocol has not been started.");
    } else if code == ALREADY_STARTED {
        reveal_strlit("The protocol has already been started.");
    } else if code == ABORTED {
        reveal_strlit("The operation was aborted.");
    } else if code == ICMP_ERROR {
        reveal_strlit("An ICMP error occurred during the network operation.");
    } else if code == TFTP_ERROR {
        reveal_strlit("A TFTP error occurred during the network operation.");
    } else if code == PROTOCOL_ERROR {
        reveal_strlit("A protocol error occurred during the network operation.");
    } else if code == INCOMPATIBLE_VERSION {
        reveal_strlit("The function encountered an internal version that was incompatible with a version requested by the caller.");
    } else if code == SECURITY_VIOLATION {
        reveal_strlit("The function was not performed due to a security violation.");
    } else if code == CRC_ERROR {
        reveal_strlit("A CRC error was detected.");
    } else if code == END_OF_MEDIA {
        reveal_strlit("Beginning or end of media was reached.");
    } else if code == END_OF_FILE {
        reveal_strlit("The end of the file was reached.");
    } else if code == INVALID_LANGUAGE {
        reveal_strlit("The language specified was invalid.");
    } else if code == COMPROMISED_DATA {
        reveal_strlit("The security status of the data is unknown or compromised and the data must be updated or replaced to restore a valid security status.");
    } else if code == IP_ADDRESS_CONFLICT {
        reveal_strlit("There is an address conflict address allocation");
    } else if code == HTTP_ERROR {
        reveal_strlit("A HTTP error occurred during the network operation.");
    } else if code == WARN_UNKNOWN_GLYPH {
        reveal_strlit("The string contained one or more characters that the device could not render and were skipped.");
    } else if code == WARN_DELETE_FAILURE {
        reveal_strlit("The handle was closed, but the file was not deleted.");
    } else if code == WARN_WRITE_FAILURE {
        reveal_strlit("The handle was closed, but the data to the file was not flushed properly.");
    } else if code == WARN_STALE_DATA {
        reveal_strlit("The data has not been updated within the timeframe set by local policy for this type of data.");
    } else if code == WARN_FILE_SYSTEM {
        reveal_strlit("The resulting buffer contains UEFI-compliant file system.");
    } else if code == WARN_RESET_REQUIRED {
        reveal_strlit("The operation will be processed across a system reset.");
    } else {
        reveal_strlit("Unknown status.");
    }
}

impl Status {
    /// The error status with the given code: the code with the top bit set.
    pub fn error(value: usize) -> (r: Status)
        ensures
            r.0 == (value | ERROR_BIT),
            is_error_code(r.0),
            value < ERROR_BIT ==> r.0 == value + ERROR_BIT,
    {
        proof {
            lemma_error_bit();
        }
        Status(value | ERROR_BIT)
    }

    /// `Ok(())` on success; any other status, warnings included, is the error.
    pub fn as_result(self) -> (r: Result)
        ensures
            r == (if self.0 == SUCCESS { Ok::<(), Status>(()) } else { Err(self) }),
    {
        if self.0 == SUCCESS {
            Ok(())
        } else {
            Err(self)
        }
    }

    /// `Ok(other)` on success; any other status, warnings included, is the error.
    pub fn as_result_with<T>(self, other: T) -> (r: Result<T>)
        ensures
            r == (if self.0 == SUCCESS { Ok::<T, Status>(other) } else { Err(self) }),
    {
        if self.0 == SUCCESS {
            Ok(other)
        } else {
            Err(self)
        }
    }

    /// Whether this is the success status.
    pub fn is_success(self) -> (r: bool)
        ensures
            r == (self.0 == SUCCESS),
    {
        self.0 == SUCCESS
    }

    /// Whether this is an error: the top bit of the code is set.
    pub fn is_error(self) -> (r: bool)
        ensures
            r == is_error_code(self.0),
    {
        proof {
            lemma_error_bit();
        }
        self.0 & ERROR_BIT != 0
    }

    /// Whether this is a warning: neither success nor an error.
    pub fn is_warning(self) -> (r: bool)
        ensures
            r == is_warning_code(self.0),
    {
        proof {
            lemma_error_bit();
        }
        self.0 != SUCCESS && self.0 & ERROR_BIT == 0
    }

    /// A UEFI string that describes this status.
    pub fn description(&self) -> (r: Vec<u16>)
        ensures
            r@ == wide(description_text(self.0)),
            is_nul_terminated(r@),
    {
        proof {
            lemma_description_text_no_nul(self.0);
            lemma_wide_is_nul_terminated(description_text(self.0));
        }
        let code = self.0;
        let text: &str = if code == SUCCESS {
            "The operation completed successfully."
        } else if code == LOAD_ERROR {
            "The image failed to load."
        } else if code == INVALID_PARAMETER {
            "A parameter was incorrect."
        } else if code == UNSUPPORTED {
            "The operation is not supported."
        } else if code == BAD_BUFFER_SIZE {
            "The buffer was not the proper size for the request."
        } else if code == BUFFER_TOO_SMALL {
            "The buffer is not large enough to hold the requested data."
        } else if code == NOT_READY {
            "There is no data pending upon return."
        } else if code == DEVICE_ERROR {
            "The physical device reported an error while attempting the operation."
        } else if code == WRITE_PROTECTED {
            "The device cannot be written to."
        } else if code == OUT_OF_RESOURCES {
            "A resource has run out."
        } else if code == VOLUME_CORRUPTED {
            "An inconstancy was detected on the file system causing the operating to fail."
        } else if code == VOLUME_FULL {
            "There is no more space on the file system."
        } else if code == NO_MEDIA {
            "The device does not contain any medium to perform the operation."
        } else if code == MEDIA_CHANGED {
            "The medium in the device has changed since the last access."
        } else if code == NOT_FOUND {
            "The item was not found."
        } else if code == ACCESS_DENIED {
            "Access was denied."
        } else if code == NO_RESPONSE {
            "The server was not found or did not respond to the request."
        } else if code == NO_MAPPING {
            "A mapping to a device does not exist."
        } else if code == TIMEOUT {
            "The timeout time expired."
        } else if code == NOT_STARTED {
            "The protocol has not been started."
        } else if code == ALREADY_STARTED {
            "The protocol has already been started."
        } else if code == ABORTED {
            "The operation was aborted."
        } else if code == ICMP_ERROR {
            "An ICMP error occurred during the network operation."
        } else if code == TFTP_ERROR {
            "A TFTP error occurred during the network operation."
        } else if code == PROTOCOL_ERROR {
            "A protocol error occurred during the network operation."
        } else if code == INCOMPATIBLE_VERSION {
            "The function encountered an internal version that was incompatible with a version requested by the caller."
        } else if code == SECURITY_VIOLATION {
            "The function was not performed due to a security violation."
        } else if code == CRC_ERROR {
            "A CRC error was detected."
        } else if code == END_OF_MEDIA {
            "Beginning or end of media was reached."
        } else if code == END_OF_FILE {
            "The end of the file was reached."
        } else if code == INVALID_LANGUAGE {
            "The language specified was invalid."
        } else if code == COMPROMISED_DATA {
            "The security status of the data is unknown or compromised and the data must be updated or replaced to restore a valid security status."
        } else if code == IP_ADDRESS_CONFLICT {
            "There is an address conflict address allocation"
        } else if code == HTTP_ERROR {
            "A HTTP error occurred during the network operation."
        } else if code == WARN_UNKNOWN_GLYPH {
            "The string contained one or more characters that the device could not render and were skipped."
        } else if code == WARN_DELETE_FAILURE {
            "The handle was closed, but the file was not deleted."
        } else if code == WARN_WRITE_FAILURE {
            "The handle was closed, but the data to the file was not flushed properly."
        } else if code == WARN_STALE_DATA {
            "The data has not been updated within the timeframe set by local policy for this type of data."
        } else if code == WARN_FILE_SYSTEM {
            "The resulting buffer contains UEFI-compliant file system."
        } else if code == WARN_RESET_REQUIRED {
            "The operation will be processed across a system reset."
        } else {
            "Unknown status."
        };
        w(text)
    }
}

/// An error code is one with the top bit of the native word set; a warning is any other
/// code but success.
pub proof fn lemma_classes_by_top_bit(code: usize)
    ensures
        is_error_code(code) == (code as int >= usize::MAX as int / 2 + 1),
        is_warning_code(code) == (code != 0 && code as int <= usize::MAX as int / 2),
        is_error_code(code) == (code & ERROR_BIT != 0),
{
    lemma_error_bit();
}

/// Every status is exactly one of success, a warning or an error.
pub proof fn lemma_status_partition(s: Status)
    ensures
        (s.0 == SUCCESS) || is_warning_code(s.0) || is_error_code(s.0),
        !((s.0 == SUCCESS) && is_warning_code(s.0)),
        !((s.0 == SUCCESS) && is_error_code(s.0)),
        !(is_warning_code(s.0) && is_error_code(s.0)),
{
    lemma_error_bit();
}

/// The named error codes are errors with their UEFI numbers under the top bit, and the
/// named warning codes are warnings.
pub proof fn lemma_named_codes()
    ensures
        LOAD_ERROR == ERROR_BIT + 1 && is_error_code(LOAD_ERROR),
        INVALID_PARAMETER == ERROR_BIT + 2 && is_error_code(INVALID_PARAMETER),
        UNSUPPORTED == ERROR_BIT + 3 && is_error_code(UNSUPPORTED),
        BAD_BUFFER_SIZE == ERROR_BIT + 4 && is_error_code(BAD_BUFFER_SIZE),
        BUFFER_TOO_SMALL == ERROR_BIT + 5 && is_error_code(BUFFER_TOO_SMALL),
        NOT_READY == ERROR_BIT + 6 && is_error_code(NOT_READY),
        DEVICE_ERROR == ERROR_BIT + 7 && is_error_code(DEVICE_ERROR),
        WRITE_PROTECTED == ERROR_BIT + 8 && is_error_code(WRITE_PROTECTED),
        OUT_OF_RESOURCES == ERROR_BIT + 9 && is_error_code(OUT_OF_RESOURCES),
        VOLUME_CORRUPTED == ERROR_BIT + 10 && is_error_code(VOLUME_CORRUPTED),
        VOLUME_FULL == ERROR_BIT + 11 && is_error_code(VOLUME_FULL),
        NO_MEDIA == ERROR_BIT + 12 && is_error_code(NO_MEDIA),
        MEDIA_CHANGED == ERROR_BIT + 13 && is_error_code(MEDIA_CHANGED),
        NOT_FOUND == ERROR_BIT + 14 && is_error_code(NOT_FOUND),
        ACCESS_DENIED == ERROR_BIT + 15 && is_error_code(ACCESS_DENIED),
        NO_RESPONSE == ERROR_BIT + 16 && is_error_code(NO_RESPONSE),
        NO_MAPPING == ERROR_BIT + 17 && is_error_code(NO_MAPPING),
        TIMEOUT == ERROR_BIT + 18 && is_error_code(TIMEOUT),
        NOT_STARTED == ERROR_BIT + 19 && is_error_code(NOT_STARTED),
        ALREADY_STARTED == ERROR_BIT + 20 && is_error_code(ALREADY_STARTED),
        ABORTED == ERROR_BIT + 21 && is_error_code(ABORTED),
        ICMP_ERROR == ERROR_BIT + 22 && is_error_code(ICMP_ERROR),
        TFTP_ERROR == ERROR_BIT + 23 && is_error_code(TFTP_ERROR),
        PROTOCOL_ERROR == ERROR_BIT + 24 && is_error_code(PROTOCOL_ERROR),
        INCOMPATIBLE_VERSION == ERROR_BIT + 25 && is_error_code(INCOMPATIBLE_VERSION),
        SECURITY_VIOLATION == ERROR_BIT + 26 && is_error_code(SECURITY_VIOLATION),
        CRC_ERROR == ERROR_BIT + 27 && is_error_code(CRC_ERROR),
        END_OF_MEDIA == ERROR_BIT + 28 && is_error_code(END_OF_MEDIA),
        END_OF_FILE == ERROR_BIT + 31 && is_error_code(END_OF_FILE),
        INVALID_LANGUAGE == ERROR_BIT + 32 && is_error_code(INVALID_LANGUAGE),
        COMPROMISED_DATA == ERROR_BIT + 33 && is_error_code(COMPROMISED_DATA),
        IP_ADDRESS_CONFLICT == ERROR_BIT + 34 && is_error_code(IP_ADDRESS_CONFLICT),
        HTTP_ERROR == ERROR_BIT + 35 && is_error_code(HTTP_ERROR),
        is_warning_code(WARN_UNKNOWN_GLYPH),
        is_warning_code(WARN_DELETE_FAILURE),
        is_warning_code(WARN_WRITE_FAILURE),
        is_warning_code(WARN_BUFFER_TOO_SMALL),
        is_warning_code(WARN_STALE_DATA),
        is_warning_code(WARN_FILE_SYSTEM),
        is_warning_code(WARN_RESET_REQUIRED),
{
    lemma_error_bit();
}

/// Error codes built from distinct numbers below the top bit are distinct, and all of
/// them are errors.
pub proof fn lemma_error_codes_distinct(a: usize, b: usize)
    requires
        a < ERROR_BIT,
        b < ERROR_BIT,
        a != b,
    ensures
        (a | ERROR_BIT) != (b | ERROR_BIT),
        is_error_code(a | ERROR_BIT),
        is_error_code(b | ERROR_BIT),
{
    lemma_error_bit();
}

} // verus!
