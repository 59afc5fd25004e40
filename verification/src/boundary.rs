//! The boundary operation itself: validate the caller's bytes, invoke the
//! outside detector, and translate what came back into a fixed-layout result
//! and a status code.

use vstd::prelude::*;

use crate::status::WlError;
use crate::utf8::is_valid_utf8;
use crate::utf8::validate_utf8;

verus! {

/// The largest numeric language identifier the detector can report: its
/// closed language enumeration carries the values 0 through 69.
pub const MAX_LANG_CODE: u8 = 69;

/// The detector counts positions in 32-bit counters, so the boundary admits
/// only inputs shorter than this many bytes.
pub const DETECTOR_LEN_LIMIT: u64 = 0x1_0000_0000;

/// The bit pattern of the double-precision value 1.0. A detector confidence
/// is a non-negative double, and non-negative doubles order as their bit
/// patterns do, so a confidence lies in [0.0, 1.0] exactly when its bits are
/// at most this value.
pub const CONFIDENCE_ONE_BITS: u64 = 0x3FF0_0000_0000_0000;

/// The detection result: the detector's language identifier, already a
/// single-byte value, and its confidence score, carried as the bit pattern
/// of the double-precision number the detector reported.
#[derive(Clone, Copy, Debug, PartialEq, Eq, Structural)]
pub struct WlInfo {
    pub lang: u8,
    pub confidence_bits: u64,
}

impl WlInfo {
    /// A result the detector can actually have reported: the language
    /// identifier lies in the detector's closed enumeration and the
    /// confidence lies in [0.0, 1.0].
    pub open spec fn wf(self) -> bool {
        self.lang <= MAX_LANG_CODE && self.confidence_bits <= CONFIDENCE_ONE_BITS
    }
}

/// What the detector reports on a given valid text: `None` when no language
/// could be determined, otherwise the language identifier and the bits of
/// the confidence score. The detector is deterministic — ties in its
/// rankings are broken by fixed orderings, never by hash-map iteration — so
/// its outcome is a function of the text alone.
pub uninterp spec fn wl_detect_of(s: Seq<u8>) -> Option<(u8, u64)>;

/// Relies on `whatlang::detect`: given valid UTF-8 text it deterministically
/// either classifies the text — the language identifier is a value of the
/// detector's closed enumeration (0 through 69) and the confidence is
/// documented to lie in [0.0, 1.0] — or reports that no language could be
/// determined, which is what it reports on empty text (no script is found).
/// The length bound keeps the detector's internal 32-bit counters from
/// overflowing.
#[verifier::external_body]
fn run_detector(bytes: &[u8]) -> (r: Option<WlInfo>)
    requires
        is_valid_utf8(bytes@),
        bytes@.len() < DETECTOR_LEN_LIMIT,
    ensures
        (match r {
            Some(info) => wl_detect_of(bytes@) == Some((info.lang, info.confidence_bits)),
            None => wl_detect_of(bytes@) is None,
        }),
        r matches Some(info) ==> info.wf(),
        bytes@.len() == 0 ==> r is None,
{
    let text = core::str::from_utf8(bytes).unwrap();
    match whatlang::detect(text) {
        Some(info) => Some(
            WlInfo { lang: info.lang() as u8, confidence_bits: info.confidence().to_bits() },
        ),
        None => None,
    }
}

/// The outcome owed for a given input: malformed bytes are rejected, and on
/// valid text the detector's report decides between success and failure.
pub open spec fn detection_outcome(s: Seq<u8>) -> Result<WlInfo, WlError> {
    if !is_valid_utf8(s) {
        Err(WlError::MalformedString)
    } else {
        match wl_detect_of(s) {
            Some(p) => Ok(WlInfo { lang: p.0, confidence_bits: p.1 }),
            None => Err(WlError::DetectionFailed),
        }
    }
}

/// The status code that reports a given outcome.
pub open spec fn status_of(r: Result<WlInfo, WlError>) -> WlError {
    match r {
        Ok(_) => WlError::Okay,
        Err(e) => e,
    }
}

/// Validates `bytes` as UTF-8 text and runs the detector on it.
///
/// The length bound is what the trusted detector call demands; it is a
/// machine limit, not part of the boundary's own rules.
pub fn detect(bytes: &[u8]) -> (r: Result<WlInfo, WlError>)
    requires
        bytes@.len() < DETECTOR_LEN_LIMIT,
    ensures
        r == detection_outcome(bytes@),
        r matches Ok(info) ==> info.wf(),
        bytes@.len() == 0 ==> r == Err::<WlInfo, WlError>(WlError::DetectionFailed),
{
    if !validate_utf8(bytes) {
        return Err(WlError::MalformedString);
    }
    match run_detector(bytes) {
        Some(info) => Ok(info),
        None => Err(WlError::DetectionFailed),
    }
}

/// The full boundary operation: validate the input bytes, run the detector,
/// and write the detection result into the caller-owned `result` only on
/// success. Every failure is reported purely through the returned status
/// code, and then `result` is left exactly as it was.
pub fn wl_detect(bytes: &[u8], result: &mut WlInfo) -> (status: WlError)
    requires
        bytes@.len() < DETECTOR_LEN_LIMIT,
    ensures
        status == status_of(detection_outcome(bytes@)),
        detection_outcome(bytes@) matches Ok(info) ==> *final(result) == info,
        status != WlError::Okay ==> *final(result) == *old(result),
        status == WlError::Okay ==> final(result).wf(),
{
    match detect(bytes) {
        Ok(info) => {
            *result = info;
            WlError::Okay
        },
        Err(e) => e,
    }
}

/// Law: the boundary is idempotent. Any two outcomes owed for equal byte
/// sequences are equal — so calling with the same unchanged input twice
/// yields the same status and, on success, an identical detection result.
pub proof fn lemma_outcome_deterministic(
    s1: Seq<u8>,
    s2: Seq<u8>,
    r1: Result<WlInfo, WlError>,
    r2: Result<WlInfo, WlError>,
)
    requires
        s1 == s2,
        r1 == detection_outcome(s1),
        r2 == detection_outcome(s2),
    ensures
        r1 == r2,
        status_of(r1) == status_of(r2),
{
}

/// Law: on valid text that the detector classifies, the outcome is success,
/// and it carries exactly the detector's language identifier and confidence.
pub proof fn lemma_success_outcome(s: Seq<u8>, p: (u8, u64))
    requires
        is_valid_utf8(s),
        wl_detect_of(s) == Some(p),
    ensures
        detection_outcome(s) == Ok::<WlInfo, WlError>((WlInfo { lang: p.0, confidence_bits: p.1 })),
        status_of(detection_outcome(s)) == WlError::Okay,
{
}

/// Law: on bytes that are not valid UTF-8 text, the outcome is exactly the
/// malformed-string rejection, never success and never the other failure.
pub proof fn lemma_malformed_outcome(s: Seq<u8>)
    requires
        !is_valid_utf8(s),
    ensures
        detection_outcome(s) == Err::<WlInfo, WlError>(WlError::MalformedString),
        status_of(detection_outcome(s)) == WlError::MalformedString,
{
}

/// Law: on valid text for which the detector determines no language, the
/// outcome is exactly the detection failure, never success.
pub proof fn lemma_inconclusive_outcome(s: Seq<u8>)
    requires
        is_valid_utf8(s),
        wl_detect_of(s) is None,
    ensures
        detection_outcome(s) == Err::<WlInfo, WlError>(WlError::DetectionFailed),
        status_of(detection_outcome(s)) == WlError::DetectionFailed,
{
}

} // verus!
