//! A boundary layer around an outside natural-language detector: it validates
//! caller-supplied bytes as UTF-8 text, invokes the detector, and reports the
//! outcome through a closed status enumeration, never by panicking.
//!
//! The detection algorithm itself is the `whatlang` crate, reached through a
//! single trusted call; everything around that call — validation, the shape
//! of the result, which status comes back on which input, and that a failed
//! call leaves the caller's result memory untouched — is verified.

pub mod boundary;
pub mod status;
pub mod utf8;

pub use boundary::WlInfo;
pub use boundary::detect;
pub use boundary::wl_detect;
pub use status::WlError;
pub use utf8::validate_utf8;
