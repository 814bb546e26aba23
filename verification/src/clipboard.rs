//! Where the text to show comes from.
//!
//! Two sources are asked in turn: the clipboard of the desktop, and, where
//! that one is empty, a utility of the session that prints its own
//! clipboard. Some display servers leave the first unfilled while the second
//! holds the text. This module decides what follows from each answer; the
//! program around it does the asking.

use vstd::prelude::*;
use vstd::utf8::{decode_utf8, valid_utf8};

verus! {

/// The utility that is run, without arguments, when the primary clipboard is
/// empty.
pub const FALLBACK_COMMAND: &'static str = "wl-paste";

/// Why no text could be had.
#[derive(Clone, Copy, Debug, PartialEq, Eq, Structural)]
pub enum AcquisitionError {
    /// The primary clipboard could not be read.
    ProviderFailed,
    /// The secondary utility ended with a failure status.
    FallbackFailed,
}

/// What follows from the answer of the primary clipboard.
#[derive(Debug, PartialEq, Eq)]
pub enum AcquireStep {
    /// The text is at hand.
    Done(String),
    /// The primary clipboard was empty: run [`FALLBACK_COMMAND`] and hand
    /// its outcome to [`after_fallback`].
    RunFallback,
    /// There is nothing to show.
    Fatal(AcquisitionError),
}

/// The text that `String::from_utf8_lossy` makes of a run of bytes. What it
/// puts in the place of bytes that are no UTF-8 is not spelled out here.
pub uninterp spec fn lossy_text(bytes: Seq<u8>) -> Seq<char>;

/// Calls `String::from_utf8_lossy` and takes the text out of the result.
/// Not proved: that the text is [`lossy_text`] of the bytes, and that bytes
/// which are UTF-8 already give the text they encode.
#[verifier::external_body]
fn text_from_utf8_lossy(bytes: &[u8]) -> (text: String)
    ensures
        text@ == lossy_text(bytes@),
        valid_utf8(bytes@) ==> text@ == decode_utf8(bytes@),
{
    String::from_utf8_lossy(bytes).into_owned()
}

impl AcquisitionError {
    /// The words with which the program gives up on this error.
    pub open spec fn spec_message(self) -> Seq<char> {
        match self {
            AcquisitionError::ProviderFailed => "Fatal: No clipboard content was found."@,
            AcquisitionError::FallbackFailed =>
                "Fatal: No clipboard content was found - tried x11 and wayland"@,
        }
    }

    /// The words with which the program gives up on this error.
    pub fn message(&self) -> (words: &'static str)
        ensures
            words@ == self.spec_message(),
    {
        match self {
            AcquisitionError::ProviderFailed => "Fatal: No clipboard content was found.",
            AcquisitionError::FallbackFailed =>
                "Fatal: No clipboard content was found - tried x11 and wayland",
        }
    }
}

/// Decides what follows from reading the primary clipboard.
///
/// A read that failed ends the acquisition at once, whatever the provider's
/// error says, and the secondary utility is not tried. A text that is not
/// empty is the text to show. An empty one is taken as no answer, and the
/// secondary utility is asked.
pub fn after_primary<E>(read: Result<String, E>) -> (step: AcquireStep)
    ensures
        match read {
            Err(_) => step == AcquireStep::Fatal(AcquisitionError::ProviderFailed),
            Ok(text) => if text@.len() == 0 {
                step == AcquireStep::RunFallback
            } else {
                step matches AcquireStep::Done(found) && found@ == text@
            },
        },
{
    match read {
        Err(_) => AcquireStep::Fatal(AcquisitionError::ProviderFailed),
        Ok(text) => {
            if text.as_str().is_empty() {
                AcquireStep::RunFallback
            } else {
                AcquireStep::Done(text)
            }
        },
    }
}

/// Decides what follows from a run of the secondary utility.
///
/// `success` is whether the utility ended with status zero, `stdout` all
/// that it printed. A failure status ends the acquisition. Otherwise the
/// output, read as UTF-8 with anything else replaced, is the text to show,
/// even where it is empty.
pub fn after_fallback(success: bool, stdout: &[u8]) -> (r: Result<String, AcquisitionError>)
    ensures
        match r {
            Ok(text) => {
                &&& success
                &&& text@ == lossy_text(stdout@)
                &&& valid_utf8(stdout@) ==> text@ == decode_utf8(stdout@)
            },
            Err(e) => !success && e == AcquisitionError::FallbackFailed,
        },
{
    if !success {
        return Err(AcquisitionError::FallbackFailed);
    }
    Ok(text_from_utf8_lossy(stdout))
}

} // verus!
