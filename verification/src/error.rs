//! Why a sound file cannot be loaded.

use vstd::prelude::*;

verus! {

/// The reasons for which loading a sound file fails.
#[derive(Clone, Copy, Debug, PartialEq, Eq, Structural)]
pub enum LoadError {
    /// The bytes are not a WAVE image that the decoder accepts.
    Undecodable,
    /// The metering window holds no whole frame at the file's sample rate,
    /// so no number of windows covers the frames of the file.
    EmptyWindow,
}

} // verus!
