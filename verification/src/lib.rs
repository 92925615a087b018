//! Size-checked buffer views and the frame-processing protocol of the aubio
//! audio-analysis objects.
//!
//! The library holds what can be decided without the native layer: how a
//! buffer is described to it, whether the buffers of a call are large enough,
//! what a processing object was created with and set to, and what the names
//! and numbers that cross the boundary mean. Native calls themselves are made
//! by the caller, who hands their results in as plain values.

mod fft;
mod filterbank;
mod log;
mod mfcc;
mod notes;
mod onset;
mod pitch;
mod pvoc;
mod resampler;
mod specdesc;
mod tempo;
mod types;
mod winfunc;

pub mod vec;

pub use crate::fft::{FFTState, FFT};
pub use crate::filterbank::{FilterBank, FilterBankState};
pub use crate::log::{FnLogger, Level, Log, LogLevel, Logger};
pub use crate::mfcc::{MFCCState, MelCoeffs, MFCC};
pub use crate::notes::{Note, Notes, NotesState};
pub use crate::onset::{Onset, OnsetMode, OnsetState};
pub use crate::pitch::{Pitch, PitchMode, PitchState, PitchUnit};
pub use crate::pvoc::{PVoc, PVocState};
pub use crate::resampler::ResampleMode;
pub use crate::specdesc::{SpecDesc, SpecDescState, SpecMethod, SpecShape};
pub use crate::tempo::{Tempo, TempoState};
pub use crate::types::{check_init, AsNativeStr, Error, Result, Smpl, Span, Status};
pub use crate::winfunc::WindowType;
