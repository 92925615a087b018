//! Phase vocoder.

use vstd::prelude::*;
use crate::types::{check_init, Error, Status};
use crate::vec::{clearance, spectrum_span, CVec, CVecMut, FVec, FVecMut, CHECK_SIZE};
use crate::winfunc::WindowType;

verus! {

/// What a phase vocoder is: its native object, its geometry and its window
/// function as last set; `None` is the native default.
pub struct PVocState {
    pub handle: usize,
    pub win_size: usize,
    pub hop_size: usize,
    pub window: Option<WindowType>,
}

/// Phase vocoder object: turns hops of signal into spectral frames and
/// spectral frames back into hops of signal.
pub struct PVoc {
    state: PVocState,
}

impl View for PVoc {
    type V = PVocState;

    closed spec fn view(&self) -> PVocState {
        self.state
    }
}

impl PVoc {
    #[verifier::type_invariant]
    spec fn inv(self) -> bool {
        self.state.handle != 0
    }

    /// The vocoder as it is right after creation: no parameter set.
    pub open spec fn created(win_size: usize, hop_size: usize, raw: usize) -> PVocState {
        PVocState {
            handle: raw,
            win_size,
            hop_size,
            window: None,
        }
    }

    /// Takes over the native vocoder at address `raw`, which the native layer
    /// made for this geometry. Address zero means that it made none.
    pub fn new(win_size: usize, hop_size: usize, raw: usize) -> (r: Result<PVoc, Error>)
        ensures
            match r {
                Ok(pvoc) => raw != 0 && pvoc@ == PVoc::created(win_size, hop_size, raw),
                Err(e) => raw == 0 && e == Error::FailedInit,
            },
    {
        check_init(raw)?;
        Ok(
            PVoc {
                state: PVocState {
                    handle: raw,
                    win_size,
                    hop_size,
                    window: None,
                },
            },
        )
    }

    /// Address of the native vocoder; never zero.
    pub fn handle(&self) -> (raw: usize)
        ensures
            raw == self@.handle,
            raw != 0,
    {
        proof {
            use_type_invariant(self);
        }
        self.state.handle
    }

    /// Hop size.
    pub fn get_hop(&self) -> (hop: usize)
        ensures
            hop == self@.hop_size,
    {
        self.state.hop_size
    }

    /// Window size.
    pub fn get_win(&self) -> (win: usize)
        ensures
            win == self@.win_size,
    {
        self.state.win_size
    }

    /// Clears the analysis of one frame: `input` must hold a hop of signal and
    /// `fftgrain` must span a window.
    pub fn do_<S>(&self, input: &FVec<'_, S>, fftgrain: &CVecMut<'_, S>) -> (r: Status)
        requires
            !CHECK_SIZE ==> input@.len() >= self@.hop_size
                && spectrum_span(fftgrain@.bins) >= self@.win_size,
        ensures
            r == clearance(
                input@.len() >= self@.hop_size && spectrum_span(fftgrain@.bins) >= self@.win_size,
            ),
    {
        input.check_size(self.get_hop())?;
        fftgrain.check_size(self.get_win())?;
        Ok(())
    }

    /// Clears the synthesis of one frame: `fftgrain` must span a window and
    /// `output` must have room for a hop of signal.
    pub fn rdo<S>(&self, fftgrain: &CVec<'_, S>, output: &FVecMut<'_, S>) -> (r: Status)
        requires
            !CHECK_SIZE ==> spectrum_span(fftgrain@.bins) >= self@.win_size
                && output@.len() >= self@.hop_size,
        ensures
            r == clearance(
                spectrum_span(fftgrain@.bins) >= self@.win_size && output@.len() >= self@.hop_size,
            ),
    {
        fftgrain.check_size(self.get_win())?;
        output.check_size(self.get_hop())?;
        Ok(())
    }

    /// Records the outcome of asking the native vocoder for a window
    /// function: `code` is what it answered, zero for accepted. A window
    /// that it refused is an invalid argument and changes nothing.
    pub fn set_window(&mut self, window_type: WindowType, code: u32) -> (r: Status)
        ensures
            match r {
                Ok(()) => code == 0 && final(self)@ == (PVocState {
                    window: Some(window_type),
                    ..old(self)@
                }),
                Err(e) => code != 0 && e == Error::InvalidArg && final(self)@ == old(self)@,
            },
    {
        if code == 0 {
            proof {
                use_type_invariant(&*self);
            }
            self.state.window = Some(window_type);
            Ok(())
        } else {
            Err(Error::InvalidArg)
        }
    }

    /// Window function, as last set.
    pub fn get_window(&self) -> (window: Option<WindowType>)
        ensures
            window == self@.window,
    {
        self.state.window
    }

    /// Records the outcome of asking the native vocoder for a window
    /// function, as [`PVoc::set_window`] does, and hands the vocoder on
    /// where the window was accepted.
    pub fn with_window(self, window_type: WindowType, code: u32) -> (r: Result<PVoc, Error>)
        ensures
            match r {
                Ok(pvoc) => code == 0 && pvoc@ == (PVocState {
                    window: Some(window_type),
                    ..self@
                }),
                Err(e) => code != 0 && e == Error::InvalidArg,
            },
    {
        let mut pvoc = self;
        match pvoc.set_window(window_type, code) {
            Ok(()) => Ok(pvoc),
            Err(e) => Err(e),
        }
    }
}

} // verus!
