//! Fourier transform.
//!
//! Every operation here clears a native computation: it tests the sizes of
//! the views that the computation reads and writes, and on `Ok` the
//! computation may run on them.

use vstd::prelude::*;
use crate::types::{check_init, Error, Status};
use crate::vec::{
    clearance, spectrum_span, CVec, CVecMut, CVecNormMut, CVecPhasMut, FVec, FVecMut, CHECK_SIZE,
};

verus! {

/// What a transform object is: its native object and its window size.
pub struct FFTState {
    pub handle: usize,
    pub win_size: usize,
}

/// FFT object: forward and backward Fourier transforms of one window size.
pub struct FFT {
    state: FFTState,
}

impl View for FFT {
    type V = FFTState;

    closed spec fn view(&self) -> FFTState {
        self.state
    }
}

impl FFT {
    #[verifier::type_invariant]
    spec fn inv(self) -> bool {
        self.state.handle != 0
    }

    /// The transform as it is right after creation.
    pub open spec fn created(win_size: usize, raw: usize) -> FFTState {
        FFTState {
            handle: raw,
            win_size,
        }
    }

    /// Takes over the native transform at address `raw`, which the native
    /// layer made for this window size. Address zero means that it made none.
    pub fn new(win_size: usize, raw: usize) -> (r: Result<FFT, Error>)
        ensures
            match r {
                Ok(fft) => raw != 0 && fft@ == FFT::created(win_size, raw),
                Err(e) => raw == 0 && e == Error::FailedInit,
            },
    {
        check_init(raw)?;
        Ok(
            FFT {
                state: FFTState {
                    handle: raw,
                    win_size,
                },
            },
        )
    }

    /// Address of the native transform; never zero.
    pub fn handle(&self) -> (raw: usize)
        ensures
            raw == self@.handle,
            raw != 0,
    {
        proof {
            use_type_invariant(self);
        }
        self.state.handle
    }

    /// Window size.
    pub fn get_win(&self) -> (win: usize)
        ensures
            win == self@.win_size,
    {
        self.state.win_size
    }

    /// Number of bins in the spectrum of one window.
    pub fn get_fft(&self) -> (bins: usize)
        ensures
            bins == self@.win_size / 2 + 1,
    {
        self.get_win() / 2 + 1
    }

    /// Clears a forward transform: `input` must hold a window of signal and
    /// `spectrum` must have a bin for each bin of its spectrum, which is
    /// `get_fft()` bins.
    pub fn do_<S>(&self, input: &FVec<'_, S>, spectrum: &CVecMut<'_, S>) -> (r: Status)
        requires
            !CHECK_SIZE ==> input@.len() >= self@.win_size
                && spectrum@.bins >= self@.win_size / 2 + 1,
        ensures
            r == clearance(
                input@.len() >= self@.win_size && spectrum@.bins >= self@.win_size / 2 + 1,
            ),
    {
        input.check_size(self.get_win())?;
        spectrum.check_bins(self.get_fft())?;
        Ok(())
    }

    /// Clears a backward transform: `spectrum` must have the `get_fft()`
    /// bins of the spectrum of a window, and `output` must have room for the
    /// window.
    pub fn rdo<S>(&self, spectrum: &CVec<'_, S>, output: &FVecMut<'_, S>) -> (r: Status)
        requires
            !CHECK_SIZE ==> spectrum@.bins >= self@.win_size / 2 + 1
                && output@.len() >= self@.win_size,
        ensures
            r == clearance(
                spectrum@.bins >= self@.win_size / 2 + 1 && output@.len() >= self@.win_size,
            ),
    {
        spectrum.check_bins(self.get_fft())?;
        output.check_size(self.get_win())?;
        Ok(())
    }

    /// Clears a forward transform into real and imaginary parts: `input` must
    /// hold a window of signal and `compspec` room for one.
    pub fn do_complex<S>(&self, input: &FVec<'_, S>, compspec: &FVecMut<'_, S>) -> (r: Status)
        requires
            !CHECK_SIZE ==> input@.len() >= self@.win_size && compspec@.len() >= self@.win_size,
        ensures
            r == clearance(input@.len() >= self@.win_size && compspec@.len() >= self@.win_size),
    {
        input.check_size(self.get_win())?;
        compspec.check_size(self.get_win())?;
        Ok(())
    }

    /// Clears a backward transform from real and imaginary parts: `compspec`
    /// must hold a window and `output` room for one.
    pub fn rdo_complex<S>(&self, compspec: &FVec<'_, S>, output: &FVecMut<'_, S>) -> (r: Status)
        requires
            !CHECK_SIZE ==> compspec@.len() >= self@.win_size && output@.len() >= self@.win_size,
        ensures
            r == clearance(compspec@.len() >= self@.win_size && output@.len() >= self@.win_size),
    {
        compspec.check_size(self.get_win())?;
        output.check_size(self.get_win())?;
        Ok(())
    }

    /// Clears the conversion of real and imaginary parts to magnitudes and
    /// phases: `spectrum` must span `compspec`.
    pub fn get_spectrum<S>(compspec: &FVec<'_, S>, spectrum: &CVecMut<'_, S>) -> (r: Status)
        requires
            !CHECK_SIZE ==> spectrum_span(spectrum@.bins) >= compspec@.len(),
        ensures
            r == clearance(spectrum_span(spectrum@.bins) >= compspec@.len()),
    {
        spectrum.check_size(compspec.size())?;
        Ok(())
    }

    /// Clears the conversion of magnitudes and phases to real and imaginary
    /// parts: `compspec` must have a sample for each bin of `spectrum`.
    pub fn get_realimag<S>(spectrum: &CVec<'_, S>, compspec: &FVecMut<'_, S>) -> (r: Status)
        requires
            !CHECK_SIZE ==> compspec@.len() >= spectrum@.bins,
        ensures
            r == clearance(compspec@.len() >= spectrum@.bins),
    {
        compspec.check_size(spectrum.size())?;
        Ok(())
    }

    /// Clears the computation of phases from real and imaginary parts:
    /// `spectrum_phas` must span `compspec`.
    pub fn get_phas<S>(compspec: &FVec<'_, S>, spectrum_phas: &CVecPhasMut<'_, S>) -> (r: Status)
        requires
            !CHECK_SIZE ==> spectrum_span(spectrum_phas@.bins) >= compspec@.len(),
        ensures
            r == clearance(spectrum_span(spectrum_phas@.bins) >= compspec@.len()),
    {
        spectrum_phas.check_size(compspec.size())?;
        Ok(())
    }

    /// Clears the computation of magnitudes from real and imaginary parts:
    /// `spectrum_norm` must span `compspec`.
    pub fn get_norm<S>(compspec: &FVec<'_, S>, spectrum_norm: &CVecNormMut<'_, S>) -> (r: Status)
        requires
            !CHECK_SIZE ==> spectrum_span(spectrum_norm@.bins) >= compspec@.len(),
        ensures
            r == clearance(spectrum_span(spectrum_norm@.bins) >= compspec@.len()),
    {
        spectrum_norm.check_size(compspec.size())?;
        Ok(())
    }

    /// Clears the computation of imaginary parts from magnitudes and phases:
    /// `compspec` must have a sample for each bin of `spectrum`.
    pub fn get_imag<S>(spectrum: &CVec<'_, S>, compspec: &FVecMut<'_, S>) -> (r: Status)
        requires
            !CHECK_SIZE ==> compspec@.len() >= spectrum@.bins,
        ensures
            r == clearance(compspec@.len() >= spectrum@.bins),
    {
        compspec.check_size(spectrum.size())?;
        Ok(())
    }

    /// Clears the computation of real parts from magnitudes and phases:
    /// `compspec` must have a sample for each bin of `spectrum`.
    pub fn get_real<S>(spectrum: &CVec<'_, S>, compspec: &FVecMut<'_, S>) -> (r: Status)
        requires
            !CHECK_SIZE ==> compspec@.len() >= spectrum@.bins,
        ensures
            r == clearance(compspec@.len() >= spectrum@.bins),
    {
        compspec.check_size(spectrum.size())?;
        Ok(())
    }
}

} // verus!
