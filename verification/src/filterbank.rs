//! Spectral filterbank.

use vstd::prelude::*;
use crate::types::{check_init, Error, Status};
use crate::vec::{clearance, CVec, FMat, FVecMut, CHECK_SIZE};

verus! {

/// What a filterbank is: its native object, the number of its filters and the
/// length of the window whose spectra it reads.
pub struct FilterBankState {
    pub handle: usize,
    pub n_filters: usize,
    pub win_s: usize,
}

/// Filterbank object: a set of filters, each a row of one coefficient per bin,
/// by which a spectrum is reduced to one number per filter.
pub struct FilterBank {
    state: FilterBankState,
}

impl View for FilterBank {
    type V = FilterBankState;

    closed spec fn view(&self) -> FilterBankState {
        self.state
    }
}

impl FilterBank {
    #[verifier::type_invariant]
    spec fn inv(self) -> bool {
        self.state.handle != 0
    }

    /// The filterbank as it is right after creation.
    pub open spec fn created(n_filters: usize, win_s: usize, raw: usize) -> FilterBankState {
        FilterBankState {
            handle: raw,
            n_filters,
            win_s,
        }
    }

    /// Takes over the native filterbank at address `raw`, which the native
    /// layer made for this geometry. Address zero means that it made none.
    pub fn new(n_filters: usize, win_s: usize, raw: usize) -> (r: Result<FilterBank, Error>)
        ensures
            match r {
                Ok(filterbank) => raw != 0 && filterbank@ == FilterBank::created(
                    n_filters,
                    win_s,
                    raw,
                ),
                Err(e) => raw == 0 && e == Error::FailedInit,
            },
    {
        check_init(raw)?;
        Ok(
            FilterBank {
                state: FilterBankState {
                    handle: raw,
                    n_filters,
                    win_s,
                },
            },
        )
    }

    /// Address of the native filterbank; never zero.
    pub fn handle(&self) -> (raw: usize)
        ensures
            raw == self@.handle,
            raw != 0,
    {
        proof {
            use_type_invariant(self);
        }
        self.state.handle
    }

    /// Number of filters.
    pub fn n_filters(&self) -> (n: usize)
        ensures
            n == self@.n_filters,
    {
        self.state.n_filters
    }

    /// Length of the window whose spectra are read.
    pub fn win_s(&self) -> (win: usize)
        ensures
            win == self@.win_s,
    {
        self.state.win_s
    }

    /// Number of bins in the spectrum of one window, which is the number of
    /// coefficients of one filter.
    pub fn n_bins(&self) -> (bins: usize)
        ensures
            bins == self@.win_s / 2 + 1,
    {
        self.state.win_s / 2 + 1
    }

    /// Clears a coefficient matrix: it must have one channel for each filter
    /// and one sample for each bin. On `Ok` the native filterbank may take
    /// the matrix.
    pub fn set_coeffs<S>(&self, filters: &FMat<'_, S>) -> (r: Status)
        requires
            !CHECK_SIZE ==> filters@.channels.len() == self@.n_filters
                && filters@.length == self@.win_s / 2 + 1,
        ensures
            r == clearance(
                filters@.channels.len() == self@.n_filters
                    && filters@.length == self@.win_s / 2 + 1,
            ),
    {
        if CHECK_SIZE
            && (filters.height() != self.n_filters() || filters.length() != self.n_bins()) {
            return Err(Error::MismatchSize);
        }
        Ok(())
    }

    /// Clears the filtering of one frame: `input` must have exactly one bin
    /// for each coefficient of a filter and `output` room for one sample for
    /// each filter. On `Ok` the native filterbank may run on the two views.
    pub fn do_<S>(&self, input: &CVec<'_, S>, output: &FVecMut<'_, S>) -> (r: Status)
        requires
            !CHECK_SIZE ==> input@.bins == self@.win_s / 2 + 1 && output@.len() >= self@.n_filters,
        ensures
            r == clearance(input@.bins == self@.win_s / 2 + 1 && output@.len() >= self@.n_filters),
    {
        if CHECK_SIZE && (output.size() < self.n_filters() || input.size() != self.n_bins()) {
            return Err(Error::MismatchSize);
        }
        Ok(())
    }
}

} // verus!
