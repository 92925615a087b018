//! Mel-frequency cepstrum coefficients.

use vstd::prelude::*;
use crate::types::{check_init, Error, Smpl, Status};
use crate::vec::{clearance, spectrum_span, CVec, FVecMut, CHECK_SIZE};

verus! {

/// How the bands of the mel filterbank are laid out.
#[derive(Debug, Clone, Copy, PartialEq, Eq, Structural)]
pub enum MelCoeffs {
    /// Bands spaced evenly on the mel scale between two frequencies in Hz.
    Mel { fmin: Smpl, fmax: Smpl },
    /// Bands spaced evenly on the HTK mel scale between two frequencies in
    /// Hz.
    Htk { fmin: Smpl, fmax: Smpl },
    /// The bands of Slaney's Auditory Toolbox; meant for 40 filters.
    Slaney,
}

/// What an MFCC object is: its native object, the geometry it was created
/// with, and each parameter as last set. A parameter that was never set is
/// `None`: the native default is in force.
pub struct MFCCState {
    pub handle: usize,
    pub buf_size: usize,
    pub n_filters: usize,
    pub n_coeffs: usize,
    pub sample_rate: u32,
    pub power: Option<Smpl>,
    pub scale: Option<Smpl>,
    pub mel_coeffs: Option<MelCoeffs>,
}

/// MFCC object: computes mel-frequency cepstrum coefficients of spectral
/// frames.
pub struct MFCC {
    state: MFCCState,
}

impl View for MFCC {
    type V = MFCCState;

    closed spec fn view(&self) -> MFCCState {
        self.state
    }
}

impl MFCC {
    #[verifier::type_invariant]
    spec fn inv(self) -> bool {
        self.state.handle != 0
    }

    /// The object as it is right after creation: no parameter set.
    pub open spec fn created(
        buf_size: usize,
        n_filters: usize,
        n_coeffs: usize,
        sample_rate: u32,
        raw: usize,
    ) -> MFCCState {
        MFCCState {
            handle: raw,
            buf_size,
            n_filters,
            n_coeffs,
            sample_rate,
            power: None,
            scale: None,
            mel_coeffs: None,
        }
    }

    /// Takes over the native object at address `raw`, which the native layer
    /// made for this geometry. Address zero means that it made none.
    pub fn new(
        buf_size: usize,
        n_filters: usize,
        n_coeffs: usize,
        sample_rate: u32,
        raw: usize,
    ) -> (r: Result<MFCC, Error>)
        ensures
            match r {
                Ok(mfcc) => raw != 0 && mfcc@ == MFCC::created(
                    buf_size,
                    n_filters,
                    n_coeffs,
                    sample_rate,
                    raw,
                ),
                Err(e) => raw == 0 && e == Error::FailedInit,
            },
    {
        check_init(raw)?;
        Ok(
            MFCC {
                state: MFCCState {
                    handle: raw,
                    buf_size,
                    n_filters,
                    n_coeffs,
                    sample_rate,
                    power: None,
                    scale: None,
                    mel_coeffs: None,
                },
            },
        )
    }

    /// Address of the native object; never zero.
    pub fn handle(&self) -> (raw: usize)
        ensures
            raw == self@.handle,
            raw != 0,
    {
        proof {
            use_type_invariant(self);
        }
        self.state.handle
    }

    /// Clears the computation for one frame: `input` must span the analysis
    /// window and `output` must have room for every coefficient.
    pub fn do_<S>(&self, input: &CVec<'_, S>, output: &FVecMut<'_, S>) -> (r: Status)
        requires
            !CHECK_SIZE ==> spectrum_span(input@.bins) >= self@.buf_size
                && output@.len() >= self@.n_coeffs,
        ensures
            r == clearance(
                spectrum_span(input@.bins) >= self@.buf_size && output@.len() >= self@.n_coeffs,
            ),
    {
        input.check_size(self.state.buf_size)?;
        output.check_size(self.state.n_coeffs)?;
        Ok(())
    }

    /// Sets the power to which the filterbank output is raised.
    pub fn set_power(&mut self, power: Smpl)
        ensures
            final(self)@ == (MFCCState { power: Some(power), ..old(self)@ }),
    {
        proof {
            use_type_invariant(&*self);
        }
        self.state.power = Some(power);
    }

    /// Power parameter, as last set.
    pub fn get_power(&self) -> (power: Option<Smpl>)
        ensures
            power == self@.power,
    {
        self.state.power
    }

    /// Sets the power to which the filterbank output is raised, and hands the
    /// object on.
    pub fn with_power(self, power: Smpl) -> (r: MFCC)
        ensures
            r@ == (MFCCState { power: Some(power), ..self@ }),
    {
        let mut mfcc = self;
        mfcc.set_power(power);
        mfcc
    }

    /// Sets the scaling of the filterbank output.
    pub fn set_scale(&mut self, scale: Smpl)
        ensures
            final(self)@ == (MFCCState { scale: Some(scale), ..old(self)@ }),
    {
        proof {
            use_type_invariant(&*self);
        }
        self.state.scale = Some(scale);
    }

    /// Scaling parameter, as last set.
    pub fn get_scale(&self) -> (scale: Option<Smpl>)
        ensures
            scale == self@.scale,
    {
        self.state.scale
    }

    /// Sets the scaling of the filterbank output, and hands the object on.
    pub fn with_scale(self, scale: Smpl) -> (r: MFCC)
        ensures
            r@ == (MFCCState { scale: Some(scale), ..self@ }),
    {
        let mut mfcc = self;
        mfcc.set_scale(scale);
        mfcc
    }

    /// Lays the bands out evenly on the mel scale between two frequencies in
    /// Hz.
    pub fn set_mel_coeffs(&mut self, fmin: Smpl, fmax: Smpl)
        ensures
            final(self)@ == (MFCCState {
                mel_coeffs: Some(MelCoeffs::Mel { fmin, fmax }),
                ..old(self)@
            }),
    {
        proof {
            use_type_invariant(&*self);
        }
        self.state.mel_coeffs = Some(MelCoeffs::Mel { fmin, fmax });
    }

    /// Lays the bands out evenly on the mel scale between two frequencies in
    /// Hz, and hands the object on.
    pub fn with_mel_coeffs(self, fmin: Smpl, fmax: Smpl) -> (r: MFCC)
        ensures
            r@ == (MFCCState { mel_coeffs: Some(MelCoeffs::Mel { fmin, fmax }), ..self@ }),
    {
        let mut mfcc = self;
        mfcc.set_mel_coeffs(fmin, fmax);
        mfcc
    }

    /// Lays the bands out evenly on the HTK mel scale between two frequencies
    /// in Hz.
    pub fn set_mel_coeffs_htk(&mut self, fmin: Smpl, fmax: Smpl)
        ensures
            final(self)@ == (MFCCState {
                mel_coeffs: Some(MelCoeffs::Htk { fmin, fmax }),
                ..old(self)@
            }),
    {
        proof {
            use_type_invariant(&*self);
        }
        self.state.mel_coeffs = Some(MelCoeffs::Htk { fmin, fmax });
    }

    /// Lays the bands out evenly on the HTK mel scale between two frequencies
    /// in Hz, and hands the object on.
    pub fn with_mel_coeffs_htk(self, fmin: Smpl, fmax: Smpl) -> (r: MFCC)
        ensures
            r@ == (MFCCState { mel_coeffs: Some(MelCoeffs::Htk { fmin, fmax }), ..self@ }),
    {
        let mut mfcc = self;
        mfcc.set_mel_coeffs_htk(fmin, fmax);
        mfcc
    }

    /// Lays the bands out as Slaney's Auditory Toolbox does.
    pub fn set_mel_coeffs_slaney(&mut self)
        ensures
            final(self)@ == (MFCCState {
                mel_coeffs: Some(MelCoeffs::Slaney),
                ..old(self)@
            }),
    {
        proof {
            use_type_invariant(&*self);
        }
        self.state.mel_coeffs = Some(MelCoeffs::Slaney);
    }

    /// Lays the bands out as Slaney's Auditory Toolbox does, and hands the
    /// object on.
    pub fn with_mel_coeffs_slaney(self) -> (r: MFCC)
        ensures
            r@ == (MFCCState { mel_coeffs: Some(MelCoeffs::Slaney), ..self@ }),
    {
        let mut mfcc = self;
        mfcc.set_mel_coeffs_slaney();
        mfcc
    }

    /// Layout of the mel filterbank, as last set.
    pub fn get_mel_coeffs(&self) -> (mel_coeffs: Option<MelCoeffs>)
        ensures
            mel_coeffs == self@.mel_coeffs,
    {
        self.state.mel_coeffs
    }
}

} // verus!
