//! Tempo detection.

use vstd::prelude::*;
use crate::onset::OnsetMode;
use crate::types::{check_init, Error, Smpl, Span, Status};
use crate::vec::{clearance, FVec, FVecMut, CHECK_SIZE};

verus! {

/// What a tempo tracker is: its native object, the geometry it was created
/// with, and each parameter as last set. A parameter that was never set is
/// `None`: the native default is in force.
pub struct TempoState {
    pub handle: usize,
    pub method: OnsetMode,
    pub buf_size: usize,
    pub hop_size: usize,
    pub sample_rate: u32,
    pub silence: Option<Smpl>,
    pub threshold: Option<Smpl>,
    pub delay: Option<Span<isize>>,
    pub tatum_signature: Option<u32>,
}

/// Tempo detection object: follows the beat of the signal it is fed hop by
/// hop.
pub struct Tempo {
    state: TempoState,
}

impl View for Tempo {
    type V = TempoState;

    closed spec fn view(&self) -> TempoState {
        self.state
    }
}

impl Tempo {
    #[verifier::type_invariant]
    spec fn inv(self) -> bool {
        self.state.handle != 0
    }

    /// The tracker as it is right after creation: no parameter set.
    pub open spec fn created(
        method: OnsetMode,
        buf_size: usize,
        hop_size: usize,
        sample_rate: u32,
        raw: usize,
    ) -> TempoState {
        TempoState {
            handle: raw,
            method,
            buf_size,
            hop_size,
            sample_rate,
            silence: None,
            threshold: None,
            delay: None,
            tatum_signature: None,
        }
    }

    /// Takes over the native tracker at address `raw`, which the native layer
    /// made for this beat tracking method and geometry. Address zero means
    /// that it made none.
    pub fn new(
        method: OnsetMode,
        buf_size: usize,
        hop_size: usize,
        sample_rate: u32,
        raw: usize,
    ) -> (r: Result<Tempo, Error>)
        ensures
            match r {
                Ok(tempo) => raw != 0 && tempo@ == Tempo::created(
                    method,
                    buf_size,
                    hop_size,
                    sample_rate,
                    raw,
                ),
                Err(e) => raw == 0 && e == Error::FailedInit,
            },
    {
        check_init(raw)?;
        Ok(
            Tempo {
                state: TempoState {
                    handle: raw,
                    method,
                    buf_size,
                    hop_size,
                    sample_rate,
                    silence: None,
                    threshold: None,
                    delay: None,
                    tatum_signature: None,
                },
            },
        )
    }

    /// Address of the native tracker; never zero.
    pub fn handle(&self) -> (raw: usize)
        ensures
            raw == self@.handle,
            raw != 0,
    {
        proof {
            use_type_invariant(self);
        }
        self.state.handle
    }

    /// Hop size.
    pub fn get_hop(&self) -> (hop: usize)
        ensures
            hop == self@.hop_size,
    {
        self.state.hop_size
    }

    /// Clears one frame for tracking: `input` must hold a hop of signal and
    /// `output` room for one sample. On `Ok` the native tracker may run on the
    /// two views.
    pub fn do_<S>(&self, input: &FVec<'_, S>, output: &FVecMut<'_, S>) -> (r: Status)
        requires
            !CHECK_SIZE ==> input@.len() >= self@.hop_size && output@.len() >= 1,
        ensures
            r == clearance(input@.len() >= self@.hop_size && output@.len() >= 1),
    {
        input.check_size(self.get_hop())?;
        output.check_size(1)?;
        Ok(())
    }

    /// Sets the silence threshold.
    pub fn set_silence(&mut self, silence: Smpl)
        ensures
            final(self)@ == (TempoState { silence: Some(silence), ..old(self)@ }),
    {
        proof {
            use_type_invariant(&*self);
        }
        self.state.silence = Some(silence);
    }

    /// Silence threshold, as last set.
    pub fn get_silence(&self) -> (silence: Option<Smpl>)
        ensures
            silence == self@.silence,
    {
        self.state.silence
    }

    /// Sets the silence threshold, and hands the object on.
    pub fn with_silence(self, silence: Smpl) -> (r: Tempo)
        ensures
            r@ == (TempoState { silence: Some(silence), ..self@ }),
    {
        let mut tempo = self;
        tempo.set_silence(silence);
        tempo
    }

    /// Sets the peak picking threshold.
    pub fn set_threshold(&mut self, threshold: Smpl)
        ensures
            final(self)@ == (TempoState { threshold: Some(threshold), ..old(self)@ }),
    {
        proof {
            use_type_invariant(&*self);
        }
        self.state.threshold = Some(threshold);
    }

    /// Peak picking threshold, as last set.
    pub fn get_threshold(&self) -> (threshold: Option<Smpl>)
        ensures
            threshold == self@.threshold,
    {
        self.state.threshold
    }

    /// Sets the peak picking threshold, and hands the object on.
    pub fn with_threshold(self, threshold: Smpl) -> (r: Tempo)
        ensures
            r@ == (TempoState { threshold: Some(threshold), ..self@ }),
    {
        let mut tempo = self;
        tempo.set_threshold(threshold);
        tempo
    }

    /// Sets the delay, in samples.
    pub fn set_delay(&mut self, delay: isize)
        ensures
            final(self)@ == (TempoState { delay: Some(Span::Samples(delay)), ..old(self)@ }),
    {
        proof {
            use_type_invariant(&*self);
        }
        self.state.delay = Some(Span::Samples(delay));
    }

    /// The delay in samples, where it was last set in that unit.
    pub fn get_delay(&self) -> (delay: Option<isize>)
        ensures
            delay == (match self@.delay {
                Some(Span::Samples(count)) => Some(count),
                _ => None,
            }),
    {
        match self.state.delay {
            Some(Span::Samples(count)) => Some(count),
            _ => None,
        }
    }

    /// Sets the delay, in samples, and hands the object on.
    pub fn with_delay(self, delay: isize) -> (r: Tempo)
        ensures
            r@ == (TempoState { delay: Some(Span::Samples(delay)), ..self@ }),
    {
        let mut tempo = self;
        tempo.set_delay(delay);
        tempo
    }

    /// Sets the delay, in seconds.
    pub fn set_delay_s(&mut self, delay: Smpl)
        ensures
            final(self)@ == (TempoState { delay: Some(Span::Seconds(delay)), ..old(self)@ }),
    {
        proof {
            use_type_invariant(&*self);
        }
        self.state.delay = Some(Span::Seconds(delay));
    }

    /// The delay in seconds, where it was last set in that unit.
    pub fn get_delay_s(&self) -> (delay: Option<Smpl>)
        ensures
            delay == (match self@.delay {
                Some(Span::Seconds(value)) => Some(value),
                _ => None,
            }),
    {
        match self.state.delay {
            Some(Span::Seconds(value)) => Some(value),
            _ => None,
        }
    }

    /// Sets the delay, in seconds, and hands the object on.
    pub fn with_delay_s(self, delay: Smpl) -> (r: Tempo)
        ensures
            r@ == (TempoState { delay: Some(Span::Seconds(delay)), ..self@ }),
    {
        let mut tempo = self;
        tempo.set_delay_s(delay);
        tempo
    }

    /// Sets the delay, in milliseconds.
    pub fn set_delay_ms(&mut self, delay: Smpl)
        ensures
            final(self)@ == (TempoState { delay: Some(Span::Millis(delay)), ..old(self)@ }),
    {
        proof {
            use_type_invariant(&*self);
        }
        self.state.delay = Some(Span::Millis(delay));
    }

    /// The delay in milliseconds, where it was last set in that unit.
    pub fn get_delay_ms(&self) -> (delay: Option<Smpl>)
        ensures
            delay == (match self@.delay {
                Some(Span::Millis(value)) => Some(value),
                _ => None,
            }),
    {
        match self.state.delay {
            Some(Span::Millis(value)) => Some(value),
            _ => None,
        }
    }

    /// Sets the delay, in milliseconds, and hands the object on.
    pub fn with_delay_ms(self, delay: Smpl) -> (r: Tempo)
        ensures
            r@ == (TempoState { delay: Some(Span::Millis(delay)), ..self@ }),
    {
        let mut tempo = self;
        tempo.set_delay_ms(delay);
        tempo
    }

    /// Sets the number of tatums in a beat.
    pub fn set_tatum_signature(&mut self, signature: u32)
        ensures
            final(self)@ == (TempoState { tatum_signature: Some(signature), ..old(self)@ }),
    {
        proof {
            use_type_invariant(&*self);
        }
        self.state.tatum_signature = Some(signature);
    }

    /// Number of tatums in a beat, as last set.
    pub fn get_tatum_signature(&self) -> (signature: Option<u32>)
        ensures
            signature == self@.tatum_signature,
    {
        self.state.tatum_signature
    }

    /// Sets the number of tatums in a beat, and hands the object on.
    pub fn with_tatum_signature(self, signature: u32) -> (r: Tempo)
        ensures
            r@ == (TempoState { tatum_signature: Some(signature), ..self@ }),
    {
        let mut tempo = self;
        tempo.set_tatum_signature(signature);
        tempo
    }
}

} // verus!
