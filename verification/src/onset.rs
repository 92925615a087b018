//! Onset detection: the detection functions and the detector object.

use vstd::prelude::*;
use crate::types::{check_init, str_eq, AsNativeStr, Error, Smpl, Span, Status};
use crate::vec::{clearance, FVec, FVecMut, CHECK_SIZE};

verus! {

/// Onset detection function: how a spectral frame is turned into the
/// number whose peaks are the onsets.
#[derive(Debug, Clone, Copy, PartialEq, Eq, Hash, Structural)]
pub enum OnsetMode {
    /// Local energy of the frame.
    Energy,
    /// High frequency content; efficient at percussive onsets.
    Hfc,
    /// Complex domain method.
    Complex,
    /// Phase based method.
    Phase,
    /// Weighted phase deviation.
    WPhase,
    /// Spectral difference.
    SpecDiff,
    /// Kullback-Liebler.
    Kl,
    /// Modified Kullback-Liebler.
    Mkl,
    /// Spectral flux.
    SpecFlux,
}

impl AsNativeStr for OnsetMode {
    open spec fn name(&self) -> Seq<char> {
        match self {
            OnsetMode::Energy => "energy"@,
            OnsetMode::Hfc => "hfc"@,
            OnsetMode::Complex => "complex"@,
            OnsetMode::Phase => "phase"@,
            OnsetMode::WPhase => "wphase"@,
            OnsetMode::SpecDiff => "specdiff"@,
            OnsetMode::Kl => "kl"@,
            OnsetMode::Mkl => "mkl"@,
            OnsetMode::SpecFlux => "specflux"@,
        }
    }

    fn as_native_str(&self) -> (s: &'static str) {
        proof {
            reveal_strlit("energy");
            reveal_strlit("energy\0");
            reveal_strlit("hfc");
            reveal_strlit("hfc\0");
            reveal_strlit("complex");
            reveal_strlit("complex\0");
            reveal_strlit("phase");
            reveal_strlit("phase\0");
            reveal_strlit("wphase");
            reveal_strlit("wphase\0");
            reveal_strlit("specdiff");
            reveal_strlit("specdiff\0");
            reveal_strlit("kl");
            reveal_strlit("kl\0");
            reveal_strlit("mkl");
            reveal_strlit("mkl\0");
            reveal_strlit("specflux");
            reveal_strlit("specflux\0");
        }
        let s = match self {
            OnsetMode::Energy => "energy\0",
            OnsetMode::Hfc => "hfc\0",
            OnsetMode::Complex => "complex\0",
            OnsetMode::Phase => "phase\0",
            OnsetMode::WPhase => "wphase\0",
            OnsetMode::SpecDiff => "specdiff\0",
            OnsetMode::Kl => "kl\0",
            OnsetMode::Mkl => "mkl\0",
            OnsetMode::SpecFlux => "specflux\0",
        };
        assert(s@ =~= self.name().push('\0'));
        s
    }
}

impl Default for OnsetMode {
    fn default() -> (r: Self)
        ensures
            r == OnsetMode::Hfc,
    {
        OnsetMode::Hfc
    }
}

impl AsRef<str> for OnsetMode {
    /// The name, without terminator, as [`OnsetMode::as_ref`] gives it.
    fn as_ref(&self) -> (s: &str)
        ensures
            s@ == self.name(),
    {
        self.as_rust_str()
    }
}

impl core::str::FromStr for OnsetMode {
    type Err = Error;

    /// Reads a function from its name, as [`OnsetMode::from_str`] does.
    fn from_str(src: &str) -> (r: Result<OnsetMode, Error>)
        ensures
            match r {
                Ok(found) => OnsetMode::parse(src@) == Some(found),
                Err(e) => e == Error::InvalidArg && OnsetMode::parse(src@) is None,
            },
    {
        OnsetMode::from_str(src)
    }
}

impl OnsetMode {
    /// The function that a name stands for, if any.
    pub open spec fn parse(s: Seq<char>) -> Option<OnsetMode> {
        if s == "energy"@ {
            Some(OnsetMode::Energy)
        } else if s == "hfc"@ {
            Some(OnsetMode::Hfc)
        } else if s == "complex"@ {
            Some(OnsetMode::Complex)
        } else if s == "phase"@ {
            Some(OnsetMode::Phase)
        } else if s == "wphase"@ {
            Some(OnsetMode::WPhase)
        } else if s == "specdiff"@ {
            Some(OnsetMode::SpecDiff)
        } else if s == "kl"@ {
            Some(OnsetMode::Kl)
        } else if s == "mkl"@ {
            Some(OnsetMode::Mkl)
        } else if s == "specflux"@ {
            Some(OnsetMode::SpecFlux)
        } else {
            None
        }
    }

    /// Reads a function from its name; any other string is an invalid
    /// argument.
    pub fn from_str(src: &str) -> (r: Result<OnsetMode, Error>)
        ensures
            match r {
                Ok(found) => OnsetMode::parse(src@) == Some(found),
                Err(e) => e == Error::InvalidArg && OnsetMode::parse(src@) is None,
            },
    {
        if str_eq(src, "energy") {
            Ok(OnsetMode::Energy)
        } else if str_eq(src, "hfc") {
            Ok(OnsetMode::Hfc)
        } else if str_eq(src, "complex") {
            Ok(OnsetMode::Complex)
        } else if str_eq(src, "phase") {
            Ok(OnsetMode::Phase)
        } else if str_eq(src, "wphase") {
            Ok(OnsetMode::WPhase)
        } else if str_eq(src, "specdiff") {
            Ok(OnsetMode::SpecDiff)
        } else if str_eq(src, "kl") {
            Ok(OnsetMode::Kl)
        } else if str_eq(src, "mkl") {
            Ok(OnsetMode::Mkl)
        } else if str_eq(src, "specflux") {
            Ok(OnsetMode::SpecFlux)
        } else {
            Err(Error::InvalidArg)
        }
    }

    /// The name, without terminator.
    pub fn as_ref(&self) -> (s: &'static str)
        ensures
            s@ == self.name(),
    {
        self.as_rust_str()
    }

    /// The name as an owned string, as it is displayed.
    pub fn to_string(&self) -> (s: String)
        ensures
            s@ == self.name(),
    {
        self.as_ref().to_owned()
    }

    /// Every function is read back from its own name.
    pub proof fn lemma_name_round_trip(which: OnsetMode)
        ensures
            OnsetMode::parse(which.name()) == Some(which),
    {
        reveal_strlit("energy");
        reveal_strlit("hfc");
        reveal_strlit("complex");
        reveal_strlit("phase");
        reveal_strlit("wphase");
        reveal_strlit("specdiff");
        reveal_strlit("kl");
        reveal_strlit("mkl");
        reveal_strlit("specflux");
        assert("energy"@.len() == 6);
        assert("hfc"@.len() == 3);
        assert("complex"@.len() == 7);
        assert("phase"@.len() == 5);
        assert("wphase"@.len() == 6);
        assert("specdiff"@.len() == 8);
        assert("kl"@.len() == 2);
        assert("mkl"@.len() == 3);
        assert("specflux"@.len() == 8);
        assert("energy"@[0] != "wphase"@[0]);
        assert("hfc"@[0] != "mkl"@[0]);
        assert("specdiff"@[4] != "specflux"@[4]);
    }

    /// A string is read as a function exactly when it is the name of that
    /// function; so a string that names none is read as none.
    pub proof fn lemma_parse_inverts_name(s: Seq<char>, which: OnsetMode)
        ensures
            OnsetMode::parse(s) == Some(which) <==> which.name() == s,
    {
        Self::lemma_name_round_trip(which);
    }

    /// A string that is the name of no function is read as none.
    pub proof fn lemma_unknown_name(s: Seq<char>)
        requires
            forall|which: OnsetMode| #[trigger] which.name() != s,
        ensures
            OnsetMode::parse(s) is None,
    {
        if OnsetMode::parse(s) is Some {
            let found = OnsetMode::parse(s)->Some_0;
            Self::lemma_parse_inverts_name(s, found);
            assert(found.name() == s);
        }
    }
}

/// What an onset detector is: its native object, the geometry it was created
/// with, and each parameter as last set. A parameter that was never set is
/// `None`: the native default is in force. `defaults` is the function whose
/// default parameters were last asked for, if any were.
pub struct OnsetState {
    pub handle: usize,
    pub method: OnsetMode,
    pub buf_size: usize,
    pub hop_size: usize,
    pub sample_rate: u32,
    pub awhitening: Option<bool>,
    pub compression: Option<Smpl>,
    pub silence: Option<Smpl>,
    pub threshold: Option<Smpl>,
    pub minioi: Option<Span<usize>>,
    pub delay: Option<Span<usize>>,
    pub defaults: Option<OnsetMode>,
}

/// Onset detection object.
///
/// Fed one hop of signal at a time, the native detector writes 0 into the
/// first sample of the output where it found no onset, and `1 + a` with `a` in
/// `[0, 1]` where it found one.
pub struct Onset {
    state: OnsetState,
}

impl View for Onset {
    type V = OnsetState;

    closed spec fn view(&self) -> OnsetState {
        self.state
    }
}

impl Onset {
    #[verifier::type_invariant]
    spec fn inv(self) -> bool {
        self.state.handle != 0
    }

    /// The detector as it is right after creation: no parameter set.
    pub open spec fn created(
        method: OnsetMode,
        buf_size: usize,
        hop_size: usize,
        sample_rate: u32,
        raw: usize,
    ) -> OnsetState {
        OnsetState {
            handle: raw,
            method,
            buf_size,
            hop_size,
            sample_rate,
            awhitening: None,
            compression: None,
            silence: None,
            threshold: None,
            minioi: None,
            delay: None,
            defaults: None,
        }
    }

    /// Takes over the native detector at address `raw`, which the native layer
    /// made for this function and geometry. Address zero means that it made
    /// none.
    pub fn new(
        method: OnsetMode,
        buf_size: usize,
        hop_size: usize,
        sample_rate: u32,
        raw: usize,
    ) -> (r: Result<Onset, Error>)
        ensures
            match r {
                Ok(onset) => raw != 0 && onset@ == Onset::created(
                    method,
                    buf_size,
                    hop_size,
                    sample_rate,
                    raw,
                ),
                Err(e) => raw == 0 && e == Error::FailedInit,
            },
    {
        check_init(raw)?;
        Ok(
            Onset {
                state: OnsetState {
                    handle: raw,
                    method,
                    buf_size,
                    hop_size,
                    sample_rate,
                    awhitening: None,
                    compression: None,
                    silence: None,
                    threshold: None,
                    minioi: None,
                    delay: None,
                    defaults: None,
                },
            },
        )
    }

    /// Address of the native detector; never zero.
    pub fn handle(&self) -> (raw: usize)
        ensures
            raw == self@.handle,
            raw != 0,
    {
        proof {
            use_type_invariant(self);
        }
        self.state.handle
    }

    /// Hop size.
    pub fn get_hop(&self) -> (hop: usize)
        ensures
            hop == self@.hop_size,
    {
        self.state.hop_size
    }

    /// Clears one frame for detection: `input` must hold a hop of signal and
    /// `onset` room for one sample. On `Ok` the native detector may run on the
    /// two views.
    pub fn do_<S>(&self, input: &FVec<'_, S>, onset: &FVecMut<'_, S>) -> (r: Status)
        requires
            !CHECK_SIZE ==> input@.len() >= self@.hop_size && onset@.len() >= 1,
        ensures
            r == clearance(input@.len() >= self@.hop_size && onset@.len() >= 1),
    {
        input.check_size(self.get_hop())?;
        onset.check_size(1)?;
        Ok(())
    }

    /// Turns adaptive whitening on or off.
    pub fn set_awhitening(&mut self, enable: bool)
        ensures
            final(self)@ == (OnsetState { awhitening: Some(enable), ..old(self)@ }),
    {
        proof {
            use_type_invariant(&*self);
        }
        self.state.awhitening = Some(enable);
    }

    /// Adaptive whitening, as last set.
    pub fn get_awhitening(&self) -> (enable: Option<bool>)
        ensures
            enable == self@.awhitening,
    {
        self.state.awhitening
    }

    /// Turns adaptive whitening on or off, and hands the object on.
    pub fn with_awhitening(self, enable: bool) -> (r: Onset)
        ensures
            r@ == (OnsetState { awhitening: Some(enable), ..self@ }),
    {
        let mut onset = self;
        onset.set_awhitening(enable);
        onset
    }

    /// Sets the log compression factor; zero disables compression.
    pub fn set_compression(&mut self, lambda: Smpl)
        ensures
            final(self)@ == (OnsetState { compression: Some(lambda), ..old(self)@ }),
    {
        proof {
            use_type_invariant(&*self);
        }
        self.state.compression = Some(lambda);
    }

    /// Log compression factor, as last set.
    pub fn get_compression(&self) -> (lambda: Option<Smpl>)
        ensures
            lambda == self@.compression,
    {
        self.state.compression
    }

    /// Sets the log compression factor, and hands the object on.
    pub fn with_compression(self, lambda: Smpl) -> (r: Onset)
        ensures
            r@ == (OnsetState { compression: Some(lambda), ..self@ }),
    {
        let mut onset = self;
        onset.set_compression(lambda);
        onset
    }

    /// Sets the silence threshold.
    pub fn set_silence(&mut self, silence: Smpl)
        ensures
            final(self)@ == (OnsetState { silence: Some(silence), ..old(self)@ }),
    {
        proof {
            use_type_invariant(&*self);
        }
        self.state.silence = Some(silence);
    }

    /// Silence threshold, as last set.
    pub fn get_silence(&self) -> (silence: Option<Smpl>)
        ensures
            silence == self@.silence,
    {
        self.state.silence
    }

    /// Sets the silence threshold, and hands the object on.
    pub fn with_silence(self, silence: Smpl) -> (r: Onset)
        ensures
            r@ == (OnsetState { silence: Some(silence), ..self@ }),
    {
        let mut onset = self;
        onset.set_silence(silence);
        onset
    }

    /// Sets the peak picking threshold.
    pub fn set_threshold(&mut self, threshold: Smpl)
        ensures
            final(self)@ == (OnsetState { threshold: Some(threshold), ..old(self)@ }),
    {
        proof {
            use_type_invariant(&*self);
        }
        self.state.threshold = Some(threshold);
    }

    /// Peak picking threshold, as last set.
    pub fn get_threshold(&self) -> (threshold: Option<Smpl>)
        ensures
            threshold == self@.threshold,
    {
        self.state.threshold
    }

    /// Sets the peak picking threshold, and hands the object on.
    pub fn with_threshold(self, threshold: Smpl) -> (r: Onset)
        ensures
            r@ == (OnsetState { threshold: Some(threshold), ..self@ }),
    {
        let mut onset = self;
        onset.set_threshold(threshold);
        onset
    }

    /// Sets the minimum interval between two onsets, in samples.
    pub fn set_minioi(&mut self, minioi: usize)
        ensures
            final(self)@ == (OnsetState { minioi: Some(Span::Samples(minioi)), ..old(self)@ }),
    {
        proof {
            use_type_invariant(&*self);
        }
        self.state.minioi = Some(Span::Samples(minioi));
    }

    /// The minimum interval between two onsets in samples, where it was last
    /// set in that unit.
    pub fn get_minioi(&self) -> (minioi: Option<usize>)
        ensures
            minioi == (match self@.minioi {
                Some(Span::Samples(count)) => Some(count),
                _ => None,
            }),
    {
        match self.state.minioi {
            Some(Span::Samples(count)) => Some(count),
            _ => None,
        }
    }

    /// Sets the minimum interval between two onsets, in samples, and hands the
    /// object on.
    pub fn with_minioi(self, minioi: usize) -> (r: Onset)
        ensures
            r@ == (OnsetState { minioi: Some(Span::Samples(minioi)), ..self@ }),
    {
        let mut onset = self;
        onset.set_minioi(minioi);
        onset
    }

    /// Sets the minimum interval between two onsets, in seconds.
    pub fn set_minioi_s(&mut self, minioi: Smpl)
        ensures
            final(self)@ == (OnsetState { minioi: Some(Span::Seconds(minioi)), ..old(self)@ }),
    {
        proof {
            use_type_invariant(&*self);
        }
        self.state.minioi = Some(Span::Seconds(minioi));
    }

    /// The minimum interval between two onsets in seconds, where it was last
    /// set in that unit.
    pub fn get_minioi_s(&self) -> (minioi: Option<Smpl>)
        ensures
            minioi == (match self@.minioi {
                Some(Span::Seconds(value)) => Some(value),
                _ => None,
            }),
    {
        match self.state.minioi {
            Some(Span::Seconds(value)) => Some(value),
            _ => None,
        }
    }

    /// Sets the minimum interval between two onsets, in seconds, and hands the
    /// object on.
    pub fn with_minioi_s(self, minioi: Smpl) -> (r: Onset)
        ensures
            r@ == (OnsetState { minioi: Some(Span::Seconds(minioi)), ..self@ }),
    {
        let mut onset = self;
        onset.set_minioi_s(minioi);
        onset
    }

    /// Sets the minimum interval between two onsets, in milliseconds.
    pub fn set_minioi_ms(&mut self, minioi: Smpl)
        ensures
            final(self)@ == (OnsetState { minioi: Some(Span::Millis(minioi)), ..old(self)@ }),
    {
        proof {
            use_type_invariant(&*self);
        }
        self.state.minioi = Some(Span::Millis(minioi));
    }

    /// The minimum interval between two onsets in milliseconds, where it was
    /// last set in that unit.
    pub fn get_minioi_ms(&self) -> (minioi: Option<Smpl>)
        ensures
            minioi == (match self@.minioi {
                Some(Span::Millis(value)) => Some(value),
                _ => None,
            }),
    {
        match self.state.minioi {
            Some(Span::Millis(value)) => Some(value),
            _ => None,
        }
    }

    /// Sets the minimum interval between two onsets, in milliseconds, and
    /// hands the object on.
    pub fn with_minioi_ms(self, minioi: Smpl) -> (r: Onset)
        ensures
            r@ == (OnsetState { minioi: Some(Span::Millis(minioi)), ..self@ }),
    {
        let mut onset = self;
        onset.set_minioi_ms(minioi);
        onset
    }

    /// Sets the delay, in samples.
    pub fn set_delay(&mut self, delay: usize)
        ensures
            final(self)@ == (OnsetState { delay: Some(Span::Samples(delay)), ..old(self)@ }),
    {
        proof {
            use_type_invariant(&*self);
        }
        self.state.delay = Some(Span::Samples(delay));
    }

    /// The delay in samples, where it was last set in that unit.
    pub fn get_delay(&self) -> (delay: Option<usize>)
        ensures
            delay == (match self@.delay {
                Some(Span::Samples(count)) => Some(count),
                _ => None,
            }),
    {
        match self.state.delay {
            Some(Span::Samples(count)) => Some(count),
            _ => None,
        }
    }

    /// Sets the delay, in samples, and hands the object on.
    pub fn with_delay(self, delay: usize) -> (r: Onset)
        ensures
            r@ == (OnsetState { delay: Some(Span::Samples(delay)), ..self@ }),
    {
        let mut onset = self;
        onset.set_delay(delay);
        onset
    }

    /// Sets the delay, in seconds.
    pub fn set_delay_s(&mut self, delay: Smpl)
        ensures
            final(self)@ == (OnsetState { delay: Some(Span::Seconds(delay)), ..old(self)@ }),
    {
        proof {
            use_type_invariant(&*self);
        }
        self.state.delay = Some(Span::Seconds(delay));
    }

    /// The delay in seconds, where it was last set in that unit.
    pub fn get_delay_s(&self) -> (delay: Option<Smpl>)
        ensures
            delay == (match self@.delay {
                Some(Span::Seconds(value)) => Some(value),
                _ => None,
            }),
    {
        match self.state.delay {
            Some(Span::Seconds(value)) => Some(value),
            _ => None,
        }
    }

    /// Sets the delay, in seconds, and hands the object on.
    pub fn with_delay_s(self, delay: Smpl) -> (r: Onset)
        ensures
            r@ == (OnsetState { delay: Some(Span::Seconds(delay)), ..self@ }),
    {
        let mut onset = self;
        onset.set_delay_s(delay);
        onset
    }

    /// Sets the delay, in milliseconds.
    pub fn set_delay_ms(&mut self, delay: Smpl)
        ensures
            final(self)@ == (OnsetState { delay: Some(Span::Millis(delay)), ..old(self)@ }),
    {
        proof {
            use_type_invariant(&*self);
        }
        self.state.delay = Some(Span::Millis(delay));
    }

    /// The delay in milliseconds, where it was last set in that unit.
    pub fn get_delay_ms(&self) -> (delay: Option<Smpl>)
        ensures
            delay == (match self@.delay {
                Some(Span::Millis(value)) => Some(value),
                _ => None,
            }),
    {
        match self.state.delay {
            Some(Span::Millis(value)) => Some(value),
            _ => None,
        }
    }

    /// Sets the delay, in milliseconds, and hands the object on.
    pub fn with_delay_ms(self, delay: Smpl) -> (r: Onset)
        ensures
            r@ == (OnsetState { delay: Some(Span::Millis(delay)), ..self@ }),
    {
        let mut onset = self;
        onset.set_delay_ms(delay);
        onset
    }

    /// Goes back to the default parameters of `mode`: every parameter set so
    /// far is forgotten.
    pub fn set_default_parameters(&mut self, mode: OnsetMode)
        ensures
            final(self)@ == (OnsetState {
                defaults: Some(mode),
                ..Onset::created(
                    old(self)@.method,
                    old(self)@.buf_size,
                    old(self)@.hop_size,
                    old(self)@.sample_rate,
                    old(self)@.handle,
                )
            }),
    {
        proof {
            use_type_invariant(&*self);
        }
        self.state.awhitening = None;
        self.state.compression = None;
        self.state.silence = None;
        self.state.threshold = None;
        self.state.minioi = None;
        self.state.delay = None;
        self.state.defaults = Some(mode);
    }
}

} // verus!
