//! Pitch detection: the methods, the output units and the detector object.

use vstd::prelude::*;
use crate::types::{check_init, str_eq, AsNativeStr, Error, Smpl, Status};
use crate::vec::{clearance, FVec, FVecMut, CHECK_SIZE};

verus! {

/// Pitch detection method.
#[derive(Debug, Clone, Copy, PartialEq, Eq, Hash, Structural)]
pub enum PitchMode {
    /// Schmitt trigger on the period of the signal.
    Schmitt,
    /// Fast harmonic comb filter.
    Fcomb,
    /// Multiple comb filter with spectral flattening and peak histogramming.
    Mcomb,
    /// YIN, in the time domain.
    Yin,
    /// YIN, computed in the spectral domain.
    Yinfast,
    /// YIN with a tapered square difference function computed by Fourier
    /// transform, which allows spectral weighting.
    Yinfft,
    /// Spectral autocorrelation.
    Specacf,
}

impl AsNativeStr for PitchMode {
    open spec fn name(&self) -> Seq<char> {
        match self {
            PitchMode::Schmitt => "schmitt"@,
            PitchMode::Fcomb => "fcomb"@,
            PitchMode::Mcomb => "mcomb"@,
            PitchMode::Yin => "yin"@,
            PitchMode::Yinfast => "yinfast"@,
            PitchMode::Yinfft => "yinfft"@,
            PitchMode::Specacf => "specacf"@,
        }
    }

    fn as_native_str(&self) -> (s: &'static str) {
        proof {
            reveal_strlit("schmitt");
            reveal_strlit("schmitt\0");
            reveal_strlit("fcomb");
            reveal_strlit("fcomb\0");
            reveal_strlit("mcomb");
            reveal_strlit("mcomb\0");
            reveal_strlit("yin");
            reveal_strlit("yin\0");
            reveal_strlit("yinfast");
            reveal_strlit("yinfast\0");
            reveal_strlit("yinfft");
            reveal_strlit("yinfft\0");
            reveal_strlit("specacf");
            reveal_strlit("specacf\0");
        }
        let s = match self {
            PitchMode::Schmitt => "schmitt\0",
            PitchMode::Fcomb => "fcomb\0",
            PitchMode::Mcomb => "mcomb\0",
            PitchMode::Yin => "yin\0",
            PitchMode::Yinfast => "yinfast\0",
            PitchMode::Yinfft => "yinfft\0",
            PitchMode::Specacf => "specacf\0",
        };
        assert(s@ =~= self.name().push('\0'));
        s
    }
}

impl Default for PitchMode {
    fn default() -> (r: Self)
        ensures
            r == PitchMode::Yinfft,
    {
        PitchMode::Yinfft
    }
}

impl AsRef<str> for PitchMode {
    /// The name, without terminator, as [`PitchMode::as_ref`] gives it.
    fn as_ref(&self) -> (s: &str)
        ensures
            s@ == self.name(),
    {
        self.as_rust_str()
    }
}

impl core::str::FromStr for PitchMode {
    type Err = Error;

    /// Reads a method from its name, as [`PitchMode::from_str`] does.
    fn from_str(src: &str) -> (r: Result<PitchMode, Error>)
        ensures
            match r {
                Ok(found) => PitchMode::parse(src@) == Some(found),
                Err(e) => e == Error::InvalidArg && PitchMode::parse(src@) is None,
            },
    {
        PitchMode::from_str(src)
    }
}

impl PitchMode {
    /// The method that a name stands for, if any.
    pub open spec fn parse(s: Seq<char>) -> Option<PitchMode> {
        if s == "schmitt"@ {
            Some(PitchMode::Schmitt)
        } else if s == "fcomb"@ {
            Some(PitchMode::Fcomb)
        } else if s == "mcomb"@ {
            Some(PitchMode::Mcomb)
        } else if s == "yin"@ {
            Some(PitchMode::Yin)
        } else if s == "yinfast"@ {
            Some(PitchMode::Yinfast)
        } else if s == "yinfft"@ {
            Some(PitchMode::Yinfft)
        } else if s == "specacf"@ {
            Some(PitchMode::Specacf)
        } else {
            None
        }
    }

    /// Reads a method from its name; any other string is an invalid
    /// argument.
    pub fn from_str(src: &str) -> (r: Result<PitchMode, Error>)
        ensures
            match r {
                Ok(found) => PitchMode::parse(src@) == Some(found),
                Err(e) => e == Error::InvalidArg && PitchMode::parse(src@) is None,
            },
    {
        if str_eq(src, "schmitt") {
            Ok(PitchMode::Schmitt)
        } else if str_eq(src, "fcomb") {
            Ok(PitchMode::Fcomb)
        } else if str_eq(src, "mcomb") {
            Ok(PitchMode::Mcomb)
        } else if str_eq(src, "yin") {
            Ok(PitchMode::Yin)
        } else if str_eq(src, "yinfast") {
            Ok(PitchMode::Yinfast)
        } else if str_eq(src, "yinfft") {
            Ok(PitchMode::Yinfft)
        } else if str_eq(src, "specacf") {
            Ok(PitchMode::Specacf)
        } else {
            Err(Error::InvalidArg)
        }
    }

    /// The name, without terminator.
    pub fn as_ref(&self) -> (s: &'static str)
        ensures
            s@ == self.name(),
    {
        self.as_rust_str()
    }

    /// The name as an owned string, as it is displayed.
    pub fn to_string(&self) -> (s: String)
        ensures
            s@ == self.name(),
    {
        self.as_ref().to_owned()
    }

    /// Every method is read back from its own name.
    pub proof fn lemma_name_round_trip(which: PitchMode)
        ensures
            PitchMode::parse(which.name()) == Some(which),
    {
        reveal_strlit("schmitt");
        reveal_strlit("fcomb");
        reveal_strlit("mcomb");
        reveal_strlit("yin");
        reveal_strlit("yinfast");
        reveal_strlit("yinfft");
        reveal_strlit("specacf");
        assert("schmitt"@.len() == 7);
        assert("fcomb"@.len() == 5);
        assert("mcomb"@.len() == 5);
        assert("yin"@.len() == 3);
        assert("yinfast"@.len() == 7);
        assert("yinfft"@.len() == 6);
        assert("specacf"@.len() == 7);
        assert("schmitt"@[0] != "yinfast"@[0]);
        assert("schmitt"@[1] != "specacf"@[1]);
        assert("fcomb"@[0] != "mcomb"@[0]);
        assert("yinfast"@[0] != "specacf"@[0]);
    }

    /// A string is read as a method exactly when it is the name of that
    /// method; so a string that names none is read as none.
    pub proof fn lemma_parse_inverts_name(s: Seq<char>, which: PitchMode)
        ensures
            PitchMode::parse(s) == Some(which) <==> which.name() == s,
    {
        Self::lemma_name_round_trip(which);
    }

    /// A string that is the name of no method is read as none.
    pub proof fn lemma_unknown_name(s: Seq<char>)
        requires
            forall|which: PitchMode| #[trigger] which.name() != s,
        ensures
            PitchMode::parse(s) is None,
    {
        if PitchMode::parse(s) is Some {
            let found = PitchMode::parse(s)->Some_0;
            Self::lemma_parse_inverts_name(s, found);
            assert(found.name() == s);
        }
    }
}

/// Unit in which a pitch is given out.
#[derive(Debug, Clone, Copy, PartialEq, Eq, Hash, Structural)]
pub enum PitchUnit {
    /// Hertz.
    Hz,
    /// Midi note number.
    Midi,
    /// Cent.
    Cent,
    /// Frequency bin.
    Bin,
}

impl AsNativeStr for PitchUnit {
    open spec fn name(&self) -> Seq<char> {
        match self {
            PitchUnit::Hz => "hertz"@,
            PitchUnit::Midi => "midi"@,
            PitchUnit::Cent => "cent"@,
            PitchUnit::Bin => "bin"@,
        }
    }

    fn as_native_str(&self) -> (s: &'static str) {
        proof {
            reveal_strlit("hertz");
            reveal_strlit("hertz\0");
            reveal_strlit("midi");
            reveal_strlit("midi\0");
            reveal_strlit("cent");
            reveal_strlit("cent\0");
            reveal_strlit("bin");
            reveal_strlit("bin\0");
        }
        let s = match self {
            PitchUnit::Hz => "hertz\0",
            PitchUnit::Midi => "midi\0",
            PitchUnit::Cent => "cent\0",
            PitchUnit::Bin => "bin\0",
        };
        assert(s@ =~= self.name().push('\0'));
        s
    }
}

impl Default for PitchUnit {
    fn default() -> (r: Self)
        ensures
            r == PitchUnit::Hz,
    {
        PitchUnit::Hz
    }
}

impl AsRef<str> for PitchUnit {
    /// The name, without terminator, as [`PitchUnit::as_ref`] gives it.
    fn as_ref(&self) -> (s: &str)
        ensures
            s@ == self.name(),
    {
        self.as_rust_str()
    }
}

impl core::str::FromStr for PitchUnit {
    type Err = Error;

    /// Reads a unit from its name, as [`PitchUnit::from_str`] does.
    fn from_str(src: &str) -> (r: Result<PitchUnit, Error>)
        ensures
            match r {
                Ok(found) => PitchUnit::parse(src@) == Some(found),
                Err(e) => e == Error::InvalidArg && PitchUnit::parse(src@) is None,
            },
    {
        PitchUnit::from_str(src)
    }
}

impl PitchUnit {
    /// The unit that a name stands for, if any.
    pub open spec fn parse(s: Seq<char>) -> Option<PitchUnit> {
        if s == "hertz"@ {
            Some(PitchUnit::Hz)
        } else if s == "midi"@ {
            Some(PitchUnit::Midi)
        } else if s == "cent"@ {
            Some(PitchUnit::Cent)
        } else if s == "bin"@ {
            Some(PitchUnit::Bin)
        } else {
            None
        }
    }

    /// Reads a unit from its name; any other string is an invalid
    /// argument.
    pub fn from_str(src: &str) -> (r: Result<PitchUnit, Error>)
        ensures
            match r {
                Ok(found) => PitchUnit::parse(src@) == Some(found),
                Err(e) => e == Error::InvalidArg && PitchUnit::parse(src@) is None,
            },
    {
        if str_eq(src, "hertz") {
            Ok(PitchUnit::Hz)
        } else if str_eq(src, "midi") {
            Ok(PitchUnit::Midi)
        } else if str_eq(src, "cent") {
            Ok(PitchUnit::Cent)
        } else if str_eq(src, "bin") {
            Ok(PitchUnit::Bin)
        } else {
            Err(Error::InvalidArg)
        }
    }

    /// The name, without terminator.
    pub fn as_ref(&self) -> (s: &'static str)
        ensures
            s@ == self.name(),
    {
        self.as_rust_str()
    }

    /// The name as an owned string, as it is displayed.
    pub fn to_string(&self) -> (s: String)
        ensures
            s@ == self.name(),
    {
        self.as_ref().to_owned()
    }

    /// Every unit is read back from its own name.
    pub proof fn lemma_name_round_trip(which: PitchUnit)
        ensures
            PitchUnit::parse(which.name()) == Some(which),
    {
        reveal_strlit("hertz");
        reveal_strlit("midi");
        reveal_strlit("cent");
        reveal_strlit("bin");
        assert("hertz"@.len() == 5);
        assert("midi"@.len() == 4);
        assert("cent"@.len() == 4);
        assert("bin"@.len() == 3);
        assert("midi"@[0] != "cent"@[0]);
    }

    /// A string is read as a unit exactly when it is the name of that
    /// unit; so a string that names none is read as none.
    pub proof fn lemma_parse_inverts_name(s: Seq<char>, which: PitchUnit)
        ensures
            PitchUnit::parse(s) == Some(which) <==> which.name() == s,
    {
        Self::lemma_name_round_trip(which);
    }

    /// A string that is the name of no unit is read as none.
    pub proof fn lemma_unknown_name(s: Seq<char>)
        requires
            forall|which: PitchUnit| #[trigger] which.name() != s,
        ensures
            PitchUnit::parse(s) is None,
    {
        if PitchUnit::parse(s) is Some {
            let found = PitchUnit::parse(s)->Some_0;
            Self::lemma_parse_inverts_name(s, found);
            assert(found.name() == s);
        }
    }
}

/// What a pitch detector is: its native object, the geometry it was created
/// with, and each parameter as last set. A parameter that was never set is
/// `None`: the native default is in force.
pub struct PitchState {
    pub handle: usize,
    pub method: PitchMode,
    pub buf_size: usize,
    pub hop_size: usize,
    pub sample_rate: u32,
    pub tolerance: Option<Smpl>,
    pub silence: Option<Smpl>,
    pub unit: Option<PitchUnit>,
}

/// Pitch detection object.
pub struct Pitch {
    state: PitchState,
}

impl View for Pitch {
    type V = PitchState;

    closed spec fn view(&self) -> PitchState {
        self.state
    }
}

impl Pitch {
    #[verifier::type_invariant]
    spec fn inv(self) -> bool {
        self.state.handle != 0
    }

    /// The detector as it is right after creation: no parameter set.
    pub open spec fn created(
        method: PitchMode,
        buf_size: usize,
        hop_size: usize,
        sample_rate: u32,
        raw: usize,
    ) -> PitchState {
        PitchState {
            handle: raw,
            method,
            buf_size,
            hop_size,
            sample_rate,
            tolerance: None,
            silence: None,
            unit: None,
        }
    }

    /// Takes over the native detector at address `raw`, which the native layer
    /// made for this method and geometry. Address zero means that it made
    /// none.
    pub fn new(
        method: PitchMode,
        buf_size: usize,
        hop_size: usize,
        sample_rate: u32,
        raw: usize,
    ) -> (r: Result<Pitch, Error>)
        ensures
            match r {
                Ok(pitch) => raw != 0 && pitch@ == Pitch::created(
                    method,
                    buf_size,
                    hop_size,
                    sample_rate,
                    raw,
                ),
                Err(e) => raw == 0 && e == Error::FailedInit,
            },
    {
        check_init(raw)?;
        Ok(
            Pitch {
                state: PitchState {
                    handle: raw,
                    method,
                    buf_size,
                    hop_size,
                    sample_rate,
                    tolerance: None,
                    silence: None,
                    unit: None,
                },
            },
        )
    }

    /// Address of the native detector; never zero.
    pub fn handle(&self) -> (raw: usize)
        ensures
            raw == self@.handle,
            raw != 0,
    {
        proof {
            use_type_invariant(self);
        }
        self.state.handle
    }

    /// Hop size.
    pub fn get_hop(&self) -> (hop: usize)
        ensures
            hop == self@.hop_size,
    {
        self.state.hop_size
    }

    /// Clears one frame for detection: `input` must hold a hop of signal and
    /// `output` room for one pitch candidate. On `Ok` the native detector may
    /// run on the two views.
    pub fn do_<S>(&self, input: &FVec<'_, S>, output: &FVecMut<'_, S>) -> (r: Status)
        requires
            !CHECK_SIZE ==> input@.len() >= self@.hop_size && output@.len() >= 1,
        ensures
            r == clearance(input@.len() >= self@.hop_size && output@.len() >= 1),
    {
        input.check_size(self.get_hop())?;
        output.check_size(1)?;
        Ok(())
    }

    /// Sets the tolerance threshold of the YIN methods.
    pub fn set_tolerance(&mut self, tolerance: Smpl)
        ensures
            final(self)@ == (PitchState { tolerance: Some(tolerance), ..old(self)@ }),
    {
        proof {
            use_type_invariant(&*self);
        }
        self.state.tolerance = Some(tolerance);
    }

    /// Tolerance threshold, as last set.
    pub fn get_tolerance(&self) -> (tolerance: Option<Smpl>)
        ensures
            tolerance == self@.tolerance,
    {
        self.state.tolerance
    }

    /// Sets the tolerance threshold of the YIN methods, and hands the object
    /// on.
    pub fn with_tolerance(self, tolerance: Smpl) -> (r: Pitch)
        ensures
            r@ == (PitchState { tolerance: Some(tolerance), ..self@ }),
    {
        let mut pitch = self;
        pitch.set_tolerance(tolerance);
        pitch
    }

    /// Sets the silence threshold.
    pub fn set_silence(&mut self, silence: Smpl)
        ensures
            final(self)@ == (PitchState { silence: Some(silence), ..old(self)@ }),
    {
        proof {
            use_type_invariant(&*self);
        }
        self.state.silence = Some(silence);
    }

    /// Silence threshold, as last set.
    pub fn get_silence(&self) -> (silence: Option<Smpl>)
        ensures
            silence == self@.silence,
    {
        self.state.silence
    }

    /// Sets the silence threshold, and hands the object on.
    pub fn with_silence(self, silence: Smpl) -> (r: Pitch)
        ensures
            r@ == (PitchState { silence: Some(silence), ..self@ }),
    {
        let mut pitch = self;
        pitch.set_silence(silence);
        pitch
    }

    /// Sets the unit in which pitches are given out.
    pub fn set_unit(&mut self, unit: PitchUnit)
        ensures
            final(self)@ == (PitchState { unit: Some(unit), ..old(self)@ }),
    {
        proof {
            use_type_invariant(&*self);
        }
        self.state.unit = Some(unit);
    }

    /// Output unit, as last set.
    pub fn get_unit(&self) -> (unit: Option<PitchUnit>)
        ensures
            unit == self@.unit,
    {
        self.state.unit
    }

    /// Sets the unit in which pitches are given out, and hands the object on.
    pub fn with_unit(self, unit: PitchUnit) -> (r: Pitch)
        ensures
            r@ == (PitchState { unit: Some(unit), ..self@ }),
    {
        let mut pitch = self;
        pitch.set_unit(unit);
        pitch
    }
}

} // verus!
