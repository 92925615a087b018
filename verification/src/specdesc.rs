//! Spectral description.

use vstd::prelude::*;
use crate::onset::OnsetMode;
use crate::types::{check_init, str_eq, AsNativeStr, Error, Status};
use crate::vec::{clearance, CVec, FVecMut, CHECK_SIZE};

verus! {

/// Spectral shape descriptor: a statistic of the distribution of energy
/// over the bins of a spectrum.
#[derive(Debug, Clone, Copy, PartialEq, Eq, Hash, Structural)]
pub enum SpecShape {
    /// Barycenter of the spectrum, in bins.
    Centroid,
    /// Variance of the spectrum around its centroid.
    Spread,
    /// Third order moment: negative with more energy below the centroid,
    /// positive with more above.
    Skewness,
    /// Fourth order moment: a measure of flatness.
    Kurtosis,
    /// Rate at which the amplitude falls with frequency, by linear
    /// regression.
    Slope,
    /// Rate at which the amplitude falls, weighted perceptually.
    Decrease,
    /// Bin below which 95% of the energy lies.
    Rolloff,
}

impl AsNativeStr for SpecShape {
    open spec fn name(&self) -> Seq<char> {
        match self {
            SpecShape::Centroid => "centroid"@,
            SpecShape::Spread => "spread"@,
            SpecShape::Skewness => "skewness"@,
            SpecShape::Kurtosis => "kurtosis"@,
            SpecShape::Slope => "slope"@,
            SpecShape::Decrease => "decrease"@,
            SpecShape::Rolloff => "rolloff"@,
        }
    }

    fn as_native_str(&self) -> (s: &'static str) {
        proof {
            reveal_strlit("centroid");
            reveal_strlit("centroid\0");
            reveal_strlit("spread");
            reveal_strlit("spread\0");
            reveal_strlit("skewness");
            reveal_strlit("skewness\0");
            reveal_strlit("kurtosis");
            reveal_strlit("kurtosis\0");
            reveal_strlit("slope");
            reveal_strlit("slope\0");
            reveal_strlit("decrease");
            reveal_strlit("decrease\0");
            reveal_strlit("rolloff");
            reveal_strlit("rolloff\0");
        }
        let s = match self {
            SpecShape::Centroid => "centroid\0",
            SpecShape::Spread => "spread\0",
            SpecShape::Skewness => "skewness\0",
            SpecShape::Kurtosis => "kurtosis\0",
            SpecShape::Slope => "slope\0",
            SpecShape::Decrease => "decrease\0",
            SpecShape::Rolloff => "rolloff\0",
        };
        assert(s@ =~= self.name().push('\0'));
        s
    }
}

impl AsRef<str> for SpecShape {
    /// The name, without terminator, as [`SpecShape::as_ref`] gives it.
    fn as_ref(&self) -> (s: &str)
        ensures
            s@ == self.name(),
    {
        self.as_rust_str()
    }
}

impl core::str::FromStr for SpecShape {
    type Err = Error;

    /// Reads a descriptor from its name, as [`SpecShape::from_str`] does.
    fn from_str(src: &str) -> (r: Result<SpecShape, Error>)
        ensures
            match r {
                Ok(found) => SpecShape::parse(src@) == Some(found),
                Err(e) => e == Error::InvalidArg && SpecShape::parse(src@) is None,
            },
    {
        SpecShape::from_str(src)
    }
}

impl SpecShape {
    /// The descriptor that a name stands for, if any.
    pub open spec fn parse(s: Seq<char>) -> Option<SpecShape> {
        if s == "centroid"@ {
            Some(SpecShape::Centroid)
        } else if s == "spread"@ {
            Some(SpecShape::Spread)
        } else if s == "skewness"@ {
            Some(SpecShape::Skewness)
        } else if s == "kurtosis"@ {
            Some(SpecShape::Kurtosis)
        } else if s == "slope"@ {
            Some(SpecShape::Slope)
        } else if s == "decrease"@ {
            Some(SpecShape::Decrease)
        } else if s == "rolloff"@ {
            Some(SpecShape::Rolloff)
        } else {
            None
        }
    }

    /// Reads a descriptor from its name; any other string is an invalid
    /// argument.
    pub fn from_str(src: &str) -> (r: Result<SpecShape, Error>)
        ensures
            match r {
                Ok(found) => SpecShape::parse(src@) == Some(found),
                Err(e) => e == Error::InvalidArg && SpecShape::parse(src@) is None,
            },
    {
        if str_eq(src, "centroid") {
            Ok(SpecShape::Centroid)
        } else if str_eq(src, "spread") {
            Ok(SpecShape::Spread)
        } else if str_eq(src, "skewness") {
            Ok(SpecShape::Skewness)
        } else if str_eq(src, "kurtosis") {
            Ok(SpecShape::Kurtosis)
        } else if str_eq(src, "slope") {
            Ok(SpecShape::Slope)
        } else if str_eq(src, "decrease") {
            Ok(SpecShape::Decrease)
        } else if str_eq(src, "rolloff") {
            Ok(SpecShape::Rolloff)
        } else {
            Err(Error::InvalidArg)
        }
    }

    /// The name, without terminator.
    pub fn as_ref(&self) -> (s: &'static str)
        ensures
            s@ == self.name(),
    {
        self.as_rust_str()
    }

    /// The name as an owned string, as it is displayed.
    pub fn to_string(&self) -> (s: String)
        ensures
            s@ == self.name(),
    {
        self.as_ref().to_owned()
    }

    /// Every descriptor is read back from its own name.
    pub proof fn lemma_name_round_trip(which: SpecShape)
        ensures
            SpecShape::parse(which.name()) == Some(which),
    {
        reveal_strlit("centroid");
        reveal_strlit("spread");
        reveal_strlit("skewness");
        reveal_strlit("kurtosis");
        reveal_strlit("slope");
        reveal_strlit("decrease");
        reveal_strlit("rolloff");
        assert("centroid"@.len() == 8);
        assert("spread"@.len() == 6);
        assert("skewness"@.len() == 8);
        assert("kurtosis"@.len() == 8);
        assert("slope"@.len() == 5);
        assert("decrease"@.len() == 8);
        assert("rolloff"@.len() == 7);
        assert("centroid"@[0] != "skewness"@[0]);
        assert("centroid"@[0] != "kurtosis"@[0]);
        assert("centroid"@[0] != "decrease"@[0]);
        assert("skewness"@[0] != "kurtosis"@[0]);
        assert("skewness"@[0] != "decrease"@[0]);
        assert("kurtosis"@[0] != "decrease"@[0]);
    }

    /// A string is read as a descriptor exactly when it is the name of that
    /// descriptor; so a string that names none is read as none.
    pub proof fn lemma_parse_inverts_name(s: Seq<char>, which: SpecShape)
        ensures
            SpecShape::parse(s) == Some(which) <==> which.name() == s,
    {
        Self::lemma_name_round_trip(which);
    }

    /// A string that is the name of no descriptor is read as none.
    pub proof fn lemma_unknown_name(s: Seq<char>)
        requires
            forall|which: SpecShape| #[trigger] which.name() != s,
        ensures
            SpecShape::parse(s) is None,
    {
        if SpecShape::parse(s) is Some {
            let found = SpecShape::parse(s)->Some_0;
            Self::lemma_parse_inverts_name(s, found);
            assert(found.name() == s);
        }
    }
}

/// A function that describes a spectrum by one number. The native layer
/// knows it by name.
pub trait SpecMethod: AsNativeStr {}

impl SpecMethod for SpecShape {}

impl SpecMethod for OnsetMode {}

/// What a spectral descriptor is: its native object, the name of its
/// function and the length of the window whose spectra it reads.
pub struct SpecDescState {
    pub handle: usize,
    pub method: Seq<char>,
    pub buf_size: usize,
}

/// Spectral description object.
pub struct SpecDesc {
    handle: usize,
    method: &'static str,
    buf_size: usize,
}

impl View for SpecDesc {
    type V = SpecDescState;

    closed spec fn view(&self) -> SpecDescState {
        SpecDescState { handle: self.handle, method: self.method@, buf_size: self.buf_size }
    }
}

impl SpecDesc {
    #[verifier::type_invariant]
    spec fn inv(self) -> bool {
        self.handle != 0
    }

    /// Takes over the native descriptor at address `raw`, which the native
    /// layer made for this function and window length. Address zero means
    /// that it made none.
    pub fn new<M: SpecMethod>(method: M, buf_size: usize, raw: usize) -> (r: Result<
        SpecDesc,
        Error,
    >)
        ensures
            match r {
                Ok(desc) => raw != 0 && desc@ == (SpecDescState {
                    handle: raw,
                    method: method.name(),
                    buf_size,
                }),
                Err(e) => raw == 0 && e == Error::FailedInit,
            },
    {
        check_init(raw)?;
        Ok(SpecDesc { handle: raw, method: method.as_rust_str(), buf_size })
    }

    /// Address of the native descriptor; never zero.
    pub fn handle(&self) -> (raw: usize)
        ensures
            raw == self@.handle,
            raw != 0,
    {
        proof {
            use_type_invariant(self);
        }
        self.handle
    }

    /// Name of the function.
    pub fn get_method(&self) -> (name: &'static str)
        ensures
            name@ == self@.method,
    {
        self.method
    }

    /// Length of the window whose spectra are read.
    pub fn get_win(&self) -> (win: usize)
        ensures
            win == self@.buf_size,
    {
        self.buf_size
    }

    /// Number of bins in the spectrum of one window.
    pub fn get_fft(&self) -> (bins: usize)
        ensures
            bins == self@.buf_size / 2 + 1,
    {
        self.buf_size / 2 + 1
    }

    /// Clears the description of one frame: `fftgrain` must have the
    /// `get_fft()` bins of the spectrum of a window, and `desc` room for one
    /// sample.
    pub fn do_<S>(&self, fftgrain: &CVec<'_, S>, desc: &FVecMut<'_, S>) -> (r: Status)
        requires
            !CHECK_SIZE ==> fftgrain@.bins >= self@.buf_size / 2 + 1 && desc@.len() >= 1,
        ensures
            r == clearance(fftgrain@.bins >= self@.buf_size / 2 + 1 && desc@.len() >= 1),
    {
        fftgrain.check_bins(self.get_fft())?;
        desc.check_size(1)?;
        Ok(())
    }
}

} // verus!
