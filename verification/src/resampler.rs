//! Resampling methods.

use vstd::prelude::*;
use crate::types::{str_eq, Error};

verus! {

/// Resampling method.
#[derive(Debug, Clone, Copy, PartialEq, Eq, Hash, Structural)]
pub enum ResampleMode {
    /// Best quality, slowest.
    BestQuality,
    /// Medium quality.
    MediumQuality,
    /// Fastest, lowest quality.
    Fastest,
    /// Zero order hold: each sample is repeated.
    OrderHold,
    /// Linear interpolation.
    Linear,
}

impl Default for ResampleMode {
    fn default() -> (r: Self)
        ensures
            r == ResampleMode::BestQuality,
    {
        ResampleMode::BestQuality
    }
}

impl AsRef<str> for ResampleMode {
    /// The name, as [`ResampleMode::as_ref`] gives it.
    fn as_ref(&self) -> (s: &str)
        ensures
            s@ == self.name(),
    {
        ResampleMode::as_ref(self)
    }
}

impl core::str::FromStr for ResampleMode {
    type Err = Error;

    /// Reads a method from its name, as [`ResampleMode::from_str`] does.
    fn from_str(src: &str) -> (r: Result<ResampleMode, Error>)
        ensures
            match r {
                Ok(found) => ResampleMode::parse(src@) == Some(found),
                Err(e) => e == Error::InvalidArg && ResampleMode::parse(src@) is None,
            },
    {
        ResampleMode::from_str(src)
    }
}

impl ResampleMode {
    /// The name.
    pub open spec fn name(&self) -> Seq<char> {
        match self {
            ResampleMode::BestQuality => "best_quality"@,
            ResampleMode::MediumQuality => "medium_quality"@,
            ResampleMode::Fastest => "fastest"@,
            ResampleMode::OrderHold => "order_hold"@,
            ResampleMode::Linear => "linear"@,
        }
    }

    /// The method that a name stands for, if any.
    pub open spec fn parse(s: Seq<char>) -> Option<ResampleMode> {
        if s == "best_quality"@ {
            Some(ResampleMode::BestQuality)
        } else if s == "medium_quality"@ {
            Some(ResampleMode::MediumQuality)
        } else if s == "fastest"@ {
            Some(ResampleMode::Fastest)
        } else if s == "order_hold"@ {
            Some(ResampleMode::OrderHold)
        } else if s == "linear"@ {
            Some(ResampleMode::Linear)
        } else {
            None
        }
    }

    /// Reads a method from its name; any other string is an invalid
    /// argument.
    pub fn from_str(src: &str) -> (r: Result<ResampleMode, Error>)
        ensures
            match r {
                Ok(found) => ResampleMode::parse(src@) == Some(found),
                Err(e) => e == Error::InvalidArg && ResampleMode::parse(src@) is None,
            },
    {
        if str_eq(src, "best_quality") {
            Ok(ResampleMode::BestQuality)
        } else if str_eq(src, "medium_quality") {
            Ok(ResampleMode::MediumQuality)
        } else if str_eq(src, "fastest") {
            Ok(ResampleMode::Fastest)
        } else if str_eq(src, "order_hold") {
            Ok(ResampleMode::OrderHold)
        } else if str_eq(src, "linear") {
            Ok(ResampleMode::Linear)
        } else {
            Err(Error::InvalidArg)
        }
    }

    /// The name.
    pub fn as_ref(&self) -> (s: &'static str)
        ensures
            s@ == self.name(),
    {
        match self {
            ResampleMode::BestQuality => "best_quality",
            ResampleMode::MediumQuality => "medium_quality",
            ResampleMode::Fastest => "fastest",
            ResampleMode::OrderHold => "order_hold",
            ResampleMode::Linear => "linear",
        }
    }

    /// The name as an owned string, as it is displayed.
    pub fn to_string(&self) -> (s: String)
        ensures
            s@ == self.name(),
    {
        self.as_ref().to_owned()
    }

    /// The number by which the native layer knows the method.
    pub open spec fn code(self) -> u32 {
        match self {
            ResampleMode::BestQuality => 0,
            ResampleMode::MediumQuality => 1,
            ResampleMode::Fastest => 2,
            ResampleMode::OrderHold => 3,
            ResampleMode::Linear => 4,
        }
    }

    /// The number of the method, as the native layer takes it.
    pub fn to_ffi(self) -> (code: u32)
        ensures
            code == self.code(),
    {
        match self {
            ResampleMode::BestQuality => 0,
            ResampleMode::MediumQuality => 1,
            ResampleMode::Fastest => 2,
            ResampleMode::OrderHold => 3,
            ResampleMode::Linear => 4,
        }
    }

    /// Every method is read back from its own name.
    pub proof fn lemma_name_round_trip(which: ResampleMode)
        ensures
            ResampleMode::parse(which.name()) == Some(which),
    {
        reveal_strlit("best_quality");
        reveal_strlit("medium_quality");
        reveal_strlit("fastest");
        reveal_strlit("order_hold");
        reveal_strlit("linear");
        assert("best_quality"@.len() == 12);
        assert("medium_quality"@.len() == 14);
        assert("fastest"@.len() == 7);
        assert("order_hold"@.len() == 10);
        assert("linear"@.len() == 6);
    }

    /// A string is read as a method exactly when it is the name of that
    /// method; so a string that names none is read as none.
    pub proof fn lemma_parse_inverts_name(s: Seq<char>, which: ResampleMode)
        ensures
            ResampleMode::parse(s) == Some(which) <==> which.name() == s,
    {
        Self::lemma_name_round_trip(which);
    }

    /// A string that is the name of no method is read as none.
    pub proof fn lemma_unknown_name(s: Seq<char>)
        requires
            forall|which: ResampleMode| #[trigger] which.name() != s,
        ensures
            ResampleMode::parse(s) is None,
    {
        if ResampleMode::parse(s) is Some {
            let found = ResampleMode::parse(s)->Some_0;
            Self::lemma_parse_inverts_name(s, found);
            assert(found.name() == s);
        }
    }
}

} // verus!
