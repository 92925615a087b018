//! Window functions.

use vstd::prelude::*;
use crate::types::{str_eq, AsNativeStr, Error};

verus! {

/// Window function: the taper laid over a window of signal before it is
/// transformed.
#[derive(Debug, Clone, Copy, PartialEq, Eq, Hash, Structural)]
pub enum WindowType {
    /// All ones.
    Ones,
    /// Rectangle.
    Rectangle,
    /// Hamming.
    Hamming,
    /// Hanning.
    Hanning,
    /// Hanning with zeros at both ends.
    Hanningz,
    /// Blackman.
    Blackman,
    /// Blackman-Harris.
    BlackmanHarris,
    /// Gaussian.
    Gaussian,
    /// Welch.
    Welch,
    /// Parzen.
    Parzen,
}

impl AsNativeStr for WindowType {
    open spec fn name(&self) -> Seq<char> {
        match self {
            WindowType::Ones => "ones"@,
            WindowType::Rectangle => "rectangle"@,
            WindowType::Hamming => "hamming"@,
            WindowType::Hanning => "hanning"@,
            WindowType::Hanningz => "hanningz"@,
            WindowType::Blackman => "blackman"@,
            WindowType::BlackmanHarris => "blackman_harris"@,
            WindowType::Gaussian => "gaussian"@,
            WindowType::Welch => "welch"@,
            WindowType::Parzen => "parzen"@,
        }
    }

    fn as_native_str(&self) -> (s: &'static str) {
        proof {
            reveal_strlit("ones");
            reveal_strlit("ones\0");
            reveal_strlit("rectangle");
            reveal_strlit("rectangle\0");
            reveal_strlit("hamming");
            reveal_strlit("hamming\0");
            reveal_strlit("hanning");
            reveal_strlit("hanning\0");
            reveal_strlit("hanningz");
            reveal_strlit("hanningz\0");
            reveal_strlit("blackman");
            reveal_strlit("blackman\0");
            reveal_strlit("blackman_harris");
            reveal_strlit("blackman_harris\0");
            reveal_strlit("gaussian");
            reveal_strlit("gaussian\0");
            reveal_strlit("welch");
            reveal_strlit("welch\0");
            reveal_strlit("parzen");
            reveal_strlit("parzen\0");
        }
        let s = match self {
            WindowType::Ones => "ones\0",
            WindowType::Rectangle => "rectangle\0",
            WindowType::Hamming => "hamming\0",
            WindowType::Hanning => "hanning\0",
            WindowType::Hanningz => "hanningz\0",
            WindowType::Blackman => "blackman\0",
            WindowType::BlackmanHarris => "blackman_harris\0",
            WindowType::Gaussian => "gaussian\0",
            WindowType::Welch => "welch\0",
            WindowType::Parzen => "parzen\0",
        };
        assert(s@ =~= self.name().push('\0'));
        s
    }
}

impl Default for WindowType {
    fn default() -> (r: Self)
        ensures
            r == WindowType::Hanningz,
    {
        WindowType::Hanningz
    }
}

impl AsRef<str> for WindowType {
    /// The name, without terminator, as [`WindowType::as_ref`] gives it.
    fn as_ref(&self) -> (s: &str)
        ensures
            s@ == self.name(),
    {
        self.as_rust_str()
    }
}

impl core::str::FromStr for WindowType {
    type Err = Error;

    /// Reads a window from its name, as [`WindowType::from_str`] does.
    fn from_str(src: &str) -> (r: Result<WindowType, Error>)
        ensures
            match r {
                Ok(found) => WindowType::parse(src@) == Some(found),
                Err(e) => e == Error::InvalidArg && WindowType::parse(src@) is None,
            },
    {
        WindowType::from_str(src)
    }
}

impl WindowType {
    /// The window that a name stands for, if any.
    pub open spec fn parse(s: Seq<char>) -> Option<WindowType> {
        if s == "ones"@ {
            Some(WindowType::Ones)
        } else if s == "rectangle"@ {
            Some(WindowType::Rectangle)
        } else if s == "hamming"@ {
            Some(WindowType::Hamming)
        } else if s == "hanning"@ {
            Some(WindowType::Hanning)
        } else if s == "hanningz"@ {
            Some(WindowType::Hanningz)
        } else if s == "blackman"@ {
            Some(WindowType::Blackman)
        } else if s == "blackman_harris"@ {
            Some(WindowType::BlackmanHarris)
        } else if s == "gaussian"@ {
            Some(WindowType::Gaussian)
        } else if s == "welch"@ {
            Some(WindowType::Welch)
        } else if s == "parzen"@ {
            Some(WindowType::Parzen)
        } else {
            None
        }
    }

    /// Reads a window from its name; any other string is an invalid
    /// argument.
    pub fn from_str(src: &str) -> (r: Result<WindowType, Error>)
        ensures
            match r {
                Ok(found) => WindowType::parse(src@) == Some(found),
                Err(e) => e == Error::InvalidArg && WindowType::parse(src@) is None,
            },
    {
        if str_eq(src, "ones") {
            Ok(WindowType::Ones)
        } else if str_eq(src, "rectangle") {
            Ok(WindowType::Rectangle)
        } else if str_eq(src, "hamming") {
            Ok(WindowType::Hamming)
        } else if str_eq(src, "hanning") {
            Ok(WindowType::Hanning)
        } else if str_eq(src, "hanningz") {
            Ok(WindowType::Hanningz)
        } else if str_eq(src, "blackman") {
            Ok(WindowType::Blackman)
        } else if str_eq(src, "blackman_harris") {
            Ok(WindowType::BlackmanHarris)
        } else if str_eq(src, "gaussian") {
            Ok(WindowType::Gaussian)
        } else if str_eq(src, "welch") {
            Ok(WindowType::Welch)
        } else if str_eq(src, "parzen") {
            Ok(WindowType::Parzen)
        } else {
            Err(Error::InvalidArg)
        }
    }

    /// The name, without terminator.
    pub fn as_ref(&self) -> (s: &'static str)
        ensures
            s@ == self.name(),
    {
        self.as_rust_str()
    }

    /// The name as an owned string, as it is displayed.
    pub fn to_string(&self) -> (s: String)
        ensures
            s@ == self.name(),
    {
        self.as_ref().to_owned()
    }

    /// Every window is read back from its own name.
    pub proof fn lemma_name_round_trip(which: WindowType)
        ensures
            WindowType::parse(which.name()) == Some(which),
    {
        reveal_strlit("ones");
        reveal_strlit("rectangle");
        reveal_strlit("hamming");
        reveal_strlit("hanning");
        reveal_strlit("hanningz");
        reveal_strlit("blackman");
        reveal_strlit("blackman_harris");
        reveal_strlit("gaussian");
        reveal_strlit("welch");
        reveal_strlit("parzen");
        assert("ones"@.len() == 4);
        assert("rectangle"@.len() == 9);
        assert("hamming"@.len() == 7);
        assert("hanning"@.len() == 7);
        assert("hanningz"@.len() == 8);
        assert("blackman"@.len() == 8);
        assert("blackman_harris"@.len() == 15);
        assert("gaussian"@.len() == 8);
        assert("welch"@.len() == 5);
        assert("parzen"@.len() == 6);
        assert("hamming"@[2] != "hanning"@[2]);
        assert("hanningz"@[0] != "blackman"@[0]);
        assert("hanningz"@[0] != "gaussian"@[0]);
        assert("blackman"@[0] != "gaussian"@[0]);
    }

    /// A string is read as a window exactly when it is the name of that
    /// window; so a string that names none is read as none.
    pub proof fn lemma_parse_inverts_name(s: Seq<char>, which: WindowType)
        ensures
            WindowType::parse(s) == Some(which) <==> which.name() == s,
    {
        Self::lemma_name_round_trip(which);
    }

    /// A string that is the name of no window is read as none.
    pub proof fn lemma_unknown_name(s: Seq<char>)
        requires
            forall|which: WindowType| #[trigger] which.name() != s,
        ensures
            WindowType::parse(s) is None,
    {
        if WindowType::parse(s) is Some {
            let found = WindowType::parse(s)->Some_0;
            Self::lemma_parse_inverts_name(s, found);
            assert(found.name() == s);
        }
    }
}

} // verus!
