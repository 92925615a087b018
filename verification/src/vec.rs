//! Borrowed views of sample buffers.
//!
//! A view describes memory that the caller owns: how many samples the native
//! layer may touch and where they are. It never allocates and never copies.
//! The sample type `S` is whatever the native build computes with; a view
//! only counts samples and hands them on.

use vstd::prelude::*;
use vstd::slice::slice_subrange;
use crate::types::{Error, Status};

verus! {

/// Whether sizes are checked at all. With `true` every size contract is
/// tested before a native call and a violation is reported as
/// [`Error::MismatchSize`]. With `false` nothing is tested and the caller
/// answers for every size: what is a check in the one case is a
/// precondition in the other.
pub const CHECK_SIZE: bool = true;

/// The length a native descriptor records for a run of `n` samples: the
/// descriptor's length field has 32 bits, so it holds `n` modulo 2^32.
pub open spec fn declared_len(n: nat) -> nat {
    n % 0x1_0000_0000
}

/// The declared length never exceeds the run, and equals it whenever the run
/// fits the descriptor.
pub proof fn lemma_declared_len(n: nat)
    ensures
        declared_len(n) <= n,
        declared_len(n) <= u32::MAX,
        n <= u32::MAX ==> declared_len(n) == n,
{
}

/// What a size test reports: success where the buffers fit, a size
/// mismatch where they do not.
pub open spec fn clearance(fits: bool) -> Status {
    if fits {
        Ok(())
    } else {
        Err(Error::MismatchSize)
    }
}

/// Buffers that are too short are reported as a size mismatch, and nothing
/// else is: buffers that fit are never refused.
pub proof fn lemma_clearance(fits: bool)
    ensures
        !fits ==> clearance(fits) == Err::<(), Error>(Error::MismatchSize),
        fits ==> clearance(fits) == Ok::<(), Error>(()),
{
}

/// The number of time-domain samples that a one-sided spectrum of `bins`
/// bins stands for.
pub open spec fn spectrum_span(bins: nat) -> int {
    (bins - 1) * 2
}

/// The spectrum of a window of even length has half as many bins as the
/// window has samples, and one more; it spans the window exactly.
pub proof fn lemma_spectrum_of_window(win_size: nat)
    requires
        win_size % 2 == 0,
    ensures
        spectrum_span(win_size / 2 + 1) == win_size,
        forall|bins: nat| spectrum_span(bins) >= win_size <==> bins >= win_size / 2 + 1,
{
}

fn declare(n: usize) -> (length: u32)
    ensures
        length == declared_len(n as nat),
{
    let wide: u64 = n as u64;
    let length: u32 = #[verifier::truncate] (wide as u32);
    assert(length == wide % 0x1_0000_0000u64) by (bit_vector)
        requires
            length == wide as u32,
    ;
    length
}

/// Immutable real vector.
pub struct FVec<'a, S> {
    length: u32,
    data: &'a [S],
}

impl<'a, S> View for FVec<'a, S> {
    type V = Seq<S>;

    /// The samples the view declares: the first `size()` of the borrowed run.
    closed spec fn view(&self) -> Seq<S> {
        self.data@.take(self.length as int)
    }
}

impl<'a, S> FVec<'a, S> {
    #[verifier::type_invariant]
    spec fn inv(self) -> bool {
        self.length == declared_len(self.data@.len())
    }

    /// Views a run of samples.
    pub fn from(data: &'a [S]) -> (v: Self)
        ensures
            v@ == data@.take(declared_len(data@.len()) as int),
    {
        let length = declare(data.len());
        FVec { length, data }
    }

    /// Number of samples the view declares; it fits the 32 bits of a native
    /// descriptor.
    pub fn size(&self) -> (n: usize)
        ensures
            n == self@.len(),
            n <= u32::MAX,
    {
        proof {
            use_type_invariant(self);
            lemma_declared_len(self.data@.len());
        }
        self.length as usize
    }

    /// The declared samples.
    pub fn as_slice(&self) -> (s: &'a [S])
        ensures
            s@ == self@,
    {
        proof {
            use_type_invariant(self);
            lemma_declared_len(self.data@.len());
        }
        slice_subrange(self.data, 0, self.length as usize)
    }

    /// Tests that the view declares at least `min_size` samples.
    pub fn check_size(&self, min_size: usize) -> (r: Status)
        requires
            !CHECK_SIZE ==> self@.len() >= min_size,
        ensures
            r == clearance(self@.len() >= min_size),
    {
        if CHECK_SIZE && self.size() < min_size {
            Err(Error::MismatchSize)
        } else {
            Ok(())
        }
    }
}

/// Mutable real vector.
pub struct FVecMut<'a, S> {
    length: u32,
    data: &'a mut [S],
}

impl<'a, S> View for FVecMut<'a, S> {
    type V = Seq<S>;

    /// The samples the view declares: the first `size()` of the borrowed run.
    closed spec fn view(&self) -> Seq<S> {
        self.data@.take(self.length as int)
    }
}

impl<'a, S> FVecMut<'a, S> {
    #[verifier::type_invariant]
    spec fn inv(self) -> bool {
        self.length == declared_len(self.data@.len())
    }

    /// Views a run of samples for writing.
    pub fn from(data: &'a mut [S]) -> (v: Self)
        ensures
            v@ == old(data)@.take(declared_len(old(data)@.len()) as int),
    {
        let length = declare(data.len());
        FVecMut { length, data }
    }

    /// Number of samples the view declares; it fits the 32 bits of a native
    /// descriptor.
    pub fn size(&self) -> (n: usize)
        ensures
            n == self@.len(),
            n <= u32::MAX,
    {
        proof {
            use_type_invariant(self);
            lemma_declared_len(self.data@.len());
        }
        self.length as usize
    }

    /// Gives the declared samples up for writing, which ends the view.
    pub fn into_slice(self) -> (s: &'a mut [S])
        ensures
            s@ == self@,
    {
        proof {
            use_type_invariant(&self);
            lemma_declared_len(self.data@.len());
        }
        let FVecMut { length, data } = self;
        let (declared, _) = data.split_at_mut(length as usize);
        declared
    }

    /// Tests that the view declares at least `min_size` samples.
    pub fn check_size(&self, min_size: usize) -> (r: Status)
        requires
            !CHECK_SIZE ==> self@.len() >= min_size,
        ensures
            r == clearance(self@.len() >= min_size),
    {
        if CHECK_SIZE && self.size() < min_size {
            Err(Error::MismatchSize)
        } else {
            Ok(())
        }
    }
}

/// What a complex view declares: the number of bins and, for each half that
/// is present, its first `bins` samples.
pub struct Spectrum<S> {
    pub bins: nat,
    pub norm: Option<Seq<S>>,
    pub phas: Option<Seq<S>>,
}

/// Immutable complex vector: magnitudes and phases of the bins of a
/// spectrum, held as two runs of equal length.
pub struct CVec<'a, S> {
    length: u32,
    norm: &'a [S],
    phas: &'a [S],
}

impl<'a, S> View for CVec<'a, S> {
    type V = Spectrum<S>;

    closed spec fn view(&self) -> Spectrum<S> {
        Spectrum {
            bins: self.length as nat,
            norm: Some(self.norm@.take(self.length as int)),
            phas: Some(self.phas@.take(self.length as int)),
        }
    }
}

impl<'a, S> CVec<'a, S> {
    #[verifier::type_invariant]
    spec fn inv(self) -> bool {
        &&& self.length == declared_len(self.norm@.len())
        &&& self.norm@.len() == self.phas@.len()
    }

    /// The spectrum that two runs of equal length declare.
    pub open spec fn spectrum_of(norm: Seq<S>, phas: Seq<S>) -> Spectrum<S> {
        let bins = declared_len(norm.len());
        Spectrum { bins, norm: Some(norm.take(bins as int)), phas: Some(phas.take(bins as int)) }
    }

    /// Views magnitudes and phases held in two runs, which must be equally
    /// long.
    pub fn from_parts(norm: &'a [S], phas: &'a [S]) -> (r: Result<Self, Error>)
        requires
            !CHECK_SIZE ==> norm@.len() == phas@.len(),
        ensures
            match r {
                Ok(v) => norm@.len() == phas@.len() && v@ == Self::spectrum_of(norm@, phas@),
                Err(e) => norm@.len() != phas@.len() && e == Error::MismatchSize,
            },
    {
        if CHECK_SIZE && norm.len() != phas.len() {
            return Err(Error::MismatchSize);
        }
        let length = declare(norm.len());
        Ok(CVec { length, norm, phas })
    }

    /// Views one run of even length as magnitudes, its first half, followed
    /// by phases, its second half.
    pub fn from(data: &'a [S]) -> (v: Self)
        requires
            data@.len() % 2 == 0,
        ensures
            v@ == Self::spectrum_of(
                data@.take(data@.len() as int / 2),
                data@.skip(data@.len() as int / 2),
            ),
    {
        let (norm, phas) = data.split_at(data.len() / 2);
        let length = declare(norm.len());
        CVec { length, norm, phas }
    }

    /// Number of bins the view declares; it fits the 32 bits of a native
    /// descriptor.
    pub fn size(&self) -> (n: usize)
        ensures
            n == self@.bins,
            n <= u32::MAX,
    {
        self.length as usize
    }

    /// The declared magnitudes.
    pub fn norm(&self) -> (s: &'a [S])
        ensures
            Some(s@) == self@.norm,
    {
        proof {
            use_type_invariant(self);
            lemma_declared_len(self.norm@.len());
        }
        slice_subrange(self.norm, 0, self.length as usize)
    }

    /// The declared phases.
    pub fn phas(&self) -> (s: &'a [S])
        ensures
            Some(s@) == self@.phas,
    {
        proof {
            use_type_invariant(self);
            lemma_declared_len(self.norm@.len());
        }
        slice_subrange(self.phas, 0, self.length as usize)
    }

    /// Tests that the spectrum spans a window of at least `min_size`
    /// samples.
    pub fn check_size(&self, min_size: usize) -> (r: Status)
        requires
            !CHECK_SIZE ==> spectrum_span(self@.bins) >= min_size,
        ensures
            r == clearance(spectrum_span(self@.bins) >= min_size),
    {
        if CHECK_SIZE && !spans(self.length, min_size) {
            Err(Error::MismatchSize)
        } else {
            Ok(())
        }
    }

    /// Tests that the view declares at least `min_bins` bins.
    pub fn check_bins(&self, min_bins: usize) -> (r: Status)
        requires
            !CHECK_SIZE ==> self@.bins >= min_bins,
        ensures
            r == clearance(self@.bins >= min_bins),
    {
        if CHECK_SIZE && self.size() < min_bins {
            Err(Error::MismatchSize)
        } else {
            Ok(())
        }
    }
}

fn spans(bins: u32, min_size: usize) -> (b: bool)
    ensures
        b == (spectrum_span(bins as nat) >= min_size),
{
    if bins == 0 {
        false
    } else {
        let span: u64 = (bins as u64 - 1) * 2;
        span >= min_size as u64
    }
}

/// Mutable complex vector. Either half may be absent where an operation
/// writes magnitudes only or phases only.
pub struct CVecMut<'a, S> {
    length: u32,
    norm: Option<&'a mut [S]>,
    phas: Option<&'a mut [S]>,
}

impl<'a, S> View for CVecMut<'a, S> {
    type V = Spectrum<S>;

    closed spec fn view(&self) -> Spectrum<S> {
        Spectrum {
            bins: self.length as nat,
            norm: match self.norm {
                Some(norm) => Some(norm@.take(self.length as int)),
                None => None,
            },
            phas: match self.phas {
                Some(phas) => Some(phas@.take(self.length as int)),
                None => None,
            },
        }
    }
}

impl<'a, S> CVecMut<'a, S> {
    #[verifier::type_invariant]
    spec fn inv(self) -> bool {
        &&& self.norm is Some ==> self.length == declared_len(self.norm->Some_0@.len())
        &&& self.phas is Some ==> self.length == declared_len(self.phas->Some_0@.len())
        &&& self.norm is Some && self.phas is Some ==> self.norm->Some_0@.len()
            == self.phas->Some_0@.len()
    }

    /// Views magnitudes and phases held in two runs, which must be equally
    /// long, for writing.
    pub fn from_parts(norm: &'a mut [S], phas: &'a mut [S]) -> (r: Result<Self, Error>)
        requires
            !CHECK_SIZE ==> old(norm)@.len() == old(phas)@.len(),
        ensures
            match r {
                Ok(v) => old(norm)@.len() == old(phas)@.len() && v@ == CVec::spectrum_of(
                    old(norm)@,
                    old(phas)@,
                ),
                Err(e) => old(norm)@.len() != old(phas)@.len() && e == Error::MismatchSize,
            },
    {
        if CHECK_SIZE && norm.len() != phas.len() {
            return Err(Error::MismatchSize);
        }
        let length = declare(norm.len());
        Ok(CVecMut { length, norm: Some(norm), phas: Some(phas) })
    }

    /// Views one run of even length as magnitudes, its first half, followed
    /// by phases, its second half, for writing.
    pub fn from(data: &'a mut [S]) -> (v: Self)
        requires
            old(data)@.len() % 2 == 0,
        ensures
            v@ == CVec::spectrum_of(
                old(data)@.take(old(data)@.len() as int / 2),
                old(data)@.skip(old(data)@.len() as int / 2),
            ),
    {
        let mid = data.len() / 2;
        let (norm, phas) = data.split_at_mut(mid);
        let length = declare(norm.len());
        CVecMut { length, norm: Some(norm), phas: Some(phas) }
    }

    /// Views a run of magnitudes for writing; the view has no phases.
    pub fn from_norm(norm: &'a mut [S]) -> (v: Self)
        ensures
            v@ == (Spectrum {
                bins: declared_len(old(norm)@.len()),
                norm: Some(old(norm)@.take(declared_len(old(norm)@.len()) as int)),
                phas: None,
            }),
    {
        let length = declare(norm.len());
        CVecMut { length, norm: Some(norm), phas: None }
    }

    /// Views a run of phases for writing; the view has no magnitudes.
    pub fn from_phas(phas: &'a mut [S]) -> (v: Self)
        ensures
            v@ == (Spectrum {
                bins: declared_len(old(phas)@.len()),
                norm: None,
                phas: Some(old(phas)@.take(declared_len(old(phas)@.len()) as int)),
            }),
    {
        let length = declare(phas.len());
        CVecMut { length, norm: None, phas: Some(phas) }
    }

    /// Number of bins the view declares; it fits the 32 bits of a native
    /// descriptor.
    pub fn size(&self) -> (n: usize)
        ensures
            n == self@.bins,
            n <= u32::MAX,
    {
        self.length as usize
    }

    /// Gives the declared samples of each half up for writing, magnitudes
    /// first, which ends the view. A half that the view does not have is
    /// `None`.
    pub fn into_parts(self) -> (parts: (Option<&'a mut [S]>, Option<&'a mut [S]>))
        ensures
            parts.0 is Some <==> self@.norm is Some,
            parts.1 is Some <==> self@.phas is Some,
            parts.0 is Some ==> Some(parts.0->Some_0@) == self@.norm,
            parts.1 is Some ==> Some(parts.1->Some_0@) == self@.phas,
    {
        proof {
            use_type_invariant(&self);
            if self.norm is Some {
                lemma_declared_len(self.norm->Some_0@.len());
            }
            if self.phas is Some {
                lemma_declared_len(self.phas->Some_0@.len());
            }
        }
        let CVecMut { length, norm, phas } = self;
        let norm = match norm {
            Some(run) => {
                let (declared, _) = run.split_at_mut(length as usize);
                Some(declared)
            },
            None => None,
        };
        let phas = match phas {
            Some(run) => {
                let (declared, _) = run.split_at_mut(length as usize);
                Some(declared)
            },
            None => None,
        };
        (norm, phas)
    }

    /// Tests that the spectrum spans a window of at least `min_size`
    /// samples.
    pub fn check_size(&self, min_size: usize) -> (r: Status)
        requires
            !CHECK_SIZE ==> spectrum_span(self@.bins) >= min_size,
        ensures
            r == clearance(spectrum_span(self@.bins) >= min_size),
    {
        if CHECK_SIZE && !spans(self.length, min_size) {
            Err(Error::MismatchSize)
        } else {
            Ok(())
        }
    }

    /// Tests that the view declares at least `min_bins` bins.
    pub fn check_bins(&self, min_bins: usize) -> (r: Status)
        requires
            !CHECK_SIZE ==> self@.bins >= min_bins,
        ensures
            r == clearance(self@.bins >= min_bins),
    {
        if CHECK_SIZE && self.size() < min_bins {
            Err(Error::MismatchSize)
        } else {
            Ok(())
        }
    }
}

/// Mutable complex vector with magnitudes only.
pub struct CVecNormMut<'a, S> {
    cvec: CVecMut<'a, S>,
}

impl<'a, S> View for CVecNormMut<'a, S> {
    type V = Spectrum<S>;

    closed spec fn view(&self) -> Spectrum<S> {
        self.cvec@
    }
}

impl<'a, S> CVecNormMut<'a, S> {
    #[verifier::type_invariant]
    spec fn inv(self) -> bool {
        self.cvec@.norm is Some && self.cvec@.phas is None
    }

    /// Views a run of magnitudes for writing.
    pub fn from(norm: &'a mut [S]) -> (v: Self)
        ensures
            v@ == (Spectrum {
                bins: declared_len(old(norm)@.len()),
                norm: Some(old(norm)@.take(declared_len(old(norm)@.len()) as int)),
                phas: None,
            }),
    {
        CVecNormMut { cvec: CVecMut::from_norm(norm) }
    }

    /// Number of bins the view declares; it fits the 32 bits of a native
    /// descriptor.
    pub fn size(&self) -> (n: usize)
        ensures
            n == self@.bins,
            n <= u32::MAX,
    {
        self.cvec.size()
    }

    /// Tests that the spectrum spans a window of at least `min_size`
    /// samples.
    pub fn check_size(&self, min_size: usize) -> (r: Status)
        requires
            !CHECK_SIZE ==> spectrum_span(self@.bins) >= min_size,
        ensures
            r == clearance(spectrum_span(self@.bins) >= min_size),
    {
        self.cvec.check_size(min_size)
    }

    /// The complex view underneath, which has magnitudes and no phases.
    pub fn into_cvec(self) -> (cvec: CVecMut<'a, S>)
        ensures
            cvec@ == self@,
            cvec@.norm is Some,
            cvec@.phas is None,
    {
        proof {
            use_type_invariant(&self);
        }
        let CVecNormMut { cvec } = self;
        cvec
    }
}

/// Mutable complex vector with phases only.
pub struct CVecPhasMut<'a, S> {
    cvec: CVecMut<'a, S>,
}

impl<'a, S> View for CVecPhasMut<'a, S> {
    type V = Spectrum<S>;

    closed spec fn view(&self) -> Spectrum<S> {
        self.cvec@
    }
}

impl<'a, S> CVecPhasMut<'a, S> {
    #[verifier::type_invariant]
    spec fn inv(self) -> bool {
        self.cvec@.norm is None && self.cvec@.phas is Some
    }

    /// Views a run of phases for writing.
    pub fn from(phas: &'a mut [S]) -> (v: Self)
        ensures
            v@ == (Spectrum {
                bins: declared_len(old(phas)@.len()),
                norm: None,
                phas: Some(old(phas)@.take(declared_len(old(phas)@.len()) as int)),
            }),
    {
        CVecPhasMut { cvec: CVecMut::from_phas(phas) }
    }

    /// Number of bins the view declares; it fits the 32 bits of a native
    /// descriptor.
    pub fn size(&self) -> (n: usize)
        ensures
            n == self@.bins,
            n <= u32::MAX,
    {
        self.cvec.size()
    }

    /// Tests that the spectrum spans a window of at least `min_size`
    /// samples.
    pub fn check_size(&self, min_size: usize) -> (r: Status)
        requires
            !CHECK_SIZE ==> spectrum_span(self@.bins) >= min_size,
        ensures
            r == clearance(spectrum_span(self@.bins) >= min_size),
    {
        self.cvec.check_size(min_size)
    }

    /// The complex view underneath, which has phases and no magnitudes.
    pub fn into_cvec(self) -> (cvec: CVecMut<'a, S>)
        ensures
            cvec@ == self@,
            cvec@.norm is None,
            cvec@.phas is Some,
    {
        proof {
            use_type_invariant(&self);
        }
        let CVecPhasMut { cvec } = self;
        cvec
    }
}

/// Whether a set of channels can be viewed as a matrix: there is at least
/// one channel, all channels are equally long and, where sizes are checked,
/// not empty.
pub open spec fn rectangular<S>(rows: Seq<&[S]>) -> bool {
    &&& rows.len() > 0
    &&& CHECK_SIZE ==> rows[0]@.len() > 0
    &&& forall|i: int| 0 <= i < rows.len() ==> (#[trigger] rows[i])@.len() == rows[0]@.len()
}

/// Tests that `channel` and `position` lie inside a matrix of `height`
/// channels of `length` samples each.
pub fn check_position(height: usize, length: usize, channel: usize, position: usize) -> (r:
    Status)
    ensures
        match r {
            Ok(()) => channel < height && position < length,
            Err(e) => e == Error::InvalidArg && (channel >= height || position >= length),
        },
{
    if channel >= height || position >= length {
        Err(Error::InvalidArg)
    } else {
        Ok(())
    }
}

/// What a matrix view declares: the length of a channel and the channels,
/// each cut to that length.
pub struct Matrix<S> {
    pub length: nat,
    pub channels: Seq<Seq<S>>,
}

/// Immutable matrix of real values: `height` channels of `length` samples
/// each, every channel being a run of its own.
pub struct FMat<'a, S> {
    height: u32,
    length: u32,
    rows: &'a [&'a [S]],
}

impl<'a, S> View for FMat<'a, S> {
    type V = Matrix<S>;

    closed spec fn view(&self) -> Matrix<S> {
        Matrix {
            length: self.length as nat,
            channels: Seq::new(
                self.height as nat,
                |i: int| self.rows@[i]@.take(self.length as int),
            ),
        }
    }
}

impl<'a, S> FMat<'a, S> {
    #[verifier::type_invariant]
    spec fn inv(self) -> bool {
        &&& self.rows@.len() > 0
        &&& self.height == declared_len(self.rows@.len())
        &&& self.length == declared_len(self.rows@[0]@.len())
        &&& forall|i: int|
            0 <= i < self.rows@.len() ==> (#[trigger] self.rows@[i])@.len() == self.rows@[0]@.len()
    }

    /// The matrix that a rectangular set of channels declares.
    pub open spec fn matrix_of(rows: Seq<&[S]>) -> Matrix<S> {
        Matrix {
            length: declared_len(rows[0]@.len()),
            channels: Seq::new(
                declared_len(rows.len()),
                |i: int| rows[i]@.take(declared_len(rows[0]@.len()) as int),
            ),
        }
    }

    /// Tests whether a set of channels can be viewed as a matrix.
    pub fn check_rows(rows: &[&[S]]) -> (ok: bool)
        ensures
            ok == rectangular(rows@),
    {
        if rows.len() == 0 {
            return false;
        }
        let len = rows[0].len();
        if CHECK_SIZE && len == 0 {
            return false;
        }
        let mut i: usize = 1;
        while i < rows.len()
            invariant
                1 <= i <= rows@.len(),
                len == rows@[0]@.len(),
                forall|k: int| 0 <= k < i ==> (#[trigger] rows@[k])@.len() == len,
            decreases rows@.len() - i,
        {
            if rows[i].len() != len {
                return false;
            }
            i += 1;
        }
        true
    }

    /// Views a rectangular set of channels as a matrix.
    pub fn from(rows: &'a [&'a [S]]) -> (m: Self)
        requires
            rectangular(rows@),
        ensures
            m@ == Self::matrix_of(rows@),
    {
        let height = declare(rows.len());
        let length = declare(rows[0].len());
        FMat { height, length, rows }
    }

    /// Number of samples in each channel; it fits the 32 bits of a native
    /// descriptor.
    pub fn length(&self) -> (n: usize)
        ensures
            n == self@.length,
            n <= u32::MAX,
            forall|i: int|
                0 <= i < self@.channels.len() ==> (#[trigger] self@.channels[i]).len() == n,
    {
        proof {
            use_type_invariant(self);
            lemma_declared_len(self.rows@.len());
            lemma_declared_len(self.rows@[0]@.len());
        }
        self.length as usize
    }

    /// Number of channels; it fits the 32 bits of a native descriptor.
    pub fn height(&self) -> (n: usize)
        ensures
            n == self@.channels.len(),
            n <= u32::MAX,
    {
        self.height as usize
    }

    /// Reads the sample at `position` of `channel`; both must lie inside the
    /// matrix.
    pub fn get_sample(&self, channel: usize, position: usize) -> (r: Result<S, Error>)
        where S: Copy
        ensures
            match r {
                Ok(sample) => channel < self@.channels.len() && position < self@.length
                    && sample == self@.channels[channel as int][position as int],
                Err(e) => e == Error::InvalidArg && (channel >= self@.channels.len()
                    || position >= self@.length),
            },
    {
        proof {
            use_type_invariant(self);
            lemma_declared_len(self.rows@.len());
            lemma_declared_len(self.rows@[0]@.len());
        }
        check_position(self.height as usize, self.length as usize, channel, position)?;
        let row: &[S] = self.rows[channel];
        Ok(row[position])
    }

    /// The channels, each cut to the declared length.
    pub fn get_vec(&self) -> (channels: Vec<&'a [S]>)
        ensures
            channels@.len() == self@.channels.len(),
            forall|i: int|
                0 <= i < self@.channels.len() ==> (#[trigger] channels@[i])@ == self@.channels[i],
    {
        proof {
            use_type_invariant(self);
            lemma_declared_len(self.rows@.len());
            lemma_declared_len(self.rows@[0]@.len());
        }
        let mut channels: Vec<&'a [S]> = Vec::with_capacity(self.height as usize);
        let mut i: usize = 0;
        while i < self.height as usize
            invariant
                i <= self.height <= self.rows@.len(),
                self.length <= self.rows@[0]@.len(),
                forall|k: int|
                    0 <= k < self.rows@.len() ==> (#[trigger] self.rows@[k])@.len()
                        == self.rows@[0]@.len(),
                channels@.len() == i,
                forall|k: int|
                    0 <= k < i ==> (#[trigger] channels@[k])@ == self.rows@[k]@.take(
                        self.length as int,
                    ),
            decreases self.height - i,
        {
            let row: &'a [S] = self.rows[i];
            channels.push(slice_subrange(row, 0, self.length as usize));
            i += 1;
        }
        channels
    }
}

} // verus!
