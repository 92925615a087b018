//! Note events and the note detector.

use vstd::prelude::*;
use crate::types::{check_init, Error, Smpl, Status};
use crate::vec::{clearance, FVec, FVecMut, CHECK_SIZE};

verus! {

/// A note event. A note that starts has the velocity it starts with; a note
/// that ends has velocity zero.
#[derive(Debug, Clone, Copy, PartialEq, Eq, Structural)]
pub struct Note {
    pub pitch: Smpl,
    pub velocity: Smpl,
}

impl Note {
    /// The events that one output of the native detector holds. The output
    /// has three samples: the pitch of a note that starts, or zero; the
    /// velocity of that note; the pitch of a note that ends, or zero. The
    /// note that ends comes first.
    pub open spec fn events(values: Seq<Smpl>) -> Seq<Note> {
        let off = if values[2].is_zero_spec() {
            Seq::<Note>::empty()
        } else {
            seq![Note { pitch: values[2], velocity: Smpl { bits: 0 } }]
        };
        let on = if values[0].is_zero_spec() {
            Seq::<Note>::empty()
        } else {
            seq![Note { pitch: values[0], velocity: values[1] }]
        };
        off + on
    }

    /// Reads the events out of one output of the native detector.
    pub fn parse(values: &[Smpl; 3]) -> (notes: Vec<Note>)
        ensures
            notes@ == Note::events(values@),
    {
        let mut notes: Vec<Note> = Vec::new();
        if !values[2].is_zero() {
            notes.push(Note { pitch: values[2], velocity: Smpl::zero() });
        }
        if !values[0].is_zero() {
            notes.push(Note { pitch: values[0], velocity: values[1] });
        }
        assert(notes@ =~= Note::events(values@));
        notes
    }

    /// What one output of the native detector means. With no pitch in it,
    /// there is no event. With the pitch of a note that ends alone, there is
    /// one event, of that pitch and velocity zero, whatever the output holds
    /// as velocity. With the pitch of a note that starts alone, there is one
    /// event, of that pitch and the velocity in the output. With both, the
    /// two events come in that order.
    pub proof fn lemma_events(on: Smpl, velocity: Smpl, off: Smpl)
        ensures
            Note::events(seq![on, velocity, off]) == (if on.is_zero_spec() && off.is_zero_spec() {
                Seq::<Note>::empty()
            } else if on.is_zero_spec() {
                seq![Note { pitch: off, velocity: Smpl { bits: 0 } }]
            } else if off.is_zero_spec() {
                seq![Note { pitch: on, velocity }]
            } else {
                seq![Note { pitch: off, velocity: Smpl { bits: 0 } }, Note { pitch: on, velocity }]
            }),
    {
        let events = Note::events(seq![on, velocity, off]);
        if on.is_zero_spec() && off.is_zero_spec() {
            assert(events =~= Seq::<Note>::empty());
        } else if on.is_zero_spec() {
            assert(events =~= seq![Note { pitch: off, velocity: Smpl { bits: 0 } }]);
        } else if off.is_zero_spec() {
            assert(events =~= seq![Note { pitch: on, velocity }]);
        } else {
            assert(events =~= seq![
                Note { pitch: off, velocity: Smpl { bits: 0 } },
                Note { pitch: on, velocity },
            ]);
        }
    }
}

/// What a note detector is: its native object, the geometry it was created
/// with, and each parameter as last set. A parameter that was never set is
/// `None`: the native default is in force.
pub struct NotesState {
    pub handle: usize,
    pub buf_size: usize,
    pub hop_size: usize,
    pub sample_rate: u32,
    pub silence: Option<Smpl>,
    pub minioi_ms: Option<Smpl>,
    pub release_drop: Option<Smpl>,
}

/// Notes detection object.
pub struct Notes {
    state: NotesState,
}

impl View for Notes {
    type V = NotesState;

    closed spec fn view(&self) -> NotesState {
        self.state
    }
}

impl Notes {
    #[verifier::type_invariant]
    spec fn inv(self) -> bool {
        self.state.handle != 0
    }

    /// The detector as it is right after creation: no parameter set.
    pub open spec fn created(
        buf_size: usize,
        hop_size: usize,
        sample_rate: u32,
        raw: usize,
    ) -> NotesState {
        NotesState {
            handle: raw,
            buf_size,
            hop_size,
            sample_rate,
            silence: None,
            minioi_ms: None,
            release_drop: None,
        }
    }

    /// Takes over the native detector at address `raw`, which the native layer
    /// made for this geometry. Address zero means that it made none.
    pub fn new(
        buf_size: usize,
        hop_size: usize,
        sample_rate: u32,
        raw: usize,
    ) -> (r: Result<Notes, Error>)
        ensures
            match r {
                Ok(notes) => raw != 0 && notes@ == Notes::created(
                    buf_size,
                    hop_size,
                    sample_rate,
                    raw,
                ),
                Err(e) => raw == 0 && e == Error::FailedInit,
            },
    {
        check_init(raw)?;
        Ok(
            Notes {
                state: NotesState {
                    handle: raw,
                    buf_size,
                    hop_size,
                    sample_rate,
                    silence: None,
                    minioi_ms: None,
                    release_drop: None,
                },
            },
        )
    }

    /// Address of the native detector; never zero.
    pub fn handle(&self) -> (raw: usize)
        ensures
            raw == self@.handle,
            raw != 0,
    {
        proof {
            use_type_invariant(self);
        }
        self.state.handle
    }

    /// Hop size.
    pub fn get_hop(&self) -> (hop: usize)
        ensures
            hop == self@.hop_size,
    {
        self.state.hop_size
    }

    /// Clears one frame for detection: `input` must hold a hop of signal and
    /// `output` room for the three samples that [`Note::parse`] reads. On `Ok`
    /// the native detector may run on the two views.
    pub fn do_<S>(&self, input: &FVec<'_, S>, output: &FVecMut<'_, S>) -> (r: Status)
        requires
            !CHECK_SIZE ==> input@.len() >= self@.hop_size && output@.len() >= 3,
        ensures
            r == clearance(input@.len() >= self@.hop_size && output@.len() >= 3),
    {
        input.check_size(self.get_hop())?;
        output.check_size(3)?;
        Ok(())
    }

    /// Sets the silence threshold.
    pub fn set_silence(&mut self, silence: Smpl)
        ensures
            final(self)@ == (NotesState { silence: Some(silence), ..old(self)@ }),
    {
        proof {
            use_type_invariant(&*self);
        }
        self.state.silence = Some(silence);
    }

    /// Silence threshold, as last set.
    pub fn get_silence(&self) -> (silence: Option<Smpl>)
        ensures
            silence == self@.silence,
    {
        self.state.silence
    }

    /// Sets the silence threshold, and hands the object on.
    pub fn with_silence(self, silence: Smpl) -> (r: Notes)
        ensures
            r@ == (NotesState { silence: Some(silence), ..self@ }),
    {
        let mut notes = self;
        notes.set_silence(silence);
        notes
    }

    /// Sets the minimum interval between two onsets, in milliseconds.
    pub fn set_minioi_ms(&mut self, minioi: Smpl)
        ensures
            final(self)@ == (NotesState { minioi_ms: Some(minioi), ..old(self)@ }),
    {
        proof {
            use_type_invariant(&*self);
        }
        self.state.minioi_ms = Some(minioi);
    }

    /// Minimum interval between two onsets in milliseconds, as last set.
    pub fn get_minioi_ms(&self) -> (minioi: Option<Smpl>)
        ensures
            minioi == self@.minioi_ms,
    {
        self.state.minioi_ms
    }

    /// Sets the minimum interval between two onsets, in milliseconds, and
    /// hands the object on.
    pub fn with_minioi_ms(self, minioi: Smpl) -> (r: Notes)
        ensures
            r@ == (NotesState { minioi_ms: Some(minioi), ..self@ }),
    {
        let mut notes = self;
        notes.set_minioi_ms(minioi);
        notes
    }

    /// Sets the drop in level, in dB, at which a note is released.
    pub fn set_release_drop(&mut self, release_drop: Smpl)
        ensures
            final(self)@ == (NotesState { release_drop: Some(release_drop), ..old(self)@ }),
    {
        proof {
            use_type_invariant(&*self);
        }
        self.state.release_drop = Some(release_drop);
    }

    /// Release drop level, as last set.
    pub fn get_release_drop(&self) -> (release_drop: Option<Smpl>)
        ensures
            release_drop == self@.release_drop,
    {
        self.state.release_drop
    }

    /// Sets the drop in level, in dB, at which a note is released, and hands
    /// the object on.
    pub fn with_release_drop(self, release_drop: Smpl) -> (r: Notes)
        ensures
            r@ == (NotesState { release_drop: Some(release_drop), ..self@ }),
    {
        let mut notes = self;
        notes.set_release_drop(release_drop);
        notes
    }
}

} // verus!
