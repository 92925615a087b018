use aubio::vec::{FVec, FVecMut};
use aubio::{check_init, Error, Note, Notes, Smpl};

fn smpl(x: f32) -> Smpl {
    Smpl::from_bits(x.to_bits())
}

fn value(s: Smpl) -> f32 {
    f32::from_bits(s.to_bits())
}

#[test]
fn note_off_alone() {
    let notes = Note::parse(&[smpl(0.0), smpl(0.0), smpl(69.0)]);
    assert_eq!(notes.len(), 1);
    assert_eq!(value(notes[0].pitch), 69.0);
    assert_eq!(value(notes[0].velocity), 0.0);
    assert_eq!(notes[0].velocity.to_bits(), 0);
}

#[test]
fn note_off_with_a_velocity_left_behind() {
    // the velocity belongs to a note that starts; with no such note it is
    // not read
    let notes = Note::parse(&[smpl(0.0), smpl(100.0), smpl(69.0)]);
    assert_eq!(notes.len(), 1);
    assert_eq!(value(notes[0].pitch), 69.0);
    assert_eq!(value(notes[0].velocity), 0.0);
}

#[test]
fn note_on_alone() {
    let notes = Note::parse(&[smpl(60.0), smpl(100.0), smpl(0.0)]);
    assert_eq!(notes.len(), 1);
    assert_eq!(value(notes[0].pitch), 60.0);
    assert_eq!(value(notes[0].velocity), 100.0);
    assert_eq!(notes[0], Note { pitch: smpl(60.0), velocity: smpl(100.0) });
}

#[test]
fn no_note() {
    assert!(Note::parse(&[smpl(0.0), smpl(0.0), smpl(0.0)]).is_empty());
    // a velocity without a pitch is no note
    assert!(Note::parse(&[smpl(0.0), smpl(64.0), smpl(0.0)]).is_empty());
}

#[test]
fn note_off_comes_before_note_on() {
    let notes = Note::parse(&[smpl(62.0), smpl(90.0), smpl(60.0)]);
    assert_eq!(notes.len(), 2);
    assert_eq!(value(notes[0].pitch), 60.0);
    assert_eq!(value(notes[0].velocity), 0.0);
    assert_eq!(value(notes[1].pitch), 62.0);
    assert_eq!(value(notes[1].velocity), 90.0);
}

#[test]
fn negative_zero_is_zero_and_nan_is_not() {
    assert!(smpl(0.0).is_zero());
    assert!(smpl(-0.0).is_zero());
    assert!(!smpl(f32::NAN).is_zero());
    assert!(!smpl(f32::MIN_POSITIVE).is_zero());
    assert!(!smpl(1.0e-45).is_zero());
    assert!(!smpl(-1.0).is_zero());
    assert!(Smpl::zero().is_zero());
    assert_eq!(Smpl::zero().to_bits(), 0);

    assert!(Note::parse(&[smpl(-0.0), smpl(1.0), smpl(-0.0)]).is_empty());
    let notes = Note::parse(&[smpl(f32::NAN), smpl(1.0), smpl(0.0)]);
    assert_eq!(notes.len(), 1);
    assert!(value(notes[0].pitch).is_nan());
}

#[test]
fn smpl_keeps_its_bits() {
    for x in [0.0f32, -0.0, 1.5, -70.0, f32::INFINITY, f32::MAX] {
        assert_eq!(value(smpl(x)).to_bits(), x.to_bits());
    }
    assert_eq!(smpl(1.0).to_bits(), 0x3f80_0000);
    assert_ne!(smpl(0.0), smpl(-0.0));
}

#[test]
fn notes_new_and_hop() {
    let notes = Notes::new(512, 256, 44100, 0x1000).unwrap();
    assert_eq!(notes.get_hop(), 256);
    assert_eq!(notes.handle(), 0x1000);
    assert_eq!(Notes::new(512, 256, 44100, 0).err(), Some(Error::FailedInit));
    assert_eq!(check_init(0), Err(Error::FailedInit));
    assert_eq!(check_init(1), Ok(()));
    assert_eq!(check_init(usize::MAX), Ok(()));
}

#[test]
fn notes_do_needs_a_hop_and_three_samples() {
    let notes = Notes::new(512, 256, 44100, 0x1000).unwrap();
    let input = [0f32; 256];
    let short = [0f32; 255];
    let mut out = [0f32; 3];
    let mut small = [0f32; 2];
    assert_eq!(notes.do_(&FVec::from(&input[..]), &FVecMut::from(&mut out[..])), Ok(()));
    assert_eq!(
        notes.do_(&FVec::from(&short[..]), &FVecMut::from(&mut out[..])),
        Err(Error::MismatchSize)
    );
    assert_eq!(
        notes.do_(&FVec::from(&input[..]), &FVecMut::from(&mut small[..])),
        Err(Error::MismatchSize)
    );
}

#[test]
fn notes_parameters() {
    let notes = Notes::new(512, 256, 44100, 0x1000).unwrap();
    assert_eq!(notes.get_silence(), None);
    assert_eq!(notes.get_minioi_ms(), None);
    assert_eq!(notes.get_release_drop(), None);
    let mut notes = notes
        .with_silence(smpl(-70.0))
        .with_minioi_ms(smpl(30.0))
        .with_release_drop(smpl(10.0));
    assert_eq!(notes.get_silence(), Some(smpl(-70.0)));
    assert_eq!(notes.get_minioi_ms(), Some(smpl(30.0)));
    assert_eq!(notes.get_release_drop(), Some(smpl(10.0)));
    notes.set_silence(smpl(-90.0));
    assert_eq!(notes.get_silence(), Some(smpl(-90.0)));
    assert_eq!(notes.get_minioi_ms(), Some(smpl(30.0)));
    notes.set_minioi_ms(smpl(12.0));
    notes.set_release_drop(smpl(6.0));
    assert_eq!(notes.get_minioi_ms(), Some(smpl(12.0)));
    assert_eq!(notes.get_release_drop(), Some(smpl(6.0)));
    assert_eq!(notes.get_hop(), 256);
    assert_eq!(notes.handle(), 0x1000);
}

#[test]
fn the_sign_of_a_sample_is_the_sign_of_the_number() {
    let edges = [
        0u32,
        1,
        0x007f_ffff,
        0x0080_0000,
        0x3f80_0000,
        0x7f7f_ffff,
        0x7f80_0000,
        0x7f80_0001,
        0x7fc0_0000,
        0x7fff_ffff,
        0x8000_0000,
        0x8000_0001,
        0xbf80_0000,
        0xff80_0000,
        0xff80_0001,
        0xffff_ffff,
    ];
    for bits in edges {
        let x = f32::from_bits(bits);
        assert_eq!(Smpl::from_bits(bits).is_zero(), x == 0.0, "{:#x}", bits);
        assert_eq!(Smpl::from_bits(bits).is_positive(), 0.0 < x, "{:#x}", bits);
    }
    let mut bits = 0u32;
    loop {
        let x = f32::from_bits(bits);
        assert_eq!(Smpl::from_bits(bits).is_zero(), x == 0.0, "{:#x}", bits);
        assert_eq!(Smpl::from_bits(bits).is_positive(), 0.0 < x, "{:#x}", bits);
        match bits.checked_add(65_521) {
            Some(next) => bits = next,
            None => break,
        }
    }
}
