use aubio::vec::{CVec, FMat, FVecMut, CHECK_SIZE};
use aubio::{Error, FilterBank};

const HANDLE: usize = 0x7f00_1000;

#[test]
fn test_new_filterbank() {
    let _filter_bank = FilterBank::new(10, 512, HANDLE).unwrap();
    if CHECK_SIZE {
        assert_eq!(_filter_bank.n_filters(), 10);
        assert_eq!(_filter_bank.win_s(), 512);
    }
}

#[test]
fn filterbank_is_not_made_of_a_null_handle() {
    assert_eq!(FilterBank::new(10, 512, 0).err(), Some(Error::FailedInit));
}

#[test]
fn filterbank_geometry() {
    let filter_bank = FilterBank::new(2, 4, HANDLE).unwrap();
    assert_eq!(filter_bank.handle(), HANDLE);
    assert_eq!(filter_bank.n_filters(), 2);
    assert_eq!(filter_bank.win_s(), 4);
    assert_eq!(filter_bank.n_bins(), 3);
    let odd = FilterBank::new(1, 5, HANDLE).unwrap();
    assert_eq!(odd.n_bins(), 3);
    let none = FilterBank::new(0, 0, HANDLE).unwrap();
    assert_eq!(none.n_bins(), 1);
    let huge = FilterBank::new(1, usize::MAX, HANDLE).unwrap();
    assert_eq!(huge.n_bins(), usize::MAX / 2 + 1);
}

#[test]
fn test_set_coeffs() {
    let filter_bank = FilterBank::new(2, 4, HANDLE).unwrap();
    let filters: Vec<&[f32]> = vec![&[1.0, 1.0, 1.0], &[2.0, 2.0, 2.0]];

    let coeffs = FMat::from(&filters[..]);
    filter_bank.set_coeffs(&coeffs).unwrap();

    assert_eq!(coeffs.get_vec(), vec![&[1.0, 1.0, 1.0], &[2.0, 2.0, 2.0]]);
}

#[test]
fn set_coeffs_of_wrong_height() {
    let filter_bank = FilterBank::new(2, 4, HANDLE).unwrap();
    let filters: Vec<&[f32]> = vec![&[1.0, 1.0, 1.0], &[2.0, 2.0, 2.0], &[0.0, 0.0, 0.0]];
    assert_eq!(
        filter_bank.set_coeffs(&FMat::from(&filters[..])),
        Err(Error::MismatchSize)
    );
}

#[test]
fn set_coeffs_of_wrong_length() {
    let filter_bank = FilterBank::new(2, 4, HANDLE).unwrap();
    let filters: Vec<&[f32]> = vec![&[1.0], &[2.0], &[0.0], &[0.0]];
    assert_eq!(
        filter_bank.set_coeffs(&FMat::from(&filters[..])),
        Err(Error::MismatchSize)
    );
    let long: Vec<&[f32]> = vec![&[1.0, 1.0, 1.0, 1.0], &[2.0, 2.0, 2.0, 2.0]];
    assert_eq!(
        filter_bank.set_coeffs(&FMat::from(&long[..])),
        Err(Error::MismatchSize)
    );
}

#[test]
fn test_filterbank_do() {
    let filter_bank = FilterBank::new(2, 4, HANDLE).unwrap();
    let filters: Vec<&[f32]> = vec![&[1.0, 1.0, 1.0], &[2.0, 2.0, 2.0]];
    // norm is 2 2 2, phas is 100 100 100
    let input: Vec<f32> = vec![2., 2., 2., 100., 100., 100.];
    let mut output: Vec<f32> = vec![0.; 2];

    let coeffs = FMat::from(&filters[..]);
    filter_bank.set_coeffs(&coeffs).unwrap();
    let frame = CVec::from(input.as_slice());
    let room = FVecMut::from(output.as_mut_slice());
    filter_bank.do_(&frame, &room).unwrap();

    // each filter is laid over the magnitudes that the frame declares, into
    // the room that the output declares
    for (out, filter) in room.into_slice().iter_mut().zip(coeffs.get_vec()) {
        *out = filter.iter().zip(frame.norm()).map(|(c, m)| c * m).sum();
    }

    assert_eq!(vec![6.0, 12.0], output);
}

#[test]
fn filterbank_do_takes_a_longer_output() {
    let filter_bank = FilterBank::new(2, 4, HANDLE).unwrap();
    let input: Vec<f32> = vec![2., 2., 2., 100., 100., 100.];
    let mut roomy: Vec<f32> = vec![0.; 5];
    assert_eq!(
        filter_bank.do_(
            &CVec::from(input.as_slice()),
            &FVecMut::from(roomy.as_mut_slice())
        ),
        Ok(())
    );
}

#[test]
fn filterbank_do_with_input_of_wrong_size() {
    let filter_bank = FilterBank::new(2, 4, HANDLE).unwrap();
    let input: Vec<f32> = vec![2., 2., 2., 2., 2., 100., 100., 100., 100., 100.];
    let mut output: Vec<f32> = vec![0.; 2];
    assert_eq!(
        filter_bank.do_(
            &CVec::from(input.as_slice()),
            &FVecMut::from(output.as_mut_slice())
        ),
        Err(Error::MismatchSize)
    );
    let short: Vec<f32> = vec![2., 2., 100., 100.];
    assert_eq!(
        filter_bank.do_(
            &CVec::from(short.as_slice()),
            &FVecMut::from(output.as_mut_slice())
        ),
        Err(Error::MismatchSize)
    );
}

#[test]
fn filterbank_do_with_output_too_short() {
    let filter_bank = FilterBank::new(2, 4, HANDLE).unwrap();
    let input: Vec<f32> = vec![2., 2., 2., 100., 100., 100.];
    let mut output: Vec<f32> = vec![0.; 1];
    assert_eq!(
        filter_bank.do_(
            &CVec::from(input.as_slice()),
            &FVecMut::from(output.as_mut_slice())
        ),
        Err(Error::MismatchSize)
    );
}
