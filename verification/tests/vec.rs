use aubio::vec::{
    check_position, CVec, CVecMut, CVecNormMut, CVecPhasMut, FMat, FVec, FVecMut, CHECK_SIZE,
};
use aubio::Error;

#[test]
fn test_from_fmat() {
    let x: &[&[f32]] = &[&[1.0, 2.0], &[4.0, 5.0], &[7.0, 8.0]];
    let fmat = FMat::from(x);
    assert_eq!(2, fmat.length());
    assert_eq!(3, fmat.height());

    assert_eq!(1., fmat.get_sample(0, 0).unwrap());
    assert_eq!(2., fmat.get_sample(0, 1).unwrap());
    assert_eq!(4., fmat.get_sample(1, 0).unwrap());
    assert_eq!(5., fmat.get_sample(1, 1).unwrap());
    assert_eq!(7., fmat.get_sample(2, 0).unwrap());
    assert_eq!(8., fmat.get_sample(2, 1).unwrap());
}

#[test]
fn test_to_vec() {
    let x: &[&[f32]] = &[&[1.0, 2.0], &[4.0, 5.0], &[7.0, 8.0]];
    let fmat = FMat::from(x);

    let matrix = fmat.get_vec();

    assert_eq!(matrix, vec![&[1.0, 2.0], &[4.0, 5.0], &[7.0, 8.0]]);
}

#[test]
fn test_get_sample_fmat_wrong_size() {
    let x: &[&[f32]] = &[&[1.0, 2.0], &[4.0, 5.0], &[7.0, 8.0]];
    let fmat = FMat::from(x);

    assert_eq!(Err(Error::InvalidArg), fmat.get_sample(70, 80));
}

#[test]
fn fmat_get_sample_at_the_edges() {
    let x: &[&[f32]] = &[&[1.0, 2.0], &[4.0, 5.0], &[7.0, 8.0]];
    let fmat = FMat::from(x);
    assert_eq!(Ok(8.0), fmat.get_sample(2, 1));
    assert_eq!(Err(Error::InvalidArg), fmat.get_sample(3, 0));
    assert_eq!(Err(Error::InvalidArg), fmat.get_sample(0, 2));
}

#[test]
fn fmat_check_rows_tells_matrices_from_other_sets() {
    let good: &[&[f32]] = &[&[1.0, 2.0], &[4.0, 5.0], &[7.0, 8.0]];
    assert!(FMat::check_rows(good));
    let ragged: &[&[f32]] = &[&[1.0, 2.0], &[4.0, 5.0, 6.0], &[7.0, 8.0, 9.0]];
    assert!(!FMat::check_rows(ragged));
    let short_last: &[&[f32]] = &[&[1.0, 2.0], &[4.0, 5.0], &[7.0]];
    assert!(!FMat::check_rows(short_last));
    let none: &[&[f32]] = &[];
    assert!(!FMat::check_rows(none));
    let empty_rows: &[&[f32]] = &[&[], &[]];
    assert_eq!(FMat::check_rows(empty_rows), !CHECK_SIZE);
    let single: &[&[f32]] = &[&[3.0]];
    assert!(FMat::check_rows(single));
}

#[test]
fn sizes_are_checked() {
    assert!(CHECK_SIZE);
}

#[test]
fn fvec_size_and_check() {
    let data = [0.5f32; 8];
    let v = FVec::from(&data[..]);
    assert_eq!(v.size(), 8);
    assert_eq!(v.as_slice(), &data[..]);
    assert_eq!(v.check_size(0), Ok(()));
    assert_eq!(v.check_size(8), Ok(()));
    assert_eq!(v.check_size(9), Err(Error::MismatchSize));
}

#[test]
fn fvec_of_nothing() {
    let data: [f32; 0] = [];
    let v = FVec::from(&data[..]);
    assert_eq!(v.size(), 0);
    assert_eq!(v.check_size(0), Ok(()));
    assert_eq!(v.check_size(1), Err(Error::MismatchSize));
}

#[test]
fn fvec_mut_size_and_check() {
    let mut data = [0.0f32; 3];
    let v = FVecMut::from(&mut data[..]);
    assert_eq!(v.size(), 3);
    assert_eq!(v.check_size(3), Ok(()));
    assert_eq!(v.check_size(4), Err(Error::MismatchSize));
    let back = v.into_slice();
    back[2] = 1.0;
    assert_eq!(data, [0.0, 0.0, 1.0]);
}

#[test]
fn fvec_mut_over_one_sample() {
    let mut sample = 0f32;
    let v = FVecMut::from(std::slice::from_mut(&mut sample));
    assert_eq!(v.size(), 1);
    assert_eq!(v.check_size(1), Ok(()));
}

#[test]
fn cvec_from_parts() {
    let norm = [1.0f32, 2.0, 3.0];
    let phas = [0.1f32, 0.2, 0.3];
    let c = CVec::from_parts(&norm[..], &phas[..]).unwrap();
    assert_eq!(c.size(), 3);
    assert_eq!(c.norm(), &norm[..]);
    assert_eq!(c.phas(), &phas[..]);
}

#[test]
fn cvec_from_parts_of_different_length() {
    let norm = [1.0f32, 2.0, 3.0];
    let phas = [0.1f32, 0.2];
    assert_eq!(
        CVec::from_parts(&norm[..], &phas[..]).err(),
        Some(Error::MismatchSize)
    );
    assert_eq!(
        CVec::from_parts(&phas[..], &norm[..]).err(),
        Some(Error::MismatchSize)
    );
}

#[test]
fn cvec_from_one_run_splits_at_the_midpoint() {
    let data = [2.0f32, 2.0, 2.0, 100.0, 100.0, 100.0];
    let c = CVec::from(&data[..]);
    assert_eq!(c.size(), 3);
    assert_eq!(c.norm(), &[2.0, 2.0, 2.0][..]);
    assert_eq!(c.phas(), &[100.0, 100.0, 100.0][..]);
}

#[test]
fn cvec_check_size_counts_a_window() {
    // 5 bins stand for (5 - 1) * 2 = 8 samples
    let data = [0f32; 10];
    let c = CVec::from(&data[..]);
    assert_eq!(c.size(), 5);
    assert_eq!(c.check_size(8), Ok(()));
    assert_eq!(c.check_size(7), Ok(()));
    assert_eq!(c.check_size(9), Err(Error::MismatchSize));
    assert_eq!(c.check_size(0), Ok(()));
}

#[test]
fn cvec_check_size_of_small_spectra() {
    // one bin stands for no sample at all
    let one = [0f32; 2];
    let c = CVec::from(&one[..]);
    assert_eq!(c.size(), 1);
    assert_eq!(c.check_size(0), Ok(()));
    assert_eq!(c.check_size(1), Err(Error::MismatchSize));
    // no bin: (0 - 1) * 2 is below every size
    let none: [f32; 0] = [];
    let c = CVec::from(&none[..]);
    assert_eq!(c.size(), 0);
    assert_eq!(c.check_size(0), Err(Error::MismatchSize));
    assert_eq!(c.check_size(1), Err(Error::MismatchSize));
}

#[test]
fn cvec_mut_from_parts_and_back() {
    let mut norm = [0f32; 4];
    let mut phas = [0f32; 4];
    let c = CVecMut::from_parts(&mut norm[..], &mut phas[..]).unwrap();
    assert_eq!(c.size(), 4);
    assert_eq!(c.check_size(6), Ok(()));
    assert_eq!(c.check_size(7), Err(Error::MismatchSize));
    let (n, p) = c.into_parts();
    n.unwrap()[0] = 1.0;
    p.unwrap()[3] = 2.0;
    assert_eq!(norm, [1.0, 0.0, 0.0, 0.0]);
    assert_eq!(phas, [0.0, 0.0, 0.0, 2.0]);
}

#[test]
fn cvec_mut_from_parts_of_different_length() {
    let mut norm = [0f32; 4];
    let mut phas = [0f32; 5];
    assert_eq!(
        CVecMut::from_parts(&mut norm[..], &mut phas[..]).err(),
        Some(Error::MismatchSize)
    );
}

#[test]
fn cvec_mut_from_one_run() {
    let mut data = [0f32; 34];
    let c = CVecMut::from(&mut data[..]);
    assert_eq!(c.size(), 17);
    assert_eq!(c.check_size(32), Ok(()));
    assert_eq!(c.check_size(33), Err(Error::MismatchSize));
    let (n, p) = c.into_parts();
    n.unwrap()[16] = 1.0;
    p.unwrap()[0] = 2.0;
    assert_eq!(data[16], 1.0);
    assert_eq!(data[17], 2.0);
}

#[test]
fn cvec_mut_with_one_half() {
    let mut norm = [0f32; 4];
    let c = CVecMut::from_norm(&mut norm[..]);
    assert_eq!(c.size(), 4);
    let (n, p) = c.into_parts();
    assert!(n.is_some());
    assert!(p.is_none());

    let mut phas = [0f32; 6];
    let c = CVecMut::from_phas(&mut phas[..]);
    assert_eq!(c.size(), 6);
    let (n, p) = c.into_parts();
    assert!(n.is_none());
    assert_eq!(p.unwrap().len(), 6);
}

#[test]
fn cvec_norm_mut_and_phas_mut() {
    let mut norm = [0f32; 5];
    let v = CVecNormMut::from(&mut norm[..]);
    assert_eq!(v.size(), 5);
    assert_eq!(v.check_size(8), Ok(()));
    assert_eq!(v.check_size(9), Err(Error::MismatchSize));
    let (n, p) = v.into_cvec().into_parts();
    assert_eq!(n.unwrap().len(), 5);
    assert!(p.is_none());

    let mut phas = [0f32; 3];
    let v = CVecPhasMut::from(&mut phas[..]);
    assert_eq!(v.size(), 3);
    assert_eq!(v.check_size(4), Ok(()));
    assert_eq!(v.check_size(5), Err(Error::MismatchSize));
    let (n, p) = v.into_cvec().into_parts();
    assert!(n.is_none());
    assert_eq!(p.unwrap().len(), 3);
}

// samples of no size let a run be longer than a descriptor can say
const WHOLE: usize = 0xffff_ffff;
const WRAPPED: usize = 0x1_0000_0000;
const LONG: usize = 0x1_0000_0005;

#[test]
fn a_view_declares_its_length_in_32_bits() {
    let data = [(); LONG];
    let v = FVec::from(&data[..]);
    assert_eq!(v.size(), 5);
    assert_eq!(v.as_slice().len(), 5);
    assert_eq!(v.check_size(5), Ok(()));
    assert_eq!(v.check_size(6), Err(Error::MismatchSize));

    let whole = [(); WHOLE];
    assert_eq!(FVec::from(&whole[..]).size(), WHOLE);
    let wrapped = [(); WRAPPED];
    assert_eq!(FVec::from(&wrapped[..]).size(), 0);

    let mut data = [(); LONG];
    let v = FVecMut::from(&mut data[..]);
    assert_eq!(v.size(), 5);
    assert_eq!(v.into_slice().len(), 5);

    let c = CVec::from_parts(&data[..], &data[..]).unwrap();
    assert_eq!(c.size(), 5);
    assert_eq!(c.norm().len(), 5);
    assert_eq!(c.phas().len(), 5);
    assert_eq!(c.check_size(8), Ok(()));
    assert_eq!(c.check_size(9), Err(Error::MismatchSize));

    let rows: [&[()]; 2] = [&data, &data];
    assert!(FMat::check_rows(&rows[..]));
    let m = FMat::from(&rows[..]);
    assert_eq!(m.height(), 2);
    assert_eq!(m.length(), 5);
    assert_eq!(m.get_sample(1, 4), Ok(()));
    assert_eq!(m.get_sample(1, 5), Err(Error::InvalidArg));
    assert_eq!(m.get_vec()[0].len(), 5);
}

#[test]
fn positions_in_a_matrix() {
    assert_eq!(check_position(3, 2, 0, 0), Ok(()));
    assert_eq!(check_position(3, 2, 2, 1), Ok(()));
    assert_eq!(check_position(3, 2, 3, 1), Err(Error::InvalidArg));
    assert_eq!(check_position(3, 2, 2, 2), Err(Error::InvalidArg));
    assert_eq!(check_position(0, 0, 0, 0), Err(Error::InvalidArg));
    assert_eq!(check_position(usize::MAX, usize::MAX, usize::MAX - 1, usize::MAX - 1), Ok(()));
}

#[test]
fn fmat_of_one_long_channel() {
    let row = [0.25f32; 1000];
    let rows: [&[f32]; 1] = [&row];
    let fmat = FMat::from(&rows[..]);
    assert_eq!(fmat.height(), 1);
    assert_eq!(fmat.length(), 1000);
    assert_eq!(fmat.get_sample(0, 999), Ok(0.25));
    assert_eq!(fmat.get_sample(0, 1000), Err(Error::InvalidArg));
    assert_eq!(fmat.get_sample(1, 0), Err(Error::InvalidArg));
    assert_eq!(fmat.get_vec().len(), 1);
    assert_eq!(fmat.get_vec()[0].len(), 1000);
}
