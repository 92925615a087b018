use aubio::{
    AsNativeStr, Error, Level, LogLevel, OnsetMode, PitchMode, PitchUnit, ResampleMode, SpecShape,
    WindowType,
};
use std::str::FromStr;

const ONSET_MODES: [(OnsetMode, &str); 9] = [
    (OnsetMode::Energy, "energy"),
    (OnsetMode::Hfc, "hfc"),
    (OnsetMode::Complex, "complex"),
    (OnsetMode::Phase, "phase"),
    (OnsetMode::WPhase, "wphase"),
    (OnsetMode::SpecDiff, "specdiff"),
    (OnsetMode::Kl, "kl"),
    (OnsetMode::Mkl, "mkl"),
    (OnsetMode::SpecFlux, "specflux"),
];

const PITCH_MODES: [(PitchMode, &str); 7] = [
    (PitchMode::Schmitt, "schmitt"),
    (PitchMode::Fcomb, "fcomb"),
    (PitchMode::Mcomb, "mcomb"),
    (PitchMode::Yin, "yin"),
    (PitchMode::Yinfast, "yinfast"),
    (PitchMode::Yinfft, "yinfft"),
    (PitchMode::Specacf, "specacf"),
];

const PITCH_UNITS: [(PitchUnit, &str); 4] = [
    (PitchUnit::Hz, "hertz"),
    (PitchUnit::Midi, "midi"),
    (PitchUnit::Cent, "cent"),
    (PitchUnit::Bin, "bin"),
];

const SPEC_SHAPES: [(SpecShape, &str); 7] = [
    (SpecShape::Centroid, "centroid"),
    (SpecShape::Spread, "spread"),
    (SpecShape::Skewness, "skewness"),
    (SpecShape::Kurtosis, "kurtosis"),
    (SpecShape::Slope, "slope"),
    (SpecShape::Decrease, "decrease"),
    (SpecShape::Rolloff, "rolloff"),
];

const WINDOW_TYPES: [(WindowType, &str); 10] = [
    (WindowType::Ones, "ones"),
    (WindowType::Rectangle, "rectangle"),
    (WindowType::Hamming, "hamming"),
    (WindowType::Hanning, "hanning"),
    (WindowType::Hanningz, "hanningz"),
    (WindowType::Blackman, "blackman"),
    (WindowType::BlackmanHarris, "blackman_harris"),
    (WindowType::Gaussian, "gaussian"),
    (WindowType::Welch, "welch"),
    (WindowType::Parzen, "parzen"),
];

const RESAMPLE_MODES: [(ResampleMode, &str, u32); 5] = [
    (ResampleMode::BestQuality, "best_quality", 0),
    (ResampleMode::MediumQuality, "medium_quality", 1),
    (ResampleMode::Fastest, "fastest", 2),
    (ResampleMode::OrderHold, "order_hold", 3),
    (ResampleMode::Linear, "linear", 4),
];

const LOG_LEVELS: [(LogLevel, &str, i32); 5] = [
    (LogLevel::Error, "ERROR", 0),
    (LogLevel::Info, "INFO", 1),
    (LogLevel::Message, "MESSAGE", 2),
    (LogLevel::Debug, "DEBUG", 3),
    (LogLevel::Warning, "WARNING", 4),
];

const STRANGERS: [&str; 9] = [
    "",
    " ",
    "Energy",
    "HFC",
    "hfc ",
    " hfc",
    "hfc\0",
    "h",
    "m\u{e9}l",
];

#[test]
fn onset_mode_names_round_trip() {
    for (mode, name) in ONSET_MODES {
        assert_eq!(mode.as_ref(), name);
        assert_eq!(mode.as_rust_str(), name);
        assert_eq!(mode.as_native_str(), format!("{}\0", name));
        assert_eq!(mode.to_string(), name);
        assert_eq!(OnsetMode::from_str(name), Ok(mode));
        assert_eq!(OnsetMode::from_str(mode.as_ref()), Ok(mode));
    }
}

#[test]
fn pitch_mode_names_round_trip() {
    for (mode, name) in PITCH_MODES {
        assert_eq!(mode.as_ref(), name);
        assert_eq!(mode.as_rust_str(), name);
        assert_eq!(mode.as_native_str(), format!("{}\0", name));
        assert_eq!(mode.to_string(), name);
        assert_eq!(PitchMode::from_str(name), Ok(mode));
        assert_eq!(PitchMode::from_str(mode.as_ref()), Ok(mode));
    }
}

#[test]
fn pitch_unit_names_round_trip() {
    for (unit, name) in PITCH_UNITS {
        assert_eq!(unit.as_ref(), name);
        assert_eq!(unit.as_rust_str(), name);
        assert_eq!(unit.as_native_str(), format!("{}\0", name));
        assert_eq!(unit.to_string(), name);
        assert_eq!(PitchUnit::from_str(name), Ok(unit));
        assert_eq!(PitchUnit::from_str(unit.as_ref()), Ok(unit));
    }
}

#[test]
fn spec_shape_names_round_trip() {
    for (shape, name) in SPEC_SHAPES {
        assert_eq!(shape.as_ref(), name);
        assert_eq!(shape.as_rust_str(), name);
        assert_eq!(shape.as_native_str(), format!("{}\0", name));
        assert_eq!(shape.to_string(), name);
        assert_eq!(SpecShape::from_str(name), Ok(shape));
        assert_eq!(SpecShape::from_str(shape.as_ref()), Ok(shape));
    }
}

#[test]
fn window_type_names_round_trip() {
    for (window, name) in WINDOW_TYPES {
        assert_eq!(window.as_ref(), name);
        assert_eq!(window.as_rust_str(), name);
        assert_eq!(window.as_native_str(), format!("{}\0", name));
        assert_eq!(window.to_string(), name);
        assert_eq!(WindowType::from_str(name), Ok(window));
        assert_eq!(WindowType::from_str(window.as_ref()), Ok(window));
    }
}

#[test]
fn resample_mode_names_and_numbers_round_trip() {
    for (mode, name, code) in RESAMPLE_MODES {
        assert_eq!(mode.as_ref(), name);
        assert_eq!(mode.to_string(), name);
        assert_eq!(ResampleMode::from_str(name), Ok(mode));
        assert_eq!(mode.to_ffi(), code);
    }
}

#[test]
fn log_level_names_and_numbers() {
    for (level, name, code) in LOG_LEVELS {
        assert_eq!(level.as_ref(), name);
        assert_eq!(level.to_string(), name);
        assert_eq!(level.to_ffi(), code);
        assert_eq!(LogLevel::from_ffi(code), Some(level));
    }
    assert_eq!(LogLevel::from_ffi(5), None);
    assert_eq!(LogLevel::from_ffi(-1), None);
    assert_eq!(LogLevel::from_ffi(i32::MAX), None);
    assert_eq!(LogLevel::from_ffi(i32::MIN), None);
}

#[test]
fn unknown_names_are_invalid_arguments() {
    for name in STRANGERS {
        assert_eq!(OnsetMode::from_str(name), Err(Error::InvalidArg));
        assert_eq!(PitchMode::from_str(name), Err(Error::InvalidArg));
        assert_eq!(PitchUnit::from_str(name), Err(Error::InvalidArg));
        assert_eq!(SpecShape::from_str(name), Err(Error::InvalidArg));
        assert_eq!(WindowType::from_str(name), Err(Error::InvalidArg));
        assert_eq!(ResampleMode::from_str(name), Err(Error::InvalidArg));
    }
}

#[test]
fn a_name_of_one_enumeration_is_unknown_to_another() {
    assert_eq!(OnsetMode::from_str("yin"), Err(Error::InvalidArg));
    assert_eq!(PitchMode::from_str("hfc"), Err(Error::InvalidArg));
    assert_eq!(PitchUnit::from_str("Hz"), Err(Error::InvalidArg));
    assert_eq!(PitchUnit::from_str("hz"), Err(Error::InvalidArg));
    assert_eq!(WindowType::from_str("hann"), Err(Error::InvalidArg));
    assert_eq!(WindowType::from_str("hanningzz"), Err(Error::InvalidArg));
    assert_eq!(WindowType::from_str("blackman-harris"), Err(Error::InvalidArg));
    assert_eq!(SpecShape::from_str("energy"), Err(Error::InvalidArg));
    assert_eq!(ResampleMode::from_str("best quality"), Err(Error::InvalidArg));
}

#[test]
fn defaults() {
    assert_eq!(OnsetMode::default(), OnsetMode::Hfc);
    assert_eq!(PitchMode::default(), PitchMode::Yinfft);
    assert_eq!(PitchUnit::default(), PitchUnit::Hz);
    assert_eq!(WindowType::default(), WindowType::Hanningz);
    assert_eq!(ResampleMode::default(), ResampleMode::BestQuality);
}

#[test]
fn error_messages() {
    assert_eq!(Error::FailedInit.to_string(), "creation error");
    assert_eq!(Error::MismatchSize.to_string(), "data size mismatch");
    assert_eq!(Error::InvalidArg.to_string(), "invalid argument");
}

fn name_of<T: AsRef<str>>(which: T) -> String {
    which.as_ref().to_owned()
}

#[test]
fn names_are_parsed_and_borrowed_as_strings_are() {
    for (mode, name) in ONSET_MODES {
        assert_eq!(name.parse::<OnsetMode>(), Ok(mode));
        assert_eq!(<OnsetMode as FromStr>::from_str(name), Ok(mode));
        assert_eq!(name_of(mode), name);
    }
    for (mode, name) in PITCH_MODES {
        assert_eq!(name.parse::<PitchMode>(), Ok(mode));
        assert_eq!(name_of(mode), name);
    }
    for (unit, name) in PITCH_UNITS {
        assert_eq!(name.parse::<PitchUnit>(), Ok(unit));
        assert_eq!(name_of(unit), name);
    }
    for (shape, name) in SPEC_SHAPES {
        assert_eq!(name.parse::<SpecShape>(), Ok(shape));
        assert_eq!(name_of(shape), name);
    }
    for (window, name) in WINDOW_TYPES {
        assert_eq!(name.parse::<WindowType>(), Ok(window));
        assert_eq!(name_of(window), name);
    }
    for (mode, name, _) in RESAMPLE_MODES {
        assert_eq!(name.parse::<ResampleMode>(), Ok(mode));
        assert_eq!(name_of(mode), name);
    }
    for (level, name, _) in LOG_LEVELS {
        assert_eq!(name_of(level), name);
    }
    for name in STRANGERS {
        assert_eq!(name.parse::<OnsetMode>(), Err(Error::InvalidArg));
        assert_eq!(name.parse::<PitchMode>(), Err(Error::InvalidArg));
        assert_eq!(name.parse::<PitchUnit>(), Err(Error::InvalidArg));
        assert_eq!(name.parse::<SpecShape>(), Err(Error::InvalidArg));
        assert_eq!(name.parse::<WindowType>(), Err(Error::InvalidArg));
        assert_eq!(name.parse::<ResampleMode>(), Err(Error::InvalidArg));
    }
}

#[test]
fn the_severity_of_each_level() {
    assert_eq!(Level::from(LogLevel::Error), Level::Error);
    assert_eq!(Level::from(LogLevel::Warning), Level::Warn);
    assert_eq!(Level::from(LogLevel::Message), Level::Info);
    assert_eq!(Level::from(LogLevel::Info), Level::Info);
    assert_eq!(Level::from(LogLevel::Debug), Level::Debug);
    let severity: Level = LogLevel::Warning.into();
    assert_eq!(severity, Level::Warn);
}
