use effie::status::{
    self, Status, ERROR_BIT, HTTP_ERROR, LOAD_ERROR, NOT_FOUND, SUCCESS, WARN_BUFFER_TOO_SMALL,
    WARN_RESET_REQUIRED, WARN_UNKNOWN_GLYPH,
};

fn wide(s: &str) -> Vec<u16> {
    s.encode_utf16().chain(Some(0)).collect()
}

#[test]
fn error_bit_is_top_bit() {
    assert_eq!(ERROR_BIT, 1usize << (usize::BITS - 1));
    assert_eq!(LOAD_ERROR, ERROR_BIT + 1);
    assert_eq!(HTTP_ERROR, ERROR_BIT + 35);
    assert_eq!(status::END_OF_FILE, ERROR_BIT + 31);
}

#[test]
fn error_constructor_sets_top_bit() {
    assert_eq!(Status::error(14), Status(NOT_FOUND));
    assert_eq!(Status::error(1), Status(LOAD_ERROR));
    assert_eq!(Status::error(ERROR_BIT | 3), Status(ERROR_BIT | 3));
    assert!(Status::error(0).is_error());
}

#[test]
fn as_result_success_is_ok() {
    assert_eq!(Status(SUCCESS).as_result(), Ok(()));
}

#[test]
fn as_result_error_is_err() {
    assert_eq!(Status(NOT_FOUND).as_result(), Err(Status(NOT_FOUND)));
}

#[test]
fn as_result_warning_is_err() {
    assert_eq!(Status(WARN_UNKNOWN_GLYPH).as_result(), Err(Status(WARN_UNKNOWN_GLYPH)));
}

#[test]
fn as_result_with_carries_value() {
    assert_eq!(Status(SUCCESS).as_result_with(7u8), Ok(7u8));
    assert_eq!(Status(LOAD_ERROR).as_result_with(7u8), Err(Status(LOAD_ERROR)));
    assert_eq!(Status(WARN_RESET_REQUIRED).as_result_with("x"), Err(Status(WARN_RESET_REQUIRED)));
}

#[test]
fn classes_of_statuses() {
    let s = Status(SUCCESS);
    assert!(s.is_success() && !s.is_error() && !s.is_warning());
    let e = Status(NOT_FOUND);
    assert!(!e.is_success() && e.is_error() && !e.is_warning());
    let w = Status(WARN_BUFFER_TOO_SMALL);
    assert!(!w.is_success() && !w.is_error() && w.is_warning());
    let top = Status(usize::MAX);
    assert!(top.is_error() && !top.is_warning());
    let big_warning = Status(ERROR_BIT - 1);
    assert!(big_warning.is_warning() && !big_warning.is_error());
}

#[test]
fn classes_partition_statuses() {
    for code in [0, 1, 7, 8, ERROR_BIT - 1, ERROR_BIT, ERROR_BIT + 35, usize::MAX] {
        let s = Status(code);
        let classes = [s.is_success(), s.is_warning(), s.is_error()];
        assert_eq!(classes.iter().filter(|c| **c).count(), 1);
    }
}

#[test]
fn description_of_success() {
    assert_eq!(Status(SUCCESS).description(), wide("The operation completed successfully."));
}

#[test]
fn description_of_errors() {
    assert_eq!(Status(NOT_FOUND).description(), wide("The item was not found."));
    assert_eq!(Status(LOAD_ERROR).description(), wide("The image failed to load."));
    assert_eq!(
        Status(HTTP_ERROR).description(),
        wide("A HTTP error occurred during the network operation.")
    );
}

#[test]
fn description_of_warnings() {
    assert_eq!(
        Status(WARN_RESET_REQUIRED).description(),
        wide("The operation will be processed across a system reset.")
    );
    assert_eq!(Status(WARN_BUFFER_TOO_SMALL).description(), wide("Unknown status."));
}

#[test]
fn description_of_unknown_codes() {
    assert_eq!(Status(ERROR_BIT + 29).description(), wide("Unknown status."));
    assert_eq!(Status(100).description(), wide("Unknown status."));
}

#[test]
fn descriptions_are_uefi_strings() {
    let mut codes: Vec<usize> = (0..40).collect();
    codes.extend((0..40).map(|k| ERROR_BIT | k));
    for code in codes {
        let d = Status(code).description();
        assert_eq!(*d.last().unwrap(), 0);
        assert!(d[..d.len() - 1].iter().all(|u| *u != 0));
    }
}
