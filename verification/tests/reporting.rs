use asimov_image_module::frame::{MissingDim, ValidationError};
use asimov_image_module::report::{
    EX_DATAERR, EX_IOERR, EX_OK, EX_SOFTWARE, EX_USAGE, Error, WarnDetail, cause_chain_enabled,
    error_of_validation, info_enabled, map_error_to_sysexit, push_decimal, warn_detail,
};

#[test]
fn exit_codes_follow_the_taxonomy() {
    assert_eq!(
        map_error_to_sysexit(&Error::Io {
            context: "reading input file".to_string(),
            message: "gone".to_string(),
        }),
        EX_IOERR
    );
    assert_eq!(map_error_to_sysexit(&Error::Decode("bad magic".to_string())), EX_DATAERR);
    assert_eq!(map_error_to_sysexit(&Error::InvalidBuffer("short".to_string())), EX_DATAERR);
    assert_eq!(map_error_to_sysexit(&Error::InvalidDimensions("none".to_string())), EX_USAGE);
    assert_eq!(map_error_to_sysexit(&Error::JsonLd("nested".to_string())), EX_SOFTWARE);
    assert_eq!(map_error_to_sysexit(&Error::Other("window".to_string())), EX_SOFTWARE);
    assert_ne!(EX_OK, EX_IOERR);
    assert_ne!(EX_OK, EX_DATAERR);
    assert_ne!(EX_OK, EX_USAGE);
    assert_ne!(EX_OK, EX_SOFTWARE);
}

#[test]
fn summaries_name_the_failure() {
    let e = Error::Io { context: "reading from stdin".to_string(), message: "closed".to_string() };
    assert_eq!(e.summary(), "I/O error while reading from stdin: closed");
    assert_eq!(
        Error::Decode("truncated".to_string()).summary(),
        "failed to decode image data: truncated"
    );
    assert_eq!(
        Error::InvalidDimensions("missing image.width".to_string()).summary(),
        "invalid resize dimensions: missing image.width"
    );
    assert_eq!(Error::Other("plain".to_string()).summary(), "plain");
}

#[test]
fn decimal_rendering_matches_the_usual_form() {
    let mut s = String::new();
    push_decimal(&mut s, 0);
    assert_eq!(s, "0");
    let mut s = "n = ".to_string();
    push_decimal(&mut s, 4096);
    assert_eq!(s, "n = 4096");
    let mut s = String::new();
    push_decimal(&mut s, 18446744073709551615);
    assert_eq!(s, "18446744073709551615");
}

#[test]
fn validation_errors_carry_their_numbers() {
    let e = error_of_validation(&ValidationError::LengthMismatch { expected: 12, actual: 5 });
    match e {
        Error::InvalidBuffer(m) => {
            assert_eq!(m, "byte length 5 does not match width*height*3 (12)");
        },
        other => panic!("expected an invalid buffer, got {:?}", other),
    }
    match error_of_validation(&ValidationError::MissingDimensions(MissingDim::Width)) {
        Error::InvalidDimensions(m) => assert_eq!(m, "missing image.width"),
        other => panic!("expected invalid dimensions, got {:?}", other),
    }
    match error_of_validation(&ValidationError::MissingDimensions(MissingDim::Height)) {
        Error::InvalidDimensions(m) => assert_eq!(m, "missing image.height"),
        other => panic!("expected invalid dimensions, got {:?}", other),
    }
    assert!(matches!(
        error_of_validation(&ValidationError::Overflow),
        Error::InvalidBuffer(_)
    ));
}

#[test]
fn verbosity_gates_have_three_levels() {
    assert!(!info_enabled(false, 0));
    assert!(info_enabled(false, 1));
    assert!(info_enabled(true, 0));

    assert_eq!(warn_detail(false, 0), WarnDetail::Silent);
    assert_eq!(warn_detail(false, 1), WarnDetail::Summary);
    assert_eq!(warn_detail(false, 2), WarnDetail::WithCause);
    assert_eq!(warn_detail(true, 0), WarnDetail::WithCause);

    assert!(!cause_chain_enabled(false, 1));
    assert!(cause_chain_enabled(false, 2));
    assert!(cause_chain_enabled(true, 0));
}
