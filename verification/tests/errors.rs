use jvmti::errors::ContextError;
use jvmti::errors::Error;
use jvmti::errors::InvalidVariant;
use jvmti::errors::ItemError;
use jvmti::errors::JError;
use jvmti::errors::SupportError;
use jvmti::errors::UniversalError;
use jvmti::nonzero::NonZeroU8;
use jvmti::text::errormsg;
use jvmti::text::trim_ascii_str;

#[test]
fn zero_code_is_success() {
    assert_eq!(Error::code_to_result(0), Ok(()));
    assert!(matches!(Error::try_from_code(0), Err(InvalidVariant(0))));
}

#[test]
fn unknown_codes_keep_their_low_byte() {
    let e = Error::try_from_code(42).ok().unwrap();
    assert_eq!(e, Error::Unknown(NonZeroU8::new(42).unwrap()));
    assert_eq!(e.code(), 42);
    let e = Error::try_from_code(300).ok().unwrap();
    assert_eq!(e, Error::Unknown(NonZeroU8::new(44).unwrap()));
    assert_eq!(e.code(), 44);
    assert_eq!(u32::from(e), 44);
}

#[test]
fn readable_codes() {
    assert!(Error::is_readable_code(0));
    assert!(Error::is_readable_code(1));
    assert!(Error::is_readable_code(255));
    assert!(!Error::is_readable_code(256));
    assert!(!Error::is_readable_code(512));
    assert!(Error::is_readable_code(257));
}

#[test]
fn every_small_code_round_trips() {
    for code in 1u32..256 {
        let e = Error::try_from_code(code).ok().unwrap();
        assert_eq!(e.code(), code);
        assert_eq!(Error::code_to_result(code), Err(e));
    }
}

#[test]
fn known_errors_round_trip() {
    let e = Error::Support(SupportError::NotAvailable);
    assert_eq!(Error::try_from_code(e.code()).ok(), Some(e));
    let e = Error::Item(ItemError::NativeMethod);
    assert_eq!(Error::try_from_code(e.code()).ok(), Some(e));
}

#[test]
fn error_text() {
    let e = Error::Unknown(NonZeroU8::new(42).unwrap());
    assert_eq!(e.to_string(), "unknown error code: 42");
    let e = Error::Unknown(NonZeroU8::new(7).unwrap());
    assert_eq!(e.to_string(), "unknown error code: 7");
    let e = Error::Unknown(NonZeroU8::new(255).unwrap());
    assert_eq!(e.to_string(), "unknown error code: 255");
    let e = Error::Universal(UniversalError::Internal);
    assert_eq!(e.to_string(), "General JVMTI failure");
}

#[test]
fn jerror_text() {
    let e = JError::from(Error::Universal(UniversalError::Internal));
    assert_eq!(e.to_string(), "JVMTI error");
    assert!(matches!(e, JError::JVMTI(Error::Universal(UniversalError::Internal))));
    let e = JError::from(jni::errors::Error::NullPtr("env"));
    assert_eq!(e.to_string(), "JNI error");
}

#[test]
fn context_error_drops_data() {
    let e = ContextError { data: vec![1u8, 2, 3], error: SupportError::NotAvailable };
    assert_eq!(e.plain(), SupportError::NotAvailable);
}

#[test]
fn errormsg_trims_and_takes_first_sentence() {
    assert_eq!(errormsg("  Hello world.  More text. "), "Hello world");
    assert_eq!(errormsg("\t no stop here \n"), "no stop here");
    assert_eq!(errormsg("ends with stop."), "ends with stop");
    assert_eq!(errormsg("a.b. c"), "a.b. c");
    assert_eq!(errormsg("See e.g. this. And that."), "See e.g. this");
    assert_eq!(errormsg("Desired element (e.g. field or breakpoint) not found\n"), "Desired element (e.g. field or breakpoint) not found");
    assert_eq!(errormsg("x.y"), "x.y");
    assert_eq!(errormsg("See v1.2. Next"), "See v1.2");
    assert_eq!(errormsg("Use i.e. this. Then"), "Use i.e. this");
    assert_eq!(errormsg("e.g. first. second"), "e.g. first");
    assert_eq!(errormsg("Ends at 3.4."), "Ends at 3.4");
    assert_eq!(errormsg("version 1.2 is old"), "version 1.2 is old");
    assert_eq!(errormsg(""), "");
    assert_eq!(errormsg(" \n\t "), "");
    assert_eq!(errormsg(". x"), "");
    assert_eq!(errormsg("über. mehr"), "über");
}

#[test]
fn trim_ascii_matches_std() {
    for s in ["", "  ", " a ", "\r\nab\tc\x0c", "x", "  ü  "] {
        assert_eq!(trim_ascii_str(s), s.trim_ascii());
    }
}
