use midi_file::{Defect, Error, ErrorKind, Feature};

#[test]
fn invalid_file_macros_test_no_message() {
    fn foo() -> Result<u64, Error> {
        Err(Error::new(ErrorKind::InvalidFile(Defect::Described)))
    }
    let result = foo();
    assert!(result.is_err());
    let message = format!("{}", result.err().unwrap().message());
    assert!(message.as_str().contains("The MIDI file is invalid"));
}

#[test]
fn invalid_file_macros_test_message() {
    fn foo() -> Result<u64, Error> {
        let flerbin = String::from("flerbin");
        Err(Error::invalid_file(flerbin.as_str()))
    }
    let result = foo();
    assert!(result.is_err());
    let message = format!("{}", result.err().unwrap().message());
    assert!(message.as_str().contains("flerbin"));
}

#[test]
fn invalid_file_macros_test_fmt() {
    fn foo() -> Result<u64, Error> {
        Err(Error::invalid_file(
            format!("hello {}, {}", "world", String::from("foo")).as_str(),
        ))
    }
    let result = foo();
    assert!(result.is_err());
    let message = format!("{}", result.err().unwrap().message());
    assert!(message.as_str().contains("hello world, foo"));
}

#[test]
fn messages_of_the_other_kinds_are_their_descriptions() {
    let e = Error::new(ErrorKind::NotImplemented(Feature::Sysex));
    assert_eq!("not implemented", e.message());
    assert_eq!(ErrorKind::NotImplemented(Feature::Sysex), e.kind());
    let e = Error::new(ErrorKind::InvalidFile(Defect::EarlyEndOfTrack));
    assert_eq!(
        "The MIDI file is invalid: EndOfTrack event before end of track bytes",
        e.message()
    );
    let e = Error::invalid_file("[no description]");
    assert_eq!(ErrorKind::InvalidFile(Defect::Described), e.kind());
    assert_eq!("[no description]", e.description());
}
