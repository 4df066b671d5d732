use lock_errors::{Error, Grab, IoFailure, Locker};

#[test]
fn locker_display_rendering() {
    let error = Error::from(Locker::Display);
    assert!(matches!(error, Error::Locker(Locker::Display)));
    assert_eq!(error.description(), "No display found.");
}

#[test]
fn locker_visual_rendering() {
    let error = Error::from(Locker::Visual);
    assert!(matches!(error, Error::Locker(Locker::Visual)));
    assert_eq!(error.description(), "No proper visual found.");
}

#[test]
fn locker_im_rendering() {
    let error = Error::from(Locker::IM);
    assert!(matches!(error, Error::Locker(Locker::IM)));
    assert_eq!(error.description(), "No proper IM found.");
}

#[test]
fn locker_ic_rendering() {
    let error = Error::from(Locker::IC);
    assert!(matches!(error, Error::Locker(Locker::IC)));
    assert_eq!(error.description(), "No proper IC found");
}

#[test]
fn grab_conflict_rendering() {
    let error = Error::from(Grab::Conflict);
    assert!(matches!(error, Error::Grab(Grab::Conflict)));
    assert_eq!(error.description(), "A grab is already present.");
}

#[test]
fn grab_frozen_rendering() {
    let error = Error::from(Grab::Frozen);
    assert!(matches!(error, Error::Grab(Grab::Frozen)));
    assert_eq!(error.description(), "The grab is frozen.");
}

#[test]
fn grab_unmapped_rendering() {
    let error = Error::from(Grab::Unmapped);
    assert!(matches!(error, Error::Grab(Grab::Unmapped)));
    assert_eq!(error.description(), "The grabbing window is not mapped.");
}

#[test]
fn parse_rendering() {
    assert_eq!(Error::Parse.description(), "Parse error.");
}

#[test]
fn io_custom_message_passes_through() {
    let cause = std::io::Error::new(std::io::ErrorKind::Other, "boom");
    let expected = cause.to_string();
    let error = Error::from_io(cause);
    assert!(matches!(error, Error::Io(_)));
    assert_eq!(error.description(), expected);
}

#[test]
fn io_not_found_passes_through() {
    let cause = std::io::Error::from(std::io::ErrorKind::NotFound);
    let expected = cause.to_string();
    let error = Error::from_io(cause);
    assert!(matches!(error, Error::Io(_)));
    assert_eq!(error.description(), expected);
}

#[test]
fn io_text_is_kept_unmodified() {
    let error = Error::from_io_text(String::from("disk on fire"));
    assert_eq!(error.description(), "disk on fire");
}

#[test]
fn rendering_is_deterministic() {
    let error = Error::from(Grab::Frozen);
    assert_eq!(error.description(), error.description());
    let io = Error::from_io_text(String::from("boom"));
    assert_eq!(io.description(), io.description());
}

#[test]
fn locker_kinds_stay_distinguishable() {
    assert_ne!(Locker::Display, Locker::Visual);
    let display = Error::from(Locker::Display);
    let visual = Error::from(Locker::Visual);
    match (display, visual) {
        (Error::Locker(a), Error::Locker(b)) => assert_ne!(a, b),
        _ => panic!("conversion left the Locker category"),
    }
}

#[test]
fn grab_kinds_stay_distinguishable() {
    assert_ne!(Grab::Conflict, Grab::Frozen);
    let conflict = Error::from(Grab::Conflict);
    let frozen = Error::from(Grab::Frozen);
    match (conflict, frozen) {
        (Error::Grab(a), Error::Grab(b)) => assert_ne!(a, b),
        _ => panic!("conversion left the Grab category"),
    }
}

#[test]
fn structural_rendering_names_the_variant() {
    assert_eq!(format!("{:?}", Error::Parse), "Parse");
    assert_eq!(format!("{:?}", Error::from(Locker::Display)), "Locker(Display)");
    assert_eq!(format!("{:?}", Error::from(Grab::Frozen)), "Grab(Frozen)");
    let io = Error::Io(IoFailure { text: String::from("boom") });
    assert_eq!(format!("{:?}", io), "Io(IoFailure { text: \"boom\" })");
}

#[test]
fn outcome_carries_the_error() {
    let failed: lock_errors::Outcome<u32> = Err(Error::from(Locker::IM));
    match failed {
        Ok(_) => panic!("expected a failure"),
        Err(error) => assert_eq!(error.description(), "No proper IM found."),
    }
    let succeeded: lock_errors::Outcome<u32> = Ok(7);
    assert_eq!(succeeded.unwrap(), 7);
}
