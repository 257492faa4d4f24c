use elliot::{ActorRefGone, Error, Failure, NoActorRef, Stopped};
use std::error::Error as StdError;

#[test]
fn no_actor_ref_displays_its_reason() {
    assert_eq!(NoActorRef.to_string(), "No actor refs are alive, stopping actor");
    assert_eq!(format!("{:?}", NoActorRef), "NoActorRef");
}

#[test]
fn stopped_displays_its_reason() {
    assert_eq!(Stopped.to_string(), "Actor stopped on its own volition");
    assert_eq!(format!("{:?}", Stopped), "Stopped");
}

#[test]
fn actor_ref_gone_displays_its_reason_and_hides_the_message() {
    let gone = ActorRefGone(7u8);
    assert_eq!(gone.to_string(), "The recipient ActorRef is no longer available");
    assert_eq!(format!("{:?}", gone), "Unhandled { .. }");
    assert_eq!(format!("{:#?}", gone), "Unhandled { .. }");
    assert_eq!(format!("{:>20?}|", gone), "Unhandled { .. }|");
    assert_eq!(gone.0, 7);
    assert_eq!(gone.clone().0, 7);
}

#[test]
fn display_pads_to_the_width_asked_for() {
    assert_eq!(format!("{:>36}|", Stopped), "   Actor stopped on its own volition|");
    assert_eq!(format!("{:.5}", NoActorRef), "No ac");
}

#[test]
fn error_displays_as_its_variant_does() {
    let abandoned: Error<u8> = Error::NoActorRef(NoActorRef);
    assert_eq!(abandoned.to_string(), "No actor refs are alive, stopping actor");
    assert_eq!(format!("{:?}", abandoned), "NoActorRef");
    let stopped: Error<u8> = Error::Stopped(Stopped);
    assert_eq!(stopped.to_string(), "Actor stopped on its own volition");
    assert_eq!(format!("{:?}", stopped), "Stopped");
    let unhandled: Error<u8> = Error::Unhandled(ActorRefGone(1));
    assert_eq!(unhandled.to_string(), "The recipient ActorRef is no longer available");
    assert_eq!(format!("{:?}", unhandled), "Unhandled { .. }");
}

#[test]
fn crashed_error_shows_the_failure_it_carries() {
    let crashed: Error<u8> = Error::Crashed(Box::new(std::fmt::Error));
    assert_eq!(
        crashed.to_string(),
        "Error while handling the message: an error occurred when formatting an argument"
    );
    assert_eq!(format!("{:?}", crashed), "Crashed(Error)");
}

#[test]
fn every_value_that_can_be_shown_is_a_handler_error() {
    assert_eq!(Failure::message(&17u8), "17");
    assert_eq!(Failure::detail(&"seventeen"), "\"seventeen\"");
    assert_eq!(Failure::message(&Stopped), "Actor stopped on its own volition");
    assert_eq!(Failure::detail(&Stopped), "Stopped");
}

#[test]
fn the_library_errors_are_std_errors_without_a_source() {
    let errors: Vec<Box<dyn StdError>> = vec![
        Box::new(NoActorRef),
        Box::new(Stopped),
        Box::new(ActorRefGone(1u8)),
        Box::new(Error::<u8>::Stopped(Stopped)),
    ];
    for error in errors {
        assert!(error.source().is_none());
    }
}
