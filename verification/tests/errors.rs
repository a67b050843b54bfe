use crash_handling::signal_state::AltStackError;
use crash_handling::{crash_handler, exception_handler};

#[test]
fn crash_handler_error_messages() {
    assert_eq!(crash_handler::Error::OutOfMemory.message(), "unable to allocate memory");
    assert_eq!(crash_handler::Error::InvalidArgs.message(), "invalid arguments provided");
    assert_eq!(
        crash_handler::Error::HandlerAlreadyInstalled.message(),
        "an exception handler is already installed"
    );
    let fmt = crash_handler::Error::from(std::fmt::Error);
    assert!(matches!(fmt, crash_handler::Error::Format(_)));
    assert_eq!(fmt.message(), std::fmt::Error.to_string());
    let io = crash_handler::Error::from(std::io::Error::new(std::io::ErrorKind::Other, "boom"));
    assert!(matches!(io, crash_handler::Error::Io(_)));
    assert_eq!(io.message(), "boom");
}

#[test]
fn exception_handler_error_messages() {
    assert_eq!(exception_handler::Error::OutOfMemory.message(), "unable to allocate memory");
    assert_eq!(exception_handler::Error::InvalidArgs.message(), "invalid arguments provided");
    let fmt = exception_handler::Error::from(std::fmt::Error);
    assert!(matches!(fmt, exception_handler::Error::Format(_)));
    assert_eq!(fmt.message(), std::fmt::Error.to_string());
}

#[test]
fn failed_alternate_stack_is_out_of_memory() {
    assert!(matches!(
        crash_handling::crash_handler::Error::from(AltStackError::OutOfMemory),
        crash_handling::crash_handler::Error::OutOfMemory
    ));
}
