use backoff::Error;
use backoff::SimpleError;
use backoff::UnderlyingError;

use instant::Duration;

fn simple(message: &str) -> SimpleError {
    SimpleError { message: message.to_string(), source: None }
}

fn simple_with_source(message: &str, source: &str) -> SimpleError {
    SimpleError { message: message.to_string(), source: Some(source.to_string()) }
}

#[test]
fn default_conversion_is_transient() {
    let w: Error<SimpleError> = Error::from(simple("boom"));
    assert!(matches!(w, Error::Transient(_, None)));
}

fn fallible() -> Result<(), SimpleError> {
    Err(simple("boom"))
}

fn wrapped() -> Result<(), Error<SimpleError>> {
    fallible()?;
    Ok(())
}

#[test]
fn question_mark_converts_to_transient() {
    let w = wrapped().unwrap_err();
    assert!(matches!(w, Error::Transient(_, None)));
}

#[test]
fn converted_error_has_absent_delay() {
    let w: Error<SimpleError> = Error::from(simple("slow down"));
    match w {
        Error::Transient(e, delay) => {
            assert_eq!(e.message, "slow down");
            assert!(delay.is_none());
        }
        Error::Permanent(_) => panic!("default conversion must be transient"),
    }
}

#[test]
fn display_matches_underlying_for_both_variants() {
    let permanent = Error::Permanent(simple("out of disk"));
    let transient = Error::Transient(simple("out of disk"), None);
    let delayed = Error::Transient(simple("out of disk"), Some(Duration::from_secs(1)));
    assert_eq!(permanent.display_text(), "out of disk");
    assert_eq!(transient.display_text(), "out of disk");
    assert_eq!(delayed.display_text(), "out of disk");
    assert_eq!(permanent.display_text(), simple("out of disk").display_text());
}

#[test]
fn debug_names_variant_and_omits_delay() {
    let permanent = Error::Permanent(simple("boom"));
    assert_eq!(permanent.debug_text(), "Permanent(SimpleError(\"boom\"))");
    let transient = Error::Transient(simple("boom"), None);
    assert_eq!(transient.debug_text(), "Transient(SimpleError(\"boom\"))");
    let delayed = Error::Transient(simple("boom"), Some(Duration::from_secs(3)));
    assert_eq!(delayed.debug_text(), "Transient(SimpleError(\"boom\"))");
    assert_eq!(transient.debug_text(), delayed.debug_text());
}

#[test]
fn source_is_underlying_source() {
    let rooted = Error::Permanent(simple_with_source("request failed", "dns lookup failed"));
    assert_eq!(rooted.source_text(), Some("dns lookup failed".to_string()));
    assert_eq!(rooted.cause_text(), Some("dns lookup failed".to_string()));

    let rootless = Error::Transient(simple("request failed"), Some(Duration::from_secs(2)));
    assert_eq!(rootless.source_text(), None);
    assert_eq!(rootless.cause_text(), None);
}

#[test]
fn rewrap_round_trip_is_observably_identical() {
    let original = Error::Transient(
        simple_with_source("request failed", "dns lookup failed"),
        Some(Duration::from_secs(7)),
    );
    let display = original.display_text();
    let debug = original.debug_text();
    let source = original.source_text();
    let rewrapped = match original {
        Error::Transient(e, d) => Error::Transient(e, d),
        Error::Permanent(e) => Error::Permanent(e),
    };
    assert_eq!(rewrapped.display_text(), display);
    assert_eq!(rewrapped.debug_text(), debug);
    assert_eq!(rewrapped.source_text(), source);
    assert!(matches!(rewrapped, Error::Transient(_, Some(d)) if d == Duration::from_secs(7)));
}

#[test]
fn connection_refused_scenario() {
    let w = Error::Permanent(simple("connection refused"));
    assert_eq!(w.display_text(), "connection refused");
    assert_eq!(w.debug_text(), "Permanent(SimpleError(\"connection refused\"))");
    assert_eq!(w.source_text(), None);
}

#[test]
fn explicit_delay_preserved_exactly() {
    let w = Error::Transient(simple("too many requests"), Some(Duration::from_secs(5)));
    match w {
        Error::Transient(_, Some(delay)) => {
            assert_eq!(delay, Duration::from_secs(5));
            assert_eq!(delay.as_secs(), 5);
            assert_eq!(delay.subsec_nanos(), 0);
        }
        _ => panic!("explicit delay must survive construction and field access"),
    }
}

#[test]
fn description_is_fixed_per_variant() {
    let permanent = Error::Permanent(simple("boom"));
    assert_eq!(permanent.description(), "permanent error");
    let transient = Error::Transient(simple("boom"), None);
    assert_eq!(transient.description(), "transient error");
    let delayed = Error::Transient(simple("boom"), Some(Duration::from_secs(1)));
    assert_eq!(delayed.description(), "transient error");
}
