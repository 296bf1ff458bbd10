use audio_cpp::{pulled_event, scoped_callback_outcome, Error, SessionSupport};

#[test]
fn offline_gate() {
    let offline_only = SessionSupport { offline: true, streaming: false };
    assert_eq!(offline_only.require_offline(), Ok(()));
    assert_eq!(
        offline_only.require_streaming(),
        Err(Error::Unsupported("session does not support streaming runs".to_string()))
    );
    assert!(!offline_only.clears_native_callback());
}

#[test]
fn streaming_gate() {
    let streaming_only = SessionSupport { offline: false, streaming: true };
    assert_eq!(streaming_only.require_streaming(), Ok(()));
    assert_eq!(
        streaming_only.require_offline(),
        Err(Error::Unsupported("session does not support offline runs".to_string()))
    );
    assert!(streaming_only.clears_native_callback());
}

#[test]
fn failing_to_clear_the_callback_wins() {
    let cleared: Result<(), Error> = Err(Error::Nul(0));
    assert_eq!(scoped_callback_outcome(Ok(5), cleared), Err(Error::Nul(0)));
    assert_eq!(scoped_callback_outcome(Ok(5), Ok(())), Ok(5));
    assert_eq!(
        scoped_callback_outcome::<u8>(Err(Error::Utf8(1)), Ok(())),
        Err(Error::Utf8(1))
    );
}

#[test]
fn pulled_event_without_event_is_none() {
    assert_eq!(pulled_event::<u8>(false, Err(Error::Utf8(0))), Ok(None));
    assert_eq!(pulled_event(true, Ok(7u8)), Ok(Some(7)));
    assert_eq!(pulled_event::<u8>(true, Err(Error::Utf8(2))), Err(Error::Utf8(2)));
}
