use async_rt::executor::task::JoinError;

#[test]
fn cancelled_is_cancelled() {
    let e: JoinError<&'static str> = JoinError::cancelled();
    assert!(e.is_cancelled());
    assert!(!e.is_panic());
    assert_eq!(e.to_string(), "cancelled");
    assert_eq!(e.io_message(), "task was cancelled");
}

#[test]
fn panic_is_panic_and_keeps_its_payload() {
    let e = JoinError::panic("boom");
    assert!(e.is_panic());
    assert!(!e.is_cancelled());
    assert_eq!(e.to_string(), "panic");
    assert_eq!(e.io_message(), "task panicked");
    assert_eq!(e.into_panic(), "boom");
}

#[test]
fn try_into_panic_gives_the_payload() {
    let e = JoinError::panic(String::from("boom"));
    match e.try_into_panic() {
        Ok(p) => assert_eq!(p, "boom"),
        Err(_) => panic!("a panic error holds a payload"),
    }
}

#[test]
fn try_into_panic_hands_a_cancelled_error_back() {
    let e: JoinError<u32> = JoinError::cancelled();
    match e.try_into_panic() {
        Ok(_) => panic!("a cancelled error holds no payload"),
        Err(e) => assert!(e.is_cancelled()),
    }
}
