use mosquitto_rs::{ConnectionStatus, Error, MosqErr, ReasonCode};

#[test]
fn known_codes_round_trip() {
    for code in -4..=26 {
        let e = MosqErr::from_code(code).expect("known code");
        assert_eq!(e.code(), code);
    }
    assert_eq!(MosqErr::from_code(3), Some(MosqErr::Inval));
    assert_eq!(MosqErr::from_code(9), Some(MosqErr::PayloadSize));
    assert_eq!(MosqErr::from_code(26), Some(MosqErr::Ocsp));
    assert_eq!(MosqErr::from_code(-4), Some(MosqErr::AuthContinue));
}

#[test]
fn unknown_codes() {
    assert_eq!(MosqErr::from_code(27), None);
    assert_eq!(MosqErr::from_code(-5), None);
    assert_eq!(Error::from_err(27, 0), Error::UnknownMosq(27));
    assert_eq!(Error::from_err(-100, 0), Error::UnknownMosq(-100));
}

#[test]
fn errno_and_resolution_codes() {
    assert_eq!(Error::from_err(14, 111), Error::IO(111));
    assert_eq!(Error::from_err(15, -2), Error::Resolution(-2));
    assert_eq!(Error::from_err(4, 111), Error::Mosq(MosqErr::NoConn));
}

#[test]
fn result_of_codes() {
    assert_eq!(Error::result(0, 5, 42), Ok(42));
    assert_eq!(Error::result(3, 0, 42), Err(Error::Mosq(MosqErr::Inval)));
    assert_eq!(Error::result(7, 0, ()), Err(Error::Mosq(MosqErr::ConnLost)));
}

#[test]
fn statuses() {
    assert!(ConnectionStatus(0).is_successful());
    assert!(!ConnectionStatus(5).is_successful());
    assert!(!ConnectionStatus(135).is_successful());
    assert!(!ReasonCode(0).is_unexpected_disconnect());
    assert!(ReasonCode(7).is_unexpected_disconnect());
}
