use mosquitto_rs::command::{
    check_connect, check_loop_timeout, check_optional_text, check_pattern, check_publish,
    check_reconnect_delay, check_text, MQTT_MAX_PAYLOAD,
};
use mosquitto_rs::{ClientOption, Error, MosqErr, MosqOpt, OptionValue, ProtocolVersion, QoS};

#[test]
fn text_with_nul_is_refused() {
    assert_eq!(check_text("hello"), Ok(()));
    assert_eq!(check_text(""), Ok(()));
    assert_eq!(check_text("he\0llo"), Err(Error::CString));
    assert_eq!(check_optional_text(None), Ok(()));
    assert_eq!(check_optional_text(Some("user")), Ok(()));
    assert_eq!(check_optional_text(Some("\0")), Err(Error::CString));
}

#[test]
fn publish_checks() {
    assert_eq!(check_publish("test/this", 4), Ok(4));
    assert_eq!(check_publish("t", 0), Ok(0));
    assert_eq!(check_publish("t", MQTT_MAX_PAYLOAD), Ok(268435455));
    assert_eq!(
        check_publish("t", MQTT_MAX_PAYLOAD + 1),
        Err(Error::Mosq(MosqErr::PayloadSize))
    );
    assert_eq!(check_publish("", 4), Err(Error::Mosq(MosqErr::Inval)));
    assert_eq!(check_publish("a\0b", 4), Err(Error::CString));
    assert_eq!(check_publish("a\0b", usize::MAX), Err(Error::CString));
}

#[test]
fn pattern_checks() {
    assert_eq!(check_pattern("test/#"), Ok(()));
    assert_eq!(check_pattern(""), Err(Error::Mosq(MosqErr::Inval)));
    assert_eq!(check_pattern("te\0st"), Err(Error::CString));
}

#[test]
fn connect_checks() {
    assert_eq!(check_connect("localhost", 5, None), Ok(5));
    assert_eq!(check_connect("localhost", 60, Some("0.0.0.0")), Ok(60));
    assert_eq!(check_connect("localhost", 4, None), Err(Error::Mosq(MosqErr::Inval)));
    assert_eq!(
        check_connect("localhost", i32::MAX as u64 + 1, None),
        Err(Error::Mosq(MosqErr::Inval))
    );
    assert_eq!(check_connect("local\0host", 60, None), Err(Error::CString));
    assert_eq!(check_connect("localhost", 60, Some("\0")), Err(Error::CString));
}

#[test]
fn conversions() {
    assert_eq!(check_reconnect_delay(1, 30), Ok((1, 30)));
    assert_eq!(
        check_reconnect_delay(u32::MAX as u64 + 1, 30),
        Err(Error::Mosq(MosqErr::Inval))
    );
    assert_eq!(check_loop_timeout(1000), Ok(1000));
    assert_eq!(
        check_loop_timeout(i32::MAX as u128 + 1),
        Err(Error::Mosq(MosqErr::Inval))
    );
}

#[test]
fn qos_and_versions() {
    assert_eq!(QoS::from_int(0), QoS::AtMostOnce);
    assert_eq!(QoS::from_int(1), QoS::AtLeastOnce);
    assert_eq!(QoS::from_int(2), QoS::ExactlyOnce);
    assert_eq!(QoS::from_int(7), QoS::ExactlyOnce);
    assert_eq!(QoS::ExactlyOnce.code(), 2);
    assert_eq!(QoS::default(), QoS::AtMostOnce);
    assert_eq!(ProtocolVersion::default(), ProtocolVersion::V31);
    assert_eq!(ProtocolVersion::V311.code(), 4);
    assert_eq!(ProtocolVersion::V5.code(), 5);
}

#[test]
fn option_settings() {
    assert_eq!(
        ClientOption::ProtocolVersion(ProtocolVersion::V5).setting(),
        (MosqOpt::ProtocolVersion, OptionValue::Int(5))
    );
    assert_eq!(
        ClientOption::ReceiveMaximum(65535).setting(),
        (MosqOpt::ReceiveMaximum, OptionValue::Int(65535))
    );
    assert_eq!(
        ClientOption::SendMaximum(20).setting(),
        (MosqOpt::SendMaximum, OptionValue::Int(20))
    );
    assert_eq!(
        ClientOption::OcspRequired(true).setting(),
        (MosqOpt::TlsOcspRequired, OptionValue::Int(1))
    );
    assert_eq!(
        ClientOption::OcspRequired(false).setting(),
        (MosqOpt::TlsOcspRequired, OptionValue::Int(0))
    );
    assert_eq!(
        ClientOption::TlsKeyForm("pem").setting(),
        (MosqOpt::TlsKeyform, OptionValue::Text("pem"))
    );
    assert_eq!(
        ClientOption::TlsALPN("mqtt").setting(),
        (MosqOpt::TlsAlpn, OptionValue::Text("mqtt"))
    );
    assert_eq!(MosqOpt::TlsAlpn.code(), 10);
    assert_eq!(MosqOpt::ProtocolVersion.code(), 1);
}
