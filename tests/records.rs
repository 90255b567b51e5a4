use pjsip_realtime::account::{decode_rows, AccountRow, PjsipRealtimeAccountWithId, Timestamp};
use pjsip_realtime::enums::{AuthType, DtmfMode, MediaEncryption, RtpTimeout, TransportType, TurnOnOff};
use pjsip_realtime::errors::{DeletionError, InputField, RegistrationError, StoreFailure, ValidationReason};

fn account(transport: TransportType) -> PjsipRealtimeAccountWithId {
    PjsipRealtimeAccountWithId {
        id: "test_id".to_string(),
        username: "test_user".to_string(),
        password: "test_pass".to_string(),
        transport,
        context: "from-sipproxy".to_string(),
        from_domain: "test.com".to_string(),
        from_user: "test_user".to_string(),
        created_at: Timestamp { unix_micros: 1 },
        updated_at: Timestamp { unix_micros: 2 },
    }
}

#[test]
fn transport_texts() {
    let all = [
        (TransportType::Udp, "udp", "transport-udp"),
        (TransportType::Tcp, "tcp", "transport-tcp"),
        (TransportType::Tls, "tls", "transport-tls"),
        (TransportType::Ws, "ws", "transport-ws"),
        (TransportType::Wss, "wss", "transport-wss"),
    ];
    for (t, text, endpoint) in all {
        assert_eq!(t.as_str(), text);
        assert_eq!(t.endpoint_name(), endpoint);
        assert_eq!(TransportType::decode(text), t);
    }
    assert!(TransportType::Ws.is_ws() && TransportType::Wss.is_ws() && !TransportType::Tls.is_ws());
}

#[test]
fn unknown_transport_text_falls_back() {
    assert_eq!(TransportType::decode("transport-udp"), TransportType::Udp);
    assert_eq!(TransportType::decode("UDP"), TransportType::Udp);
    assert_eq!(TransportType::decode(""), TransportType::Udp);
}

#[test]
fn row_round_trip_for_every_transport() {
    for t in [TransportType::Udp, TransportType::Tcp, TransportType::Tls, TransportType::Ws, TransportType::Wss] {
        let a = account(t);
        let row = AccountRow::encode(&a);
        assert_eq!(row.transport, t.as_str());
        let back = row.decode();
        assert_eq!(back.transport, t);
        assert_eq!(back.id, a.id);
        assert_eq!(back.username, a.username);
        assert_eq!(back.created_at, a.created_at);
        assert_eq!(back.updated_at, a.updated_at);
    }
}

#[test]
fn rows_with_unknown_transport_still_decode_in_order() {
    let mut bad = AccountRow::encode(&account(TransportType::Wss));
    bad.transport = "carrier-pigeon".to_string();
    bad.id = "second".to_string();
    let good = AccountRow::encode(&account(TransportType::Tls));
    let out = decode_rows(vec![good, bad]);
    assert_eq!(out.len(), 2);
    assert_eq!(out[0].transport, TransportType::Tls);
    assert_eq!(out[1].transport, TransportType::Udp);
    assert_eq!(out[1].id, "second");
    assert!(decode_rows(Vec::new()).is_empty());
}

#[test]
fn stored_enum_texts() {
    assert_eq!(TurnOnOff::Zero.as_str(), "0");
    assert_eq!(TurnOnOff::One.as_str(), "1");
    assert_eq!(TurnOnOff::Yes.as_str(), "yes");
    assert_eq!(TurnOnOff::No.as_str(), "no");
    assert_eq!(TurnOnOff::On.as_str(), "on");
    assert_eq!(TurnOnOff::False.as_str(), "false");
    assert_eq!(AuthType::Userpass.as_str(), "userpass");
    assert_eq!(AuthType::GoogleOauth.as_str(), "google_oauth");
    assert_eq!(DtmfMode::Autoinfo.as_str(), "auto_info");
    assert_eq!(DtmfMode::Rfc4733.as_str(), "rfc4733");
    assert_eq!(MediaEncryption::Dtls.as_str(), "dtls");
    assert_eq!(MediaEncryption::No.as_str(), "no");
}

#[test]
fn rtp_timeout_seconds() {
    assert_eq!(RtpTimeout::from_seconds(300), Some(RtpTimeout::ThreeHundred));
    assert_eq!(RtpTimeout::from_seconds(600), Some(RtpTimeout::SixHundred));
    assert_eq!(RtpTimeout::from_seconds(0), Some(RtpTimeout::Zero));
    assert_eq!(RtpTimeout::from_seconds(301), None);
    for n in [0u32, 15, 30, 60, 90, 120, 180, 300, 600] {
        assert_eq!(RtpTimeout::from_seconds(n).unwrap().seconds(), n);
    }
}

#[test]
fn error_messages() {
    let e = RegistrationError::ValidationError(InputField::Id, ValidationReason::Empty);
    assert_eq!(e.message(), "Validation error: ID cannot be empty");
    let e = RegistrationError::ValidationError(InputField::Username, ValidationReason::Empty);
    assert_eq!(e.message(), "Validation error: Username cannot be empty");
    assert_eq!(RegistrationError::DuplicateError.message(), "Account with this ID or username already exists");
    assert_eq!(RegistrationError::InsertionFailed.message(), "Insertion failed");
    let e = RegistrationError::DatabaseError(StoreFailure::UniqueViolation("dup".to_string()));
    assert_eq!(e.message(), "Database error: dup");
    assert_eq!(DeletionError::NotFoundRecord.message(), "No record found for the given ID");
    assert_eq!(DeletionError::DeletionFailed.message(), "Deletion failed");
    assert_eq!(DeletionError::IdNotSpecified.message(), "Account ID not specified");
    assert_eq!(StoreFailure::Other("x".to_string()).detail(), "x");
}

#[test]
fn account_copy_is_equal_field_by_field() {
    let a = account(TransportType::Ws);
    let b = a.copy();
    assert_eq!(a.id, b.id);
    assert_eq!(a.from_user, b.from_user);
    assert_eq!(a.transport, b.transport);
    assert_eq!(a.created_at, b.created_at);
}
