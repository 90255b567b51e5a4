use pjsip_realtime::account::{PjsipRealtimeAccount, PjsipRealtimeAccountWithExternalId, Timestamp};
use pjsip_realtime::enums::{AuthType, DtmfMode, MediaEncryption, RtpTimeout, TransportType, TurnOnOff};
use pjsip_realtime::errors::{InputField, RegistrationError, ValidationReason};
use pjsip_realtime::errors::DeletionError;
use pjsip_realtime::identity::{allocate_account_id, validate_account_id, validate_deletion_id};
use pjsip_realtime::profile::{build_profile, plan_account, plan_new_account};

fn request(transport: TransportType) -> PjsipRealtimeAccount {
    PjsipRealtimeAccount {
        username: "test_user".to_string(),
        password: "test_pass".to_string(),
        transport,
        context: "from-sipproxy".to_string(),
        from_domain: "test.com".to_string(),
        from_user: "test_user".to_string(),
        rtp_timeout: None,
        rtp_timeout_hold: None,
    }
}

#[test]
fn plain_transports_follow_the_audio_policy() {
    for t in [TransportType::Udp, TransportType::Tcp, TransportType::Tls] {
        let p = build_profile(&request(t), "test_id".to_string(), Timestamp { unix_micros: 7 });
        assert_eq!(p.account.id, "test_id");
        assert_eq!(p.credential.id, "test_id");
        assert_eq!(p.credential.auth_type, AuthType::Userpass);
        assert_eq!(p.credential.username, "test_user");
        assert_eq!(p.credential.password, "test_pass");
        assert_eq!(p.aor.id, "test_id");
        assert_eq!(p.aor.max_contacts, 5);
        assert_eq!(p.aor.remove_existing, TurnOnOff::Yes);
        assert_eq!(p.aor.remove_unavailable, TurnOnOff::Yes);
        assert_eq!(
            (p.aor.default_expiration, p.aor.minimum_expiration, p.aor.maximum_expiration),
            (60, 60, 90)
        );
        assert_eq!(p.aor.qualify_frequency, Some(10));
        assert_eq!(p.aor.qualify_timeout, Some(9));
        assert_eq!(p.endpoint.id, "test_id");
        assert_eq!(p.endpoint.aors, "test_id");
        assert_eq!(p.endpoint.auth, "test_id");
        assert_eq!(p.endpoint.transport, t);
        assert_eq!(p.endpoint.disallow, "all");
        assert_eq!(p.endpoint.allow, "ulaw,opus");
        assert_eq!(p.endpoint.direct_media, TurnOnOff::No);
        assert_eq!(p.endpoint.dtmf_mode, DtmfMode::Auto);
        assert_eq!(p.endpoint.media_encryption, MediaEncryption::No);
        assert_eq!(p.endpoint.rtp_symmetric, TurnOnOff::Yes);
        assert_eq!(p.endpoint.force_rport, TurnOnOff::Yes);
        assert_eq!(p.endpoint.rewrite_contact, TurnOnOff::Yes);
        assert_eq!(p.endpoint.ice_support, None);
        assert_eq!(p.endpoint.use_avpf, None);
        assert_eq!(p.endpoint.webrtc, None);
        assert_eq!(p.endpoint.max_audio_streams, None);
        assert_eq!(p.endpoint.max_video_streams, None);
        assert_eq!(p.endpoint.rtp_timeout, None);
        assert_eq!(p.endpoint.rtp_timeout_hold, None);
        assert_eq!(p.endpoint.context, "from-sipproxy");
        assert_eq!(p.endpoint.from_domain, "test.com");
    }
}

#[test]
fn browser_transports_follow_the_webrtc_policy() {
    for t in [TransportType::Ws, TransportType::Wss] {
        let p = build_profile(&request(t), "test_id".to_string(), Timestamp { unix_micros: 7 });
        assert_eq!(p.aor.max_contacts, 1);
        assert_eq!(
            (p.aor.default_expiration, p.aor.minimum_expiration, p.aor.maximum_expiration),
            (3600, 60, 7200)
        );
        assert_eq!(p.aor.qualify_frequency, None);
        assert_eq!(p.aor.qualify_timeout, None);
        assert_eq!(p.endpoint.allow, "opus,ulaw,alaw,vp8,h264");
        assert_eq!(p.endpoint.dtmf_mode, DtmfMode::Rfc4733);
        assert_eq!(p.endpoint.media_encryption, MediaEncryption::Dtls);
        assert_eq!(p.endpoint.ice_support, Some(TurnOnOff::Yes));
        assert_eq!(p.endpoint.use_avpf, Some(TurnOnOff::Yes));
        assert_eq!(p.endpoint.webrtc, Some(TurnOnOff::Yes));
        assert_eq!(p.endpoint.max_audio_streams, Some(1));
        assert_eq!(p.endpoint.max_video_streams, Some(1));
        assert_eq!(p.endpoint.rtp_timeout, Some(RtpTimeout::Sixty));
        assert_eq!(p.endpoint.rtp_timeout_hold, Some(RtpTimeout::ThreeHundred));
        assert_eq!(p.endpoint.transport, t);
    }
}

#[test]
fn browser_rtp_timeouts_can_be_overridden() {
    let mut req = request(TransportType::Ws);
    req.rtp_timeout = Some(RtpTimeout::ThreeHundred);
    req.rtp_timeout_hold = Some(RtpTimeout::SixHundred);
    let p = build_profile(&req, "test_id".to_string(), Timestamp { unix_micros: 0 });
    assert_eq!(p.endpoint.rtp_timeout.map(|t| t.seconds()), Some(300));
    assert_eq!(p.endpoint.rtp_timeout_hold.map(|t| t.seconds()), Some(600));
    // plain transports never carry them
    let mut udp = request(TransportType::Udp);
    udp.rtp_timeout = Some(RtpTimeout::ThreeHundred);
    let q = build_profile(&udp, "test_id".to_string(), Timestamp { unix_micros: 0 });
    assert_eq!(q.endpoint.rtp_timeout, None);
}

#[test]
fn builder_stamps_the_account() {
    let p = build_profile(&request(TransportType::Tls), "x".to_string(), Timestamp { unix_micros: 42 });
    assert_eq!(p.account.created_at, Timestamp { unix_micros: 42 });
    assert_eq!(p.account.updated_at, Timestamp { unix_micros: 42 });
    assert_eq!(p.account.transport, TransportType::Tls);
    assert_eq!(p.account.password, "test_pass");
}

#[test]
fn plan_checks_id_before_username() {
    let mut req = request(TransportType::Udp);
    req.username = String::new();
    let r = plan_account(&req, String::new(), Timestamp { unix_micros: 0 });
    assert!(matches!(
        r,
        Err(RegistrationError::ValidationError(InputField::Id, ValidationReason::Empty))
    ));
    let r = plan_account(&req, "ok".to_string(), Timestamp { unix_micros: 0 });
    assert!(matches!(
        r,
        Err(RegistrationError::ValidationError(InputField::Username, ValidationReason::Empty))
    ));
}

#[test]
fn plan_new_account_generates_or_keeps_the_id() {
    let req = request(TransportType::Udp);
    let p = plan_new_account(&req, None).unwrap();
    assert_eq!(p.account.id.len(), 26);
    assert_eq!(p.endpoint.auth, p.account.id);
    let q = plan_new_account(&req, Some("given".to_string())).unwrap();
    assert_eq!(q.account.id, "given");
    assert!(plan_new_account(&req, Some(String::new())).is_err());
}

#[test]
fn id_validation_bounds() {
    assert!(matches!(
        validate_account_id(""),
        Err(RegistrationError::ValidationError(InputField::Id, ValidationReason::Empty))
    ));
    assert!(validate_account_id("a").is_ok());
    assert!(validate_account_id(&"é".repeat(40)).is_ok());
    assert!(matches!(
        validate_account_id(&"9".repeat(41)),
        Err(RegistrationError::ValidationError(InputField::Id, ValidationReason::TooLong))
    ));
}

fn crockford_number(s: &str) -> u64 {
    const ALPHABET: &str = "0123456789ABCDEFGHJKMNPQRSTVWXYZ";
    s.chars().fold(0, |n, c| n * 32 + ALPHABET.find(c).unwrap() as u64)
}

#[test]
fn allocation_keeps_a_supplied_id_and_generates_otherwise() {
    let now = Timestamp { unix_micros: 1_700_000_000_123_456 };
    assert_eq!(
        allocate_account_id(Some("01HX1234567890ABCDEFGHIJK9".to_string()), now).unwrap(),
        "01HX1234567890ABCDEFGHIJK9"
    );
    let a = allocate_account_id(None, now).unwrap();
    let b = allocate_account_id(None, now).unwrap();
    assert_eq!(a.len(), 26);
    assert_ne!(a, b);
    assert!(allocate_account_id(Some(String::new()), now).is_err());
}

#[test]
fn generated_ids_carry_their_creation_time() {
    let a = allocate_account_id(None, Timestamp { unix_micros: 1_700_000_000_123_456 }).unwrap();
    assert_eq!(crockford_number(&a[..10]), 1_700_000_000_123);
    let b = allocate_account_id(None, Timestamp { unix_micros: 1_700_000_000_124_000 }).unwrap();
    assert_eq!(crockford_number(&b[..10]), 1_700_000_000_124);
    assert!(a < b);
    let early = allocate_account_id(None, Timestamp { unix_micros: -5 }).unwrap();
    assert_eq!(&early[..10], "0000000000");
}

#[test]
fn deletion_id_must_not_be_empty() {
    assert!(matches!(validate_deletion_id(""), Err(DeletionError::IdNotSpecified)));
    assert!(validate_deletion_id("01HX1234567890ABCDEFGHIJK9").is_ok());
}

#[test]
fn external_id_request_splits_into_id_and_account() {
    let req = PjsipRealtimeAccountWithExternalId {
        id: "01HX1234567890ABCDEFGHIJK9".to_string(),
        username: "external_id_test_user".to_string(),
        password: "test_password_123".to_string(),
        transport: TransportType::Udp,
        context: "from-sipproxy".to_string(),
        from_domain: "test.example.com".to_string(),
        from_user: "external_id_test_user".to_string(),
        rtp_timeout: None,
        rtp_timeout_hold: Some(RtpTimeout::Zero),
    };
    let (id, account) = req.into_parts();
    assert_eq!(id, "01HX1234567890ABCDEFGHIJK9");
    assert_eq!(account.username, "external_id_test_user");
    assert_eq!(account.from_domain, "test.example.com");
    assert_eq!(account.rtp_timeout_hold, Some(RtpTimeout::Zero));
}
