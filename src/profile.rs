use crate::account::{current_timestamp, PjsipRealtimeAccount, PjsipRealtimeAccountWithId, Timestamp};
use crate::enums::{AuthType, DtmfMode, MediaEncryption, RtpTimeout, TransportType, TurnOnOff};
use crate::errors::{InputField, RegistrationError, ValidationReason};
use crate::identity::{
    allocate_account_id, id_check, id_time, id_time_of, is_generated_id, validate_account_id,
};
use vstd::prelude::*;

verus! {

/// Codecs refused before the allow-list applies.
pub const DISALLOWED_CODECS: &'static str = "all";

/// Codecs allowed on audio-only transports.
pub const AUDIO_CODECS: &'static str = "ulaw,opus";

/// Codecs allowed on browser transports.
pub const AUDIO_VIDEO_CODECS: &'static str = "opus,ulaw,alaw,vp8,h264";

/// RTP inactivity timeout of a browser endpoint whose request names none.
pub const DEFAULT_RTP_TIMEOUT: RtpTimeout = RtpTimeout::Sixty;

/// RTP inactivity timeout on hold of a browser endpoint whose request names none.
pub const DEFAULT_RTP_TIMEOUT_HOLD: RtpTimeout = RtpTimeout::ThreeHundred;

/// The authentication record of an account.
#[derive(Debug, Clone)]
pub struct PsAuth {
    pub id: String,
    pub auth_type: AuthType,
    pub username: String,
    pub password: String,
}

/// The address-of-record (registration policy) of an account.
#[derive(Debug, Clone)]
pub struct PsAor {
    pub id: String,
    pub max_contacts: u32,
    pub remove_existing: TurnOnOff,
    pub remove_unavailable: TurnOnOff,
    pub default_expiration: u32,
    pub minimum_expiration: u32,
    pub maximum_expiration: u32,
    pub qualify_frequency: Option<u32>,
    pub qualify_timeout: Option<u32>,
}

/// The endpoint (media and transport policy) of an account.
#[derive(Debug, Clone)]
pub struct PsEndpoint {
    pub id: String,
    pub transport: TransportType,
    pub aors: String,
    pub auth: String,
    pub context: String,
    pub disallow: &'static str,
    pub allow: &'static str,
    pub direct_media: TurnOnOff,
    pub dtmf_mode: DtmfMode,
    pub force_rport: TurnOnOff,
    pub rewrite_contact: TurnOnOff,
    pub rtp_symmetric: TurnOnOff,
    pub media_encryption: MediaEncryption,
    pub from_domain: String,
    pub from_user: String,
    pub ice_support: Option<TurnOnOff>,
    pub use_avpf: Option<TurnOnOff>,
    pub webrtc: Option<TurnOnOff>,
    pub max_audio_streams: Option<u32>,
    pub max_video_streams: Option<u32>,
    pub rtp_timeout: Option<RtpTimeout>,
    pub rtp_timeout_hold: Option<RtpTimeout>,
}

/// The four records that one account is stored as; they share one id.
#[derive(Debug, Clone)]
pub struct AccountProfile {
    pub account: PjsipRealtimeAccountWithId,
    pub credential: PsAuth,
    pub aor: PsAor,
    pub endpoint: PsEndpoint,
}

pub open spec fn account_for(req: PjsipRealtimeAccount, id: String, now: Timestamp)
    -> PjsipRealtimeAccountWithId
{
    PjsipRealtimeAccountWithId {
        id,
        username: req.username,
        password: req.password,
        transport: req.transport,
        context: req.context,
        from_domain: req.from_domain,
        from_user: req.from_user,
        created_at: now,
        updated_at: now,
    }
}

pub open spec fn credential_for(req: PjsipRealtimeAccount, id: String) -> PsAuth {
    PsAuth { id, auth_type: AuthType::Userpass, username: req.username, password: req.password }
}

/// Registration policy by transport.
pub open spec fn aor_for(t: TransportType, id: String) -> PsAor {
    if t.is_websocket() {
        PsAor {
            id,
            max_contacts: 1,
            remove_existing: TurnOnOff::Yes,
            remove_unavailable: TurnOnOff::Yes,
            default_expiration: 3600,
            minimum_expiration: 60,
            maximum_expiration: 7200,
            qualify_frequency: None,
            qualify_timeout: None,
        }
    } else {
        PsAor {
            id,
            max_contacts: 5,
            remove_existing: TurnOnOff::Yes,
            remove_unavailable: TurnOnOff::Yes,
            default_expiration: 60,
            minimum_expiration: 60,
            maximum_expiration: 90,
            qualify_frequency: Some(10),
            qualify_timeout: Some(9),
        }
    }
}

/// Media and transport policy by transport.
pub open spec fn endpoint_for(req: PjsipRealtimeAccount, id: String) -> PsEndpoint {
    let ws = req.transport.is_websocket();
    PsEndpoint {
        id,
        transport: req.transport,
        aors: id,
        auth: id,
        context: req.context,
        disallow: DISALLOWED_CODECS,
        allow: if ws { AUDIO_VIDEO_CODECS } else { AUDIO_CODECS },
        direct_media: TurnOnOff::No,
        dtmf_mode: if ws { DtmfMode::Rfc4733 } else { DtmfMode::Auto },
        force_rport: TurnOnOff::Yes,
        rewrite_contact: TurnOnOff::Yes,
        rtp_symmetric: TurnOnOff::Yes,
        media_encryption: if ws { MediaEncryption::Dtls } else { MediaEncryption::No },
        from_domain: req.from_domain,
        from_user: req.from_user,
        ice_support: if ws { Some(TurnOnOff::Yes) } else { None },
        use_avpf: if ws { Some(TurnOnOff::Yes) } else { None },
        webrtc: if ws { Some(TurnOnOff::Yes) } else { None },
        max_audio_streams: if ws { Some(1u32) } else { None },
        max_video_streams: if ws { Some(1u32) } else { None },
        rtp_timeout: if ws {
            Some(
                match req.rtp_timeout {
                    Some(t) => t,
                    None => DEFAULT_RTP_TIMEOUT,
                },
            )
        } else {
            None
        },
        rtp_timeout_hold: if ws {
            Some(
                match req.rtp_timeout_hold {
                    Some(t) => t,
                    None => DEFAULT_RTP_TIMEOUT_HOLD,
                },
            )
        } else {
            None
        },
    }
}

pub open spec fn profile_for(req: PjsipRealtimeAccount, id: String, now: Timestamp)
    -> AccountProfile
{
    AccountProfile {
        account: account_for(req, id, now),
        credential: credential_for(req, id),
        aor: aor_for(req.transport, id),
        endpoint: endpoint_for(req, id),
    }
}

/// What planning an account with a resolved id gives: the id is validated,
/// then the username, then the records are built.
pub open spec fn plan_outcome(req: PjsipRealtimeAccount, id: String, now: Timestamp) -> Result<
    AccountProfile,
    RegistrationError,
> {
    match id_check(id@) {
        Err(e) => Err(e),
        Ok(_) => if req.username@.len() == 0 {
            Err(RegistrationError::ValidationError(InputField::Username, ValidationReason::Empty))
        } else {
            Ok(profile_for(req, id, now))
        },
    }
}

/// Builds the four records of an account under the policy of its transport.
/// It neither reads nor changes anything else.
pub fn build_profile(req: &PjsipRealtimeAccount, id: String, now: Timestamp) -> (r: AccountProfile)
    ensures
        r == profile_for(*req, id, now),
{
    let ws = req.transport.is_ws();
    let account = PjsipRealtimeAccountWithId {
        id: id.clone(),
        username: req.username.clone(),
        password: req.password.clone(),
        transport: req.transport,
        context: req.context.clone(),
        from_domain: req.from_domain.clone(),
        from_user: req.from_user.clone(),
        created_at: now,
        updated_at: now,
    };
    let credential = PsAuth {
        id: id.clone(),
        auth_type: AuthType::Userpass,
        username: req.username.clone(),
        password: req.password.clone(),
    };
    let aor = if ws {
        PsAor {
            id: id.clone(),
            max_contacts: 1,
            remove_existing: TurnOnOff::Yes,
            remove_unavailable: TurnOnOff::Yes,
            default_expiration: 3600,
            minimum_expiration: 60,
            maximum_expiration: 7200,
            qualify_frequency: None,
            qualify_timeout: None,
        }
    } else {
        PsAor {
            id: id.clone(),
            max_contacts: 5,
            remove_existing: TurnOnOff::Yes,
            remove_unavailable: TurnOnOff::Yes,
            default_expiration: 60,
            minimum_expiration: 60,
            maximum_expiration: 90,
            qualify_frequency: Some(10),
            qualify_timeout: Some(9),
        }
    };
    let browser_flag = if ws { Some(TurnOnOff::Yes) } else { None };
    let stream_cap: Option<u32> = if ws { Some(1) } else { None };
    let rtp_timeout = if ws {
        Some(
            match req.rtp_timeout {
                Some(t) => t,
                None => DEFAULT_RTP_TIMEOUT,
            },
        )
    } else {
        None
    };
    let rtp_timeout_hold = if ws {
        Some(
            match req.rtp_timeout_hold {
                Some(t) => t,
                None => DEFAULT_RTP_TIMEOUT_HOLD,
            },
        )
    } else {
        None
    };
    let endpoint = PsEndpoint {
        id: id.clone(),
        transport: req.transport,
        aors: id.clone(),
        auth: id.clone(),
        context: req.context.clone(),
        disallow: DISALLOWED_CODECS,
        allow: if ws { AUDIO_VIDEO_CODECS } else { AUDIO_CODECS },
        direct_media: TurnOnOff::No,
        dtmf_mode: if ws { DtmfMode::Rfc4733 } else { DtmfMode::Auto },
        force_rport: TurnOnOff::Yes,
        rewrite_contact: TurnOnOff::Yes,
        rtp_symmetric: TurnOnOff::Yes,
        media_encryption: if ws { MediaEncryption::Dtls } else { MediaEncryption::No },
        from_domain: req.from_domain.clone(),
        from_user: req.from_user.clone(),
        ice_support: browser_flag,
        use_avpf: browser_flag,
        webrtc: browser_flag,
        max_audio_streams: stream_cap,
        max_video_streams: stream_cap,
        rtp_timeout,
        rtp_timeout_hold,
    };
    AccountProfile { account, credential, aor, endpoint }
}

/// Validates a request whose id is resolved, then builds its records.
pub fn plan_account(req: &PjsipRealtimeAccount, id: String, now: Timestamp) -> (r: Result<
    AccountProfile,
    RegistrationError,
>)
    ensures
        r == plan_outcome(*req, id, now),
{
    match validate_account_id(id.as_str()) {
        Err(e) => Err(e),
        Ok(()) => {
            if req.username.as_str().unicode_len() == 0 {
                Err(
                    RegistrationError::ValidationError(
                        InputField::Username,
                        ValidationReason::Empty,
                    ),
                )
            } else {
                Ok(build_profile(req, id, now))
            }
        },
    }
}

/// Resolves the id of a new account (the supplied one, or a generated one),
/// stamps it with the current time and plans it.
pub fn plan_new_account(req: &PjsipRealtimeAccount, external_id: Option<String>) -> (r: Result<
    AccountProfile,
    RegistrationError,
>)
    ensures
        external_id matches Some(id) ==> exists|now: Timestamp| r == plan_outcome(*req, id, now),
        external_id is None ==> exists|id: String, now: Timestamp|
            {
                &&& is_generated_id(id@)
                &&& id_time(id@) == id_time_of(now)
                &&& r == plan_outcome(*req, id, now)
            },
{
    let ghost supplied = external_id;
    let now = current_timestamp();
    match allocate_account_id(external_id, now) {
        Err(e) => {
            let ghost id = supplied->Some_0;
            assert(Err::<AccountProfile, RegistrationError>(e) == plan_outcome(*req, id, now));
            Err(e)
        },
        Ok(id) => {
            let r = plan_account(req, id, now);
            assert(r == plan_outcome(*req, id, now));
            r
        },
    }
}

/// For every transport the built records follow the transport policy table.
/// All four records carry the account's id and the credential is password
/// based. Browser transports (websocket, secure websocket) get one contact,
/// expirations of 3600/60/7200 seconds, no liveness check, audio and video
/// codecs, RFC 4733 DTMF, mandatory DTLS, the ICE, AVPF and WebRTC flags, one
/// stream of each kind and RTP timeouts (the request's, or the defaults). The
/// other transports get five contacts, expirations of 60/60/90 seconds, a
/// liveness check every 10 seconds with a 9 second timeout, audio codecs,
/// automatic DTMF, no media encryption and none of the browser-only fields.
pub proof fn law_transport_policy(req: PjsipRealtimeAccount, id: String, now: Timestamp)
    ensures
        ({
            let p = profile_for(req, id, now);
            &&& p.account.id == id && p.credential.id == id && p.aor.id == id && p.endpoint.id
                == id
            &&& p.endpoint.auth == id && p.endpoint.aors == id
            &&& p.credential.auth_type == AuthType::Userpass
            &&& p.endpoint.transport == req.transport
            &&& p.endpoint.disallow == DISALLOWED_CODECS
            &&& p.endpoint.direct_media == TurnOnOff::No
            &&& p.endpoint.rtp_symmetric == TurnOnOff::Yes
            &&& p.endpoint.force_rport == TurnOnOff::Yes
            &&& p.endpoint.rewrite_contact == TurnOnOff::Yes
            &&& req.transport.is_websocket() ==> {
                &&& p.aor.max_contacts == 1
                &&& p.aor.default_expiration == 3600 && p.aor.minimum_expiration == 60
                    && p.aor.maximum_expiration == 7200
                &&& p.aor.qualify_frequency is None && p.aor.qualify_timeout is None
                &&& p.endpoint.allow == AUDIO_VIDEO_CODECS
                &&& p.endpoint.dtmf_mode == DtmfMode::Rfc4733
                &&& p.endpoint.media_encryption == MediaEncryption::Dtls
                &&& p.endpoint.ice_support == Some(TurnOnOff::Yes)
                &&& p.endpoint.use_avpf == Some(TurnOnOff::Yes)
                &&& p.endpoint.webrtc == Some(TurnOnOff::Yes)
                &&& p.endpoint.max_audio_streams == Some(1u32)
                &&& p.endpoint.max_video_streams == Some(1u32)
                &&& p.endpoint.rtp_timeout == Some(
                    match req.rtp_timeout {
                        Some(t) => t,
                        None => DEFAULT_RTP_TIMEOUT,
                    },
                )
                &&& p.endpoint.rtp_timeout_hold == Some(
                    match req.rtp_timeout_hold {
                        Some(t) => t,
                        None => DEFAULT_RTP_TIMEOUT_HOLD,
                    },
                )
            }
            &&& !req.transport.is_websocket() ==> {
                &&& p.aor.max_contacts == 5
                &&& p.aor.default_expiration == 60 && p.aor.minimum_expiration == 60
                    && p.aor.maximum_expiration == 90
                &&& p.aor.qualify_frequency == Some(10u32) && p.aor.qualify_timeout == Some(
                    9u32,
                )
                &&& p.endpoint.allow == AUDIO_CODECS
                &&& p.endpoint.dtmf_mode == DtmfMode::Auto
                &&& p.endpoint.media_encryption == MediaEncryption::No
                &&& p.endpoint.ice_support is None && p.endpoint.use_avpf is None
                    && p.endpoint.webrtc is None
                &&& p.endpoint.max_audio_streams is None && p.endpoint.max_video_streams is None
                &&& p.endpoint.rtp_timeout is None && p.endpoint.rtp_timeout_hold is None
            }
        }),
{
}

} // verus!
