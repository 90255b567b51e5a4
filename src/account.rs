use crate::enums::{RtpTimeout, TransportType};
use vstd::prelude::*;

verus! {

/// A point in time, in microseconds since the Unix epoch (UTC).
#[derive(Debug, Clone, Copy, PartialEq, Eq, Structural)]
pub struct Timestamp {
    pub unix_micros: i64,
}

/// Relies on chrono::Utc::now and DateTime::timestamp_micros: the current
/// time, which is never before the Unix epoch (`Utc::now` panics on a clock
/// set before it); nothing else is known of its value.
#[verifier::external_body]
pub(crate) fn current_timestamp() -> (r: Timestamp)
    ensures
        r.unix_micros >= 0,
{
    Timestamp { unix_micros: chrono::Utc::now().timestamp_micros() }
}

#[derive(Debug, Clone)]
pub struct CreateUserRequest {
    pub username: String,
    pub password: String,
}

/// The logical account that a caller asks to provision.
#[derive(Debug, Clone)]
pub struct PjsipRealtimeAccount {
    pub username: String,
    pub password: String,
    pub transport: TransportType,
    pub context: String,
    pub from_domain: String,
    pub from_user: String,
    pub rtp_timeout: Option<RtpTimeout>,
    pub rtp_timeout_hold: Option<RtpTimeout>,
}

/// A provisioning request that carries the id the account is to have.
#[derive(Debug, Clone)]
pub struct PjsipRealtimeAccountWithExternalId {
    pub id: String,
    pub username: String,
    pub password: String,
    pub transport: TransportType,
    pub context: String,
    pub from_domain: String,
    pub from_user: String,
    pub rtp_timeout: Option<RtpTimeout>,
    pub rtp_timeout_hold: Option<RtpTimeout>,
}

impl PjsipRealtimeAccountWithExternalId {
    /// Splits the request into the supplied id and the logical account.
    pub fn into_parts(self) -> (r: (String, PjsipRealtimeAccount))
        ensures
            r.0 == self.id,
            r.1 == (PjsipRealtimeAccount {
                username: self.username,
                password: self.password,
                transport: self.transport,
                context: self.context,
                from_domain: self.from_domain,
                from_user: self.from_user,
                rtp_timeout: self.rtp_timeout,
                rtp_timeout_hold: self.rtp_timeout_hold,
            }),
    {
        (
            self.id,
            PjsipRealtimeAccount {
                username: self.username,
                password: self.password,
                transport: self.transport,
                context: self.context,
                from_domain: self.from_domain,
                from_user: self.from_user,
                rtp_timeout: self.rtp_timeout,
                rtp_timeout_hold: self.rtp_timeout_hold,
            },
        )
    }
}

/// A persisted account, as readers see it.
#[derive(Debug, Clone)]
pub struct PjsipRealtimeAccountWithId {
    pub id: String,
    pub username: String,
    pub password: String,
    pub transport: TransportType,
    pub context: String,
    pub from_domain: String,
    pub from_user: String,
    pub created_at: Timestamp,
    pub updated_at: Timestamp,
}

impl PjsipRealtimeAccountWithId {
    /// A field-by-field copy.
    pub fn copy(&self) -> (r: Self)
        ensures
            r == *self,
    {
        PjsipRealtimeAccountWithId {
            id: self.id.clone(),
            username: self.username.clone(),
            password: self.password.clone(),
            transport: self.transport,
            context: self.context.clone(),
            from_domain: self.from_domain.clone(),
            from_user: self.from_user.clone(),
            created_at: self.created_at,
            updated_at: self.updated_at,
        }
    }
}

#[derive(Debug, Clone)]
pub struct PjsipDeleteAccount {
    pub account_id: String,
}

/// An account as the account table stores it: the transport is kept as text.
#[derive(Debug, Clone)]
pub struct AccountRow {
    pub id: String,
    pub username: String,
    pub password: String,
    pub transport: String,
    pub context: String,
    pub from_domain: String,
    pub from_user: String,
    pub created_at: Timestamp,
    pub updated_at: Timestamp,
}

impl AccountRow {
    /// The account that a stored row stands for.
    pub open spec fn decoded(self) -> PjsipRealtimeAccountWithId {
        PjsipRealtimeAccountWithId {
            id: self.id,
            username: self.username,
            password: self.password,
            transport: TransportType::from_text(self.transport@),
            context: self.context,
            from_domain: self.from_domain,
            from_user: self.from_user,
            created_at: self.created_at,
            updated_at: self.updated_at,
        }
    }

    /// The row that stores an account.
    pub fn encode(a: &PjsipRealtimeAccountWithId) -> (r: AccountRow)
        ensures
            r.id == a.id,
            r.username == a.username,
            r.password == a.password,
            r.transport@ == a.transport.text(),
            r.context == a.context,
            r.from_domain == a.from_domain,
            r.from_user == a.from_user,
            r.created_at == a.created_at,
            r.updated_at == a.updated_at,
    {
        AccountRow {
            id: a.id.clone(),
            username: a.username.clone(),
            password: a.password.clone(),
            transport: String::from_str(a.transport.as_str()),
            context: a.context.clone(),
            from_domain: a.from_domain.clone(),
            from_user: a.from_user.clone(),
            created_at: a.created_at,
            updated_at: a.updated_at,
        }
    }

    /// Reads a stored row back as an account. A transport text that names no
    /// transport does not fail the read: the fallback transport is reported.
    pub fn decode(self) -> (r: PjsipRealtimeAccountWithId)
        ensures
            r == self.decoded(),
    {
        let transport = TransportType::decode(self.transport.as_str());
        PjsipRealtimeAccountWithId {
            id: self.id,
            username: self.username,
            password: self.password,
            transport,
            context: self.context,
            from_domain: self.from_domain,
            from_user: self.from_user,
            created_at: self.created_at,
            updated_at: self.updated_at,
        }
    }
}

/// Reads a sequence of stored rows back as accounts, in the same order.
pub fn decode_rows(rows: Vec<AccountRow>) -> (r: Vec<PjsipRealtimeAccountWithId>)
    ensures
        r@.len() == rows@.len(),
        forall|i: int| 0 <= i < rows@.len() ==> r@[i] == rows@[i].decoded(),
{
    let mut rows = rows;
    let ghost all = rows@;
    let mut out: Vec<PjsipRealtimeAccountWithId> = Vec::new();
    while rows.len() > 0
        invariant
            out@.len() + rows@.len() == all.len(),
            rows@ == all.subrange(out@.len() as int, all.len() as int),
            forall|i: int| 0 <= i < out@.len() ==> out@[i] == all[i].decoded(),
        decreases rows@.len(),
    {
        let row = rows.remove(0);
        out.push(row.decode());
    }
    out
}

/// Writing an account as a row and reading the row back gives the account.
pub proof fn lemma_row_round_trip(a: PjsipRealtimeAccountWithId, row: AccountRow)
    requires
        row.id == a.id,
        row.username == a.username,
        row.password == a.password,
        row.transport@ == a.transport.text(),
        row.context == a.context,
        row.from_domain == a.from_domain,
        row.from_user == a.from_user,
        row.created_at == a.created_at,
        row.updated_at == a.updated_at,
    ensures
        row.decoded() == a,
{
    crate::enums::lemma_transport_text_round_trip(a.transport);
}

} // verus!
