use crate::account::{current_timestamp, PjsipRealtimeAccount, PjsipRealtimeAccountWithId, Timestamp};
use crate::engine::{Command, DeprovisionState, ProvisionState, Table};
use crate::errors::{DeletionError, RegistrationError, StoreFailure};
use crate::identity::{
    allocate_account_id, deletion_id_check, id_check, id_time, id_time_of, is_generated_id,
    validate_deletion_id,
};
use crate::profile::{
    account_for, plan_account, plan_outcome, profile_for, AccountProfile, PsAor, PsAuth, PsEndpoint,
};
use vstd::prelude::*;

verus! {

/// The contents of an account store: the four record sets, index by index,
/// newest account first.
pub struct StoreView {
    pub accounts: Seq<PjsipRealtimeAccountWithId>,
    pub auths: Seq<PsAuth>,
    pub aors: Seq<PsAor>,
    pub endpoints: Seq<PsEndpoint>,
}

/// The number of leading accounts created strictly after `micros`: the place
/// of an account created at `micros`.
pub open spec fn leading_newer(rows: Seq<PjsipRealtimeAccountWithId>, micros: i64) -> nat
    decreases rows.len(),
{
    if rows.len() == 0 || rows[0].created_at.unix_micros <= micros {
        0
    } else {
        1 + leading_newer(rows.drop_first(), micros)
    }
}

/// The four records of a profile carry one id.
pub open spec fn ids_agree(p: AccountProfile) -> bool {
    &&& p.credential.id@ == p.account.id@
    &&& p.aor.id@ == p.account.id@
    &&& p.endpoint.id@ == p.account.id@
}

impl StoreView {
    pub open spec fn empty() -> StoreView {
        StoreView {
            accounts: Seq::empty(),
            auths: Seq::empty(),
            aors: Seq::empty(),
            endpoints: Seq::empty(),
        }
    }

    /// The records at index `i` of the four sets belong to one account.
    pub open spec fn aligned_at(self, i: int) -> bool {
        &&& self.auths[i].id@ == self.accounts[i].id@
        &&& self.aors[i].id@ == self.accounts[i].id@
        &&& self.endpoints[i].id@ == self.accounts[i].id@
    }

    /// The account at index `i` has an id that passes the id check and a
    /// non-empty username.
    pub open spec fn valid_at(self, i: int) -> bool {
        &&& id_check(self.accounts[i].id@) is Ok
        &&& self.accounts[i].username@.len() > 0
    }

    /// Every account is stored as four records or not at all, every id
    /// passes the id check and every username is non-empty, ids and usernames
    /// are unique, and accounts are ordered newest first.
    pub open spec fn wf(self) -> bool {
        &&& self.auths.len() == self.accounts.len()
        &&& self.aors.len() == self.accounts.len()
        &&& self.endpoints.len() == self.accounts.len()
        &&& forall|i: int| 0 <= i < self.accounts.len() ==> #[trigger] self.aligned_at(i)
        &&& forall|i: int| 0 <= i < self.accounts.len() ==> #[trigger] self.valid_at(i)
        &&& forall|i: int, j: int|
            0 <= i < j < self.accounts.len() ==> #[trigger] self.accounts[i].id@
                != #[trigger] self.accounts[j].id@
        &&& forall|i: int, j: int|
            0 <= i < j < self.accounts.len() ==> #[trigger] self.accounts[i].username@
                != #[trigger] self.accounts[j].username@
        &&& forall|i: int, j: int|
            0 <= i < j < self.accounts.len() ==> (#[trigger] self.accounts[i]).created_at.unix_micros
                >= (#[trigger] self.accounts[j]).created_at.unix_micros
    }

    pub open spec fn has_id(self, id: Seq<char>) -> bool {
        exists|i: int| 0 <= i < self.accounts.len() && #[trigger] self.accounts[i].id@ == id
    }

    pub open spec fn has_username(self, username: Seq<char>) -> bool {
        exists|i: int|
            0 <= i < self.accounts.len() && #[trigger] self.accounts[i].username@ == username
    }

    /// The store holds exactly one record of each kind with this id, all at
    /// one index.
    pub open spec fn holds_single_record_set(self, id: Seq<char>) -> bool {
        exists|i: int|
            {
                &&& 0 <= i < self.accounts.len()
                &&& #[trigger] self.accounts[i].id@ == id
                &&& self.auths[i].id@ == id
                &&& self.aors[i].id@ == id
                &&& self.endpoints[i].id@ == id
                &&& forall|j: int|
                    0 <= j < self.accounts.len() && j != i ==> {
                        &&& self.accounts[j].id@ != id
                        &&& self.auths[j].id@ != id
                        &&& self.aors[j].id@ != id
                        &&& self.endpoints[j].id@ != id
                    }
            }
    }

    pub open spec fn index_of(self, id: Seq<char>) -> int {
        choose|i: int| 0 <= i < self.accounts.len() && #[trigger] self.accounts[i].id@ == id
    }

    /// The store with a profile's records added, in the account's place by
    /// creation time.
    pub open spec fn with_profile(self, p: AccountProfile) -> StoreView {
        let k = leading_newer(self.accounts, p.account.created_at.unix_micros) as int;
        StoreView {
            accounts: self.accounts.insert(k, p.account),
            auths: self.auths.insert(k, p.credential),
            aors: self.aors.insert(k, p.aor),
            endpoints: self.endpoints.insert(k, p.endpoint),
        }
    }

    /// The store with the records of the account with this id removed.
    pub open spec fn without(self, id: Seq<char>) -> StoreView {
        let k = self.index_of(id);
        StoreView {
            accounts: self.accounts.remove(k),
            auths: self.auths.remove(k),
            aors: self.aors.remove(k),
            endpoints: self.endpoints.remove(k),
        }
    }

    /// Store and result after provisioning an account with a resolved id:
    /// validation, then the duplicate check, then the four inserts.
    pub open spec fn provision_outcome(
        self,
        req: PjsipRealtimeAccount,
        id: String,
        now: Timestamp,
    ) -> (StoreView, Result<PjsipRealtimeAccountWithId, RegistrationError>) {
        match plan_outcome(req, id, now) {
            Err(e) => (self, Err(e)),
            Ok(p) => if self.has_id(id@) || self.has_username(req.username@) {
                (self, Err(RegistrationError::DuplicateError))
            } else {
                (self.with_profile(p), Ok(p.account))
            },
        }
    }

    /// Store and result after deprovisioning an id: an empty id is refused
    /// before any storage work.
    pub open spec fn deprovision_outcome(self, id: Seq<char>) -> (StoreView, Result<
        (),
        DeletionError,
    >) {
        if deletion_id_check(id) is Err {
            (self, Err(DeletionError::IdNotSpecified))
        } else if self.has_id(id) {
            (self.without(id), Ok(()))
        } else {
            (self, Err(DeletionError::NotFoundRecord))
        }
    }
}

proof fn lemma_leading_newer(rows: Seq<PjsipRealtimeAccountWithId>, micros: i64)
    ensures
        leading_newer(rows, micros) <= rows.len(),
        forall|i: int|
            0 <= i < leading_newer(rows, micros) ==> (#[trigger] rows[i]).created_at.unix_micros
                > micros,
        leading_newer(rows, micros) < rows.len() ==> rows[leading_newer(
            rows,
            micros,
        ) as int].created_at.unix_micros <= micros,
    decreases rows.len(),
{
    if rows.len() > 0 && rows[0].created_at.unix_micros > micros {
        let rest = rows.drop_first();
        lemma_leading_newer(rest, micros);
        assert forall|i: int| 0 <= i < leading_newer(rows, micros) implies (
        #[trigger] rows[i]).created_at.unix_micros > micros by {
            if i > 0 {
                assert(rows[i] == rest[i - 1]);
            }
        }
    }
}

/// The first index not newer than `micros`, given where the newer run ends.
proof fn lemma_leading_newer_is(rows: Seq<PjsipRealtimeAccountWithId>, micros: i64, k: int)
    requires
        0 <= k <= rows.len(),
        forall|i: int| 0 <= i < k ==> (#[trigger] rows[i]).created_at.unix_micros > micros,
        k < rows.len() ==> rows[k].created_at.unix_micros <= micros,
    ensures
        leading_newer(rows, micros) == k,
    decreases k,
{
    if k > 0 {
        let rest = rows.drop_first();
        assert forall|i: int| 0 <= i < k - 1 implies (#[trigger] rest[i]).created_at.unix_micros
            > micros by {
            assert(rest[i] == rows[i + 1]);
        }
        if k - 1 < rest.len() {
            assert(rest[k - 1] == rows[k]);
        }
        lemma_leading_newer_is(rest, micros, k - 1);
    }
}

proof fn lemma_with_profile_wf(s: StoreView, p: AccountProfile)
    requires
        s.wf(),
        ids_agree(p),
        id_check(p.account.id@) is Ok,
        p.account.username@.len() > 0,
        !s.has_id(p.account.id@),
        !s.has_username(p.account.username@),
    ensures
        s.with_profile(p).wf(),
        s.with_profile(p).accounts[leading_newer(
            s.accounts,
            p.account.created_at.unix_micros,
        ) as int] == p.account,
{
    let m = p.account.created_at.unix_micros;
    let k = leading_newer(s.accounts, m) as int;
    lemma_leading_newer(s.accounts, m);
    let t = s.with_profile(p);
    s.accounts.insert_ensures(k, p.account);
    s.auths.insert_ensures(k, p.credential);
    s.aors.insert_ensures(k, p.aor);
    s.endpoints.insert_ensures(k, p.endpoint);
    let n = t.accounts.len();
    // maps an index of the new store to the one it had before
    assert forall|i: int| 0 <= i < n implies #[trigger] t.aligned_at(i) by {
        if i > k {
            assert(s.aligned_at(i - 1));
        } else if i < k {
            assert(s.aligned_at(i));
        }
    }
    assert forall|i: int| 0 <= i < n implies #[trigger] t.valid_at(i) by {
        if i > k {
            assert(s.valid_at(i - 1));
        } else if i < k {
            assert(s.valid_at(i));
        }
    }
    assert forall|i: int, j: int| 0 <= i < j < n implies {
        &&& #[trigger] t.accounts[i].id@ != #[trigger] t.accounts[j].id@
        &&& t.accounts[i].username@ != t.accounts[j].username@
        &&& t.accounts[i].created_at.unix_micros >= t.accounts[j].created_at.unix_micros
    } by {
        let oi = if i < k { i } else { i - 1 };
        let oj = if j < k { j } else { j - 1 };
        if i == k {
            assert(t.accounts[j] == s.accounts[oj]);
            assert(s.accounts[oj].id@ != p.account.id@);
            assert(s.accounts[oj].username@ != p.account.username@);
            if k < s.accounts.len() {
                assert(s.accounts[k].created_at.unix_micros <= m);
                if oj > k {
                    assert(s.accounts[k].created_at.unix_micros >= s.accounts[oj].created_at.unix_micros);
                }
            }
        } else if j == k {
            assert(t.accounts[i] == s.accounts[oi]);
            assert(s.accounts[oi].id@ != p.account.id@);
            assert(s.accounts[oi].username@ != p.account.username@);
        } else {
            assert(t.accounts[i] == s.accounts[oi]);
            assert(t.accounts[j] == s.accounts[oj]);
        }
    }
}

proof fn lemma_without_wf(s: StoreView, id: Seq<char>)
    requires
        s.wf(),
        s.has_id(id),
    ensures
        s.without(id).wf(),
        !s.without(id).has_id(id),
{
    let k = s.index_of(id);
    let t = s.without(id);
    s.accounts.remove_ensures(k);
    s.auths.remove_ensures(k);
    s.aors.remove_ensures(k);
    s.endpoints.remove_ensures(k);
    let n = t.accounts.len();
    assert forall|i: int| 0 <= i < n implies #[trigger] t.aligned_at(i) by {
        if i >= k {
            assert(s.aligned_at(i + 1));
        } else {
            assert(s.aligned_at(i));
        }
    }
    assert forall|i: int| 0 <= i < n implies #[trigger] t.valid_at(i) by {
        if i >= k {
            assert(s.valid_at(i + 1));
        } else {
            assert(s.valid_at(i));
        }
    }
    assert forall|i: int, j: int| 0 <= i < j < n implies {
        &&& #[trigger] t.accounts[i].id@ != #[trigger] t.accounts[j].id@
        &&& t.accounts[i].username@ != t.accounts[j].username@
        &&& t.accounts[i].created_at.unix_micros >= t.accounts[j].created_at.unix_micros
    } by {
        let oi = if i < k { i } else { i + 1 };
        let oj = if j < k { j } else { j + 1 };
        assert(t.accounts[i] == s.accounts[oi]);
        assert(t.accounts[j] == s.accounts[oj]);
    }
    assert forall|i: int| 0 <= i < n implies #[trigger] t.accounts[i].id@ != id by {
        let oi = if i < k { i } else { i + 1 };
        assert(t.accounts[i] == s.accounts[oi]);
        if oi < k {
            assert(s.accounts[oi].id@ != s.accounts[k].id@);
        } else {
            assert(s.accounts[k].id@ != s.accounts[oi].id@);
        }
    }
}

pub open spec fn provision_rank(s: ProvisionState) -> nat {
    match s {
        ProvisionState::Opening => 7,
        ProvisionState::Checking => 6,
        ProvisionState::Inserting(t) => match t {
            Table::Accounts => 5,
            Table::Auths => 4,
            Table::Aors => 3,
            Table::Endpoints => 2,
        },
        ProvisionState::Committing => 1,
        ProvisionState::RollingBack(_) => 1,
        ProvisionState::Finished(_) => 0,
    }
}

pub open spec fn deprovision_rank(s: DeprovisionState) -> nat {
    match s {
        DeprovisionState::Opening => 7,
        DeprovisionState::Checking => 6,
        DeprovisionState::Deleting(t) => match t {
            Table::Endpoints => 5,
            Table::Aors => 4,
            Table::Auths => 3,
            Table::Accounts => 2,
        },
        DeprovisionState::Committing => 1,
        DeprovisionState::RollingBack(_) => 1,
        DeprovisionState::Finished(_) => 0,
    }
}

/// An account store held in memory. Writes are buffered for the length of a
/// transaction and applied together at its commit, so no reader ever sees
/// part of an account's records.
pub struct MemoryStore {
    accounts: Vec<PjsipRealtimeAccountWithId>,
    auths: Vec<PsAuth>,
    aors: Vec<PsAor>,
    endpoints: Vec<PsEndpoint>,
}

impl View for MemoryStore {
    type V = StoreView;

    closed spec fn view(&self) -> StoreView {
        StoreView {
            accounts: self.accounts@,
            auths: self.auths@,
            aors: self.aors@,
            endpoints: self.endpoints@,
        }
    }
}

/// Reply of the store to a command of a provisioning transaction, with the
/// id and the username already looked up in the committed records.
fn provision_reply(cmd: Command, id_taken: bool, name_taken: bool) -> (r: Result<
    u64,
    StoreFailure,
>)
    ensures
        cmd is Begin || cmd is Commit || cmd is Rollback ==> r == Ok::<u64, StoreFailure>(0),
        cmd is FindDuplicate ==> r == Ok::<u64, StoreFailure>(
            if id_taken || name_taken {
                1
            } else {
                0
            },
        ),
        cmd matches Command::Insert(t) ==> (r is Ok <==> !(id_taken || (t is Accounts
            && name_taken))),
        cmd matches Command::Insert(_) ==> (r matches Ok(n) ==> n == 1),
        cmd matches Command::Insert(_) ==> (r matches Err(f) ==> f is UniqueViolation),
{
    match cmd {
        Command::FindDuplicate => {
            if id_taken || name_taken {
                Ok(1)
            } else {
                Ok(0)
            }
        },
        Command::Insert(t) => {
            let conflict = match t {
                Table::Accounts => id_taken || name_taken,
                _ => id_taken,
            };
            if conflict {
                Err(StoreFailure::UniqueViolation(String::from_str("duplicate key value")))
            } else {
                Ok(1)
            }
        },
        _ => Ok(0),
    }
}

/// Reply of the store to a command of a deprovisioning transaction, with the
/// id already looked up in the committed records.
fn deprovision_reply(cmd: Command, found: bool) -> (r: Result<u64, StoreFailure>)
    ensures
        r == Ok::<u64, StoreFailure>(
            if (cmd is FindAccount || cmd is Delete) && found {
                1
            } else {
                0
            },
        ),
{
    match cmd {
        Command::FindAccount | Command::Delete(_) => {
            if found {
                Ok(1)
            } else {
                Ok(0)
            }
        },
        _ => Ok(0),
    }
}

impl MemoryStore {
    pub open spec fn wf(&self) -> bool {
        self@.wf()
    }

    pub fn new() -> (r: MemoryStore)
        ensures
            r@ == StoreView::empty(),
            r.wf(),
    {
        let r = MemoryStore {
            accounts: Vec::new(),
            auths: Vec::new(),
            aors: Vec::new(),
            endpoints: Vec::new(),
        };
        assert(r@ =~= StoreView::empty());
        r
    }

    /// The index of the account with this id, if there is one.
    fn find_account(&self, id: &String) -> (r: Option<usize>)
        requires
            self.wf(),
        ensures
            r matches Some(k) ==> k < self@.accounts.len() && self@.accounts[k as int].id@ == id@
                && k == self@.index_of(id@),
            r is None ==> !self@.has_id(id@),
    {
        let mut i: usize = 0;
        while i < self.accounts.len()
            invariant
                self.wf(),
                i <= self.accounts@.len(),
                forall|j: int| 0 <= j < i ==> #[trigger] self.accounts@[j].id@ != id@,
            decreases self.accounts@.len() - i,
        {
            if self.accounts[i].id == *id {
                proof {
                    assert(self@.accounts[i as int].id@ == id@);
                    assert(self@.has_id(id@));
                    let c = self@.index_of(id@);
                    assert(0 <= c < self@.accounts.len() && self@.accounts[c].id@ == id@);
                    if c != i as int {
                        if c < i as int {
                            assert(self@.accounts[c].id@ != self@.accounts[i as int].id@);
                        } else {
                            assert(self@.accounts[i as int].id@ != self@.accounts[c].id@);
                        }
                    }
                }
                return Some(i);
            }
            i = i + 1;
        }
        None
    }

    fn username_taken(&self, username: &String) -> (r: bool)
        ensures
            r == self@.has_username(username@),
    {
        let mut i: usize = 0;
        while i < self.accounts.len()
            invariant
                i <= self.accounts@.len(),
                forall|j: int| 0 <= j < i ==> #[trigger] self.accounts@[j].username@ != username@,
            decreases self.accounts@.len() - i,
        {
            if self.accounts[i].username == *username {
                return true;
            }
            i = i + 1;
        }
        false
    }

    /// Where an account created at `micros` goes: after every newer one.
    fn place_of(&self, micros: i64) -> (r: usize)
        requires
            self.wf(),
        ensures
            r == leading_newer(self@.accounts, micros),
    {
        let mut k: usize = 0;
        while k < self.accounts.len() && self.accounts[k].created_at.unix_micros > micros
            invariant
                k <= self.accounts@.len(),
                forall|i: int| 0 <= i < k ==> (#[trigger] self.accounts@[i]).created_at.unix_micros
                    > micros,
            decreases self.accounts@.len() - k,
        {
            k = k + 1;
        }
        proof {
            lemma_leading_newer_is(self@.accounts, micros, k as int);
        }
        k
    }

    /// All accounts, newest first.
    pub fn list(&self) -> (r: Vec<PjsipRealtimeAccountWithId>)
        ensures
            r@ == self@.accounts,
    {
        let mut out: Vec<PjsipRealtimeAccountWithId> = Vec::new();
        let mut i: usize = 0;
        while i < self.accounts.len()
            invariant
                i <= self.accounts@.len(),
                out@ == self.accounts@.subrange(0, i as int),
            decreases self.accounts@.len() - i,
        {
            out.push(self.accounts[i].copy());
            i = i + 1;
            assert(out@ =~= self.accounts@.subrange(0, i as int));
        }
        assert(out@ =~= self.accounts@);
        out
    }

    /// Runs the provisioning transaction for a planned profile.
    fn run_provision(&mut self, p: AccountProfile) -> (r: Result<
        PjsipRealtimeAccountWithId,
        RegistrationError,
    >)
        requires
            old(self).wf(),
            ids_agree(p),
            id_check(p.account.id@) is Ok,
            p.account.username@.len() > 0,
        ensures
            final(self).wf(),
            old(self)@.has_id(p.account.id@) || old(self)@.has_username(p.account.username@)
                ==> final(self)@ == old(self)@ && r == Err::<
                PjsipRealtimeAccountWithId,
                RegistrationError,
            >(RegistrationError::DuplicateError),
            !(old(self)@.has_id(p.account.id@) || old(self)@.has_username(p.account.username@))
                ==> final(self)@ == old(self)@.with_profile(p) && r == Ok::<
                PjsipRealtimeAccountWithId,
                RegistrationError,
            >(p.account),
    {
        let id_taken = self.find_account(&p.account.id).is_some();
        let name_taken = self.username_taken(&p.account.username);
        let dup = id_taken || name_taken;
        let mut state = ProvisionState::start();
        loop
            invariant
                self.wf(),
                self@ == old(self)@,
                id_taken == self@.has_id(p.account.id@),
                name_taken == self@.has_username(p.account.username@),
                dup == (id_taken || name_taken),
                !dup ==> (state is Opening || state is Checking || state is Inserting
                    || state is Committing || state == ProvisionState::Finished(
                    Ok::<(), RegistrationError>(()),
                )),
                dup ==> (state is Opening || state is Checking || state
                    == ProvisionState::RollingBack(RegistrationError::DuplicateError) || state
                    == ProvisionState::Finished(
                    Err::<(), RegistrationError>(RegistrationError::DuplicateError),
                )),
            ensures
                self@ == old(self)@,
                !dup ==> state == ProvisionState::Finished(Ok::<(), RegistrationError>(())),
                dup ==> state == ProvisionState::Finished(
                    Err::<(), RegistrationError>(RegistrationError::DuplicateError),
                ),
            decreases provision_rank(state),
        {
            match state.command() {
                None => break,
                Some(cmd) => {
                    let reply = provision_reply(cmd, id_taken, name_taken);
                    state = state.advance(reply);
                },
            }
        }
        match state.outcome() {
            Some(Ok(())) => {
                let k = self.place_of(p.account.created_at.unix_micros);
                proof {
                    lemma_leading_newer(self@.accounts, p.account.created_at.unix_micros);
                    lemma_with_profile_wf(self@, p);
                }
                let account = p.account.copy();
                self.accounts.insert(k, p.account);
                self.auths.insert(k, p.credential);
                self.aors.insert(k, p.aor);
                self.endpoints.insert(k, p.endpoint);
                assert(self@ =~= old(self)@.with_profile(p));
                Ok(account)
            },
            Some(Err(e)) => Err(e),
            None => {
                // the loop ends only once the transaction is finished
                proof {
                    assert(false);
                }
                Err(RegistrationError::InsertionFailed)
            },
        }
    }

    /// Provisions an account with a resolved id and creation time: validates
    /// the request, checks for an account with the same id or username, and
    /// stores all four records, or none.
    pub fn provision_at(&mut self, req: &PjsipRealtimeAccount, id: String, now: Timestamp) -> (r:
        Result<PjsipRealtimeAccountWithId, RegistrationError>)
        requires
            old(self).wf(),
        ensures
            final(self).wf(),
            (final(self)@, r) == old(self)@.provision_outcome(*req, id, now),
    {
        match plan_account(req, id, now) {
            Err(e) => Err(e),
            Ok(p) => self.run_provision(p),
        }
    }

    /// Provisions an account: the supplied id, or a generated one when none
    /// is supplied, stamped with the current time.
    pub fn provision(&mut self, req: &PjsipRealtimeAccount, external_id: Option<String>) -> (r:
        Result<PjsipRealtimeAccountWithId, RegistrationError>)
        requires
            old(self).wf(),
        ensures
            final(self).wf(),
            external_id matches Some(id) ==> exists|now: Timestamp|
                (final(self)@, r) == old(self)@.provision_outcome(*req, id, now),
            external_id is None ==> exists|id: String, now: Timestamp|
                {
                    &&& is_generated_id(id@)
                    &&& id_time(id@) == id_time_of(now)
                    &&& (final(self)@, r) == old(self)@.provision_outcome(*req, id, now)
                },
    {
        let ghost supplied = external_id;
        let now = current_timestamp();
        match allocate_account_id(external_id, now) {
            Err(e) => {
                let ghost id = supplied->Some_0;
                assert((self@, Err::<PjsipRealtimeAccountWithId, RegistrationError>(e))
                    == old(self)@.provision_outcome(*req, id, now));
                Err(e)
            },
            Ok(id) => {
                let ghost gid = id;
                let r = self.provision_at(req, id, now);
                assert((self@, r) == old(self)@.provision_outcome(*req, gid, now));
                r
            },
        }
    }

    /// Deprovisions an account: refuses an empty id, then removes all four
    /// of the account's records, or reports that no account has the id.
    pub fn deprovision(&mut self, id: &str) -> (r: Result<(), DeletionError>)
        requires
            old(self).wf(),
        ensures
            final(self).wf(),
            (final(self)@, r) == old(self)@.deprovision_outcome(id@),
    {
        if let Err(e) = validate_deletion_id(id) {
            return Err(e);
        }
        let key = String::from_str(id);
        let found = self.find_account(&key);
        let exists = found.is_some();
        let mut state = DeprovisionState::start();
        loop
            invariant
                self.wf(),
                self@ == old(self)@,
                exists == self@.has_id(id@),
                exists ==> (state is Opening || state is Checking || state is Deleting
                    || state is Committing || state == DeprovisionState::Finished(
                    Ok::<(), DeletionError>(()),
                )),
                !exists ==> (state is Opening || state is Checking || state
                    == DeprovisionState::RollingBack(DeletionError::NotFoundRecord) || state
                    == DeprovisionState::Finished(
                    Err::<(), DeletionError>(DeletionError::NotFoundRecord),
                )),
            ensures
                self@ == old(self)@,
                exists ==> state == DeprovisionState::Finished(Ok::<(), DeletionError>(())),
                !exists ==> state == DeprovisionState::Finished(
                    Err::<(), DeletionError>(DeletionError::NotFoundRecord),
                ),
            decreases deprovision_rank(state),
        {
            match state.command() {
                None => break,
                Some(cmd) => {
                    let reply = deprovision_reply(cmd, exists);
                    state = state.advance(reply);
                },
            }
        }
        match state.outcome() {
            Some(Ok(())) => {
                match found {
                    Some(k) => {
                        proof {
                            lemma_without_wf(self@, id@);
                        }
                        self.accounts.remove(k);
                        self.auths.remove(k);
                        self.aors.remove(k);
                        self.endpoints.remove(k);
                        assert(self@ =~= old(self)@.without(id@));
                        Ok(())
                    },
                    None => {
                        // the machine commits only for an account that exists
                        proof {
                            assert(false);
                        }
                        Err(DeletionError::NotFoundRecord)
                    },
                }
            },
            Some(Err(e)) => Err(e),
            None => {
                // the loop ends only once the transaction is finished
                proof {
                    assert(false);
                }
                Err(DeletionError::DeletionFailed)
            },
        }
    }
}

/// Provisioning a valid request (a well-formed id, a non-empty username)
/// whose id and username no account has succeeds with the requested account,
/// and leaves exactly one account, one credential, one address of record and
/// one endpoint with that id.
pub proof fn law_fresh_provision_creates_one_record_set(
    s: StoreView,
    req: PjsipRealtimeAccount,
    id: String,
    now: Timestamp,
)
    requires
        s.wf(),
        id_check(id@) is Ok,
        req.username@.len() > 0,
        !s.has_id(id@),
        !s.has_username(req.username@),
    ensures
        s.provision_outcome(req, id, now).1 == Ok::<
            PjsipRealtimeAccountWithId,
            RegistrationError,
        >(account_for(req, id, now)),
        s.provision_outcome(req, id, now).0.wf(),
        s.provision_outcome(req, id, now).0.holds_single_record_set(id@),
{
    let p = profile_for(req, id, now);
    let t = s.with_profile(p);
    let k = leading_newer(s.accounts, now.unix_micros) as int;
    lemma_leading_newer(s.accounts, now.unix_micros);
    lemma_with_profile_wf(s, p);
    s.accounts.insert_ensures(k, p.account);
    s.auths.insert_ensures(k, p.credential);
    s.aors.insert_ensures(k, p.aor);
    s.endpoints.insert_ensures(k, p.endpoint);
    assert forall|j: int| 0 <= j < t.accounts.len() && j != k implies {
        &&& t.accounts[j].id@ != id@
        &&& t.auths[j].id@ != id@
        &&& t.aors[j].id@ != id@
        &&& t.endpoints[j].id@ != id@
    } by {
        let oj = if j < k { j } else { j - 1 };
        assert(t.accounts[j] == s.accounts[oj]);
        assert(t.aligned_at(j));
    }
    assert(t.accounts[k].id@ == id@);
}

/// Provisioning a valid request whose id or username an account already has
/// fails with `DuplicateError` and leaves the store as it was.
pub proof fn law_duplicate_provision_changes_nothing(
    s: StoreView,
    req: PjsipRealtimeAccount,
    id: String,
    now: Timestamp,
)
    requires
        s.wf(),
        id_check(id@) is Ok,
        req.username@.len() > 0,
        s.has_id(id@) || s.has_username(req.username@),
    ensures
        s.provision_outcome(req, id, now) == (s, Err::<
            PjsipRealtimeAccountWithId,
            RegistrationError,
        >(RegistrationError::DuplicateError)),
{
}

/// Deprovisioning an id twice in a row: an empty id is refused both times
/// with `IdNotSpecified` and nothing changes; for any other id the first
/// succeeds exactly when an account has the id, and the second reports
/// `NotFoundRecord` and changes nothing.
pub proof fn law_second_deprovision_not_found(s: StoreView, id: Seq<char>)
    requires
        s.wf(),
    ensures
        id.len() == 0 ==> s.deprovision_outcome(id) == (s, Err::<(), DeletionError>(
            DeletionError::IdNotSpecified,
        )),
        id.len() > 0 ==> (s.deprovision_outcome(id).1 is Ok <==> s.has_id(id)),
        s.deprovision_outcome(id).0.wf(),
        id.len() > 0 ==> s.deprovision_outcome(id).0.deprovision_outcome(id) == (
        s.deprovision_outcome(id).0,
        Err::<(), DeletionError>(DeletionError::NotFoundRecord),
        ),
{
    if id.len() > 0 && s.has_id(id) {
        lemma_without_wf(s, id);
    }
}

/// The account at index `k` of a listing is the one requested, and every
/// account created before `now` comes after it.
pub open spec fn listed_ahead_of_older(
    listed: Seq<PjsipRealtimeAccountWithId>,
    k: int,
    req: PjsipRealtimeAccount,
    id: String,
    now: Timestamp,
) -> bool {
    &&& 0 <= k < listed.len()
    &&& listed[k].id == id
    &&& listed[k].username == req.username
    &&& listed[k].transport == req.transport
    &&& listed[k].context == req.context
    &&& listed[k].from_domain == req.from_domain
    &&& listed[k].from_user == req.from_user
    &&& forall|i: int|
        0 <= i < listed.len() && listed[i].created_at.unix_micros < now.unix_micros ==> k < i
}

/// An account provisioned from a valid, fresh request is listed with the
/// requested username, transport, context, from-domain and from-user, ahead
/// of every account created earlier.
pub proof fn law_provisioned_account_listed_before_older(
    s: StoreView,
    req: PjsipRealtimeAccount,
    id: String,
    now: Timestamp,
)
    requires
        s.wf(),
        id_check(id@) is Ok,
        req.username@.len() > 0,
        !s.has_id(id@),
        !s.has_username(req.username@),
    ensures
        exists|k: int|
            listed_ahead_of_older(s.provision_outcome(req, id, now).0.accounts, k, req, id, now),
{
    let p = profile_for(req, id, now);
    let t = s.with_profile(p);
    let k = leading_newer(s.accounts, now.unix_micros) as int;
    lemma_leading_newer(s.accounts, now.unix_micros);
    lemma_with_profile_wf(s, p);
    s.accounts.insert_ensures(k, p.account);
    assert forall|i: int|
        0 <= i < t.accounts.len() && t.accounts[i].created_at.unix_micros
            < now.unix_micros implies k < i by {
        if i < k {
            assert(t.accounts[i] == s.accounts[i]);
        }
    }
    assert(plan_outcome(req, id, now) == Ok::<AccountProfile, RegistrationError>(p));
    assert(s.provision_outcome(req, id, now).0 == t);
    assert(listed_ahead_of_older(t.accounts, k, req, id, now));
}

} // verus!
