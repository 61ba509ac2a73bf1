//! Approval sessions: time-limited blanket approvals, each known by the
//! verification id it was minted under.

use vstd::prelude::*;
use vstd::string::StringExecFns;
use crate::context::texts_of;
use crate::text::{
    decimal, decimal_string, digits_value, lemma_decimal_writes, lemma_digit_run_is_decided,
    same_text, signed_decimal, signed_decimal_string,
};

verus! {

/// How long a session lasts, in seconds: one hour.
pub const SESSION_TTL_SECONDS: i64 = 3600;

/// One approval session.
#[derive(Debug, PartialEq)]
pub struct Session {
    pub verification_id: String,
    /// The second, counted from the Unix epoch, at which the session ends.
    pub expires_at: i64,
    /// The action patterns that the session approves.
    pub scope: Vec<String>,
}

/// What a session holds besides its id, as mathematical values.
pub struct SessionModel {
    pub expires_at: int,
    pub scope: Seq<Seq<char>>,
}

/// The table that a list of sessions stands for: each session is filed under
/// its id, and of two sessions with one id the later one counts.
pub open spec fn sessions_map(sessions: Seq<Session>) -> Map<Seq<char>, SessionModel>
    decreases sessions.len(),
{
    if sessions.len() == 0 {
        Map::empty()
    } else {
        sessions_map(sessions.drop_last()).insert(
            sessions.last().verification_id@,
            SessionModel {
                expires_at: sessions.last().expires_at as int,
                scope: texts_of(sessions.last().scope@),
            },
        )
    }
}

/// What a verification id begins with: the second at which it is issued.
pub open spec fn id_prefix(now: int) -> Seq<char> {
    "v-"@ + signed_decimal(now) + "-"@
}

/// The verification id that is issued at the second `now` under the serial
/// number `serial`: the second, and behind it the serial number.
pub open spec fn verification_id_text(now: int, serial: nat) -> Seq<char> {
    id_prefix(now) + decimal(serial)
}

/// `id` is a verification id with a serial number below `bound`.
pub open spec fn issued_below(id: Seq<char>, bound: nat) -> bool {
    exists|now: int, serial: nat|
        serial < bound && id == #[trigger] verification_id_text(now, serial)
}

/// Two verification ids with different serial numbers differ, whatever
/// their seconds are.
pub proof fn lemma_ids_differ(now: int, serial: nat, other_now: int, other_serial: nat)
    requires
        serial != other_serial,
    ensures
        verification_id_text(now, serial) != verification_id_text(other_now, other_serial),
{
    reveal_strlit("-");
    lemma_decimal_writes(serial);
    lemma_decimal_writes(other_serial);
    if verification_id_text(now, serial) == verification_id_text(other_now, other_serial) {
        lemma_digit_run_is_decided(
            id_prefix(now),
            decimal(serial),
            id_prefix(other_now),
            decimal(other_serial),
        );
    }
}

/// A verification id is not among those with a lower serial number.
pub proof fn lemma_id_is_fresh(now: int, serial: nat)
    ensures
        !issued_below(verification_id_text(now, serial), serial),
{
    if issued_below(verification_id_text(now, serial), serial) {
        let (other_now, other_serial) = choose|other_now: int, other_serial: nat|
            other_serial < serial && verification_id_text(now, serial)
                == #[trigger] verification_id_text(other_now, other_serial);
        lemma_ids_differ(now, serial, other_now, other_serial);
    }
}

/// Writes the verification id of the second `now` and the serial number
/// `serial`.
pub fn verification_id(now: i64, serial: u64) -> (id: String)
    ensures
        id@ == verification_id_text(now as int, serial as nat),
{
    let mut id = String::from_str("v-");
    let second = signed_decimal_string(now);
    id.append(second.as_str());
    id.append("-");
    let number = decimal_string(serial);
    id.append(number.as_str());
    id
}

/// Every id under which `sessions_map` files a session is the id of one of
/// the sessions.
pub proof fn lemma_sessions_map_keys(sessions: Seq<Session>, id: Seq<char>)
    requires
        sessions_map(sessions).contains_key(id),
    ensures
        exists|i: int| 0 <= i < sessions.len() && (#[trigger] sessions[i]).verification_id@ == id,
    decreases sessions.len(),
{
    if sessions.len() > 0 && sessions.last().verification_id@ != id {
        lemma_sessions_map_keys(sessions.drop_last(), id);
    }
}

/// A session authorises at the second `now` when the table holds it and it
/// has not ended yet. An id that the table does not hold never authorises.
pub open spec fn session_valid(table: Map<Seq<char>, SessionModel>, id: Seq<char>, now: int) -> bool {
    table.contains_key(id) && now < table[id].expires_at
}

/// The table of approval sessions, and the count of the verification ids
/// that were issued: the serial number of the next one.
pub struct SessionTable {
    sessions: Vec<Session>,
    issued: u64,
}

impl View for SessionTable {
    type V = Map<Seq<char>, SessionModel>;

    closed spec fn view(&self) -> Map<Seq<char>, SessionModel> {
        sessions_map(self.sessions@)
    }
}

impl SessionTable {
    /// The serial number of the next verification id: the count of those
    /// issued so far.
    pub closed spec fn serial(&self) -> nat {
        self.issued as nat
    }

    /// The ids issued so far are among these: the verification ids with a
    /// serial number below the next one.
    pub open spec fn issued(&self) -> Set<Seq<char>> {
        Set::new(|id: Seq<char>| issued_below(id, self.serial()))
    }

    /// The table is well formed: every session is filed under an id that was
    /// issued. Every table that this library hands out is well formed.
    pub closed spec fn wf(&self) -> bool {
        forall|i: int|
            0 <= i < self.sessions@.len() ==> issued_below(
                (#[trigger] self.sessions@[i]).verification_id@,
                self.issued as nat,
            )
    }

    /// In a well-formed table every session is filed under an issued id.
    pub proof fn lemma_held_was_issued(&self, id: Seq<char>)
        requires
            self.wf(),
            self@.contains_key(id),
        ensures
            self.issued().contains(id),
    {
        lemma_sessions_map_keys(self.sessions@, id);
    }

    /// The count of the verification ids issued so far.
    pub fn issued_count(&self) -> (count: u64)
        ensures
            count == self.serial(),
    {
        self.issued
    }

    /// A table without sessions, which has issued no id.
    pub fn new() -> (table: Self)
        ensures
            table.wf(),
            table.serial() == 0,
            table@ == Map::<Seq<char>, SessionModel>::empty(),
    {
        SessionTable { sessions: Vec::new(), issued: 0 }
    }

    /// Issues a verification id at the second `now`. It differs from every
    /// id issued before. The sessions stay as they are.
    pub fn issue_id(&mut self, now: i64) -> (id: String)
        requires
            old(self).wf(),
            old(self).serial() < u64::MAX,
        ensures
            final(self).wf(),
            id@ == verification_id_text(now as int, old(self).serial()),
            !old(self).issued().contains(id@),
            !old(self)@.contains_key(id@),
            final(self).serial() == old(self).serial() + 1,
            final(self)@ == old(self)@,
    {
        let id = verification_id(now, self.issued);
        proof {
            lemma_id_is_fresh(now as int, self.issued as nat);
            if self@.contains_key(id@) {
                self.lemma_held_was_issued(id@);
            }
        }
        self.issued = self.issued + 1;
        id
    }

    /// Mints a session at the second `now`, for `scope`. It is filed under a
    /// verification id that differs from every id issued before, and ends one
    /// hour later. Every session held before is held as it was.
    pub fn create_session(&mut self, scope: Vec<String>, now: i64) -> (id: String)
        requires
            old(self).wf(),
            old(self).serial() < u64::MAX,
            now + SESSION_TTL_SECONDS <= i64::MAX,
        ensures
            final(self).wf(),
            id@ == verification_id_text(now as int, old(self).serial()),
            !old(self).issued().contains(id@),
            !old(self)@.contains_key(id@),
            final(self).serial() == old(self).serial() + 1,
            final(self)@ == old(self)@.insert(
                id@,
                SessionModel { expires_at: now + SESSION_TTL_SECONDS, scope: texts_of(scope@) },
            ),
    {
        let id = self.issue_id(now);
        let ghost before = self.sessions@;
        let session = Session {
            verification_id: id.clone(),
            expires_at: now + SESSION_TTL_SECONDS,
            scope,
        };
        self.sessions.push(session);
        proof {
            assert(self.sessions@.drop_last() == before);
        }
        id
    }

    /// The end and the scope of the session filed under `id`, if there is one.
    pub fn lookup_session(&self, id: &str) -> (found: Option<(i64, &Vec<String>)>)
        ensures
            match found {
                Some((expires_at, scope)) => self@.contains_key(id@) && self@[id@]
                    == (SessionModel { expires_at: expires_at as int, scope: texts_of(scope@) }),
                None => !self@.contains_key(id@),
            },
    {
        let mut found: Option<usize> = None;
        let mut i: usize = 0;
        while i < self.sessions.len()
            invariant
                i <= self.sessions@.len(),
                match found {
                    Some(at) => at < i && sessions_map(self.sessions@.take(i as int)).contains_key(
                        id@,
                    ) && sessions_map(self.sessions@.take(i as int))[id@] == (SessionModel {
                        expires_at: self.sessions@[at as int].expires_at as int,
                        scope: texts_of(self.sessions@[at as int].scope@),
                    }),
                    None => !sessions_map(self.sessions@.take(i as int)).contains_key(id@),
                },
            decreases self.sessions@.len() - i,
        {
            proof {
                assert(self.sessions@.take(i + 1).drop_last() == self.sessions@.take(i as int));
            }
            if same_text(self.sessions[i].verification_id.as_str(), id) {
                found = Some(i);
            }
            i += 1;
        }
        proof {
            assert(self.sessions@.take(i as int) == self.sessions@);
        }
        match found {
            Some(at) => Some((self.sessions[at].expires_at, &self.sessions[at].scope)),
            None => None,
        }
    }

    /// Whether the session filed under `id` authorises at the second `now`.
    pub fn is_valid(&self, id: &str, now: i64) -> (valid: bool)
        ensures
            valid == session_valid(self@, id@, now as int),
    {
        match self.lookup_session(id) {
            Some((expires_at, _)) => now < expires_at,
            None => false,
        }
    }
}

} // verus!
