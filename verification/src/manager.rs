//! The context manager: the instruction documents held in memory, one for
//! each port, kept equal to what the store holds, and the table of approval
//! sessions.

use vstd::prelude::*;
use std::collections::HashMap;
use vstd::std_specs::iter::IteratorSpec;
use crate::context::{
    action_verdicts, is_valid, validation_outcome, ContextModel, InstructionContext,
};
use crate::error::ContextError;
use crate::context::texts_of;
use crate::network::{is_bound, is_wanted, NetworkConfig, PortBinding};
use crate::session::{
    issued_below, session_valid, verification_id_text, SessionModel, SessionTable,
    SESSION_TTL_SECONDS,
};
use crate::storage::{
    contexts_view, store_path, distinct_entries, entries_map, entries_of, with_entry, without_entry,
    ContextEntry, ContextStorage, WriteOutcome,
};

verus! {

/// Why the configuration refuses a document for `port`, if it does: no
/// binding names the port, or none of the bindings that name it is enabled.
pub open spec fn port_refusal(bindings: Seq<PortBinding>, port: u16) -> Option<ContextError> {
    if !is_bound(bindings, port) {
        Some(ContextError::PortNotConfigured(port))
    } else if !is_wanted(bindings, port) {
        Some(ContextError::PortDisabled(port))
    } else {
        None
    }
}

/// What `set_context` leaves in the manager: the mapping with `port` bound to
/// the document where the configuration allows it, the document is valid and
/// the store was written, and the mapping as it was otherwise.
pub open spec fn after_set(
    before: Map<u16, ContextModel>,
    bindings: Seq<PortBinding>,
    port: u16,
    context: ContextModel,
    outcome: WriteOutcome,
) -> Map<u16, ContextModel> {
    if port_refusal(bindings, port) is None && is_valid(context) && outcome
        == WriteOutcome::Written {
        before.insert(port, context)
    } else {
        before
    }
}

/// What `delete_context` leaves in the manager: the mapping without `port`
/// where the store was written, and the mapping as it was otherwise. Where
/// `port` had no document the two are the same.
pub open spec fn after_delete(
    before: Map<u16, ContextModel>,
    port: u16,
    outcome: WriteOutcome,
) -> Map<u16, ContextModel> {
    if outcome == WriteOutcome::Written {
        before.remove(port)
    } else {
        before
    }
}

/// The manager of instruction documents.
pub struct ContextManager {
    contexts: HashMap<u16, InstructionContext>,
    sessions: SessionTable,
    storage: ContextStorage,
}

impl View for ContextManager {
    type V = Map<u16, ContextModel>;

    closed spec fn view(&self) -> Map<u16, ContextModel> {
        contexts_view(self.contexts@)
    }
}

impl ContextManager {
    /// The manager is well formed: what it holds in memory is what its store
    /// holds, and every session is filed under an id that was issued. Every
    /// manager that this library hands out is well formed.
    pub closed spec fn wf(&self) -> bool {
        &&& contexts_view(self.contexts@) == self.storage.document()
        &&& self.sessions.wf()
    }

    /// The mapping that the manager's store holds.
    pub closed spec fn persisted(&self) -> Map<u16, ContextModel> {
        self.storage.document()
    }

    /// The approval sessions that the manager holds, by verification id.
    pub closed spec fn sessions(&self) -> Map<Seq<char>, SessionModel> {
        self.sessions@
    }

    /// The serial number of the next verification id: the count of those
    /// issued so far.
    pub closed spec fn serial(&self) -> nat {
        self.sessions.serial()
    }

    /// The ids issued so far are among these: the verification ids with a
    /// serial number below the next one.
    pub open spec fn issued(&self) -> Set<Seq<char>> {
        Set::new(|id: Seq<char>| issued_below(id, self.serial()))
    }

    /// Where the manager's store lies.
    pub closed spec fn location(&self) -> Seq<char> {
        self.storage.location()
    }

    /// In a well-formed manager the store holds what memory holds.
    pub proof fn lemma_persisted(&self)
        requires
            self.wf(),
        ensures
            self.persisted() == self@,
    {
    }

    /// A manager over a store at its usual place below the configuration
    /// directory `dir`, whose document does not exist yet. Fails where no
    /// configuration directory is known.
    pub fn new(dir: Option<&str>) -> (made: Result<Self, ContextError>)
        ensures
            match dir {
                Some(dir) => made matches Ok(manager) && manager.wf() && manager@ == Map::<
                    u16,
                    ContextModel,
                >::empty() && manager.location() == store_path(dir@) && manager.sessions()
                    == Map::<Seq<char>, SessionModel>::empty(),
                None => made matches Err(e) && e == ContextError::NoConfigDirectory,
            },
    {
        match ContextStorage::new(dir) {
            Ok(storage) => ContextManager::new_with_storage(storage),
            Err(e) => Err(e),
        }
    }

    /// A manager over `storage`, holding the documents that the store holds.
    pub fn new_with_storage(storage: ContextStorage) -> (made: Result<Self, ContextError>)
        ensures
            made matches Ok(manager) && manager.wf() && manager@ == storage.document()
                && manager.persisted() == storage.document() && manager.location()
                == storage.location() && manager.sessions() == Map::<
                Seq<char>,
                SessionModel,
            >::empty() && manager.serial() == 0,
    {
        let contexts = storage.load_all();
        Ok(ContextManager { contexts, sessions: SessionTable::new(), storage })
    }

    /// The manager's store.
    pub fn storage(&self) -> (storage: &ContextStorage)
        ensures
            self.wf() ==> storage.document() == self@,
            storage.document() == self.persisted(),
            storage.location() == self.location(),
    {
        &self.storage
    }

    /// Checks that the configuration allows a document for `port`.
    pub fn validate_port(&self, port: u16, config: &NetworkConfig) -> (checked: Result<
        (),
        ContextError,
    >)
        ensures
            match port_refusal(config.port_bindings@, port) {
                Some(refusal) => checked == Err::<(), ContextError>(refusal),
                None => checked is Ok,
            },
    {
        match config.find_binding(port) {
            None => Err(ContextError::PortNotConfigured(port)),
            Some(at) => {
                assert(config.port_bindings@[at as int].port == port);
                if config.wants(port) {
                    Ok(())
                } else {
                    Err(ContextError::PortDisabled(port))
                }
            },
        }
    }

    /// The document of `port`, if it has one.
    pub fn get_context(&self, port: u16) -> (found: Option<&InstructionContext>)
        ensures
            match found {
                Some(context) => self@.contains_key(port) && context@ == self@[port],
                None => !self@.contains_key(port),
            },
    {
        broadcast use vstd::std_specs::hash::group_hash_axioms;

        self.contexts.get(&port)
    }
}

impl ContextManager {
    /// The entries that the store has to hold before `port` can be bound to
    /// `context`: the manager's documents with that one put in. Fails as
    /// `set_context` does where the configuration or the document is refused.
    pub fn pending_set(
        &self,
        port: u16,
        context: &InstructionContext,
        config: &NetworkConfig,
    ) -> (pending: Result<Vec<ContextEntry>, ContextError>)
        ensures
            match port_refusal(config.port_bindings@, port) {
                Some(refusal) => pending == Err::<Vec<ContextEntry>, ContextError>(refusal),
                None => if is_valid(context@) {
                    pending matches Ok(entries) && distinct_entries(entries@) && entries_map(
                        entries@,
                    ) == self@.insert(port, context@)
                } else {
                    pending matches Err(ContextError::Validation(e)) && validation_outcome(
                        context@,
                        action_verdicts(context@.allowed_actions),
                        Err(e),
                    )
                },
            },
    {
        match self.validate_port(port, config) {
            Err(e) => {
                return Err(e);
            },
            Ok(()) => {},
        }
        match context.validate() {
            Err(e) => {
                return Err(ContextError::Validation(e));
            },
            Ok(()) => {},
        }
        let entries = entries_of(&self.contexts);
        Ok(with_entry(entries, port, context.clone()))
    }

    /// Binds `port` to `context`. `outcome` says how writing the entries of
    /// `pending_set` to the store ended. The configuration is consulted first,
    /// then the document's validity, then the store: the first that refuses
    /// is reported, and then nothing has changed. Memory and store change
    /// together or not at all.
    pub fn set_context(
        &mut self,
        port: u16,
        context: InstructionContext,
        config: &NetworkConfig,
        outcome: WriteOutcome,
    ) -> (set: Result<(), ContextError>)
        requires
            old(self).wf(),
        ensures
            final(self).wf(),
            final(self)@ == after_set(old(self)@, config.port_bindings@, port, context@, outcome),
            (set matches Err(e) && e.is_configuration()) <==> port_refusal(
                config.port_bindings@,
                port,
            ) is Some,
            set is Ok <==> port_refusal(config.port_bindings@, port) is None && is_valid(context@)
                && outcome == WriteOutcome::Written,
            final(self).persisted() == final(self)@,
            final(self).location() == old(self).location(),
            final(self).sessions() == old(self).sessions(),
            final(self).serial() == old(self).serial(),
            match port_refusal(config.port_bindings@, port) {
                Some(refusal) => set == Err::<(), ContextError>(refusal),
                None => if !is_valid(context@) {
                    set matches Err(ContextError::Validation(e)) && validation_outcome(
                        context@,
                        action_verdicts(context@.allowed_actions),
                        Err(e),
                    )
                } else if outcome == WriteOutcome::Failed {
                    set == Err::<(), ContextError>(ContextError::Persistence)
                } else {
                    set is Ok
                },
            },
    {
        broadcast use vstd::std_specs::hash::group_hash_axioms;

        match self.validate_port(port, config) {
            Err(e) => {
                return Err(e);
            },
            Ok(()) => {},
        }
        match context.validate() {
            Err(e) => {
                return Err(ContextError::Validation(e));
            },
            Ok(()) => {},
        }
        match outcome {
            WriteOutcome::Failed => Err(ContextError::Persistence),
            WriteOutcome::Written => {
                let ghost before = self.contexts@;
                let ghost document = context@;
                self.contexts.insert(port, context);
                proof {
                    assert(contexts_view(self.contexts@) =~= contexts_view(before).insert(
                        port,
                        document,
                    ));
                }
                let _ = self.storage.save_all(&self.contexts, WriteOutcome::Written);
                Ok(())
            },
        }
    }

    /// The entries that the store has to hold before the document of `port`
    /// can be deleted: the manager's documents without that one. Nothing where
    /// `port` has no document, as nothing is to be written then.
    pub fn pending_delete(&self, port: u16) -> (pending: Option<Vec<ContextEntry>>)
        ensures
            match pending {
                Some(entries) => self@.contains_key(port) && distinct_entries(entries@)
                    && entries_map(entries@) == self@.remove(port),
                None => !self@.contains_key(port),
            },
    {
        broadcast use vstd::std_specs::hash::group_hash_axioms;

        if self.contexts.contains_key(&port) {
            let entries = entries_of(&self.contexts);
            Some(without_entry(entries, port))
        } else {
            None
        }
    }

    /// Deletes the document of `port`. Where `port` has none, nothing is to be
    /// done and the call succeeds. Where it has one, `outcome` says how
    /// writing the entries of `pending_delete` to the store ended: where the
    /// write failed, that is reported and nothing has changed.
    pub fn delete_context(&mut self, port: u16, outcome: WriteOutcome) -> (deleted: Result<
        (),
        ContextError,
    >)
        requires
            old(self).wf(),
        ensures
            final(self).wf(),
            final(self)@ == after_delete(old(self)@, port, outcome),
            final(self).persisted() == final(self)@,
            final(self).location() == old(self).location(),
            final(self).sessions() == old(self).sessions(),
            final(self).serial() == old(self).serial(),
            if old(self)@.contains_key(port) && outcome == WriteOutcome::Failed {
                deleted == Err::<(), ContextError>(ContextError::Persistence)
            } else {
                deleted is Ok
            },
    {
        broadcast use vstd::std_specs::hash::group_hash_axioms;

        if !self.contexts.contains_key(&port) {
            return Ok(());
        }
        match outcome {
            WriteOutcome::Failed => Err(ContextError::Persistence),
            WriteOutcome::Written => {
                let _ = self.contexts.remove(&port);
                let _ = self.storage.save_all(&self.contexts, WriteOutcome::Written);
                Ok(())
            },
        }
    }

    /// The documents of all ports, each with its port, in no particular
    /// order.
    pub fn list_contexts(&self) -> (listed: Vec<(u16, &InstructionContext)>)
        ensures
            listed@.len() == self@.dom().len(),
            forall|i: int|
                0 <= i < listed@.len() ==> self@.contains_key((#[trigger] listed@[i]).0)
                    && listed@[i].1@ == self@[listed@[i].0],
            forall|port: u16|
                self@.contains_key(port) ==> exists|i: int|
                    0 <= i < listed@.len() && (#[trigger] listed@[i]).0 == port,
            forall|i: int, j: int|
                0 <= i < j < listed@.len() ==> (#[trigger] listed@[i]).0 != (
                #[trigger] listed@[j]).0,
    {
        broadcast use vstd::std_specs::hash::group_hash_axioms;

        let mut listed: Vec<(u16, &InstructionContext)> = Vec::new();
        for pair in it: self.contexts.iter()
            invariant
                it.seq() == self.contexts.iter().remaining(),
                it.seq().no_duplicates(),
                listed@.len() == it.index(),
                forall|j: int|
                    0 <= j < listed@.len() ==> (#[trigger] listed@[j]).0 == *it.seq()[j].0
                        && *listed@[j].1 == *it.seq()[j].1,
        {
            let (port, context) = pair;
            listed.push((*port, context));
        }
        proof {
            let table = self.contexts@;
            let walked = self.contexts.iter().remaining();
            assert(self@.dom() =~= table.dom());
            assert forall|i: int| 0 <= i < listed@.len() implies self@.contains_key(
                (#[trigger] listed@[i]).0,
            ) && listed@[i].1@ == self@[listed@[i].0] by {
            }
            assert forall|port: u16| self@.contains_key(port) implies exists|i: int|
                0 <= i < listed@.len() && (#[trigger] listed@[i]).0 == port by {
                let i = choose|i: int| 0 <= i < walked.len() && walked[i] == (&port, &table[port]);
                assert(listed@[i].0 == port);
            }
        }
        listed
    }

    /// The count of the verification ids issued so far.
    pub fn issued_count(&self) -> (count: u64)
        ensures
            count == self.serial(),
    {
        self.sessions.issued_count()
    }

    /// Issues a verification id at the second `now`. It differs from every
    /// id issued before. Sessions and documents are not touched.
    pub fn issue_id(&mut self, now: i64) -> (id: String)
        requires
            old(self).wf(),
            old(self).serial() < u64::MAX,
        ensures
            final(self).wf(),
            id@ == verification_id_text(now as int, old(self).serial()),
            !old(self).issued().contains(id@),
            !old(self).sessions().contains_key(id@),
            final(self).serial() == old(self).serial() + 1,
            final(self).sessions() == old(self).sessions(),
            final(self)@ == old(self)@,
            final(self).persisted() == old(self).persisted(),
            final(self).location() == old(self).location(),
    {
        self.sessions.issue_id(now)
    }

    /// Mints an approval session at the second `now`, for `scope`. It is
    /// filed under a verification id that differs from every id issued
    /// before, and ends one hour later. Every session held before is held
    /// as it was, and the documents are not touched.
    pub fn create_session(&mut self, scope: Vec<String>, now: i64) -> (id: String)
        requires
            old(self).wf(),
            old(self).serial() < u64::MAX,
            now + SESSION_TTL_SECONDS <= i64::MAX,
        ensures
            final(self).wf(),
            id@ == verification_id_text(now as int, old(self).serial()),
            !old(self).issued().contains(id@),
            !old(self).sessions().contains_key(id@),
            final(self).serial() == old(self).serial() + 1,
            final(self).sessions() == old(self).sessions().insert(
                id@,
                SessionModel { expires_at: now + SESSION_TTL_SECONDS, scope: texts_of(scope@) },
            ),
            final(self)@ == old(self)@,
            final(self).persisted() == old(self).persisted(),
            final(self).location() == old(self).location(),
    {
        self.sessions.create_session(scope, now)
    }

    /// The end and the scope of the session filed under `id`, if there is one.
    pub fn lookup_session(&self, id: &str) -> (found: Option<(i64, &Vec<String>)>)
        ensures
            match found {
                Some((expires_at, scope)) => self.sessions().contains_key(id@) && self.sessions()[id@]
                    == (SessionModel { expires_at: expires_at as int, scope: texts_of(scope@) }),
                None => !self.sessions().contains_key(id@),
            },
    {
        self.sessions.lookup_session(id)
    }

    /// Whether the session filed under `id` authorises at the second `now`:
    /// it exists and has not ended.
    pub fn session_is_valid(&self, id: &str, now: i64) -> (valid: bool)
        ensures
            valid == session_valid(self.sessions(), id@, now as int),
    {
        self.sessions.is_valid(id, now)
    }
}

} // verus!
