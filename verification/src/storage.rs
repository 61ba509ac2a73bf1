//! The durable store of instruction documents, as the library sees it: the
//! place of the store's document and the entries that were last read from it
//! or written to it.

use vstd::prelude::*;
use vstd::string::StringExecFns;
use crate::text::chars_of;
use std::collections::HashMap;
use vstd::std_specs::iter::IteratorSpec;
use crate::context::{ContextModel, InstructionContext};
use crate::error::ContextError;

verus! {

/// One stored document with the port it belongs to.
#[derive(Debug, PartialEq)]
pub struct ContextEntry {
    pub port: u16,
    pub context: InstructionContext,
}

/// How an attempt to write the store's document ended.
#[derive(Debug, Clone, Copy, PartialEq, Eq, Structural)]
pub enum WriteOutcome {
    Written,
    Failed,
}

/// The mapping that a list of entries stands for: each entry binds its port,
/// and of two entries with one port the later one counts.
pub open spec fn entries_map(entries: Seq<ContextEntry>) -> Map<u16, ContextModel>
    decreases entries.len(),
{
    if entries.len() == 0 {
        Map::empty()
    } else {
        entries_map(entries.drop_last()).insert(entries.last().port, entries.last().context@)
    }
}

/// No two entries have the same port.
pub open spec fn distinct_entries(entries: Seq<ContextEntry>) -> bool {
    forall|i: int, j: int|
        0 <= i < j < entries.len() ==> (#[trigger] entries[i]).port != (#[trigger] entries[j]).port
}

/// The mapping that a table of documents stands for.
pub open spec fn contexts_view(table: Map<u16, InstructionContext>) -> Map<u16, ContextModel> {
    Map::new(|port: u16| table.contains_key(port), |port: u16| table[port]@)
}

/// The ports of `entries_map` are those of the entries.
pub proof fn lemma_entries_map_ports(entries: Seq<ContextEntry>, port: u16)
    ensures
        entries_map(entries).contains_key(port) <==> exists|i: int|
            0 <= i < entries.len() && (#[trigger] entries[i]).port == port,
    decreases entries.len(),
{
    if entries.len() > 0 {
        let init = entries.drop_last();
        lemma_entries_map_ports(init, port);
        if exists|i: int| 0 <= i < entries.len() && (#[trigger] entries[i]).port == port {
            let i = choose|i: int| 0 <= i < entries.len() && (#[trigger] entries[i]).port == port;
            if i < init.len() {
                assert(init[i] == entries[i]);
            }
        }
    }
}

/// Where no port occurs twice, `entries_map` gives each port the document of
/// its entry.
pub proof fn lemma_entries_map_values(entries: Seq<ContextEntry>, at: int)
    requires
        distinct_entries(entries),
        0 <= at < entries.len(),
    ensures
        entries_map(entries).contains_key(entries[at].port),
        entries_map(entries)[entries[at].port] == entries[at].context@,
    decreases entries.len(),
{
    let init = entries.drop_last();
    if at == entries.len() - 1 {
    } else {
        lemma_entries_map_values(init, at);
    }
}

/// A list of entries without a repeated port, which lists exactly the
/// documents of a table, stands for that table.
pub proof fn lemma_entries_cover(entries: Seq<ContextEntry>, table: Map<u16, ContextModel>)
    requires
        distinct_entries(entries),
        forall|i: int|
            0 <= i < entries.len() ==> table.contains_key((#[trigger] entries[i]).port)
                && table[entries[i].port] == entries[i].context@,
        forall|port: u16|
            table.contains_key(port) ==> exists|i: int|
                0 <= i < entries.len() && (#[trigger] entries[i]).port == port,
    ensures
        entries_map(entries) == table,
{
    assert forall|port: u16| entries_map(entries).contains_key(port) == table.contains_key(
        port,
    ) by {
        lemma_entries_map_ports(entries, port);
    }
    assert forall|port: u16| entries_map(entries).contains_key(port) implies entries_map(
        entries,
    )[port] == table[port] by {
        lemma_entries_map_ports(entries, port);
        let i = choose|i: int| 0 <= i < entries.len() && (#[trigger] entries[i]).port == port;
        lemma_entries_map_values(entries, i);
    }
}

/// Lists the documents of a table, each with its port. The order is that in
/// which the table hands them out.
pub fn entries_of(table: &HashMap<u16, InstructionContext>) -> (entries: Vec<ContextEntry>)
    ensures
        distinct_entries(entries@),
        entries_map(entries@) == contexts_view(table@),
        entries@.len() == table@.dom().len(),
{
    broadcast use vstd::std_specs::hash::group_hash_axioms;

    let mut entries: Vec<ContextEntry> = Vec::new();
    for pair in it: table.iter()
        invariant
            it.seq() == table.iter().remaining(),
            it.seq().no_duplicates(),
            entries@.len() == it.index(),
            forall|j: int|
                0 <= j < entries@.len() ==> (#[trigger] entries@[j]).port == *it.seq()[j].0
                    && entries@[j].context@ == (*it.seq()[j].1)@,
    {
        let (port, context) = pair;
        entries.push(ContextEntry { port: *port, context: context.clone() });
    }
    proof {
        let walked = table.iter().remaining();
        assert(distinct_entries(entries@)) by {
            assert forall|i: int, j: int| 0 <= i < j < entries@.len() implies (
            #[trigger] entries@[i]).port != (#[trigger] entries@[j]).port by {
                if entries@[i].port == entries@[j].port {
                    assert(table@[*walked[j].0] == *walked[j].1);
                }
            }
        }
        assert forall|port: u16| contexts_view(table@).contains_key(port) implies exists|i: int|
            0 <= i < entries@.len() && (#[trigger] entries@[i]).port == port by {
            let i = choose|i: int| 0 <= i < walked.len() && walked[i] == (&port, &table@[port]);
            assert(entries@[i].port == port);
        }
        lemma_entries_cover(entries@, contexts_view(table@));
    }
    entries
}

/// Finds the entry of `port`.
pub fn position_of(entries: &Vec<ContextEntry>, port: u16) -> (found: Option<usize>)
    ensures
        match found {
            Some(at) => at < entries@.len() && entries@[at as int].port == port,
            None => forall|i: int| 0 <= i < entries@.len() ==> (#[trigger] entries@[i]).port != port,
        },
{
    let mut i: usize = 0;
    while i < entries.len()
        invariant
            i <= entries@.len(),
            forall|j: int| 0 <= j < i ==> (#[trigger] entries@[j]).port != port,
        decreases entries@.len() - i,
    {
        if entries[i].port == port {
            return Some(i);
        }
        i += 1;
    }
    None
}

/// Binds `port` to `context` in a list of entries: the entry of `port` is
/// replaced where there is one, and a new entry is added at the end where
/// there is none.
pub fn with_entry(entries: Vec<ContextEntry>, port: u16, context: InstructionContext) -> (changed:
    Vec<ContextEntry>)
    requires
        distinct_entries(entries@),
    ensures
        distinct_entries(changed@),
        entries_map(changed@) == entries_map(entries@).insert(port, context@),
{
    let ghost before = entries@;
    let ghost document = context@;
    let mut changed = entries;
    let ghost mut slot: int = 0;
    match position_of(&changed, port) {
        Some(at) => {
            changed.set(at, ContextEntry { port, context });
            proof {
                slot = at as int;
            }
        },
        None => {
            changed.push(ContextEntry { port, context });
            proof {
                slot = before.len() as int;
            }
        },
    }
    proof {
        let table = entries_map(before).insert(port, document);
        assert(0 <= slot < changed@.len() && changed@[slot].port == port && changed@[slot].context@
            == document);
        assert forall|i: int| 0 <= i < changed@.len() implies table.contains_key(
            (#[trigger] changed@[i]).port,
        ) && table[changed@[i].port] == changed@[i].context@ by {
            if changed@[i].port != port {
                lemma_entries_map_values(before, i);
            }
        }
        assert forall|p: u16| table.contains_key(p) implies exists|i: int|
            0 <= i < changed@.len() && (#[trigger] changed@[i]).port == p by {
            if p == port {
            } else {
                lemma_entries_map_ports(before, p);
                let i = choose|i: int| 0 <= i < before.len() && (#[trigger] before[i]).port == p;
                assert(changed@[i].port == p);
            }
        }
        lemma_entries_cover(changed@, table);
    }
    changed
}

/// Takes the entry of `port` out of a list of entries, where there is one.
pub fn without_entry(entries: Vec<ContextEntry>, port: u16) -> (changed: Vec<ContextEntry>)
    requires
        distinct_entries(entries@),
    ensures
        distinct_entries(changed@),
        entries_map(changed@) == entries_map(entries@).remove(port),
{
    let ghost before = entries@;
    let mut changed = entries;
    match position_of(&changed, port) {
        Some(at) => {
            let _ = changed.remove(at);
            proof {
                let table = entries_map(before).remove(port);
                assert forall|i: int| 0 <= i < changed@.len() implies table.contains_key(
                    (#[trigger] changed@[i]).port,
                ) && table[changed@[i].port] == changed@[i].context@ by {
                    if i < at {
                        lemma_entries_map_values(before, i);
                    } else {
                        lemma_entries_map_values(before, i + 1);
                    }
                }
                assert forall|p: u16| table.contains_key(p) implies exists|i: int|
                    0 <= i < changed@.len() && (#[trigger] changed@[i]).port == p by {
                    lemma_entries_map_ports(before, p);
                    let i = choose|i: int|
                        0 <= i < before.len() && (#[trigger] before[i]).port == p;
                    if i < at {
                        assert(changed@[i].port == p);
                    } else {
                        assert(changed@[i - 1].port == p);
                    }
                }
                assert(distinct_entries(changed@)) by {
                    assert forall|i: int, j: int| 0 <= i < j < changed@.len() implies (
                    #[trigger] changed@[i]).port != (#[trigger] changed@[j]).port by {
                    }
                }
                lemma_entries_cover(changed@, table);
            }
        },
        None => {
            proof {
                lemma_entries_map_ports(before, port);
            }
        },
    }
    changed
}

/// Where the store's document lies below the configuration directory `dir`:
/// in the file `contexts.json` of the directory `chaseai`.
pub open spec fn store_path(dir: Seq<char>) -> Seq<char> {
    if dir.len() == 0 || dir.last() == '/' {
        dir + "chaseai/contexts.json"@
    } else {
        dir + "/chaseai/contexts.json"@
    }
}

/// Where the store's document lies below the configuration directory `dir`.
pub fn default_path(dir: &str) -> (path: String)
    ensures
        path@ == store_path(dir@),
{
    let chars = chars_of(dir);
    let mut path = String::from_str(dir);
    if chars.len() == 0 || chars[chars.len() - 1] == '/' {
        path.append("chaseai/contexts.json");
    } else {
        path.append("/chaseai/contexts.json");
    }
    path
}

/// The store of instruction documents: where its document lies, and the
/// entries that the document holds.
pub struct ContextStorage {
    config_path: String,
    entries: Vec<ContextEntry>,
}

impl ContextStorage {
    #[verifier::type_invariant]
    spec fn well_formed(&self) -> bool {
        distinct_entries(self.entries@)
    }

    /// Where the store's document lies.
    pub closed spec fn location(&self) -> Seq<char> {
        self.config_path@
    }

    /// The mapping that the store's document holds.
    pub closed spec fn document(&self) -> Map<u16, ContextModel> {
        entries_map(self.entries@)
    }

    /// A store at its usual place below the configuration directory `dir`,
    /// whose document does not exist yet. Fails where no configuration
    /// directory is known.
    pub fn new(dir: Option<&str>) -> (made: Result<Self, ContextError>)
        ensures
            match dir {
                Some(dir) => made matches Ok(store) && store.location() == store_path(dir@)
                    && store.document() == Map::<u16, ContextModel>::empty(),
                None => made matches Err(e) && e == ContextError::NoConfigDirectory,
            },
    {
        match dir {
            Some(dir) => Ok(ContextStorage::with_path(default_path(dir))),
            None => Err(ContextError::NoConfigDirectory),
        }
    }

    /// A store at `path` whose document does not exist yet: it holds nothing.
    pub fn with_path(path: String) -> (store: Self)
        ensures
            store.location() == path@,
            store.document() == Map::<u16, ContextModel>::empty(),
    {
        ContextStorage { config_path: path, entries: Vec::new() }
    }

    /// A store at `path` whose document holds `entries`. Of two entries with
    /// one port the later one counts.
    pub fn with_contents(path: String, entries: Vec<ContextEntry>) -> (store: Self)
        ensures
            store.location() == path@,
            store.document() == entries_map(entries@),
    {
        let mut kept: Vec<ContextEntry> = Vec::new();
        let mut rest = entries;
        let ghost all = rest@;
        let mut i: usize = 0;
        while i < rest.len()
            invariant
                rest@ == all,
                i <= all.len(),
                distinct_entries(kept@),
                entries_map(kept@) == entries_map(all.take(i as int)),
            decreases all.len() - i,
        {
            let port: u16 = rest[i].port;
            let context = rest[i].context.clone();
            proof {
                assert(all.take(i + 1).drop_last() == all.take(i as int));
            }
            kept = with_entry(kept, port, context);
            i += 1;
        }
        proof {
            assert(all.take(i as int) == all);
        }
        ContextStorage { config_path: path, entries: kept }
    }

    /// Where the store's document lies.
    pub fn path(&self) -> (path: &str)
        ensures
            path@ == self.location(),
    {
        self.config_path.as_str()
    }

    /// The documents that the store holds, by port.
    pub fn load_all(&self) -> (table: HashMap<u16, InstructionContext>)
        ensures
            contexts_view(table@) == self.document(),
    {
        broadcast use vstd::std_specs::hash::group_hash_axioms;

        let mut table: HashMap<u16, InstructionContext> = HashMap::new();
        let mut i: usize = 0;
        while i < self.entries.len()
            invariant
                i <= self.entries@.len(),
                contexts_view(table@) == entries_map(self.entries@.take(i as int)),
            decreases self.entries@.len() - i,
        {
            let ghost before = table@;
            let context = self.entries[i].context.clone();
            table.insert(self.entries[i].port, context);
            proof {
                assert(self.entries@.take(i + 1).drop_last() == self.entries@.take(i as int));
                assert(contexts_view(table@) =~= contexts_view(before).insert(
                    self.entries@[i as int].port,
                    self.entries@[i as int].context@,
                ));
            }
            i += 1;
        }
        proof {
            assert(self.entries@.take(i as int) == self.entries@);
        }
        table
    }

    /// The entries to write so that the store's document holds `contexts`.
    pub fn document_for(contexts: &HashMap<u16, InstructionContext>) -> (entries: Vec<
        ContextEntry,
    >)
        ensures
            distinct_entries(entries@),
            entries_map(entries@) == contexts_view(contexts@),
    {
        entries_of(contexts)
    }

    /// Records how writing `contexts` to the store's document ended. Where
    /// it was written, the store holds `contexts` from now on; where the write
    /// failed, the store is as before and the failure is reported.
    pub fn save_all(
        &mut self,
        contexts: &HashMap<u16, InstructionContext>,
        outcome: WriteOutcome,
    ) -> (saved: Result<(), ContextError>)
        ensures
            final(self).location() == old(self).location(),
            outcome == WriteOutcome::Written ==> saved is Ok && final(self).document()
                == contexts_view(contexts@),
            outcome == WriteOutcome::Failed ==> saved == Err::<(), ContextError>(
                ContextError::Persistence,
            ) && final(self).document() == old(self).document(),
    {
        match outcome {
            WriteOutcome::Written => {
                self.entries = entries_of(contexts);
                Ok(())
            },
            WriteOutcome::Failed => Err(ContextError::Persistence),
        }
    }
}

} // verus!
