//! The server pool: the instruction servers that run, one for each port, and
//! their reconciliation against the configured bindings.

use vstd::prelude::*;
use std::collections::HashMap;
use vstd::std_specs::iter::IteratorSpec;
use crate::network::{is_wanted, NetworkConfig, PortBinding};
use crate::server::{BindOutcome, InstructionServer, ServerError, ServerState};

verus! {

/// The binding at position `at` is the first enabled binding of its port.
pub open spec fn is_first_wanted(bindings: Seq<PortBinding>, at: int) -> bool {
    &&& 0 <= at < bindings.len()
    &&& bindings[at].enabled
    &&& forall|j: int|
        0 <= j < at ==> !((#[trigger] bindings[j]).port == bindings[at].port && bindings[j].enabled)
}

/// The ports that run after a reconciliation: those that are wanted and
/// either ran before or could be bound.
pub open spec fn reconciled(
    before: Set<u16>,
    bindings: Seq<PortBinding>,
    unavailable: Set<u16>,
) -> Set<u16> {
    Set::new(
        |port: u16|
            is_wanted(bindings, port) && (before.contains(port) || !unavailable.contains(port)),
    )
}

/// Some enabled binding among the first `upto` names `port`.
pub open spec fn wanted_before(bindings: Seq<PortBinding>, upto: int, port: u16) -> bool {
    exists|j: int| 0 <= j < upto && (#[trigger] bindings[j]).port == port && bindings[j].enabled
}

/// What a reconciliation did: the ports whose servers it started, and the
/// ports whose servers it stopped.
#[derive(Debug, PartialEq)]
pub struct Reconciliation {
    pub started: Vec<u16>,
    pub stopped: Vec<u16>,
}

/// Whether `port` is among `ports`.
pub fn contains_port(ports: &Vec<u16>, port: u16) -> (found: bool)
    ensures
        found == ports@.contains(port),
{
    let mut i: usize = 0;
    while i < ports.len()
        invariant
            i <= ports@.len(),
            forall|j: int| 0 <= j < i ==> ports@[j] != port,
        decreases ports@.len() - i,
    {
        if ports[i] == port {
            return true;
        }
        i += 1;
    }
    false
}

/// The pool of running instruction servers.
pub struct ServerPool {
    servers: HashMap<u16, InstructionServer>,
}

impl ServerPool {
    /// The pool is well formed: each server is filed under its own port and
    /// runs. Every pool that this library hands out is well formed.
    pub closed spec fn wf(&self) -> bool {
        forall|port: u16| #[trigger]
            self.servers@.contains_key(port) ==> self.servers@[port].spec_port() == port
                && self.servers@[port].spec_state() == ServerState::Running
    }

    /// The ports that have a running server.
    pub closed spec fn running(&self) -> Set<u16> {
        self.servers@.dom()
    }

    /// The server of a running port.
    pub closed spec fn server(&self, port: u16) -> InstructionServer {
        self.servers@[port]
    }

    /// A pool without servers.
    pub fn new() -> (pool: Self)
        ensures
            pool.wf(),
            pool.running() == Set::<u16>::empty(),
    {
        broadcast use vstd::std_specs::hash::group_hash_axioms;

        let pool = ServerPool { servers: HashMap::new() };
        pool
    }

    /// The number of running servers.
    pub fn len(&self) -> (count: usize)
        ensures
            count == self.running().len(),
    {
        broadcast use vstd::std_specs::hash::group_hash_axioms;

        self.servers.len()
    }

    /// Whether `port` has a running server.
    pub fn contains(&self, port: u16) -> (found: bool)
        ensures
            found == self.running().contains(port),
    {
        broadcast use vstd::std_specs::hash::group_hash_axioms;

        self.servers.contains_key(&port)
    }

    /// The running server of `port`, if it has one.
    pub fn get(&self, port: u16) -> (found: Option<&InstructionServer>)
        ensures
            match found {
                Some(server) => self.running().contains(port) && *server == self.server(port),
                None => !self.running().contains(port),
            },
            self.wf() ==> match found {
                Some(server) => server.spec_port() == port && server.spec_state()
                    == ServerState::Running,
                None => true,
            },
    {
        broadcast use vstd::std_specs::hash::group_hash_axioms;

        self.servers.get(&port)
    }

    /// The ports that have a running server, each once, in no particular
    /// order.
    pub fn ports(&self) -> (ports: Vec<u16>)
        ensures
            ports@.no_duplicates(),
            forall|port: u16| ports@.contains(port) <==> self.running().contains(port),
            ports@.len() == self.running().len(),
    {
        broadcast use vstd::std_specs::hash::group_hash_axioms;

        let mut ports: Vec<u16> = Vec::new();
        for pair in it: self.servers.iter()
            invariant
                it.seq() == self.servers.iter().remaining(),
                it.seq().no_duplicates(),
                ports@.len() == it.index(),
                forall|j: int| 0 <= j < ports@.len() ==> ports@[j] == *it.seq()[j].0,
        {
            let (port, _) = pair;
            ports.push(*port);
        }
        proof {
            let table = self.servers@;
            let walked = self.servers.iter().remaining();
            assert forall|i: int, j: int| 0 <= i < j < ports@.len() implies ports@[i]
                != ports@[j] by {
                if ports@[i] == ports@[j] {
                    assert(table[*walked[j].0] == *walked[j].1);
                }
            }
            assert forall|port: u16| ports@.contains(port) <==> self.running().contains(port) by {
                if table.contains_key(port) {
                    let i = choose|i: int|
                        0 <= i < walked.len() && walked[i] == (&port, &table[port]);
                    assert(ports@[i] == port);
                }
            }
        }
        ports
    }

    /// Whether reconciliation has to start a server for `binding`: it is
    /// enabled and its port has no running server.
    pub fn should_start(&self, binding: &PortBinding) -> (start: bool)
        ensures
            start == (binding.enabled && !self.running().contains(binding.port)),
    {
        binding.enabled && !self.contains(binding.port)
    }

    /// The positions of the bindings for which a reconciliation has to bind
    /// a listener, in their order: each is enabled, is the first enabled
    /// binding of its port, and its port has no running server.
    pub fn start_plan(&self, config: &NetworkConfig) -> (plan: Vec<usize>)
        ensures
            forall|at: usize| #[trigger]
                plan@.contains(at) <==> is_first_wanted(config.port_bindings@, at as int)
                    && !self.running().contains(config.port_bindings@[at as int].port),
            forall|i: int, j: int| 0 <= i < j < plan@.len() ==> plan@[i] < plan@[j],
    {
        let ghost bindings = config.port_bindings@;
        let mut plan: Vec<usize> = Vec::new();
        let mut i: usize = 0;
        while i < config.port_bindings.len()
            invariant
                bindings == config.port_bindings@,
                i <= bindings.len(),
                forall|k: int| 0 <= k < plan@.len() ==> plan@[k] < i,
                forall|at: usize| #[trigger]
                    plan@.contains(at) <==> at < i && is_first_wanted(bindings, at as int)
                        && !self.running().contains(bindings[at as int].port),
                forall|a: int, b: int| 0 <= a < b < plan@.len() ==> plan@[a] < plan@[b],
            decreases bindings.len() - i,
        {
            let binding = &config.port_bindings[i];
            let ghost listed = plan@;
            let mut take: bool = self.should_start(binding);
            if take {
                let mut j: usize = 0;
                while j < i
                    invariant
                        bindings == config.port_bindings@,
                        i < bindings.len(),
                        j <= i,
                        *binding == bindings[i as int],
                        take == forall|k: int|
                            0 <= k < j ==> !((#[trigger] bindings[k]).port == binding.port
                                && bindings[k].enabled),
                    decreases i - j,
                {
                    if config.port_bindings[j].port == binding.port
                        && config.port_bindings[j].enabled {
                        take = false;
                    }
                    j += 1;
                }
            }
            if take {
                plan.push(i);
            }
            proof {
                assert(take <==> is_first_wanted(bindings, i as int) && !self.running().contains(
                    bindings[i as int].port,
                ));
                assert forall|at: usize| #[trigger]
                    plan@.contains(at) <==> at < i + 1 && is_first_wanted(bindings, at as int)
                        && !self.running().contains(bindings[at as int].port) by {
                    if take {
                        if at == i {
                            assert(plan@[listed.len() as int] == i);
                        }
                        if listed.contains(at) {
                            let k = choose|k: int| 0 <= k < listed.len() && listed[k] == at;
                            assert(plan@[k] == at);
                        }
                    }
                }
            }
            i += 1;
        }
        plan
    }

    /// Starts a server for each enabled binding whose port has none and can
    /// be bound. Reports the ports it started.
    fn start_missing(&mut self, config: &NetworkConfig, unavailable: &Vec<u16>) -> (started: Vec<
        u16,
    >)
        requires
            old(self).wf(),
        ensures
            final(self).wf(),
            forall|port: u16| #[trigger]
                final(self).running().contains(port) <==> old(self).running().contains(port) || (
                is_wanted(config.port_bindings@, port) && !unavailable@.contains(port)),
            forall|port: u16|
                old(self).running().contains(port) ==> final(self).server(port) == old(
                    self,
                ).server(port),
            forall|port: u16|
                final(self).running().contains(port) && !old(self).running().contains(port)
                    ==> exists|at: int| #[trigger]
                    is_first_wanted(config.port_bindings@, at) && config.port_bindings@[at].port
                        == port && final(self).server(port).spec_interface()
                        == config.port_bindings@[at].interface,
            started@.no_duplicates(),
            forall|port: u16|
                started@.contains(port) <==> final(self).running().contains(port) && !old(
                    self,
                ).running().contains(port),
    {
        broadcast use vstd::std_specs::hash::group_hash_axioms;

        let ghost before = self.servers@;
        let ghost bindings = config.port_bindings@;
        let mut started: Vec<u16> = Vec::new();
        let mut i: usize = 0;
        while i < config.port_bindings.len()
            invariant
                bindings == config.port_bindings@,
                i <= bindings.len(),
                self.wf(),
                forall|port: u16|
                    self.servers@.contains_key(port) <==> before.contains_key(port) || (
                    wanted_before(bindings, i as int, port) && !unavailable@.contains(port)),
                forall|port: u16|
                    before.contains_key(port) ==> self.servers@[port] == before[port],
                forall|port: u16|
                    self.servers@.contains_key(port) && !before.contains_key(port) ==> exists|
                        at: int,
                    | #[trigger]
                        is_first_wanted(bindings, at) && bindings[at].port == port
                            && self.servers@[port].spec_interface() == bindings[at].interface,
                started@.no_duplicates(),
                forall|port: u16|
                    started@.contains(port) <==> self.servers@.contains_key(port)
                        && !before.contains_key(port),
            decreases bindings.len() - i,
        {
            let binding = &config.port_bindings[i];
            let ghost listed = started@;
            if self.should_start(binding) && !contains_port(unavailable, binding.port) {
                let mut server = InstructionServer::new(binding.port, binding.interface.clone());
                let _ = server.start(BindOutcome::Bound);
                self.servers.insert(binding.port, server);
                started.push(binding.port);
                proof {
                    let port = binding.port;
                    assert(is_first_wanted(bindings, i as int));
                    assert forall|other: u16|
                        started@.contains(other) <==> self.servers@.contains_key(other)
                            && !before.contains_key(other) by {
                        if other == port {
                            assert(started@[listed.len() as int] == port);
                        } else {
                            if listed.contains(other) {
                                let k = choose|k: int| 0 <= k < listed.len() && listed[k] == other;
                                assert(started@[k] == other);
                            }
                        }
                    }
                }
            }
            i += 1;
        }
        proof {
            assert forall|port: u16| wanted_before(bindings, i as int, port) == is_wanted(
                bindings,
                port,
            ) by {}
        }
        started
    }

    /// Stops and removes each running server whose port is not wanted any
    /// more. Reports the ports whose servers it stopped.
    pub fn retire(&mut self, config: &NetworkConfig) -> (stopped: Vec<u16>)
        requires
            old(self).wf(),
        ensures
            final(self).wf(),
            forall|port: u16| #[trigger]
                final(self).running().contains(port) <==> old(self).running().contains(port)
                    && is_wanted(config.port_bindings@, port),
            forall|port: u16|
                final(self).running().contains(port) ==> final(self).server(port) == old(
                    self,
                ).server(port),
            stopped@.no_duplicates(),
            forall|port: u16|
                stopped@.contains(port) <==> old(self).running().contains(port) && !is_wanted(
                    config.port_bindings@,
                    port,
                ),
    {
        broadcast use vstd::std_specs::hash::group_hash_axioms;

        let ghost before = self.servers@;
        let ports = self.ports();
        let mut stopped: Vec<u16> = Vec::new();
        let mut k: usize = 0;
        while k < ports.len()
            invariant
                k <= ports@.len(),
                ports@.no_duplicates(),
                forall|port: u16| ports@.contains(port) <==> before.contains_key(port),
                self.wf(),
                forall|port: u16| #[trigger]
                    self.servers@.contains_key(port) <==> before.contains_key(port) && (is_wanted(
                        config.port_bindings@,
                        port,
                    ) || !ports@.take(k as int).contains(port)),
                forall|port: u16|
                    self.servers@.contains_key(port) ==> self.servers@[port] == before[port],
                stopped@.no_duplicates(),
                forall|port: u16|
                    stopped@.contains(port) <==> before.contains_key(port)
                        && !self.servers@.contains_key(port),
            decreases ports@.len() - k,
        {
            let port: u16 = ports[k];
            let ghost listed = stopped@;
            let ghost seen = ports@.take(k as int);
            proof {
                assert forall|other: u16|
                    ports@.take(k + 1).contains(other) <==> seen.contains(other) || other
                        == port by {
                    if other == port {
                        assert(ports@.take(k + 1)[k as int] == other);
                    }
                }
            }
            let ghost table = self.servers@;
            if !config.wants(port) {
                if let Some(mut server) = self.servers.remove(&port) {
                    let _ = server.stop();
                }
                stopped.push(port);
                proof {
                    assert forall|other: u16|
                        stopped@.contains(other) <==> before.contains_key(other)
                            && !self.servers@.contains_key(other) by {
                        if other == port {
                            assert(stopped@[listed.len() as int] == port);
                        } else {
                            if listed.contains(other) {
                                let j = choose|j: int| 0 <= j < listed.len() && listed[j] == other;
                                assert(stopped@[j] == other);
                            }
                        }
                    }
                }
            }
            k += 1;
            proof {
                assert forall|other: u16| #[trigger]
                    self.servers@.contains_key(other) <==> before.contains_key(other) && (
                    is_wanted(config.port_bindings@, other) || !ports@.take(k as int).contains(
                        other,
                    )) by {
                    assert(ports@.take(k as int).contains(other) <==> seen.contains(other) || other
                        == port);
                    assert(table.contains_key(other) <==> before.contains_key(other) && (
                    is_wanted(config.port_bindings@, other) || !seen.contains(other)));
                }
            }
        }
        proof {
            assert(ports@.take(k as int) == ports@);
        }
        stopped
    }

    /// Reconciles the pool with the configured bindings. `unavailable` lists
    /// the ports that cannot be bound. A server is started for each wanted
    /// port that has none and can be bound; a port that cannot be bound is
    /// left out, and the rest goes on. Each running server whose port is not
    /// wanted any more is stopped and removed. A server that runs and is
    /// still wanted is left as it is.
    pub fn update(&mut self, config: &NetworkConfig, unavailable: &Vec<u16>) -> (done: Result<
        Reconciliation,
        ServerError,
    >)
        requires
            old(self).wf(),
        ensures
            final(self).wf(),
            final(self).running() == reconciled(
                old(self).running(),
                config.port_bindings@,
                unavailable@.to_set(),
            ),
            forall|port: u16|
                old(self).running().contains(port) && final(self).running().contains(port)
                    ==> final(self).server(port) == old(self).server(port),
            forall|port: u16|
                final(self).running().contains(port) && !old(self).running().contains(port)
                    ==> exists|at: int| #[trigger]
                    is_first_wanted(config.port_bindings@, at) && config.port_bindings@[at].port
                        == port && final(self).server(port).spec_interface()
                        == config.port_bindings@[at].interface,
            done matches Ok(report) && {
                &&& report.started@.no_duplicates()
                &&& report.stopped@.no_duplicates()
                &&& forall|port: u16|
                    report.started@.contains(port) <==> final(self).running().contains(port)
                        && !old(self).running().contains(port)
                &&& forall|port: u16|
                    report.stopped@.contains(port) <==> old(self).running().contains(port)
                        && !final(self).running().contains(port)
            },
    {
        let ghost before = *self;
        let started = self.start_missing(config, unavailable);
        let ghost between = *self;
        let stopped = self.retire(config);
        proof {
            let bindings = config.port_bindings@;
            let target = reconciled(before.running(), bindings, unavailable@.to_set());
            assert forall|port: u16| self.running().contains(port) <==> target.contains(port) by {
                assert(self.running().contains(port) <==> between.running().contains(port)
                    && is_wanted(bindings, port));
                assert(between.running().contains(port) <==> before.running().contains(port) || (
                is_wanted(bindings, port) && !unavailable@.contains(port)));
            }
            assert forall|port: u16|
                started@.contains(port) <==> self.running().contains(port)
                    && !before.running().contains(port) by {
                assert(self.running().contains(port) <==> between.running().contains(port)
                    && is_wanted(bindings, port));
                assert(between.running().contains(port) <==> before.running().contains(port) || (
                is_wanted(bindings, port) && !unavailable@.contains(port)));
                assert(started@.contains(port) <==> between.running().contains(port)
                    && !before.running().contains(port));
            }
            assert forall|port: u16|
                stopped@.contains(port) <==> before.running().contains(port)
                    && !self.running().contains(port) by {
                assert(self.running().contains(port) <==> between.running().contains(port)
                    && is_wanted(bindings, port));
                assert(between.running().contains(port) <==> before.running().contains(port) || (
                is_wanted(bindings, port) && !unavailable@.contains(port)));
                assert(stopped@.contains(port) <==> between.running().contains(port)
                    && !is_wanted(bindings, port));
            }
        }
        Ok(Reconciliation { started, stopped })
    }

    /// Stops and removes every running server. Reports the ports whose
    /// servers it stopped.
    pub fn shutdown(&mut self) -> (stopped: Vec<u16>)
        ensures
            final(self).wf(),
            final(self).running() == Set::<u16>::empty(),
            stopped@.no_duplicates(),
            forall|port: u16| stopped@.contains(port) <==> old(self).running().contains(port),
    {
        broadcast use vstd::std_specs::hash::group_hash_axioms;

        let stopped = self.ports();
        self.servers.clear();
        stopped
    }
}

} // verus!
