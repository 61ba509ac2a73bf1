//! The configured endpoints: interfaces, port bindings and the network
//! configuration that lists them.

use vstd::prelude::*;
use vstd::string::StringExecFns;
use crate::text::{decimal, decimal_string};
use std::collections::HashMap;
use vstd::std_specs::iter::IteratorSpec;

verus! {

/// What kind of network an interface is attached to.
#[derive(Debug, Clone, Copy, PartialEq, Eq, Structural)]
pub enum InterfaceType {
    Loopback,
    Lan,
    Public,
}

/// An IP address, held as plain numbers.
#[derive(Debug, Clone, Copy, PartialEq, Eq, Hash, Structural)]
pub enum IpAddress {
    /// The four octets of an IPv4 address, most significant first.
    V4(u8, u8, u8, u8),
    /// The 128 bits of an IPv6 address.
    V6(u128),
}

/// A network interface an endpoint can listen on.
#[derive(Debug, PartialEq)]
pub struct NetworkInterface {
    pub name: String,
    pub ip_address: IpAddress,
    pub interface_type: InterfaceType,
}

impl Clone for NetworkInterface {
    fn clone(&self) -> (copy: Self)
        ensures
            copy == *self,
    {
        NetworkInterface {
            name: self.name.clone(),
            ip_address: self.ip_address,
            interface_type: self.interface_type,
        }
    }
}

/// What an endpoint is for.
#[derive(Debug, Clone, Copy, PartialEq, Eq, Hash, Structural)]
pub enum PortRole {
    Instruction,
    Verification,
}

/// One desired endpoint: a port on an interface, with its role and whether
/// it should be running.
#[derive(Debug, PartialEq)]
pub struct PortBinding {
    pub port: u16,
    pub interface: NetworkInterface,
    pub role: PortRole,
    pub enabled: bool,
}

impl Clone for PortBinding {
    fn clone(&self) -> (copy: Self)
        ensures
            copy == *self,
    {
        PortBinding {
            port: self.port,
            interface: self.interface.clone(),
            role: self.role,
            enabled: self.enabled,
        }
    }
}

/// Some binding of `bindings` names `port`.
pub open spec fn is_bound(bindings: Seq<PortBinding>, port: u16) -> bool {
    exists|i: int| 0 <= i < bindings.len() && (#[trigger] bindings[i]).port == port
}

/// The binding at position `at` is the first of `bindings` that names `port`.
pub open spec fn is_first_binding(bindings: Seq<PortBinding>, port: u16, at: int) -> bool {
    &&& 0 <= at < bindings.len()
    &&& bindings[at].port == port
    &&& forall|j: int| 0 <= j < at ==> (#[trigger] bindings[j]).port != port
}

/// Some enabled binding of `bindings` names `port`: the port is wanted.
pub open spec fn is_wanted(bindings: Seq<PortBinding>, port: u16) -> bool {
    exists|i: int|
        0 <= i < bindings.len() && (#[trigger] bindings[i]).port == port && bindings[i].enabled
}

/// No two bindings of `bindings` name the same port.
pub open spec fn distinct_ports(bindings: Seq<PortBinding>) -> bool {
    forall|i: int, j: int|
        0 <= i < j < bindings.len() ==> (#[trigger] bindings[i]).port != (
        #[trigger] bindings[j]).port
}

/// The desired state of the network: which ports to serve, and where.
#[derive(Debug, PartialEq)]
pub struct NetworkConfig {
    pub default_interface: InterfaceType,
    pub port_bindings: Vec<PortBinding>,
}

impl NetworkConfig {
    /// A configuration with no bindings, on the loopback interface.
    pub fn new() -> (config: Self)
        ensures
            config.default_interface == InterfaceType::Loopback,
            config.port_bindings@ == Seq::<PortBinding>::empty(),
    {
        NetworkConfig { default_interface: InterfaceType::Loopback, port_bindings: Vec::new() }
    }

    /// The position of the first binding that names `port`.
    pub fn find_binding(&self, port: u16) -> (found: Option<usize>)
        ensures
            match found {
                Some(i) => is_first_binding(self.port_bindings@, port, i as int),
                None => !is_bound(self.port_bindings@, port),
            },
    {
        let mut i: usize = 0;
        while i < self.port_bindings.len()
            invariant
                i <= self.port_bindings@.len(),
                forall|j: int| 0 <= j < i ==> (#[trigger] self.port_bindings@[j]).port != port,
            decreases self.port_bindings@.len() - i,
        {
            if self.port_bindings[i].port == port {
                return Some(i);
            }
            i += 1;
        }
        None
    }

    /// Whether some enabled binding names `port`.
    pub fn wants(&self, port: u16) -> (wanted: bool)
        ensures
            wanted == is_wanted(self.port_bindings@, port),
    {
        let mut i: usize = 0;
        while i < self.port_bindings.len()
            invariant
                i <= self.port_bindings@.len(),
                forall|j: int|
                    0 <= j < i ==> !((#[trigger] self.port_bindings@[j]).port == port
                        && self.port_bindings@[j].enabled),
            decreases self.port_bindings@.len() - i,
        {
            if self.port_bindings[i].port == port && self.port_bindings[i].enabled {
                return true;
            }
            i += 1;
        }
        false
    }
}

impl Clone for NetworkConfig {
    fn clone(&self) -> (copy: Self)
        ensures
            copy.default_interface == self.default_interface,
            copy.port_bindings@ == self.port_bindings@,
    {
        let mut bindings: Vec<PortBinding> = Vec::new();
        let mut i: usize = 0;
        while i < self.port_bindings.len()
            invariant
                i <= self.port_bindings@.len(),
                bindings@ == self.port_bindings@.take(i as int),
            decreases self.port_bindings@.len() - i,
        {
            bindings.push(self.port_bindings[i].clone());
            i += 1;
        }
        NetworkConfig { default_interface: self.default_interface, port_bindings: bindings }
    }
}

impl Default for NetworkConfig {
    fn default() -> (config: Self)
        ensures
            config.default_interface == InterfaceType::Loopback,
            config.port_bindings@ == Seq::<PortBinding>::empty(),
    {
        NetworkConfig::new()
    }
}

/// Whether an address belongs to a private network. An IPv4 address does
/// when it lies in 10.0.0.0/8, 172.16.0.0/12 or 192.168.0.0/16. Every IPv6
/// address is taken to.
pub open spec fn is_private(ip: IpAddress) -> bool {
    match ip {
        IpAddress::V4(a, b, _, _) => a == 10 || (a == 172 && 16 <= b <= 31) || (a == 192 && b
            == 168),
        IpAddress::V6(_) => true,
    }
}

/// How an interface is classified: a loopback interface as loopback, one
/// with a private address as LAN, and any other as public.
pub open spec fn classification(is_loopback: bool, ip: IpAddress) -> InterfaceType {
    if is_loopback {
        InterfaceType::Loopback
    } else if is_private(ip) {
        InterfaceType::Lan
    } else {
        InterfaceType::Public
    }
}

/// The interfaces of `all` that are of the given kind, in their order.
pub open spec fn of_kind(all: Seq<NetworkInterface>, kind: InterfaceType) -> Seq<NetworkInterface> {
    all.filter(|i: NetworkInterface| i.interface_type == kind)
}

/// Classifies the interfaces that the system reports.
pub struct InterfaceDetector;

impl InterfaceDetector {
    /// Decides `is_private`.
    pub fn is_private_ip(ip: IpAddress) -> (private: bool)
        ensures
            private == is_private(ip),
    {
        match ip {
            IpAddress::V4(a, b, _, _) => a == 10 || (a == 172 && 16 <= b && b <= 31) || (a == 192
                && b == 168),
            IpAddress::V6(_) => true,
        }
    }

    /// Classifies an interface by whether it is a loopback interface and by
    /// its address.
    pub fn classify(is_loopback: bool, ip: IpAddress) -> (kind: InterfaceType)
        ensures
            kind == classification(is_loopback, ip),
    {
        if is_loopback {
            InterfaceType::Loopback
        } else if Self::is_private_ip(ip) {
            InterfaceType::Lan
        } else {
            InterfaceType::Public
        }
    }

    /// The interface that the system reported under `name` with address
    /// `ip`, classified.
    pub fn describe(name: String, is_loopback: bool, ip: IpAddress) -> (interface: NetworkInterface)
        ensures
            interface.name == name,
            interface.ip_address == ip,
            interface.interface_type == classification(is_loopback, ip),
    {
        NetworkInterface { name, ip_address: ip, interface_type: Self::classify(is_loopback, ip) }
    }

    /// The interfaces of `all` that are of the given kind, in their order.
    pub fn select(all: &Vec<NetworkInterface>, kind: InterfaceType) -> (selected: Vec<
        NetworkInterface,
    >)
        ensures
            selected@ == of_kind(all@, kind),
    {
        let mut selected: Vec<NetworkInterface> = Vec::new();
        let mut i: usize = 0;
        while i < all.len()
            invariant
                i <= all@.len(),
                selected@ == of_kind(all@.take(i as int), kind),
            decreases all@.len() - i,
        {
            proof {
                let keep = |x: NetworkInterface| x.interface_type == kind;
                assert(all@.take(i + 1).drop_last() == all@.take(i as int));
                reveal(Seq::filter);
                assert(all@.take(i + 1).filter(keep) == if keep(all@[i as int]) {
                    all@.take(i as int).filter(keep).push(all@[i as int])
                } else {
                    all@.take(i as int).filter(keep)
                });
            }
            if all[i].interface_type == kind {
                selected.push(all[i].clone());
            }
            i += 1;
        }
        proof {
            assert(all@.take(i as int) == all@);
        }
        selected
    }

    /// The loopback interfaces among `all`.
    pub fn detect_loopback(all: &Vec<NetworkInterface>) -> (selected: Vec<NetworkInterface>)
        ensures
            selected@ == of_kind(all@, InterfaceType::Loopback),
    {
        Self::select(all, InterfaceType::Loopback)
    }

    /// The LAN interfaces among `all`.
    pub fn detect_lan(all: &Vec<NetworkInterface>) -> (selected: Vec<NetworkInterface>)
        ensures
            selected@ == of_kind(all@, InterfaceType::Lan),
    {
        Self::select(all, InterfaceType::Lan)
    }
}

/// Why a change to the port bindings was refused.
#[derive(Debug, Clone, Copy, PartialEq, Eq, Structural)]
pub enum PortError {
    /// Ports below 1024 are reserved for system services.
    Reserved(u16),
    /// The port is bound already.
    AlreadyBound(u16),
    /// The port has no binding.
    NotBound(u16),
}

/// What a refusal says, in words.
pub open spec fn port_error_message(error: PortError) -> Seq<char> {
    match error {
        PortError::Reserved(_) => "Ports below 1024 are reserved for system services"@,
        PortError::AlreadyBound(port) => "Port "@ + decimal(port as nat) + " is already bound"@,
        PortError::NotBound(port) => "No binding found for port "@ + decimal(port as nat),
    }
}

impl PortError {
    /// What the refusal says, in words.
    pub fn message(&self) -> (text: String)
        ensures
            text@ == port_error_message(*self),
    {
        match self {
            PortError::Reserved(_) => String::from_str(
                "Ports below 1024 are reserved for system services",
            ),
            PortError::AlreadyBound(port) => {
                let mut text = String::from_str("Port ");
                let number = decimal_string(*port as u64);
                text.append(number.as_str());
                text.append(" is already bound");
                text
            },
            PortError::NotBound(port) => {
                let mut text = String::from_str("No binding found for port ");
                let number = decimal_string(*port as u64);
                text.append(number.as_str());
                text
            },
        }
    }
}

/// `binding` is one of the bindings of `table`.
pub open spec fn is_binding_of(table: Map<u16, PortBinding>, binding: PortBinding) -> bool {
    exists|port: u16| #[trigger] table.contains_key(port) && table[port] == binding
}

/// The lowest port that may be bound.
pub const FIRST_FREE_PORT: u16 = 1024;

/// The bindings of the ports, at most one for each port.
pub struct PortConfig {
    bindings: HashMap<u16, PortBinding>,
}

impl View for PortConfig {
    type V = Map<u16, PortBinding>;

    closed spec fn view(&self) -> Map<u16, PortBinding> {
        self.bindings@
    }
}

impl PortConfig {
    /// No bindings.
    pub fn new() -> (config: Self)
        ensures
            config@ == Map::<u16, PortBinding>::empty(),
    {
        PortConfig { bindings: HashMap::new() }
    }

    /// Refuses a port that is reserved for system services.
    pub fn validate_port(&self, port: u16) -> (checked: Result<(), PortError>)
        ensures
            checked == if port < FIRST_FREE_PORT {
                Err::<(), PortError>(PortError::Reserved(port))
            } else {
                Ok::<(), PortError>(())
            },
    {
        if port < FIRST_FREE_PORT {
            Err(PortError::Reserved(port))
        } else {
            Ok(())
        }
    }

    /// Adds a binding under its port. A reserved port is refused, and so is
    /// a port that is bound already; nothing changes then.
    pub fn add_binding(&mut self, binding: PortBinding) -> (added: Result<(), PortError>)
        ensures
            added == if binding.port < FIRST_FREE_PORT {
                Err::<(), PortError>(PortError::Reserved(binding.port))
            } else if old(self)@.contains_key(binding.port) {
                Err::<(), PortError>(PortError::AlreadyBound(binding.port))
            } else {
                Ok::<(), PortError>(())
            },
            final(self)@ == if added is Ok {
                old(self)@.insert(binding.port, binding)
            } else {
                old(self)@
            },
    {
        broadcast use vstd::std_specs::hash::group_hash_axioms;

        if binding.port < FIRST_FREE_PORT {
            return Err(PortError::Reserved(binding.port));
        }
        if self.bindings.contains_key(&binding.port) {
            return Err(PortError::AlreadyBound(binding.port));
        }
        self.bindings.insert(binding.port, binding);
        Ok(())
    }

    /// Removes the binding of `port`. Fails where there is none.
    pub fn remove_binding(&mut self, port: u16) -> (removed: Result<(), PortError>)
        ensures
            removed == if old(self)@.contains_key(port) {
                Ok::<(), PortError>(())
            } else {
                Err::<(), PortError>(PortError::NotBound(port))
            },
            final(self)@ == old(self)@.remove(port),
    {
        broadcast use vstd::std_specs::hash::group_hash_axioms;

        match self.bindings.remove(&port) {
            Some(_) => Ok(()),
            None => {
                Err(PortError::NotBound(port))
            },
        }
    }

    /// The binding of `port`, if it has one.
    pub fn get_binding(&self, port: u16) -> (found: Option<&PortBinding>)
        ensures
            match found {
                Some(binding) => self@.contains_key(port) && *binding == self@[port],
                None => !self@.contains_key(port),
            },
    {
        broadcast use vstd::std_specs::hash::group_hash_axioms;

        self.bindings.get(&port)
    }

    /// All bindings, each once, in no particular order.
    pub fn list_bindings(&self) -> (listed: Vec<&PortBinding>)
        ensures
            listed@.len() == self@.dom().len(),
            forall|i: int| 0 <= i < listed@.len() ==> is_binding_of(self@, *#[trigger] listed@[i]),
            forall|port: u16| #[trigger]
                self@.contains_key(port) ==> exists|i: int|
                    0 <= i < listed@.len() && *(#[trigger] listed@[i]) == self@[port],
    {
        broadcast use vstd::std_specs::hash::group_hash_axioms;

        let mut listed: Vec<&PortBinding> = Vec::new();
        for pair in it: self.bindings.iter()
            invariant
                it.seq() == self.bindings.iter().remaining(),
                listed@.len() == it.index(),
                forall|j: int| 0 <= j < listed@.len() ==> *(#[trigger] listed@[j]) == *it.seq()[j].1,
        {
            let (_, binding) = pair;
            listed.push(binding);
        }
        proof {
            let table = self.bindings@;
            let walked = self.bindings.iter().remaining();
            assert forall|i: int| 0 <= i < listed@.len() implies is_binding_of(
                self@,
                *#[trigger] listed@[i],
            ) by {
                assert(table[*walked[i].0] == *walked[i].1);
            }
            assert forall|port: u16| #[trigger] self@.contains_key(port) implies exists|i: int|
                0 <= i < listed@.len() && *(#[trigger] listed@[i]) == self@[port] by {
                let i = choose|i: int| 0 <= i < walked.len() && walked[i] == (&port, &table[port]);
                assert(*listed@[i] == table[port]);
            }
        }
        listed
    }
}

impl Default for PortConfig {
    fn default() -> (config: Self)
        ensures
            config@ == Map::<u16, PortBinding>::empty(),
    {
        PortConfig::new()
    }
}

} // verus!
