//! The commands of the menu: what an entry's identifier asks for, and what
//! that does to the network configuration.

use vstd::prelude::*;
use crate::dialogs::PortConfig;
use crate::network::{
    is_bound, is_first_binding, InterfaceType, NetworkConfig, NetworkInterface, PortBinding,
    PortRole,
};
use crate::text::{
    chars_of, has_prefix, head_upto, is_only_occurrence, only_occurrence, parse_port, port_number,
    same_chars, starts_with, tail_from,
};

verus! {

/// The identifiers of the menu entries that are always there.
#[derive(Debug, PartialEq, Eq)]
pub struct MenuIds {
    pub quit: String,
    pub enable_all: String,
    pub disable_all: String,
}

/// What a menu entry asks for.
#[derive(Debug, PartialEq, Eq)]
pub enum MenuCommand {
    /// Leave the program.
    Quit,
    /// Turn the binding of a port on or off.
    TogglePort(u16),
    /// Take the bindings of a port out of the configuration.
    RemovePort(u16),
    /// Give the binding of a port a role; no role where the entry names one
    /// that is not known.
    SetRole(u16, Option<PortRole>),
    /// Put every binding on the interface of this name.
    SelectInterface(Vec<char>),
    /// Turn every binding on.
    EnableAll,
    /// Turn every binding off.
    DisableAll,
    /// Ask the user for a port to add.
    AddPort,
    /// Ask the user where to save the configuration document.
    DownloadConfig,
    /// Show the project's repository.
    OpenRepository,
    /// Nothing that is known.
    Unknown,
}

/// The role that a name stands for.
pub open spec fn role_named(name: Seq<char>) -> Option<PortRole> {
    if name == "Instruction"@ {
        Some(PortRole::Instruction)
    } else if name == "Verification"@ {
        Some(PortRole::Verification)
    } else {
        None
    }
}

/// What the rest of a role entry asks for: it has to hold one colon, with a
/// port number before it and the role's name behind it.
pub open spec fn is_role_command(rest: Seq<char>, command: MenuCommand) -> bool {
    if exists|at: int| is_only_occurrence(rest, ':', at) {
        let at = choose|at: int| is_only_occurrence(rest, ':', at);
        match port_number(rest.take(at)) {
            Some(port) => command == MenuCommand::SetRole(port, role_named(rest.skip(at + 1))),
            None => command == MenuCommand::Unknown,
        }
    } else {
        command == MenuCommand::Unknown
    }
}

/// `command` is what the entry with the identifier `id` asks for.
pub open spec fn is_command_of(id: Seq<char>, command: MenuCommand) -> bool {
    if id == "quit"@ {
        command == MenuCommand::Quit
    } else if has_prefix(id, "port:"@) {
        command == match port_number(id.skip(5)) {
            Some(port) => MenuCommand::TogglePort(port),
            None => MenuCommand::Unknown,
        }
    } else if has_prefix(id, "remove_port:"@) {
        command == match port_number(id.skip(12)) {
            Some(port) => MenuCommand::RemovePort(port),
            None => MenuCommand::Unknown,
        }
    } else if has_prefix(id, "role:"@) {
        is_role_command(id.skip(5), command)
    } else if has_prefix(id, "interface:"@) {
        command matches MenuCommand::SelectInterface(name) && name@ == id.skip(10)
    } else if id == "cmd:enable_all"@ {
        command == MenuCommand::EnableAll
    } else if id == "cmd:disable_all"@ {
        command == MenuCommand::DisableAll
    } else if id == "cmd:add_port"@ {
        command == MenuCommand::AddPort
    } else if id == "cmd:download_config"@ {
        command == MenuCommand::DownloadConfig
    } else if id == "cmd:open_repo"@ {
        command == MenuCommand::OpenRepository
    } else {
        command == MenuCommand::Unknown
    }
}

fn is_text(chars: &Vec<char>, text: &str) -> (same: bool)
    ensures
        same == (chars@ == text@),
{
    let other = chars_of(text);
    same_chars(chars, &other)
}

fn begins_with(chars: &Vec<char>, prefix: &str) -> (b: bool)
    ensures
        b == has_prefix(chars@, prefix@),
{
    let other = chars_of(prefix);
    starts_with(chars, &other)
}

/// Reads the role that a name stands for.
pub fn parse_role(name: &Vec<char>) -> (role: Option<PortRole>)
    ensures
        role == role_named(name@),
{
    if is_text(name, "Instruction") {
        Some(PortRole::Instruction)
    } else if is_text(name, "Verification") {
        Some(PortRole::Verification)
    } else {
        None
    }
}

fn parse_role_command(rest: &Vec<char>) -> (command: MenuCommand)
    ensures
        is_role_command(rest@, command),
{
    match only_occurrence(rest, ':') {
        None => MenuCommand::Unknown,
        Some(at) => {
            let limit: usize = rest.len();
            let number = head_upto(rest, at);
            let name = tail_from(rest, at + 1);
            match parse_port(&number) {
                Some(port) => MenuCommand::SetRole(port, parse_role(&name)),
                None => MenuCommand::Unknown,
            }
        },
    }
}

/// Reads what the menu entry with the identifier `id` asks for.
pub fn parse_menu_event(id: &str) -> (command: MenuCommand)
    ensures
        is_command_of(id@, command),
{
    proof {
        reveal_strlit("port:");
        reveal_strlit("remove_port:");
        reveal_strlit("role:");
        reveal_strlit("interface:");
    }
    let chars = chars_of(id);
    if is_text(&chars, "quit") {
        MenuCommand::Quit
    } else if begins_with(&chars, "port:") {
        let rest = tail_from(&chars, 5);
        match parse_port(&rest) {
            Some(port) => MenuCommand::TogglePort(port),
            None => MenuCommand::Unknown,
        }
    } else if begins_with(&chars, "remove_port:") {
        let rest = tail_from(&chars, 12);
        match parse_port(&rest) {
            Some(port) => MenuCommand::RemovePort(port),
            None => MenuCommand::Unknown,
        }
    } else if begins_with(&chars, "role:") {
        let rest = tail_from(&chars, 5);
        parse_role_command(&rest)
    } else if begins_with(&chars, "interface:") {
        MenuCommand::SelectInterface(tail_from(&chars, 10))
    } else if is_text(&chars, "cmd:enable_all") {
        MenuCommand::EnableAll
    } else if is_text(&chars, "cmd:disable_all") {
        MenuCommand::DisableAll
    } else if is_text(&chars, "cmd:add_port") {
        MenuCommand::AddPort
    } else if is_text(&chars, "cmd:download_config") {
        MenuCommand::DownloadConfig
    } else if is_text(&chars, "cmd:open_repo") {
        MenuCommand::OpenRepository
    } else {
        MenuCommand::Unknown
    }
}

/// What is left for the caller to do after a menu entry was processed.
#[derive(Debug, Clone, Copy, PartialEq, Eq, Structural)]
pub enum MenuEffect {
    /// Nothing.
    Nothing,
    /// Ask the user for a port and add it to the configuration.
    AddPort,
    /// Ask the user where to save the configuration document, and save it.
    DownloadConfig,
    /// Show the project's repository.
    OpenRepository,
}

/// What processing a menu entry came to.
#[derive(Debug, Clone, Copy, PartialEq, Eq, Structural)]
pub struct MenuOutcome {
    /// The configuration has to be saved and the servers reconciled.
    pub changed: bool,
    /// The program has to end.
    pub should_exit: bool,
    /// What is left for the caller to do, before it saves and reconciles.
    pub effect: MenuEffect,
}

/// The binding with its enabled flag set to `enabled`.
pub open spec fn with_enabled(binding: PortBinding, enabled: bool) -> PortBinding {
    PortBinding { enabled, ..binding }
}

/// The binding with the role `role`.
pub open spec fn with_role(binding: PortBinding, role: PortRole) -> PortBinding {
    PortBinding { role, ..binding }
}

/// The binding on the interface `interface`.
pub open spec fn with_interface(binding: PortBinding, interface: NetworkInterface) -> PortBinding {
    PortBinding { interface, ..binding }
}

/// The bindings with the first binding of `port` turned on or off.
pub open spec fn toggled(bindings: Seq<PortBinding>, port: u16) -> Seq<PortBinding> {
    if is_bound(bindings, port) {
        let at = choose|at: int| is_first_binding(bindings, port, at);
        bindings.update(at, with_enabled(bindings[at], !bindings[at].enabled))
    } else {
        bindings
    }
}

/// The bindings with the first binding of `port` given `role`, where a role
/// is given.
pub open spec fn with_role_of(bindings: Seq<PortBinding>, port: u16, role: Option<PortRole>) -> Seq<
    PortBinding,
> {
    if is_bound(bindings, port) && role is Some {
        let at = choose|at: int| is_first_binding(bindings, port, at);
        bindings.update(at, with_role(bindings[at], role->0))
    } else {
        bindings
    }
}

/// The bindings without those of `port`.
pub open spec fn without_port(bindings: Seq<PortBinding>, port: u16) -> Seq<PortBinding> {
    bindings.filter(|b: PortBinding| b.port != port)
}

/// The bindings, each with its enabled flag set to `enabled`.
pub open spec fn all_enabled(bindings: Seq<PortBinding>, enabled: bool) -> Seq<PortBinding> {
    Seq::new(bindings.len(), |i: int| with_enabled(bindings[i], enabled))
}

/// The bindings, each on the interface `interface`.
pub open spec fn all_on(bindings: Seq<PortBinding>, interface: NetworkInterface) -> Seq<
    PortBinding,
> {
    Seq::new(bindings.len(), |i: int| with_interface(bindings[i], interface))
}

/// The interface at position `at` is the first of `interfaces` with the name
/// `name`.
pub open spec fn is_first_named(interfaces: Seq<NetworkInterface>, name: Seq<char>, at: int) -> bool {
    &&& 0 <= at < interfaces.len()
    &&& interfaces[at].name@ == name
    &&& forall|j: int| 0 <= j < at ==> (#[trigger] interfaces[j]).name@ != name
}

/// Two positions that are both the first binding of a port are the same.
pub proof fn lemma_first_binding_unique(bindings: Seq<PortBinding>, port: u16, a: int, b: int)
    requires
        is_first_binding(bindings, port, a),
        is_first_binding(bindings, port, b),
    ensures
        a == b,
{
}

/// Turns the first binding of `port` on or off. Says whether there was one.
pub fn toggle_port(config: &mut NetworkConfig, port: u16) -> (found: bool)
    ensures
        found == is_bound(old(config).port_bindings@, port),
        final(config).port_bindings@ == toggled(old(config).port_bindings@, port),
        final(config).default_interface == old(config).default_interface,
{
    match config.find_binding(port) {
        Some(at) => {
            let ghost before = config.port_bindings@;
            proof {
                let chosen = choose|other: int| is_first_binding(before, port, other);
                lemma_first_binding_unique(before, port, at as int, chosen);
            }
            let mut binding = config.port_bindings[at].clone();
            binding.enabled = !binding.enabled;
            config.port_bindings.set(at, binding);
            true
        },
        None => false,
    }
}

/// Gives the first binding of `port` the role `role`, where a role is given.
/// Says whether there was a binding.
pub fn set_role(config: &mut NetworkConfig, port: u16, role: Option<PortRole>) -> (found: bool)
    ensures
        found == is_bound(old(config).port_bindings@, port),
        final(config).port_bindings@ == with_role_of(old(config).port_bindings@, port, role),
        final(config).default_interface == old(config).default_interface,
{
    match config.find_binding(port) {
        Some(at) => {
            let ghost before = config.port_bindings@;
            proof {
                let chosen = choose|other: int| is_first_binding(before, port, other);
                lemma_first_binding_unique(before, port, at as int, chosen);
            }
            match role {
                Some(given) => {
                    let mut binding = config.port_bindings[at].clone();
                    binding.role = given;
                    config.port_bindings.set(at, binding);
                },
                None => {},
            }
            true
        },
        None => false,
    }
}

/// Takes the bindings of `port` out of the configuration.
pub fn remove_port(config: &mut NetworkConfig, port: u16)
    ensures
        final(config).port_bindings@ == without_port(old(config).port_bindings@, port),
        final(config).default_interface == old(config).default_interface,
{
    let ghost before = config.port_bindings@;
    let mut kept: Vec<PortBinding> = Vec::new();
    let mut i: usize = 0;
    while i < config.port_bindings.len()
        invariant
            config.port_bindings@ == before,
            config.default_interface == old(config).default_interface,
            i <= before.len(),
            kept@ == without_port(before.take(i as int), port),
        decreases before.len() - i,
    {
        proof {
            let keep = |b: PortBinding| b.port != port;
            assert(before.take(i + 1).drop_last() == before.take(i as int));
            reveal(Seq::filter);
            assert(before.take(i + 1).filter(keep) == if keep(before[i as int]) {
                before.take(i as int).filter(keep).push(before[i as int])
            } else {
                before.take(i as int).filter(keep)
            });
        }
        if config.port_bindings[i].port != port {
            kept.push(config.port_bindings[i].clone());
        }
        i += 1;
    }
    proof {
        assert(before.take(i as int) == before);
    }
    config.port_bindings = kept;
}

/// Turns every binding on, or every binding off.
pub fn set_all_enabled(config: &mut NetworkConfig, enabled: bool)
    ensures
        final(config).port_bindings@ == all_enabled(old(config).port_bindings@, enabled),
        final(config).default_interface == old(config).default_interface,
{
    let ghost before = config.port_bindings@;
    let mut changed: Vec<PortBinding> = Vec::new();
    let mut i: usize = 0;
    while i < config.port_bindings.len()
        invariant
            config.port_bindings@ == before,
            config.default_interface == old(config).default_interface,
            i <= before.len(),
            changed@ == all_enabled(before, enabled).take(i as int),
        decreases before.len() - i,
    {
        let mut binding = config.port_bindings[i].clone();
        binding.enabled = enabled;
        changed.push(binding);
        i += 1;
    }
    config.port_bindings = changed;
}

/// Puts every binding on the first of `interfaces` that has the name `name`,
/// and makes that interface's kind the default. Says whether there was such
/// an interface; where there was none, nothing changes.
pub fn select_interface(
    config: &mut NetworkConfig,
    name: &Vec<char>,
    interfaces: &Vec<NetworkInterface>,
) -> (found: bool)
    ensures
        found == exists|at: int| is_first_named(interfaces@, name@, at),
        forall|at: int| #[trigger]
            is_first_named(interfaces@, name@, at) ==> final(config).port_bindings@ == all_on(
                old(config).port_bindings@,
                interfaces@[at],
            ) && final(config).default_interface == interfaces@[at].interface_type,
        !found ==> *final(config) == *old(config),
{
    let mut k: usize = 0;
    while k < interfaces.len()
        invariant
            k <= interfaces@.len(),
            *config == *old(config),
            forall|j: int| 0 <= j < k ==> (#[trigger] interfaces@[j]).name@ != name@,
        decreases interfaces@.len() - k,
    {
        let candidate = chars_of(interfaces[k].name.as_str());
        if same_chars(&candidate, name) {
            let ghost before = config.port_bindings@;
            let ghost chosen = interfaces@[k as int];
            assert(is_first_named(interfaces@, name@, k as int));
            assert forall|at: int| #[trigger] is_first_named(interfaces@, name@, at) implies at
                == k by {
            }
            let mut changed: Vec<PortBinding> = Vec::new();
            let mut i: usize = 0;
            while i < config.port_bindings.len()
                invariant
                    config.port_bindings@ == before,
                    k < interfaces@.len(),
                    chosen == interfaces@[k as int],
                    i <= before.len(),
                    changed@ == all_on(before, chosen).take(i as int),
                decreases before.len() - i,
            {
                let mut binding = config.port_bindings[i].clone();
                binding.interface = interfaces[k].clone();
                changed.push(binding);
                i += 1;
            }
            config.port_bindings = changed;
            config.default_interface = interfaces[k].interface_type;
            return true;
        }
        k += 1;
    }
    false
}

/// An outcome that asks for nothing more.
pub open spec fn plain_outcome(changed: bool) -> MenuOutcome {
    MenuOutcome { changed, should_exit: false, effect: MenuEffect::Nothing }
}

/// `after` and `outcome` are what carrying out `command` on `before` comes
/// to, with `interfaces` being the interfaces that the system has.
pub open spec fn is_carried_out(
    before: NetworkConfig,
    after: NetworkConfig,
    command: MenuCommand,
    interfaces: Seq<NetworkInterface>,
    outcome: MenuOutcome,
) -> bool {
    match command {
        MenuCommand::Quit => after == before && outcome == (MenuOutcome {
            changed: false,
            should_exit: true,
            effect: MenuEffect::Nothing,
        }),
        MenuCommand::TogglePort(port) => {
            &&& after.port_bindings@ == toggled(before.port_bindings@, port)
            &&& after.default_interface == before.default_interface
            &&& outcome == plain_outcome(is_bound(before.port_bindings@, port))
        },
        MenuCommand::RemovePort(port) => {
            &&& after.port_bindings@ == without_port(before.port_bindings@, port)
            &&& after.default_interface == before.default_interface
            &&& outcome == plain_outcome(true)
        },
        MenuCommand::SetRole(port, role) => {
            &&& after.port_bindings@ == with_role_of(before.port_bindings@, port, role)
            &&& after.default_interface == before.default_interface
            &&& outcome == plain_outcome(is_bound(before.port_bindings@, port))
        },
        MenuCommand::SelectInterface(name) => {
            &&& outcome == plain_outcome(exists|at: int| is_first_named(interfaces, name@, at))
            &&& forall|at: int| #[trigger]
                is_first_named(interfaces, name@, at) ==> after.port_bindings@ == all_on(
                    before.port_bindings@,
                    interfaces[at],
                ) && after.default_interface == interfaces[at].interface_type
            &&& !outcome.changed ==> after == before
        },
        MenuCommand::EnableAll => {
            &&& after.port_bindings@ == all_enabled(before.port_bindings@, true)
            &&& after.default_interface == before.default_interface
            &&& outcome == plain_outcome(true)
        },
        MenuCommand::DisableAll => {
            &&& after.port_bindings@ == all_enabled(before.port_bindings@, false)
            &&& after.default_interface == before.default_interface
            &&& outcome == plain_outcome(true)
        },
        MenuCommand::AddPort => after == before && outcome == (MenuOutcome {
            changed: true,
            should_exit: false,
            effect: MenuEffect::AddPort,
        }),
        MenuCommand::DownloadConfig => after == before && outcome == (MenuOutcome {
            changed: false,
            should_exit: false,
            effect: MenuEffect::DownloadConfig,
        }),
        MenuCommand::OpenRepository => after == before && outcome == (MenuOutcome {
            changed: false,
            should_exit: false,
            effect: MenuEffect::OpenRepository,
        }),
        MenuCommand::Unknown => after == before && outcome == plain_outcome(false),
    }
}

/// Carries out a command on the configuration. `interfaces` are the
/// interfaces that the system has.
pub fn apply_command(
    config: &mut NetworkConfig,
    command: &MenuCommand,
    interfaces: &Vec<NetworkInterface>,
) -> (outcome: MenuOutcome)
    ensures
        is_carried_out(*old(config), *final(config), *command, interfaces@, outcome),
{
    match command {
        MenuCommand::Quit => MenuOutcome {
            changed: false,
            should_exit: true,
            effect: MenuEffect::Nothing,
        },
        MenuCommand::TogglePort(port) => {
            let found = toggle_port(config, *port);
            MenuOutcome { changed: found, should_exit: false, effect: MenuEffect::Nothing }
        },
        MenuCommand::RemovePort(port) => {
            remove_port(config, *port);
            MenuOutcome { changed: true, should_exit: false, effect: MenuEffect::Nothing }
        },
        MenuCommand::SetRole(port, role) => {
            let found = set_role(config, *port, *role);
            MenuOutcome { changed: found, should_exit: false, effect: MenuEffect::Nothing }
        },
        MenuCommand::SelectInterface(name) => {
            let found = select_interface(config, name, interfaces);
            MenuOutcome { changed: found, should_exit: false, effect: MenuEffect::Nothing }
        },
        MenuCommand::EnableAll => {
            set_all_enabled(config, true);
            MenuOutcome { changed: true, should_exit: false, effect: MenuEffect::Nothing }
        },
        MenuCommand::DisableAll => {
            set_all_enabled(config, false);
            MenuOutcome { changed: true, should_exit: false, effect: MenuEffect::Nothing }
        },
        MenuCommand::AddPort => MenuOutcome {
            changed: true,
            should_exit: false,
            effect: MenuEffect::AddPort,
        },
        MenuCommand::DownloadConfig => MenuOutcome {
            changed: false,
            should_exit: false,
            effect: MenuEffect::DownloadConfig,
        },
        MenuCommand::OpenRepository => MenuOutcome {
            changed: false,
            should_exit: false,
            effect: MenuEffect::OpenRepository,
        },
        MenuCommand::Unknown => MenuOutcome {
            changed: false,
            should_exit: false,
            effect: MenuEffect::Nothing,
        },
    }
}

/// Processes the menu entry with the identifier `id`: reads what it asks
/// for and carries that out on the configuration. `interfaces` are the
/// interfaces that the system has. Where the outcome names an effect, the
/// caller sees to it before it saves the configuration.
pub fn process_menu_event(
    config: &mut NetworkConfig,
    id: &str,
    interfaces: &Vec<NetworkInterface>,
) -> (outcome: MenuOutcome)
    ensures
        exists|command: MenuCommand| #[trigger]
            is_command_of(id@, command) && is_carried_out(
                *old(config),
                *final(config),
                command,
                interfaces@,
                outcome,
            ),
{
    let command = parse_menu_event(id);
    apply_command(config, &command, interfaces)
}

/// The port from which a port to add is looked for.
pub const FIRST_DEFAULT_PORT: u16 = 8888;

/// The port to propose for a new binding: the least port from `from` on and
/// below 65535 that the configuration does not bind, or 65535 where it binds
/// them all.
pub fn next_candidate_port(config: &NetworkConfig, from: u16) -> (port: u16)
    ensures
        from <= port,
        port < u16::MAX ==> !is_bound(config.port_bindings@, port),
        forall|other: u16| from <= other < port ==> is_bound(config.port_bindings@, other),
{
    let mut port: u16 = from;
    while port < u16::MAX
        invariant
            from <= port,
            forall|other: u16| from <= other < port ==> is_bound(config.port_bindings@, other),
        decreases u16::MAX - port,
    {
        match config.find_binding(port) {
            None => {
                return port;
            },
            Some(_) => {},
        }
        port += 1;
    }
    port
}

/// The interface at position `at` is the first of `interfaces` of the kind
/// `kind`.
pub open spec fn is_first_of_kind(
    interfaces: Seq<NetworkInterface>,
    kind: InterfaceType,
    at: int,
) -> bool {
    &&& 0 <= at < interfaces.len()
    &&& interfaces[at].interface_type == kind
    &&& forall|j: int| 0 <= j < at ==> (#[trigger] interfaces[j]).interface_type != kind
}

/// `chosen` is the interface for a new binding: the first of `interfaces` of
/// the kind `kind`, or `fallback` where there is none.
pub open spec fn is_interface_for(
    interfaces: Seq<NetworkInterface>,
    kind: InterfaceType,
    fallback: NetworkInterface,
    chosen: NetworkInterface,
) -> bool {
    if exists|at: int| is_first_of_kind(interfaces, kind, at) {
        exists|at: int| is_first_of_kind(interfaces, kind, at) && chosen == interfaces[at]
    } else {
        chosen == fallback
    }
}

/// The interface for a new binding: the first of `interfaces` of the kind
/// `kind`, or `fallback` where there is none.
pub fn interface_for(
    interfaces: &Vec<NetworkInterface>,
    kind: InterfaceType,
    fallback: NetworkInterface,
) -> (chosen: NetworkInterface)
    ensures
        is_interface_for(interfaces@, kind, fallback, chosen),
{
    let mut i: usize = 0;
    while i < interfaces.len()
        invariant
            i <= interfaces@.len(),
            forall|j: int| 0 <= j < i ==> (#[trigger] interfaces@[j]).interface_type != kind,
        decreases interfaces@.len() - i,
    {
        if interfaces[i].interface_type == kind {
            return interfaces[i].clone();
        }
        i += 1;
    }
    fallback
}

/// Adds a binding for the port that the user described, on the first of
/// `interfaces` that is of the configuration's default kind, or on
/// `fallback` where there is none. A port that is bound already is not
/// added again: nothing changes then. Says whether the binding was added.
pub fn add_port(
    config: &mut NetworkConfig,
    port: PortConfig,
    interfaces: &Vec<NetworkInterface>,
    fallback: NetworkInterface,
) -> (added: bool)
    ensures
        added == !is_bound(old(config).port_bindings@, port.port),
        final(config).default_interface == old(config).default_interface,
        !added ==> final(config).port_bindings@ == old(config).port_bindings@,
        added ==> final(config).port_bindings@.len() == old(config).port_bindings@.len() + 1
            && final(config).port_bindings@.drop_last() == old(config).port_bindings@ && ({
            let binding = final(config).port_bindings@.last();
            &&& binding.port == port.port
            &&& binding.role == port.role
            &&& binding.enabled == port.enabled
            &&& is_interface_for(
                interfaces@,
                old(config).default_interface,
                fallback,
                binding.interface,
            )
        }),
{
    match config.find_binding(port.port) {
        Some(at) => {
            false
        },
        None => {
            let interface = interface_for(interfaces, config.default_interface, fallback);
            config.port_bindings.push(
                PortBinding { port: port.port, interface, role: port.role, enabled: port.enabled },
            );
            true
        },
    }
}

} // verus!
