//! Saving the configuration document: which bindings go into it, and under
//! which file name it is saved.

use vstd::prelude::*;
use vstd::string::StringExecFns;
use crate::dialogs::ConfigFormat;
use crate::network::{NetworkConfig, PortBinding, PortRole};
use crate::pool::contains_port;

verus! {

/// The bindings whose port is among `selected`, in their order.
pub open spec fn selected_bindings(bindings: Seq<PortBinding>, selected: Seq<u16>) -> Seq<
    PortBinding,
> {
    bindings.filter(|b: PortBinding| selected.contains(b.port))
}

/// The configuration with only the bindings whose port is among `selected`.
pub fn filter_config(config: &NetworkConfig, selected: &Vec<u16>) -> (filtered: NetworkConfig)
    ensures
        filtered.default_interface == config.default_interface,
        filtered.port_bindings@ == selected_bindings(config.port_bindings@, selected@),
{
    let ghost all = config.port_bindings@;
    let mut kept: Vec<PortBinding> = Vec::new();
    let mut i: usize = 0;
    while i < config.port_bindings.len()
        invariant
            all == config.port_bindings@,
            i <= all.len(),
            kept@ == selected_bindings(all.take(i as int), selected@),
        decreases all.len() - i,
    {
        proof {
            let keep = |b: PortBinding| selected@.contains(b.port);
            assert(all.take(i + 1).drop_last() == all.take(i as int));
            reveal(Seq::filter);
            assert(all.take(i + 1).filter(keep) == if keep(all[i as int]) {
                all.take(i as int).filter(keep).push(all[i as int])
            } else {
                all.take(i as int).filter(keep)
            });
        }
        if contains_port(selected, config.port_bindings[i].port) {
            kept.push(config.port_bindings[i].clone());
        }
        i += 1;
    }
    proof {
        assert(all.take(i as int) == all);
    }
    NetworkConfig { default_interface: config.default_interface, port_bindings: kept }
}

/// Some binding has the verification role.
pub open spec fn has_verification(bindings: Seq<PortBinding>) -> bool {
    exists|i: int| 0 <= i < bindings.len() && (#[trigger] bindings[i]).role == PortRole::Verification
}

/// Decides `has_verification` for the bindings of a configuration.
pub fn has_verification_port(config: &NetworkConfig) -> (found: bool)
    ensures
        found == has_verification(config.port_bindings@),
{
    let mut i: usize = 0;
    while i < config.port_bindings.len()
        invariant
            i <= config.port_bindings@.len(),
            forall|j: int|
                0 <= j < i ==> (#[trigger] config.port_bindings@[j]).role
                    != PortRole::Verification,
        decreases config.port_bindings@.len() - i,
    {
        if config.port_bindings[i].role == PortRole::Verification {
            return true;
        }
        i += 1;
    }
    false
}

/// Whether the document is saved as the verification protocol: it is an
/// agent rule or Markdown, and some binding has the verification role. The
/// configuration is then saved beside it as JSON.
pub open spec fn is_protocol(format: ConfigFormat, verification: bool) -> bool {
    (format == ConfigFormat::AgentRule || format == ConfigFormat::Markdown) && verification
}

/// The name of the file that a document is saved under.
pub open spec fn file_name(format: ConfigFormat, verification: bool) -> Seq<char> {
    if is_protocol(format, verification) {
        "verification-protocol.md"@
    } else {
        match format {
            ConfigFormat::Json => "chai_config.json"@,
            ConfigFormat::Yaml => "chai_config.yaml"@,
            ConfigFormat::Markdown => "chai_config.md"@,
            ConfigFormat::AgentRule => "chai_config.agent_rule"@,
        }
    }
}

/// Decides `is_protocol`.
pub fn saves_protocol(format: ConfigFormat, verification: bool) -> (protocol: bool)
    ensures
        protocol == is_protocol(format, verification),
{
    (format == ConfigFormat::AgentRule || format == ConfigFormat::Markdown) && verification
}

/// The name of the file that a document in `format` is saved under, given
/// whether some binding has the verification role.
pub fn download_file_name(format: ConfigFormat, verification: bool) -> (name: String)
    ensures
        name@ == file_name(format, verification),
{
    if saves_protocol(format, verification) {
        String::from_str("verification-protocol.md")
    } else {
        match format {
            ConfigFormat::Json => String::from_str("chai_config.json"),
            ConfigFormat::Yaml => String::from_str("chai_config.yaml"),
            ConfigFormat::Markdown => String::from_str("chai_config.md"),
            ConfigFormat::AgentRule => String::from_str("chai_config.agent_rule"),
        }
    }
}

} // verus!
