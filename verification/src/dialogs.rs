//! What the dialogs of the user interface hand to the library, and the
//! answers that stand for a dialog where none can be shown.

use vstd::prelude::*;
use vstd::string::StringExecFns;
use crate::network::{NetworkConfig, PortBinding, PortRole};
use crate::context::texts_of;
use crate::text::{
    chars_of, contains_chars, decimal, decimal_string, has_substring, head_upto,
    is_only_occurrence, only_occurrence, parse_port, port_number, same_chars, same_text,
    tail_from,
};

verus! {

/// A port as the dialog for adding one describes it.
#[derive(Debug, Clone, Copy, PartialEq, Eq, Structural)]
pub struct PortConfig {
    pub port: u16,
    pub role: PortRole,
    pub enabled: bool,
}

/// The representations in which the configuration document can be had.
#[derive(Debug, Clone, Copy, PartialEq, Eq, Structural)]
pub enum ConfigFormat {
    Json,
    Yaml,
    Markdown,
    AgentRule,
}

impl ConfigFormat {
    /// The file extension of the representation.
    pub open spec fn extension_text(self) -> Seq<char> {
        match self {
            ConfigFormat::Json => "json"@,
            ConfigFormat::Yaml => "yaml"@,
            ConfigFormat::Markdown => "md"@,
            ConfigFormat::AgentRule => "md"@,
        }
    }

    /// The name of the representation, as shown to the user.
    pub open spec fn name_text(self) -> Seq<char> {
        match self {
            ConfigFormat::Json => "JSON"@,
            ConfigFormat::Yaml => "YAML"@,
            ConfigFormat::Markdown => "Markdown"@,
            ConfigFormat::AgentRule => "Agent Rule"@,
        }
    }

    /// The file extension of the representation.
    pub fn extension(&self) -> (text: &'static str)
        ensures
            text@ == self.extension_text(),
    {
        match self {
            ConfigFormat::Json => "json",
            ConfigFormat::Yaml => "yaml",
            ConfigFormat::Markdown => "md",
            ConfigFormat::AgentRule => "md",
        }
    }

    /// The name of the representation, as shown to the user.
    pub fn name(&self) -> (text: &'static str)
        ensures
            text@ == self.name_text(),
    {
        match self {
            ConfigFormat::Json => "JSON",
            ConfigFormat::Yaml => "YAML",
            ConfigFormat::Markdown => "Markdown",
            ConfigFormat::AgentRule => "Agent Rule",
        }
    }
}

/// What the user chose in the dialog for downloading the configuration.
#[derive(Debug, PartialEq)]
pub struct ConfigDownloadOptions {
    pub selected_ports: Vec<u16>,
    pub format: ConfigFormat,
    pub save_path: String,
}

/// What the user chose to do with a port.
#[derive(Debug, Clone, Copy, PartialEq, Eq, Structural)]
pub enum PortAction {
    Toggle,
    SetRole(PortRole),
    Delete,
}

/// The answer of the dialog for adding a port where no dialog can be shown:
/// none, as if the user had cancelled.
pub fn show_add_port_dialog(default_port: u16) -> (chosen: Option<PortConfig>)
    ensures
        chosen is None,
{
    None
}

/// The answer of the dialog for downloading the configuration where no
/// dialog can be shown: none, as if the user had cancelled.
pub fn show_download_config_dialog(config: &NetworkConfig) -> (chosen: Option<
    ConfigDownloadOptions,
>)
    ensures
        chosen is None,
{
    None
}

/// The answer of the dialog for managing a port where no dialog can be
/// shown: none, as if the user had cancelled.
pub fn show_manage_port_dialog(binding: &PortBinding) -> (chosen: Option<PortAction>)
    ensures
        chosen is None,
{
    None
}

/// What the approval prompt reports where no dialog can be shown.
pub open spec fn unsupported_message() -> Seq<char> {
    "Verification not supported on this platform"@
}

/// The answer of the approval prompt where no dialog can be shown: no
/// human chose, so the answer is the number of buttons, which is the
/// position of none, with a message that says so.
pub fn show_verification_dialog(
    action: &str,
    reason: &str,
    context: &str,
    buttons: &Vec<String>,
    task_id: &str,
) -> (answer: (usize, Option<String>))
    ensures
        answer.0 == buttons@.len(),
        answer.1 matches Some(message) && message@ == unsupported_message(),
{
    (buttons.len(), Some(String::from_str("Verification not supported on this platform")))
}

/// What the answer of the dialog for adding a port describes. The answer
/// holds a port number, a bar and the name of a role; any role but
/// verification is taken as instruction, and the port is enabled. An answer
/// of another form describes nothing.
pub open spec fn added_port(answer: Seq<char>) -> Option<PortConfig> {
    if exists|at: int| is_only_occurrence(answer, '|', at) {
        let at = choose|at: int| is_only_occurrence(answer, '|', at);
        match port_number(answer.take(at)) {
            Some(port) => Some(
                PortConfig {
                    port,
                    role: if answer.skip(at + 1) == "Verification"@ {
                        PortRole::Verification
                    } else {
                        PortRole::Instruction
                    },
                    enabled: true,
                },
            ),
            None => None,
        }
    } else {
        None
    }
}

/// Reads the answer of the dialog for adding a port.
pub fn parse_add_port_answer(answer: &str) -> (chosen: Option<PortConfig>)
    ensures
        chosen == added_port(answer@),
{
    let chars = chars_of(answer);
    match only_occurrence(&chars, '|') {
        None => None,
        Some(at) => {
            let limit: usize = chars.len();
            let number = head_upto(&chars, at);
            let name = tail_from(&chars, at + 1);
            match parse_port(&number) {
                Some(port) => {
                    let verification = chars_of("Verification");
                    let role = if same_chars(&name, &verification) {
                        PortRole::Verification
                    } else {
                        PortRole::Instruction
                    };
                    Some(PortConfig { port, role, enabled: true })
                },
                None => None,
            }
        },
    }
}

/// What the answer of the dialog for managing a port asks for.
pub open spec fn port_action(answer: Seq<char>) -> Option<PortAction> {
    if answer == "TOGGLE"@ {
        Some(PortAction::Toggle)
    } else if answer == "ROLE:Instruction"@ {
        Some(PortAction::SetRole(PortRole::Instruction))
    } else if answer == "ROLE:Verification"@ {
        Some(PortAction::SetRole(PortRole::Verification))
    } else if answer == "DELETE"@ {
        Some(PortAction::Delete)
    } else {
        None
    }
}

/// Reads the answer of the dialog for managing a port.
pub fn parse_port_action(answer: &str) -> (chosen: Option<PortAction>)
    ensures
        chosen == port_action(answer@),
{
    if same_text(answer, "TOGGLE") {
        Some(PortAction::Toggle)
    } else if same_text(answer, "ROLE:Instruction") {
        Some(PortAction::SetRole(PortRole::Instruction))
    } else if same_text(answer, "ROLE:Verification") {
        Some(PortAction::SetRole(PortRole::Verification))
    } else if same_text(answer, "DELETE") {
        Some(PortAction::Delete)
    } else {
        None
    }
}

/// The representation that the answer of the dialog for choosing one names.
/// An answer that says the user cancelled names none, and an answer that is
/// not known names Markdown.
pub open spec fn format_choice(answer: Seq<char>) -> Option<ConfigFormat> {
    if answer == "JSON"@ {
        Some(ConfigFormat::Json)
    } else if answer == "YAML"@ {
        Some(ConfigFormat::Yaml)
    } else if answer == "Markdown"@ {
        Some(ConfigFormat::Markdown)
    } else if answer == "Agent Rule"@ {
        Some(ConfigFormat::AgentRule)
    } else if answer == "CANCELLED"@ {
        None
    } else {
        Some(ConfigFormat::Markdown)
    }
}

/// Reads the answer of the dialog for choosing a representation.
pub fn parse_format_choice(answer: &str) -> (chosen: Option<ConfigFormat>)
    ensures
        chosen == format_choice(answer@),
{
    if same_text(answer, "JSON") {
        Some(ConfigFormat::Json)
    } else if same_text(answer, "YAML") {
        Some(ConfigFormat::Yaml)
    } else if same_text(answer, "Markdown") {
        Some(ConfigFormat::Markdown)
    } else if same_text(answer, "Agent Rule") {
        Some(ConfigFormat::AgentRule)
    } else if same_text(answer, "CANCELLED") {
        None
    } else {
        Some(ConfigFormat::Markdown)
    }
}

/// The binding at position `at` is offered as selected in the dialog for
/// downloading the configuration: it is enabled, and no enabled binding
/// before it has its role.
pub open spec fn is_default_choice(bindings: Seq<PortBinding>, at: int) -> bool {
    &&& 0 <= at < bindings.len()
    &&& bindings[at].enabled
    &&& forall|j: int|
        0 <= j < at ==> !((#[trigger] bindings[j]).enabled && bindings[j].role
            == bindings[at].role)
}

/// Says of each binding whether the dialog for downloading the
/// configuration offers it as selected.
pub fn default_selection(config: &NetworkConfig) -> (chosen: Vec<bool>)
    ensures
        chosen@.len() == config.port_bindings@.len(),
        forall|at: int|
            0 <= at < chosen@.len() ==> #[trigger] chosen@[at] == is_default_choice(
                config.port_bindings@,
                at,
            ),
{
    let ghost bindings = config.port_bindings@;
    let mut chosen: Vec<bool> = Vec::new();
    let mut i: usize = 0;
    while i < config.port_bindings.len()
        invariant
            bindings == config.port_bindings@,
            i <= bindings.len(),
            chosen@.len() == i,
            forall|at: int|
                0 <= at < i ==> #[trigger] chosen@[at] == is_default_choice(bindings, at),
        decreases bindings.len() - i,
    {
        let mut offered: bool = config.port_bindings[i].enabled;
        let mut j: usize = 0;
        while j < i
            invariant
                bindings == config.port_bindings@,
                i < bindings.len(),
                j <= i,
                offered == (bindings[i as int].enabled && forall|k: int|
                    0 <= k < j ==> !((#[trigger] bindings[k]).enabled && bindings[k].role
                        == bindings[i as int].role)),
            decreases i - j,
        {
            if config.port_bindings[j].enabled && config.port_bindings[j].role
                == config.port_bindings[i].role {
                offered = false;
            }
            j += 1;
        }
        chosen.push(offered);
        i += 1;
    }
    chosen
}

/// How the dialog for downloading the configuration writes a port.
pub open spec fn port_label(port: u16) -> Seq<char> {
    "Port "@ + decimal(port as nat)
}

/// The ports that a line of the dialog's answer names, in the order of the
/// bindings: a line names a port when it holds the port's label.
pub open spec fn ports_in_line(line: Seq<char>, bindings: Seq<PortBinding>) -> Seq<u16> {
    bindings.filter(|b: PortBinding| has_substring(line, port_label(b.port))).map_values(
        |b: PortBinding| b.port,
    )
}

/// The ports that the lines of the dialog's answer name, line by line.
pub open spec fn ports_in_lines(lines: Seq<Seq<char>>, bindings: Seq<PortBinding>) -> Seq<u16>
    decreases lines.len(),
{
    if lines.len() == 0 {
        Seq::empty()
    } else {
        ports_in_lines(lines.drop_last(), bindings) + ports_in_line(lines.last(), bindings)
    }
}

/// Reads the ports that the user selected from the lines of the answer of
/// the dialog for downloading the configuration.
pub fn selected_ports(lines: &Vec<String>, config: &NetworkConfig) -> (ports: Vec<u16>)
    ensures
        ports@ == ports_in_lines(texts_of(lines@), config.port_bindings@),
{
    let ghost bindings = config.port_bindings@;
    let ghost all = texts_of(lines@);
    let mut ports: Vec<u16> = Vec::new();
    let mut n: usize = 0;
    while n < lines.len()
        invariant
            bindings == config.port_bindings@,
            all == texts_of(lines@),
            n <= lines@.len(),
            ports@ == ports_in_lines(all.take(n as int), bindings),
        decreases lines@.len() - n,
    {
        let line = chars_of(lines[n].as_str());
        let ghost before = ports@;
        let mut i: usize = 0;
        while i < config.port_bindings.len()
            invariant
                bindings == config.port_bindings@,
                line@ == all[n as int],
                n < lines@.len(),
                all.len() == lines@.len(),
                i <= bindings.len(),
                ports@ == before + ports_in_line(line@, bindings.take(i as int)),
            decreases bindings.len() - i,
        {
            let port: u16 = config.port_bindings[i].port;
            let mut label = chars_of("Port ");
            let mut digits = chars_of(decimal_string(port as u64).as_str());
            label.append(&mut digits);
            proof {
                let names = |b: PortBinding| has_substring(line@, port_label(b.port));
                let port_of = |b: PortBinding| b.port;
                assert(bindings.take(i + 1).drop_last() == bindings.take(i as int));
                reveal(Seq::filter);
                assert(bindings.take(i + 1).filter(names) == if names(bindings[i as int]) {
                    bindings.take(i as int).filter(names).push(bindings[i as int])
                } else {
                    bindings.take(i as int).filter(names)
                });
                if names(bindings[i as int]) {
                    assert(bindings.take(i as int).filter(names).push(
                        bindings[i as int],
                    ).map_values(port_of) =~= bindings.take(i as int).filter(names).map_values(
                        port_of,
                    ).push(port));
                }
            }
            if contains_chars(&line, &label) {
                ports.push(port);
            }
            i += 1;
        }
        proof {
            assert(bindings.take(i as int) == bindings);
            assert(all.take(n + 1).drop_last() == all.take(n as int));
        }
        n += 1;
    }
    proof {
        assert(all.take(n as int) == all);
    }
    ports
}

} // verus!
