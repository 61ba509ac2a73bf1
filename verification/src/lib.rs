//! Local control plane for autonomous agents: per-port instruction contexts,
//! human approval sessions, and reconciliation of running listeners against
//! the configured port bindings.

use vstd::prelude::*;
use vstd::string::StringExecFns;

pub mod context;
pub mod dialogs;
pub mod download;
pub mod error;
pub mod laws;
pub mod manager;
pub mod menu;
pub mod network;
pub mod pool;
pub mod server;
pub mod session;
pub mod storage;
pub mod text;
pub mod verification;
pub mod watcher;

verus! {

/// The version of this library.
pub fn version() -> (v: &'static str)
    ensures
        v@ == "0.1.0"@,
{
    "0.1.0"
}

/// The greeting shown to a named user.
pub open spec fn greeting(name: Seq<char>) -> Seq<char> {
    "Hello, "@ + name + "! Welcome to ChaseAI."@
}

/// Builds the greeting for `name`.
pub fn greet(name: &str) -> (text: String)
    ensures
        text@ == greeting(name@),
{
    let mut text = String::from_str("Hello, ");
    text.append(name);
    text.append("! Welcome to ChaseAI.");
    text
}

} // verus!
