//! The failures that the context manager reports.

use vstd::prelude::*;
use vstd::string::StringExecFns;
use crate::context::{validation_message, ValidationError};
use crate::text::{decimal, decimal_string};

verus! {

/// Why an operation on the context manager failed.
#[derive(Debug, PartialEq, Eq)]
pub enum ContextError {
    /// The port is not among the configuration's bindings.
    PortNotConfigured(u16),
    /// The port's binding is disabled.
    PortDisabled(u16),
    /// The document breaks a rule of the data model.
    Validation(ValidationError),
    /// The store could not be written.
    Persistence,
    /// No configuration directory is known.
    NoConfigDirectory,
}

/// What a failure says, in words.
pub open spec fn error_message(error: ContextError) -> Seq<char> {
    match error {
        ContextError::PortNotConfigured(port) => "Port "@ + decimal(port as nat)
            + " is not configured in network settings"@,
        ContextError::PortDisabled(port) => "Port "@ + decimal(port as nat) + " is disabled"@,
        ContextError::Validation(e) => validation_message(e),
        ContextError::Persistence => "Context store could not be written"@,
        ContextError::NoConfigDirectory => "Could not determine configuration directory"@,
    }
}

impl ContextError {
    /// What the failure says, in words.
    pub fn message(&self) -> (text: String)
        ensures
            text@ == error_message(*self),
    {
        match self {
            ContextError::PortNotConfigured(port) => {
                let mut text = String::from_str("Port ");
                let number = decimal_string(*port as u64);
                text.append(number.as_str());
                text.append(" is not configured in network settings");
                text
            },
            ContextError::PortDisabled(port) => {
                let mut text = String::from_str("Port ");
                let number = decimal_string(*port as u64);
                text.append(number.as_str());
                text.append(" is disabled");
                text
            },
            ContextError::Validation(e) => e.message(),
            ContextError::Persistence => String::from_str("Context store could not be written"),
            ContextError::NoConfigDirectory => String::from_str(
                "Could not determine configuration directory",
            ),
        }
    }

    /// Whether the failure lies with the configuration: the port is absent
    /// from it or disabled in it.
    pub open spec fn is_configuration(&self) -> bool {
        self is PortNotConfigured || self is PortDisabled
    }

    /// Decides `is_configuration`.
    pub fn is_configuration_error(&self) -> (b: bool)
        ensures
            b == self.is_configuration(),
    {
        match self {
            ContextError::PortNotConfigured(_) => true,
            ContextError::PortDisabled(_) => true,
            _ => false,
        }
    }
}

} // verus!
