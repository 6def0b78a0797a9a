//! The ways in which a request to the engine can be turned down.

use vstd::prelude::*;
use vstd::string::StringExecFns;
use crate::text::decimal;
use crate::text::number_text;
use super::process::Pid;
use super::resource::ResourceType;

verus! {

/// Every failure is recoverable, and a failed request changes nothing.
#[derive(Clone, Copy, Debug, PartialEq, Eq, Structural)]
pub enum AccountingError {
    /// A process with this pid is registered already.
    DuplicateProcess(Pid),
    /// No process with this pid is registered.
    ProcessNotFound(Pid),
    /// No billing policy is registered for this kind of resource.
    UnknownResourceKind(ResourceType),
}

/// The name of a kind, as it stands in a message.
pub open spec fn kind_name(kind: ResourceType) -> Seq<char> {
    match kind {
        ResourceType::CPU => "CPU"@,
        ResourceType::Memory => "Memory"@,
        ResourceType::Storage => "Storage"@,
    }
}

impl AccountingError {
    /// The text of the error, for a reader.
    pub open spec fn spec_message(&self) -> Seq<char> {
        match self {
            AccountingError::DuplicateProcess(pid) => "Process with pid "@ + decimal(*pid as nat)
                + " already exists"@,
            AccountingError::ProcessNotFound(pid) => "Process with pid "@ + decimal(*pid as nat)
                + " not found"@,
            AccountingError::UnknownResourceKind(kind) => "Resource type "@ + kind_name(*kind)
                + " not registered"@,
        }
    }

    pub fn message(&self) -> (text: String)
        ensures
            text@ == self.spec_message(),
    {
        match self {
            AccountingError::DuplicateProcess(pid) => {
                let mut text = String::from_str("Process with pid ");
                let number = number_text(*pid);
                text.append(number.as_str());
                text.append(" already exists");
                text
            },
            AccountingError::ProcessNotFound(pid) => {
                let mut text = String::from_str("Process with pid ");
                let number = number_text(*pid);
                text.append(number.as_str());
                text.append(" not found");
                text
            },
            AccountingError::UnknownResourceKind(kind) => {
                let mut text = String::from_str("Resource type ");
                let name = match kind {
                    ResourceType::CPU => "CPU",
                    ResourceType::Memory => "Memory",
                    ResourceType::Storage => "Storage",
                };
                text.append(name);
                text.append(" not registered");
                text
            },
        }
    }
}

} // verus!
