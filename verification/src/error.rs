//! The failures that the registry reports.

use vstd::prelude::*;
use vstd::string::StringExecFns;

verus! {

/// Why an operation on the registry failed.
#[derive(Debug, PartialEq, Eq)]
pub enum RegistryError {
    /// Reading, writing or creating a file or directory failed; the text is
    /// the message of the operating system.
    Io(String),
    /// The registry file exists but is no JSON object; the text is the cause.
    Parse(String),
    /// The registry could not be written as JSON; the text is the cause.
    Encode(String),
    /// No host is stored under the domain.
    NotFound(String),
    /// The lock on the registry file was not had in time.
    LockTimeout,
}

/// Model of a failure.
pub enum ErrorView {
    Io(Seq<char>),
    Parse(Seq<char>),
    Encode(Seq<char>),
    NotFound(Seq<char>),
    LockTimeout,
}

impl View for RegistryError {
    type V = ErrorView;

    open spec fn view(&self) -> ErrorView {
        match self {
            RegistryError::Io(cause) => ErrorView::Io(cause@),
            RegistryError::Parse(cause) => ErrorView::Parse(cause@),
            RegistryError::Encode(cause) => ErrorView::Encode(cause@),
            RegistryError::NotFound(domain) => ErrorView::NotFound(domain@),
            RegistryError::LockTimeout => ErrorView::LockTimeout,
        }
    }
}

/// The text that describes a failure.
pub open spec fn message_spec(error: ErrorView) -> Seq<char> {
    match error {
        ErrorView::Io(cause) => "Failed to access hosts file: "@ + cause,
        ErrorView::Parse(cause) => "Failed to parse hosts file: "@ + cause,
        ErrorView::Encode(cause) => "Failed to serialize hosts: "@ + cause,
        ErrorView::NotFound(domain) => "Host '"@ + domain + "' not found"@,
        ErrorView::LockTimeout => "Another operation on the hosts file is in progress"@,
    }
}

impl Clone for RegistryError {
    fn clone(&self) -> (copy: Self)
        ensures
            copy@ == self@,
    {
        match self {
            RegistryError::Io(cause) => RegistryError::Io(cause.clone()),
            RegistryError::Parse(cause) => RegistryError::Parse(cause.clone()),
            RegistryError::Encode(cause) => RegistryError::Encode(cause.clone()),
            RegistryError::NotFound(domain) => RegistryError::NotFound(domain.clone()),
            RegistryError::LockTimeout => RegistryError::LockTimeout,
        }
    }
}

impl RegistryError {
    /// Describes the failure for the user.
    pub fn message(&self) -> (text: String)
        ensures
            text@ == message_spec(self@),
    {
        match self {
            RegistryError::Io(cause) => "Failed to access hosts file: ".to_owned().concat(
                cause.as_str(),
            ),
            RegistryError::Parse(cause) => "Failed to parse hosts file: ".to_owned().concat(
                cause.as_str(),
            ),
            RegistryError::Encode(cause) => "Failed to serialize hosts: ".to_owned().concat(
                cause.as_str(),
            ),
            RegistryError::NotFound(domain) => "Host '".to_owned().concat(domain.as_str()).concat(
                "' not found",
            ),
            RegistryError::LockTimeout => "Another operation on the hosts file is in progress"
                .to_owned(),
        }
    }
}

} // verus!
