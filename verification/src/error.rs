//! Error vocabulary shared by every backend of the peripheral.
//!
//! An [`Error`] carries a name, a human-readable description and the
//! [`ErrorType`] that says which subsystem produced it.

use vstd::prelude::*;
use vstd::string::StringExecFns;

verus! {

/// Which subsystem an [`Error`] originates from.
#[derive(Debug, Clone, Copy, PartialEq, Eq, Structural)]
pub enum ErrorType {
    Bluez,
    CoreBluetooth,
    Windows,
    PermissionDenied,
    ChannelError,
}

impl ErrorType {
    /// The short name of the subsystem, as it appears in messages.
    pub open spec fn spec_name(&self) -> Seq<char> {
        match self {
            ErrorType::Bluez => "Bluez"@,
            ErrorType::CoreBluetooth => "CoreBluetooth"@,
            ErrorType::Windows => "Windows"@,
            ErrorType::PermissionDenied => "PermissionDenied"@,
            ErrorType::ChannelError => "ChannelError"@,
        }
    }

    pub fn as_str(&self) -> (r: &'static str)
        ensures
            r@ == self.spec_name(),
    {
        match self {
            ErrorType::Bluez => "Bluez",
            ErrorType::CoreBluetooth => "CoreBluetooth",
            ErrorType::Windows => "Windows",
            ErrorType::PermissionDenied => "PermissionDenied",
            ErrorType::ChannelError => "ChannelError",
        }
    }

    /// The full display form of the subsystem tag.
    pub open spec fn spec_message(&self) -> Seq<char> {
        "<BlePeripheralRust "@ + self.spec_name() + " Error>"@
    }

    pub fn to_message(&self) -> (r: String)
        ensures
            r@ == self.spec_message(),
    {
        String::from_str("<BlePeripheralRust ").concat(self.as_str()).concat(" Error>")
    }
}

/// An error with a name, a description and the subsystem it came from.
#[derive(Debug, Clone)]
pub struct Error {
    name: String,
    description: String,
    error_type: ErrorType,
}

impl Error {
    pub closed spec fn spec_name(&self) -> Seq<char> {
        self.name@
    }

    pub closed spec fn spec_description(&self) -> Seq<char> {
        self.description@
    }

    pub closed spec fn spec_error_type(&self) -> ErrorType {
        self.error_type
    }

    pub fn new(name: &str, description: &str, error_type: ErrorType) -> (r: Self)
        ensures
            r.spec_name() == name@,
            r.spec_description() == description@,
            r.spec_error_type() == error_type,
    {
        Error { name: String::from_str(name), description: String::from_str(description), error_type }
    }

    pub fn from_type(error_type: ErrorType) -> (r: Self)
        ensures
            r.spec_name() == error_type.spec_message(),
            r.spec_description() == error_type.spec_message(),
            r.spec_error_type() == error_type,
    {
        Error {
            name: error_type.to_message(),
            description: error_type.to_message(),
            error_type,
        }
    }

    pub fn from_string(error: String, error_type: ErrorType) -> (r: Self)
        ensures
            r.spec_name() == error_type.spec_message(),
            r.spec_description() == error@,
            r.spec_error_type() == error_type,
    {
        Error { name: error_type.to_message(), description: error, error_type }
    }

    pub fn name(&self) -> (r: &String)
        ensures
            r@ == self.spec_name(),
    {
        &self.name
    }

    pub fn description(&self) -> (r: &String)
        ensures
            r@ == self.spec_description(),
    {
        &self.description
    }

    pub fn error_type(&self) -> (r: ErrorType)
        ensures
            r == self.spec_error_type(),
    {
        self.error_type
    }

    /// The name and the description joined as `name: description`.
    pub fn combined_description(&self) -> (r: String)
        ensures
            r@ == self.spec_name() + ": "@ + self.spec_description(),
    {
        self.name.clone().concat(": ").concat(self.description.as_str())
    }
}

} // verus!
