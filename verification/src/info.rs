//! The bundles that the entry operations hand back.
//!
//! These are best-effort facts: whatever could not be found is replaced by a
//! sentinel, and no failure is passed on as an error.

use crate::activation::{activation_of, activation_status, label_of};
use crate::engine::{Conclusion, Failure};
use crate::hostname::{hostname_or_placeholder, hostname_or_placeholder_of};
use crate::serial::{displayed_serial, displayed_serial_of, serial_number, serial_number_of};
use crate::text::optional_text;
use vstd::prelude::*;

verus! {

/// The basic facts about the host.
#[derive(Clone, Debug, PartialEq, Eq)]
pub struct BasicSystemInfo {
    pub os_name: String,
    pub os_version: String,
    pub hostname: String,
}

/// The facts that only the platform's own tools can give.
#[derive(Clone, Debug, PartialEq, Eq)]
pub struct WindowsSpecificInfo {
    pub serial_number: String,
    pub activation_status: String,
}

/// A fact as it is reported: itself, or `Unknown` where it could not be
/// determined.
pub open spec fn or_unknown_of(fact: Option<Seq<char>>) -> Seq<char> {
    match fact {
        Some(text) => text,
        None => "Unknown"@,
    }
}

/// Reports a fact: itself, or `Unknown` where it could not be determined.
pub fn or_unknown(fact: Option<String>) -> (text: String)
    ensures
        text@ == or_unknown_of(optional_text(fact)),
{
    match fact {
        Some(known) => known,
        None => "Unknown".to_owned(),
    }
}

/// Assembles the basic facts. The name and the version of the operating
/// system fall back to `Unknown`, the hostname to `Desconocido`.
pub fn basic_system_info(
    os_name: Option<String>,
    os_version: Option<String>,
    hostname: Result<String, Failure>,
) -> (info: BasicSystemInfo)
    ensures
        info.os_name@ == or_unknown_of(optional_text(os_name)),
        info.os_version@ == or_unknown_of(optional_text(os_version)),
        info.hostname@ == hostname_or_placeholder_of(
            match hostname {
                Ok(name) => Ok(name@),
                Err(failure) => Err(failure),
            },
        ),
{
    BasicSystemInfo {
        os_name: or_unknown(os_name),
        os_version: or_unknown(os_version),
        hostname: hostname_or_placeholder(hostname),
    }
}

/// Assembles the platform's facts from the conclusions of the serial number
/// resolver and of the activation status resolver.
pub fn windows_specific_info(serial: Conclusion, activation: &Conclusion) -> (info:
    WindowsSpecificInfo)
    ensures
        info.serial_number@ == displayed_serial_of(serial_number_of(serial@)),
        info.activation_status@ == label_of(activation_of(activation@)),
{
    WindowsSpecificInfo {
        serial_number: displayed_serial(serial_number(serial)),
        activation_status: activation_status(activation).label(),
    }
}

} // verus!
