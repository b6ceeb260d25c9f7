//! The per-interface system control key that turns IPv6 processing on or off.

use vstd::prelude::*;
use sysctl::Sysctl;
use crate::error::NetworkError;
use crate::text::same_text;

verus! {

#[verifier::external_type_specification]
#[verifier::external_body]
pub struct ExCtl(sysctl::Ctl);

#[verifier::external_type_specification]
#[verifier::external_body]
pub struct ExSysctlError(sysctl::SysctlError);

/// Relies on `sysctl::Ctl::new` (through the `Sysctl` trait): opens the key
/// `name` when the running system has it. Nothing is promised of the outcome.
#[verifier::external_body]
fn ctl_open(name: &str) -> (r: Result<sysctl::Ctl, sysctl::SysctlError>) {
    sysctl::Ctl::new(name)
}

/// Relies on `Sysctl::value_string` of `sysctl::Ctl`: reads the key's current
/// value. What it holds depends on the running system.
#[verifier::external_body]
fn ctl_read(ctl: &sysctl::Ctl) -> (r: Result<String, sysctl::SysctlError>) {
    ctl.value_string()
}

/// Relies on `Sysctl::set_value_string` of `sysctl::Ctl`: writes `value` to the
/// key and reads it back. The outcome depends on the running system.
#[verifier::external_body]
fn ctl_write(ctl: &sysctl::Ctl, value: &str) -> (r: Result<String, sysctl::SysctlError>) {
    ctl.set_value_string(value)
}

/// Name of the key that disables IPv6 on `interface`.
pub open spec fn ipv6_key(interface: Seq<char>) -> Seq<char> {
    "net.ipv6.conf."@ + interface + ".disable_ipv6"@
}

/// The key's value for the wanted state: "0" keeps IPv6 on, "1" turns it off.
pub open spec fn disable_value(enable: bool) -> Seq<char> {
    if enable {
        "0"@
    } else {
        "1"@
    }
}

pub fn ipv6_key_name(interface: &str) -> (r: String)
    ensures
        r@ == ipv6_key(interface@),
{
    let r = String::from_str("net.ipv6.conf.").concat(interface).concat(".disable_ipv6");
    r
}

pub fn disable_value_for(enable: bool) -> (r: &'static str)
    ensures
        r@ == disable_value(enable),
{
    if enable {
        "0"
    } else {
        "1"
    }
}

/// Whether the key, now holding `current`, must be written to reach the
/// wanted state.
pub fn ipv6_needs_write(current: &str, enable: bool) -> (r: bool)
    ensures
        r == (current@ != disable_value(enable)),
{
    !same_text(current, disable_value_for(enable))
}

/// IPv6 is on exactly when the key reads "0".
pub fn ipv6_enabled_from(value: &str) -> (r: bool)
    ensures
        r == (value@ == "0"@),
{
    same_text(value, "0")
}

pub open spec fn open_failure_text(key: Seq<char>) -> Seq<char> {
    "Could not get sysctl '"@ + key + "'"@
}

pub open spec fn read_failure_text(key: Seq<char>) -> Seq<char> {
    "Could not get value for sysctl '"@ + key + "'"@
}

pub open spec fn write_failure_text(interface: Seq<char>, enable: bool) -> Seq<char> {
    "Failed to "@ + (if enable { "enable"@ } else { "disable"@ }) + " IPv6 on "@ + interface
}

/// A failure of [`set_ipv6`] or [`get_ipv6_status`]: which step failed is up
/// to the running system; the message names the key or the interface.
pub open spec fn ipv6_failure(e: NetworkError, interface: Seq<char>, enable: bool, writes: bool) -> bool {
    &&& e is SysctlError
    &&& {
        let m = e->SysctlError_0@;
        ||| m == open_failure_text(ipv6_key(interface))
        ||| m == read_failure_text(ipv6_key(interface))
        ||| (writes && m == write_failure_text(interface, enable))
    }
}

fn open_failure(key: &String) -> (e: NetworkError)
    ensures
        e is SysctlError,
        e->SysctlError_0@ == open_failure_text(key@),
{
    NetworkError::SysctlError(String::from_str("Could not get sysctl '").concat(key.as_str()).concat("'"))
}

fn read_failure(key: &String) -> (e: NetworkError)
    ensures
        e is SysctlError,
        e->SysctlError_0@ == read_failure_text(key@),
{
    NetworkError::SysctlError(
        String::from_str("Could not get value for sysctl '").concat(key.as_str()).concat("'"),
    )
}

/// Brings the IPv6 key of `interface` to the wanted state. The key is read
/// first and written only when it differs.
pub fn set_ipv6(interface: &str, enable: bool) -> (r: Result<(), NetworkError>)
    ensures
        r is Err ==> ipv6_failure(r->Err_0, interface@, enable, true),
{
    let key = ipv6_key_name(interface);
    let ctl = match ctl_open(key.as_str()) {
        Ok(c) => c,
        Err(_) => {
            return Err(open_failure(&key));
        },
    };
    let current = match ctl_read(&ctl) {
        Ok(v) => v,
        Err(_) => {
            return Err(read_failure(&key));
        },
    };
    if ipv6_needs_write(current.as_str(), enable) {
        match ctl_write(&ctl, disable_value_for(enable)) {
            Ok(_) => {},
            Err(_) => {
                let verb = if enable {
                    "enable"
                } else {
                    "disable"
                };
                let msg = String::from_str("Failed to ").concat(verb).concat(" IPv6 on ").concat(interface);
                return Err(NetworkError::SysctlError(msg));
            },
        }
    }
    Ok(())
}

pub fn disable_ipv6(interface: &str) -> (r: Result<(), NetworkError>)
    ensures
        r is Err ==> ipv6_failure(r->Err_0, interface@, false, true),
{
    set_ipv6(interface, false)
}

pub fn enable_ipv6(interface: &str) -> (r: Result<(), NetworkError>)
    ensures
        r is Err ==> ipv6_failure(r->Err_0, interface@, true, true),
{
    set_ipv6(interface, true)
}

/// Reads whether IPv6 is on for `interface`.
pub fn get_ipv6_status(interface: &str) -> (r: Result<bool, NetworkError>)
    ensures
        r is Err ==> ipv6_failure(r->Err_0, interface@, true, false),
{
    let key = ipv6_key_name(interface);
    let ctl = match ctl_open(key.as_str()) {
        Ok(c) => c,
        Err(_) => {
            return Err(open_failure(&key));
        },
    };
    match ctl_read(&ctl) {
        Ok(v) => Ok(ipv6_enabled_from(v.as_str())),
        Err(_) => Err(read_failure(&key)),
    }
}

} // verus!
