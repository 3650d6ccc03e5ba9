//! The tunnel device.

use vstd::prelude::*;

use crate::models::{ClientConfig, ServerConfig};
use crate::text::{contains, contains_text, option_view};

verus! {

/// How a tunnel device is made.
#[derive(Debug)]
pub struct TunParams {
    pub name: String,
    pub address_v4: String,
    pub prefix_v4: u8,
    pub mtu: Option<u16>,
}

impl TunParams {
    /// The device of a server.
    pub fn of_server(config: &ServerConfig) -> (params: Self)
        ensures
            params.name@ == config@.tun_name,
            params.address_v4@ == config@.tun_address,
            params.prefix_v4 == config@.tun_prefix,
            params.mtu == config@.mtu,
    {
        TunParams {
            name: config.tun_name.clone(),
            address_v4: config.tun_address.clone(),
            prefix_v4: config.tun_prefix,
            mtu: config.mtu,
        }
    }

    /// The device of a client.
    pub fn of_client(config: &ClientConfig) -> (params: Self)
        ensures
            params.name@ == config@.tun_name,
            params.address_v4@ == config@.tun_address,
            params.prefix_v4 == config@.tun_prefix,
            params.mtu == config@.mtu,
    {
        TunParams {
            name: config.tun_name.clone(),
            address_v4: config.tun_address.clone(),
            prefix_v4: config.tun_prefix,
            mtu: config.mtu,
        }
    }
}

/// What helps against a driver that does not load, given where one was found.
pub open spec fn driver_advice(found: Option<Seq<char>>) -> Seq<char> {
    match found {
        Some(path) => "A wintun.dll was found at '"@ + path
            + "', but it looks incompatible. Use the official DLL from wintun.net that matches this PC architecture, and run PowerShell as Administrator."@,
        None =>
            r#"No wintun.dll was found in the project directory or next to the built executable. Download the official DLL from wintun.net and place it next to target\debug\ntz-proto.exe or in this project folder, then run PowerShell as Administrator."#@,
    }
}

/// How a failure to make the device is told: on Windows, a driver that does not load gets some
/// advice.
pub open spec fn tun_error_text(message: Seq<char>, windows: bool, found: Option<Seq<char>>) -> Seq<
    char,
> {
    if windows && (contains_text(message, "GetProcAddress failed"@) || contains_text(
        message,
        "LoadLibrary"@,
    )) {
        message + ". "@ + driver_advice(found)
    } else {
        message
    }
}

/// How a failure to make the device is told.
pub fn annotate_tun_error(message: &str, windows: bool, found: &Option<String>) -> (r: String)
    ensures
        r@ == tun_error_text(message@, windows, option_view(*found)),
{
    let mut r = message.to_owned();
    if windows && (contains(message, "GetProcAddress failed") || contains(message, "LoadLibrary")) {
        r.append(". ");
        match found {
            Some(path) => {
                let mut advice = String::from_str("A wintun.dll was found at '");
                advice.append(path.as_str());
                advice.append(
                    "', but it looks incompatible. Use the official DLL from wintun.net that matches this PC architecture, and run PowerShell as Administrator.",
                );
                r.append(advice.as_str());
            },
            None => r.append(
                r#"No wintun.dll was found in the project directory or next to the built executable. Download the official DLL from wintun.net and place it next to target\debug\ntz-proto.exe or in this project folder, then run PowerShell as Administrator."#,
            ),
        }
    }
    r
}

/// The reason why a tunnel device could not be made always comes first; only on Windows, and only
/// for a driver that does not load, some advice follows, which names the driver that was found.
pub proof fn law_device_errors(message: Seq<char>, path: Seq<char>)
    ensures
        tun_error_text(message, false, Some(path)) == message,
        tun_error_text(message, false, None) == message,
        !contains_text(message, "GetProcAddress failed"@) && !contains_text(message, "LoadLibrary"@)
            ==> tun_error_text(message, true, Some(path)) == message,
        contains_text(message, "GetProcAddress failed"@) || contains_text(message, "LoadLibrary"@)
            ==> tun_error_text(message, true, Some(path)) == message + ". "@ + (
        "A wintun.dll was found at '"@ + path
            + "', but it looks incompatible. Use the official DLL from wintun.net that matches this PC architecture, and run PowerShell as Administrator."@),
{
}

} // verus!
