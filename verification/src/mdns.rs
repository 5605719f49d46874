//! Names under which the server advertises itself by mDNS.

use vstd::prelude::*;
use crate::text::{chars_of, extend_str, string_from_chars};

verus! {

/// The DNS-SD service type of the server.
pub const SERVICE_TYPE: &'static str = "_rylus._tcp.local.";

/// The protocol version advertised in the service's TXT record.
pub const MDNS_PROTOCOL_VERSION: &'static str = "3";

/// A failure to advertise the service, with the underlying message.
#[derive(Clone, Debug, PartialEq, Eq)]
pub struct MdnsError(pub String);

impl MdnsError {
    /// The text of the error: `mDNS error: ` and the message.
    pub fn to_display_string(&self) -> (r: String)
        ensures
            r@ == "mDNS error: "@ + self.0@,
    {
        let mut v = chars_of("mDNS error: ");
        extend_str(&mut v, self.0.as_str());
        string_from_chars(v.as_slice())
    }
}

/// The service instance name: `Rylus ` and the given name, else the system's host
/// name.
pub fn instance_name(custom: Option<&str>, system_hostname: &str) -> (r: String)
    ensures
        r@ == "Rylus "@ + match custom {
            Some(h) => h@,
            None => system_hostname@,
        },
{
    let mut v = chars_of("Rylus ");
    match custom {
        Some(h) => extend_str(&mut v, h),
        None => extend_str(&mut v, system_hostname),
    }
    string_from_chars(v.as_slice())
}

/// The host name the service points at: the system's host name in `.local.`.
pub fn host_name(system_hostname: &str) -> (r: String)
    ensures
        r@ == system_hostname@ + ".local."@,
{
    let mut v = chars_of(system_hostname);
    extend_str(&mut v, ".local.");
    string_from_chars(v.as_slice())
}

/// The system's host name as read, or `unknown` when it could not be read.
pub fn hostname_or_unknown(read: Option<String>) -> (r: String)
    ensures
        r@ == match read {
            Some(h) => h@,
            None => "unknown"@,
        },
{
    match read {
        Some(h) => h,
        None => "unknown".to_owned(),
    }
}

} // verus!
