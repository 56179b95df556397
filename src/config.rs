//! Endpoint configuration: which address each side uses.
//!
//! Over vsock the connector reaches the host at context-id 3 and the
//! listener binds the wildcard context-id; over TCP both use the loopback
//! address. The port comes from configuration, 5005 when none is given.

use vstd::prelude::*;

verus! {

/// The context-id by which a guest reaches its host.
pub const HOST_CID: u32 = 3;

/// The wildcard context-id a listener binds to accept any guest.
pub const ANY_CID: u32 = 0xFFFF_FFFF;

/// The port used when none is configured.
pub const DEFAULT_PORT: u32 = 5005;

/// The port configuration holds no unsigned integer.
#[derive(Clone, Copy, Debug, PartialEq, Eq, Structural)]
pub enum ConfigError {
    InvalidPort,
}

/// A vsock address: context-id and port.
#[derive(Clone, Copy, Debug, PartialEq, Eq, Structural)]
pub struct VsockEndpoint {
    pub cid: u32,
    pub port: u32,
}

/// The value of a run of decimal digits.
pub open spec fn digits_value(s: Seq<char>) -> int
    decreases s.len(),
{
    if s.len() == 0 {
        0
    } else {
        digits_value(s.drop_last()) * 10 + (s.last() as int - '0' as int)
    }
}

pub open spec fn all_digits(s: Seq<char>) -> bool {
    forall|i: int| 0 <= i < s.len() ==> '0' <= #[trigger] s[i] <= '9'
}

/// The `u32` a text denotes in decimal: an optional `+`, then one or more
/// digits, with a value below 2^32.
pub open spec fn decimal_u32(s: Seq<char>) -> Option<u32> {
    let d = if s.len() > 0 && s[0] == '+' {
        s.drop_first()
    } else {
        s
    };
    if d.len() > 0 && all_digits(d) && digits_value(d) <= u32::MAX {
        Some(digits_value(d) as u32)
    } else {
        None
    }
}

/// Relies on `<u32 as FromStr>::from_str`: accepts an optional `+` and
/// decimal digits whose value fits, and nothing else.
#[verifier::external_body]
fn parse_u32(s: &str) -> (r: Option<u32>)
    ensures
        r == decimal_u32(s@),
{
    s.parse::<u32>().ok()
}

/// The vsock port from its setting: the default when unset, its decimal
/// value when it has one, an error otherwise.
pub fn vsock_port(setting: Option<&str>) -> (r: Result<u32, ConfigError>)
    ensures
        setting is None ==> r == Ok::<u32, ConfigError>(DEFAULT_PORT),
        setting matches Some(s) ==> match decimal_u32(s@) {
            Some(p) => r == Ok::<u32, ConfigError>(p),
            None => r == Err::<u32, ConfigError>(ConfigError::InvalidPort),
        },
{
    match setting {
        None => Ok(DEFAULT_PORT),
        Some(s) => match parse_u32(s) {
            Some(p) => Ok(p),
            None => Err(ConfigError::InvalidPort),
        },
    }
}

impl VsockEndpoint {
    /// Where the connector reaches the host.
    pub fn host(port: u32) -> (r: VsockEndpoint)
        ensures
            r == (VsockEndpoint { cid: HOST_CID, port }),
    {
        VsockEndpoint { cid: HOST_CID, port }
    }

    /// What the listener binds: any guest, on the port.
    pub fn any(port: u32) -> (r: VsockEndpoint)
        ensures
            r == (VsockEndpoint { cid: ANY_CID, port }),
    {
        VsockEndpoint { cid: ANY_CID, port }
    }
}

} // verus!
