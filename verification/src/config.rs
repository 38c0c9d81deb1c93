//! Startup configuration: port validation and the immutable server settings.

use vstd::prelude::*;
use vstd::string::StringExecFns;
use crate::num::{parse_u16, parse_u16_spec, u16_digits, u16_to_string};

verus! {

/// Ports must stay below this bound.
pub const MAX_PORT: u16 = 32768;

/// The message reported for a port that parses but is out of range.
pub open spec fn port_range_message_spec() -> Seq<char> {
    "value should be less than "@ + u16_digits(MAX_PORT as nat)
}

/// Check a command-line port value: it must parse as a decimal `u16` and be
/// below `MAX_PORT`. On failure the message names the violated constraint,
/// parse failures rendered as `u16::from_str` renders them.
pub fn is_valid_port(val: &str) -> (r: Result<(), String>)
    ensures
        match parse_u16_spec(val@) {
            Ok(p) => if p < MAX_PORT {
                r is Ok
            } else {
                r matches Err(m) && m@ == port_range_message_spec()
            },
            Err(e) => r matches Err(m) && m@ == e.message_spec(),
        },
{
    match parse_u16(val) {
        Err(e) => Err(e.message()),
        Ok(port) => {
            if port < MAX_PORT {
                Ok(())
            } else {
                let mut m = String::from_str("value should be less than ");
                let bound = u16_to_string(MAX_PORT);
                m.append(bound.as_str());
                Err(m)
            }
        },
    }
}

/// The immutable settings the process runs with, fixed at startup.
#[derive(Debug)]
pub struct ServerConfig {
    pub port: u16,
    pub local: bool,
    pub static_dir: String,
    pub release_file: String,
}

impl ServerConfig {
    /// The configuration invariant: the port is in range.
    pub open spec fn wf(&self) -> bool {
        self.port < MAX_PORT
    }

    /// Validate the settings once at startup; an out-of-range port is fatal
    /// and reported with the violated constraint.
    pub fn new(port: u16, local: bool, static_dir: String, release_file: String) -> (r: Result<
        ServerConfig,
        String,
    >)
        ensures
            r is Ok <==> port < MAX_PORT,
            r matches Ok(c) ==> c.wf() && c.port == port && c.local == local && c.static_dir@
                == static_dir@ && c.release_file@ == release_file@,
            r matches Err(m) ==> m@ == port_range_message_spec(),
    {
        if port < MAX_PORT {
            Ok(
                ServerConfig {
                    port,
                    local,
                    static_dir,
                    release_file,
                },
            )
        } else {
            let mut m = String::from_str("value should be less than ");
            let bound = u16_to_string(MAX_PORT);
            m.append(bound.as_str());
            Err(m)
        }
    }
}

} // verus!
