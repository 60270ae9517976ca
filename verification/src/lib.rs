//! VerityNet core: the signaling-to-connection bridge of a peer-to-peer node.

use vstd::prelude::*;

pub mod p2p;

verus! {

/// The greeting that a node announces when the core comes up.
pub open spec fn greeting() -> Seq<char> {
    "Hello from VerityNet Core!"@
}

/// Returns the core's greeting, for the caller to log.
pub fn core_hello() -> (text: String)
    ensures
        text@ == greeting(),
{
    "Hello from VerityNet Core!".to_string()
}

/// The level at which a node logs: the one that was asked for, and `info`
/// where none was.
pub fn log_filter<'a>(log_level: Option<&'a str>) -> (level: &'a str)
    ensures
        level@ == match log_level {
            Some(asked) => asked@,
            None => "info"@,
        },
{
    match log_level {
        Some(asked) => asked,
        None => "info",
    }
}

} // verus!
