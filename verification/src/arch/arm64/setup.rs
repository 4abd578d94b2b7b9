//! Early architecture setup: choosing the early console.
use vstd::prelude::*;

use crate::drivers::{DeviceNode, StatusValue, match_driver, matching_driver, string_views};

verus! {

/// The driver to bring up early for the `stdout-path` node of `/chosen` (if the firmware names
/// one): none where the node's status is set and not `okay`, else the driver that supports the
/// first of its compatible strings that some driver supports.
pub fn parse_parameters(stdout: Option<&DeviceNode>, drivers: &Vec<String>) -> (r: Option<usize>)
    ensures
        match stdout {
            None => r is None,
            Some(node) => match node.status {
                Some(StatusValue::Okay) | None => {
                    &&& (r is Some <==> (node.compatible matches Some(c) && matching_driver(
                        string_views(c@),
                        string_views(drivers@),
                    ) is Some))
                    &&& (r matches Some(i) ==> (node.compatible matches Some(c) && matching_driver(
                        string_views(c@),
                        string_views(drivers@),
                    ) == Some(i as int)))
                },
                Some(_) => r is None,
            },
        },
{
    let node = match stdout {
        Some(n) => n,
        None => {
            return None;
        },
    };
    match &node.status {
        Some(StatusValue::Okay) | None => {},
        Some(_) => {
            return None;
        },
    }
    match_driver(node, drivers)
}

} // verus!
