//! Messages between machines of a cluster.
use vstd::prelude::*;

verus! {

pub enum LrvmMessage {
    Hello { alias: String },
    HelloAck {
        /// The alias of the answering node.
        alias: String,
        /// The other nodes, as alias, address and port.
        nodes: Vec<(String, String, String)>,
    },
}

} // verus!
