//! Where the remote shell server listens.
use vstd::prelude::*;

verus! {

pub struct Server {
    pub bind_hostname: String,
    pub bind_port: String,
}

impl Server {
    pub fn new(bind_hostname: String, bind_port: String) -> (r: Server)
        ensures
            r.bind_hostname == bind_hostname,
            r.bind_port == bind_port,
    {
        Server { bind_hostname, bind_port }
    }
}

} // verus!
