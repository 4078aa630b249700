//! Which side of the engine a process is running: a rendering client or a
//! dedicated server without a renderer.

use vstd::prelude::*;

verus! {

/// The side a process runs on. Rendering is available only on the client.
#[derive(Clone, Copy, PartialEq, Eq, Structural, Debug)]
pub enum Side {
    Client,
    DedicatedServer,
}

impl Side {
    /// A human-readable name for the side.
    pub fn name(&self) -> (r: String)
        ensures
            *self == Side::Client ==> r@ == "client"@,
            *self == Side::DedicatedServer ==> r@ == "dedicated_server"@,
    {
        match self {
            Side::Client => "client".to_owned(),
            Side::DedicatedServer => "dedicated_server".to_owned(),
        }
    }
}

} // verus!
