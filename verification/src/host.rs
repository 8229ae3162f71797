//! The host's side of the conversation: the calls the device asks for, the
//! replies it gets, and a model of what the calls do to the host.
use vstd::prelude::*;

verus! {

/// First minor number of the range the device asks for.
pub const FIRST_MINOR: u32 = 0;

/// How many minor numbers the device asks for.
pub const MINOR_COUNT: u32 = 1;

/// The name under which the range is requested, closed by a NUL.
pub const DEVICE_NAME: &'static str = "parrot\0";

/// Time a read blocks its caller before it returns, in milliseconds.
pub const READ_PAUSE_MS: u64 = 50;

/// One request to the host. The embedding layer performs it and reports the
/// host's reply.
#[derive(Clone, Copy, Debug, PartialEq, Eq, Structural)]
pub enum HostCall {
    /// Write the read, open and release handlers and the module's owner into
    /// the host's operations table.
    InstallBindings,
    /// Ask for a range of `count` device numbers from `first_minor` on, under
    /// the device's name.
    AllocRegion { first_minor: u32, count: u32 },
    /// Initialise the device descriptor and bind it to the operations table.
    InitDescriptor,
    /// Make the descriptor live for the range that starts at `dev`.
    AddDevice { dev: u32, count: u32 },
    /// Give the range that starts at `dev` back to the host.
    ReleaseRegion { dev: u32, count: u32 },
    /// Take the descriptor out of the host's set of live devices.
    RemoveDevice,
}

/// What the host answered. `status` is zero for success; `dev` is the first
/// device number of a granted range. A call that answers nothing is reported
/// with any reply: it is not looked at.
#[derive(Clone, Copy, Debug, PartialEq, Eq, Structural)]
pub struct HostReply {
    pub status: i32,
    pub dev: u32,
}

/// What the host holds on behalf of the device.
pub struct HostModel {
    /// The operations table carries the device's handlers.
    pub bound: bool,
    /// The range the device holds: first number and count.
    pub region: Option<(u32, u32)>,
    /// The descriptor has been initialised.
    pub described: bool,
    /// The descriptor is in the set of live devices.
    pub live: bool,
}

impl HostModel {
    /// A host that holds nothing for the device.
    pub open spec fn idle() -> HostModel {
        HostModel { bound: false, region: None, described: false, live: false }
    }

    /// The host holds neither a range nor a live descriptor for the device.
    pub open spec fn unregistered(self) -> bool {
        self.region is None && !self.live
    }

    /// The host after it has performed `call` and answered `reply`.
    pub open spec fn after(self, call: HostCall, reply: HostReply) -> HostModel {
        match call {
            HostCall::InstallBindings => HostModel { bound: true, ..self },
            HostCall::AllocRegion { first_minor, count } => if reply.status == 0 {
                HostModel { region: Some((reply.dev, count)), ..self }
            } else {
                self
            },
            HostCall::InitDescriptor => HostModel { described: true, ..self },
            HostCall::AddDevice { dev, count } => if reply.status == 0 {
                HostModel { live: true, ..self }
            } else {
                self
            },
            HostCall::ReleaseRegion { dev, count } => HostModel { region: None, ..self },
            HostCall::RemoveDevice => HostModel { live: false, ..self },
        }
    }
}

} // verus!
