//! The device controller: how it comes to be, step by step against the
//! host, and how it is torn down.
use vstd::prelude::*;
use crate::error::InitError;
use crate::host::{HostCall, HostModel, HostReply, FIRST_MINOR, MINOR_COUNT};

verus! {

/// The identity of a fully registered device: the first device number of
/// the range the host granted, and how many numbers the range holds.
#[derive(Clone, Copy, Debug, PartialEq, Eq, Structural)]
pub struct ParrotSafe {
    dev: u32,
    count: u32,
}

/// How far the construction of a controller has come. Each state names the
/// host call whose reply is awaited.
#[derive(Clone, Copy, Debug, PartialEq, Eq, Structural)]
pub enum Setup {
    /// Nothing has been asked of the host yet.
    Start,
    /// The handlers are being installed.
    Binding,
    /// A device-number range has been requested.
    Allocating,
    /// The range from `dev` on is held; the descriptor is being initialised.
    Describing { dev: u32 },
    /// The range is held; the descriptor is being made live.
    Adding { dev: u32 },
    /// The descriptor was refused; the range is being given back.
    Releasing { dev: u32 },
}

/// What construction asks for next.
#[derive(Clone, Copy, Debug, PartialEq, Eq)]
pub enum Progress {
    /// Perform the call, then come back in the given state with its reply.
    Call(Setup, HostCall),
    /// Construction is over.
    Done(Result<ParrotSafe, InitError>),
}

/// The host calls that tear a controller down, in the order in which they
/// are to be made.
#[derive(Clone, Copy, Debug, PartialEq, Eq, Structural)]
pub struct Teardown {
    pub first: HostCall,
    pub second: HostCall,
}

/// A host as construction sees it: the reply it gives to each call.
pub type HostScript = spec_fn(HostCall) -> HostReply;

/// Where a run of construction ended: the result, and what the host holds.
pub struct Settled {
    pub result: Result<ParrotSafe, InitError>,
    pub host: HostModel,
    pub calls: Seq<HostCall>,
}

impl Setup {
    /// Upper bound on the steps still to come.
    pub open spec fn remaining(self) -> nat {
        match self {
            Setup::Start => 5,
            Setup::Binding => 4,
            Setup::Allocating => 3,
            Setup::Describing { .. } => 2,
            Setup::Adding { .. } => 1,
            Setup::Releasing { .. } => 0,
        }
    }
}

impl ParrotSafe {
    /// The first device number of the range.
    pub closed spec fn spec_dev(self) -> u32 {
        self.dev
    }

    /// The number of device numbers in the range.
    pub closed spec fn spec_count(self) -> u32 {
        self.count
    }

    /// The controller that holds the range of `count` numbers from `dev` on.
    pub closed spec fn holding(dev: u32, count: u32) -> ParrotSafe {
        ParrotSafe { dev, count }
    }

    /// One step of construction: what follows when the call awaited in
    /// `state` was answered with `reply`.
    ///
    /// The handlers are installed first, then the range is requested; a
    /// refusal ends construction at once, since nothing is held yet. The
    /// descriptor is initialised and made live only for a granted range; if
    /// the host refuses to make it live, the range is given back before the
    /// error is reported.
    pub open spec fn spec_new(state: Setup, reply: HostReply) -> Progress {
        match state {
            Setup::Start => Progress::Call(Setup::Binding, HostCall::InstallBindings),
            Setup::Binding => Progress::Call(
                Setup::Allocating,
                HostCall::AllocRegion { first_minor: FIRST_MINOR, count: MINOR_COUNT },
            ),
            Setup::Allocating => if reply.status != 0 {
                Progress::Done(Err(InitError::RegionAllocation))
            } else {
                Progress::Call(Setup::Describing { dev: reply.dev }, HostCall::InitDescriptor)
            },
            Setup::Describing { dev } => Progress::Call(
                Setup::Adding { dev },
                HostCall::AddDevice { dev, count: MINOR_COUNT },
            ),
            Setup::Adding { dev } => if reply.status != 0 {
                Progress::Call(
                    Setup::Releasing { dev },
                    HostCall::ReleaseRegion { dev, count: MINOR_COUNT },
                )
            } else {
                Progress::Done(Ok(ParrotSafe::holding(dev, MINOR_COUNT)))
            },
            Setup::Releasing { dev } => Progress::Done(Err(InitError::DeviceAdd)),
        }
    }

    /// The calls that tear this controller down: the range is released
    /// first, the descriptor removed second.
    pub open spec fn spec_cleanup(self) -> Teardown {
        Teardown {
            first: HostCall::ReleaseRegion { dev: self.spec_dev(), count: self.spec_count() },
            second: HostCall::RemoveDevice,
        }
    }

    /// Construction run to its end from `state`, against a host that
    /// answers as `script` says and holds `host` when the reply to the
    /// awaited call arrives as `reply`.
    pub open spec fn settle(
        state: Setup,
        reply: HostReply,
        script: HostScript,
        host: HostModel,
        calls: Seq<HostCall>,
    ) -> Settled
        decreases state.remaining(),
    {
        match Self::spec_new(state, reply) {
            Progress::Done(result) => Settled { result, host, calls },
            Progress::Call(next, call) => Self::settle(
                next,
                script(call),
                script,
                host.after(call, script(call)),
                calls.push(call),
            ),
        }
    }

    /// A whole construction against an idle host that answers as `script`
    /// says.
    pub open spec fn constructed(script: HostScript) -> Settled {
        Self::settle(
            Setup::Start,
            HostReply { status: 0, dev: 0 },
            script,
            HostModel::idle(),
            Seq::empty(),
        )
    }

    /// Takes construction one step further. Begin in [`Setup::Start`] with
    /// any reply; after each [`Progress::Call`], perform the call and come
    /// back with the state handed out and the host's reply.
    pub fn new(state: Setup, reply: HostReply) -> (progress: Progress)
        ensures
            progress == Self::spec_new(state, reply),
            match progress {
                Progress::Done(Ok(controller)) => {
                    &&& state == (Setup::Adding { dev: controller.spec_dev() })
                    &&& controller.spec_count() == MINOR_COUNT
                },
                _ => true,
            },
    {
        match state {
            Setup::Start => Progress::Call(Setup::Binding, HostCall::InstallBindings),
            Setup::Binding => Progress::Call(
                Setup::Allocating,
                HostCall::AllocRegion { first_minor: FIRST_MINOR, count: MINOR_COUNT },
            ),
            Setup::Allocating => {
                if reply.status != 0 {
                    Progress::Done(Err(InitError::RegionAllocation))
                } else {
                    Progress::Call(Setup::Describing { dev: reply.dev }, HostCall::InitDescriptor)
                }
            },
            Setup::Describing { dev } => Progress::Call(
                Setup::Adding { dev },
                HostCall::AddDevice { dev, count: MINOR_COUNT },
            ),
            Setup::Adding { dev } => {
                if reply.status != 0 {
                    Progress::Call(
                        Setup::Releasing { dev },
                        HostCall::ReleaseRegion { dev, count: MINOR_COUNT },
                    )
                } else {
                    Progress::Done(Ok(ParrotSafe { dev, count: MINOR_COUNT }))
                }
            },
            Setup::Releasing { dev: _ } => Progress::Done(Err(InitError::DeviceAdd)),
        }
    }

    /// Tears the controller down. It always succeeds: it names the two host
    /// calls to make, the release of the range before the removal of the
    /// descriptor, and whatever the host makes of them is not reported. The
    /// controller itself is left as it was.
    pub fn cleanup(&mut self) -> (result: Result<Teardown, InitError>)
        ensures
            result == Ok::<Teardown, InitError>(old(self).spec_cleanup()),
            *final(self) == *old(self),
    {
        Ok(
            Teardown {
                first: HostCall::ReleaseRegion { dev: self.dev, count: self.count },
                second: HostCall::RemoveDevice,
            },
        )
    }

    /// The first device number of the range the controller holds.
    pub fn dev(&self) -> (dev: u32)
        ensures
            dev == self.spec_dev(),
    {
        self.dev
    }

    /// The number of device numbers in the range the controller holds.
    pub fn count(&self) -> (count: u32)
        ensures
            count == self.spec_count(),
    {
        self.count
    }

    /// What a controller made by `holding` holds.
    pub proof fn lemma_holding(dev: u32, count: u32)
        ensures
            Self::holding(dev, count).spec_dev() == dev,
            Self::holding(dev, count).spec_count() == count,
    {
    }

    /// Every step of construction leaves fewer steps to come, so
    /// construction ends, after five host calls at most.
    pub proof fn lemma_new_progresses(state: Setup, reply: HostReply)
        ensures
            match Self::spec_new(state, reply) {
                Progress::Call(next, _) => next.remaining() < state.remaining(),
                Progress::Done(_) => true,
            },
    {
    }

    /// Construction against any host succeeds exactly if the host grants
    /// the range and then accepts the descriptor. On success the controller
    /// holds the granted range, and the host holds the handlers, the range
    /// and the live descriptor. On failure the host holds neither a range
    /// nor a live descriptor: a range that was granted has been given back.
    pub proof fn lemma_construction(script: HostScript)
        ensures
            ({
                let alloc = script(
                    HostCall::AllocRegion { first_minor: FIRST_MINOR, count: MINOR_COUNT },
                );
                let add = script(HostCall::AddDevice { dev: alloc.dev, count: MINOR_COUNT });
                let end = Self::constructed(script);
                &&& end.result is Ok <==> alloc.status == 0 && add.status == 0
                &&& alloc.status != 0 ==> end.result == Err::<ParrotSafe, InitError>(
                    InitError::RegionAllocation,
                )
                &&& alloc.status == 0 && add.status != 0 ==> end.result == Err::<
                    ParrotSafe,
                    InitError,
                >(InitError::DeviceAdd)
                &&& end.result is Ok ==> {
                    &&& end.result->Ok_0.spec_dev() == alloc.dev
                    &&& end.result->Ok_0.spec_count() == MINOR_COUNT
                    &&& end.host.bound
                    &&& end.host.described
                    &&& end.host.live
                    &&& end.host.region == Some((alloc.dev, MINOR_COUNT))
                }
                &&& end.result is Err ==> end.host.unregistered()
            }),
    {
        reveal_with_fuel(ParrotSafe::settle, 7);
    }

    /// The order of the host calls that construction makes: the handlers,
    /// the range, and only for a granted range the descriptor, its
    /// activation and, where that is refused, the release of the range.
    pub proof fn lemma_construction_calls(script: HostScript)
        ensures
            ({
                let request = HostCall::AllocRegion { first_minor: FIRST_MINOR, count: MINOR_COUNT };
                let alloc = script(request);
                let activate = HostCall::AddDevice { dev: alloc.dev, count: MINOR_COUNT };
                let add = script(activate);
                let release = HostCall::ReleaseRegion { dev: alloc.dev, count: MINOR_COUNT };
                let calls = Self::constructed(script).calls;
                if alloc.status != 0 {
                    calls == seq![HostCall::InstallBindings, request]
                } else if add.status != 0 {
                    calls == seq![
                        HostCall::InstallBindings,
                        request,
                        HostCall::InitDescriptor,
                        activate,
                        release,
                    ]
                } else {
                    calls == seq![
                        HostCall::InstallBindings,
                        request,
                        HostCall::InitDescriptor,
                        activate,
                    ]
                }
            }),
    {
        reveal_with_fuel(ParrotSafe::settle, 7);
        let request = HostCall::AllocRegion { first_minor: FIRST_MINOR, count: MINOR_COUNT };
        let alloc = script(request);
        let activate = HostCall::AddDevice { dev: alloc.dev, count: MINOR_COUNT };
        let release = HostCall::ReleaseRegion { dev: alloc.dev, count: MINOR_COUNT };
        let calls = Self::constructed(script).calls;
        let two = Seq::<HostCall>::empty().push(HostCall::InstallBindings).push(request);
        assert(two =~= seq![HostCall::InstallBindings, request]);
        let four = two.push(HostCall::InitDescriptor).push(activate);
        assert(four =~= seq![HostCall::InstallBindings, request, HostCall::InitDescriptor, activate]);
        assert(four.push(release) =~= seq![
            HostCall::InstallBindings,
            request,
            HostCall::InitDescriptor,
            activate,
            release,
        ]);
    }

    /// Teardown of a registered device leaves the host with neither the
    /// range nor the live descriptor, whatever the host answers, and the
    /// range goes first.
    pub proof fn lemma_teardown(self, host: HostModel, first: HostReply, second: HostReply)
        ensures
            self.spec_cleanup().first == (HostCall::ReleaseRegion {
                dev: self.spec_dev(),
                count: self.spec_count(),
            }),
            self.spec_cleanup().second == HostCall::RemoveDevice,
            host.after(self.spec_cleanup().first, first).after(
                self.spec_cleanup().second,
                second,
            ).unregistered(),
            host.after(self.spec_cleanup().first, first).live == host.live,
    {
    }
}

} // verus!
