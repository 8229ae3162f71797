use parrot::controller::{ParrotSafe, Progress, Setup, Teardown};
use parrot::error::InitError;
use parrot::host::{HostCall, HostReply};

fn reply(status: i32, dev: u32) -> HostReply {
    HostReply { status, dev }
}

/// Runs construction to its end against a host that answers the range
/// request with `alloc` and the activation with `add`.
fn construct(alloc: HostReply, add: HostReply) -> (Vec<HostCall>, Result<ParrotSafe, InitError>) {
    let mut calls = Vec::new();
    let mut state = Setup::Start;
    let mut answer = reply(0, 0);
    loop {
        match ParrotSafe::new(state, answer) {
            Progress::Done(result) => return (calls, result),
            Progress::Call(next, call) => {
                answer = match call {
                    HostCall::AllocRegion { .. } => alloc,
                    HostCall::AddDevice { .. } => add,
                    _ => reply(0, 0),
                };
                calls.push(call);
                state = next;
            }
        }
        assert!(calls.len() <= 5);
    }
}

#[test]
fn construction_begins_with_the_bindings() {
    assert_eq!(
        ParrotSafe::new(Setup::Start, reply(0, 0)),
        Progress::Call(Setup::Binding, HostCall::InstallBindings)
    );
    assert_eq!(
        ParrotSafe::new(Setup::Start, reply(-5, 77)),
        Progress::Call(Setup::Binding, HostCall::InstallBindings)
    );
}

#[test]
fn bindings_are_followed_by_the_range_request() {
    assert_eq!(
        ParrotSafe::new(Setup::Binding, reply(0, 0)),
        Progress::Call(
            Setup::Allocating,
            HostCall::AllocRegion { first_minor: 0, count: 1 }
        )
    );
    assert_eq!(
        ParrotSafe::new(Setup::Binding, reply(-1, 9)),
        Progress::Call(
            Setup::Allocating,
            HostCall::AllocRegion { first_minor: 0, count: 1 }
        )
    );
}

#[test]
fn refused_range_ends_construction() {
    assert_eq!(
        ParrotSafe::new(Setup::Allocating, reply(-16, 0)),
        Progress::Done(Err(InitError::RegionAllocation))
    );
    assert_eq!(
        ParrotSafe::new(Setup::Allocating, reply(1, 42)),
        Progress::Done(Err(InitError::RegionAllocation))
    );
    assert_eq!(
        ParrotSafe::new(Setup::Allocating, reply(i32::MIN, 42)),
        Progress::Done(Err(InitError::RegionAllocation))
    );
}

#[test]
fn granted_range_is_followed_by_the_descriptor() {
    assert_eq!(
        ParrotSafe::new(Setup::Allocating, reply(0, 0x0fa0_0000)),
        Progress::Call(Setup::Describing { dev: 0x0fa0_0000 }, HostCall::InitDescriptor)
    );
}

#[test]
fn descriptor_is_followed_by_its_activation() {
    assert_eq!(
        ParrotSafe::new(Setup::Describing { dev: 7 }, reply(-1, 3)),
        Progress::Call(Setup::Adding { dev: 7 }, HostCall::AddDevice { dev: 7, count: 1 })
    );
}

#[test]
fn accepted_descriptor_completes_the_controller() {
    match ParrotSafe::new(Setup::Adding { dev: 7 }, reply(0, 99)) {
        Progress::Done(Ok(controller)) => {
            assert_eq!(controller.dev(), 7);
            assert_eq!(controller.count(), 1);
        }
        other => panic!("unexpected step: {:?}", other),
    }
}

#[test]
fn refused_descriptor_gives_the_range_back_first() {
    assert_eq!(
        ParrotSafe::new(Setup::Adding { dev: 7 }, reply(-12, 0)),
        Progress::Call(
            Setup::Releasing { dev: 7 },
            HostCall::ReleaseRegion { dev: 7, count: 1 }
        )
    );
    assert_eq!(
        ParrotSafe::new(Setup::Releasing { dev: 7 }, reply(0, 0)),
        Progress::Done(Err(InitError::DeviceAdd))
    );
    assert_eq!(
        ParrotSafe::new(Setup::Releasing { dev: 7 }, reply(-1, 0)),
        Progress::Done(Err(InitError::DeviceAdd))
    );
}

#[test]
fn successful_construction_makes_four_calls_in_order() {
    let (calls, result) = construct(reply(0, 250), reply(0, 0));
    assert_eq!(
        calls,
        vec![
            HostCall::InstallBindings,
            HostCall::AllocRegion { first_minor: 0, count: 1 },
            HostCall::InitDescriptor,
            HostCall::AddDevice { dev: 250, count: 1 },
        ]
    );
    let controller = result.unwrap();
    assert_eq!(controller.dev(), 250);
    assert_eq!(controller.count(), 1);
}

#[test]
fn construction_without_a_range_touches_nothing_else() {
    let (calls, result) = construct(reply(-1, 250), reply(0, 0));
    assert_eq!(
        calls,
        vec![
            HostCall::InstallBindings,
            HostCall::AllocRegion { first_minor: 0, count: 1 },
        ]
    );
    assert_eq!(result, Err(InitError::RegionAllocation));
}

#[test]
fn construction_with_a_refused_descriptor_releases_the_range() {
    let (calls, result) = construct(reply(0, 250), reply(-1, 0));
    assert_eq!(
        calls,
        vec![
            HostCall::InstallBindings,
            HostCall::AllocRegion { first_minor: 0, count: 1 },
            HostCall::InitDescriptor,
            HostCall::AddDevice { dev: 250, count: 1 },
            HostCall::ReleaseRegion { dev: 250, count: 1 },
        ]
    );
    assert_eq!(result, Err(InitError::DeviceAdd));
}

#[test]
fn construction_succeeds_only_on_two_zero_statuses() {
    for alloc in [-2, -1, 0, 1, 2] {
        for add in [-2, -1, 0, 1, 2] {
            let (_, result) = construct(reply(alloc, 5), reply(add, 0));
            assert_eq!(result.is_ok(), alloc == 0 && add == 0);
            if alloc != 0 {
                assert_eq!(result, Err(InitError::RegionAllocation));
            } else if add != 0 {
                assert_eq!(result, Err(InitError::DeviceAdd));
            }
        }
    }
}

#[test]
fn cleanup_releases_the_range_before_the_descriptor() {
    let (_, result) = construct(reply(0, 250), reply(0, 0));
    let mut controller = result.unwrap();
    let before = controller;
    assert_eq!(
        controller.cleanup(),
        Ok(Teardown {
            first: HostCall::ReleaseRegion { dev: 250, count: 1 },
            second: HostCall::RemoveDevice,
        })
    );
    assert_eq!(controller, before);
}

#[test]
fn cleanup_always_succeeds() {
    for dev in [0u32, 1, 250, u32::MAX] {
        let (_, result) = construct(reply(0, dev), reply(0, 0));
        let mut controller = result.unwrap();
        let teardown = controller.cleanup().unwrap();
        assert_eq!(teardown.first, HostCall::ReleaseRegion { dev, count: 1 });
        assert_eq!(teardown.second, HostCall::RemoveDevice);
    }
}
