//! The device as the host sees it: the slot that holds the one controller,
//! the read cursor, and the entry points for load, unload, read, open and
//! release.
use vstd::prelude::*;
use vstd::string::*;
use crate::controller::{HostScript, ParrotSafe, Progress, Setup, Teardown};
use crate::cursor::{next_index, ReadCursor};
use crate::error::{InitError, LOAD_FAILED, LOAD_OK};
use crate::frames::{frame, frame_bytes, frame_len, frame_text, FRAME_COUNT};
use crate::host::{HostCall, HostReply, FIRST_MINOR, MINOR_COUNT, READ_PAUSE_MS};

verus! {

/// Everything the device keeps between calls: the slot for the one
/// controller, empty until a load has succeeded, and the read cursor.
#[derive(Debug, PartialEq, Eq, Structural)]
pub struct Parrot {
    slot: Option<ParrotSafe>,
    cursor: ReadCursor,
}

/// What the load entry point asks for next.
#[derive(Clone, Copy, Debug, PartialEq, Eq)]
pub enum Load {
    /// Perform the call, then come back in the given state with its reply.
    Call(Setup, HostCall),
    /// Loading is over. `status` is what the host's loader is told;
    /// `diagnostic`, if any, is to be written to the log first.
    Finished { status: i32, diagnostic: Option<InitError> },
}

/// What the unload entry point asks for.
#[derive(Clone, Copy, Debug, PartialEq, Eq)]
pub struct Unload {
    /// The host calls to make, in order; none if no device was registered.
    pub teardown: Option<Teardown>,
    /// What to write to the log, if teardown reported an error.
    pub diagnostic: Option<InitError>,
}

/// What one read hands to its caller.
#[derive(Clone, Copy, Debug, PartialEq, Eq)]
pub struct ReadPlan {
    /// The line to copy into the reader's buffer.
    pub line: &'static str,
    /// The length of the line in bytes.
    pub count: i32,
    /// How long to block the reader before the read returns, in
    /// milliseconds.
    pub pause_ms: u64,
}

impl ReadPlan {
    /// The byte count the read reports, once the copy has been attempted.
    /// It is the length of the line whatever the copy achieved:
    /// `not_copied`, the number of bytes that did not reach the reader, is
    /// taken note of and left out of account.
    pub fn finish(&self, not_copied: u64) -> (reported: i32)
        ensures
            reported == self.count,
    {
        let _ = not_copied;
        self.count
    }
}

impl Parrot {
    /// The controller in the slot, if a device is registered.
    pub closed spec fn controller(self) -> Option<ParrotSafe> {
        self.slot
    }

    /// The read cursor.
    pub closed spec fn cursor(self) -> ReadCursor {
        self.cursor
    }

    /// The device made of a slot and a cursor.
    pub closed spec fn of(controller: Option<ParrotSafe>, cursor: ReadCursor) -> Parrot {
        Parrot { slot: controller, cursor }
    }

    /// The device after construction has ended in `result`: registered
    /// with the cursor at the first frame, or left as it was.
    pub open spec fn loaded(self, result: Result<ParrotSafe, InitError>) -> Parrot {
        match result {
            Ok(controller) => Self::of(Some(controller), ReadCursor::first()),
            Err(_) => self,
        }
    }

    /// The device after an unload: back to an empty slot and the first
    /// frame if a device was registered, untouched if none was.
    pub open spec fn unloaded(self) -> Parrot {
        match self.controller() {
            Some(_) => Self::of(None, ReadCursor::first()),
            None => self,
        }
    }

    /// The device after `reads` reads in a row.
    pub open spec fn after_reads(self, reads: nat) -> Parrot {
        Self::of(self.controller(), self.cursor().turned(reads))
    }

    /// The device as it is when the module has just been loaded into
    /// memory: no controller, the cursor at the first frame.
    pub fn new() -> (parrot: Parrot)
        ensures
            parrot == Self::of(None, ReadCursor::first()),
            parrot.controller() is None,
            parrot.cursor()@ == 0,
    {
        Parrot { slot: None, cursor: ReadCursor::new() }
    }

    /// Whether a device is registered.
    pub fn is_present(&self) -> (present: bool)
        ensures
            present == self.controller() is Some,
    {
        self.slot.is_some()
    }

    /// The controller of the registered device, if there is one.
    pub fn identity(&self) -> (controller: Option<ParrotSafe>)
        ensures
            controller == self.controller(),
    {
        self.slot
    }

    /// The index of the frame that the next read serves.
    pub fn position(&self) -> (index: usize)
        ensures
            index == self.cursor()@,
            index < FRAME_COUNT,
            self.cursor().wf(),
    {
        self.cursor.index()
    }

    /// What the parts of a device made by `of` are.
    pub proof fn lemma_of(controller: Option<ParrotSafe>, cursor: ReadCursor)
        ensures
            Self::of(controller, cursor).controller() == controller,
            Self::of(controller, cursor).cursor() == cursor,
    {
    }

    /// A load onto a freshly loaded module leaves a device registered
    /// exactly if the host grants the range and then accepts the
    /// descriptor. The host then holds the range and the live descriptor;
    /// otherwise the slot stays empty and the host holds neither.
    pub proof fn lemma_load(self, script: HostScript)
        requires
            self.controller() is None,
        ensures
            ({
                let alloc = script(
                    HostCall::AllocRegion { first_minor: FIRST_MINOR, count: MINOR_COUNT },
                );
                let add = script(HostCall::AddDevice { dev: alloc.dev, count: MINOR_COUNT });
                let end = ParrotSafe::constructed(script);
                let device = self.loaded(end.result);
                &&& device.controller() is Some <==> alloc.status == 0 && add.status == 0
                &&& device.controller() is Some ==> {
                    &&& device.cursor()@ == 0
                    &&& end.host.live
                    &&& end.host.region == Some((alloc.dev, MINOR_COUNT))
                }
                &&& device.controller() is None ==> device == self && end.host.unregistered()
            }),
    {
        ParrotSafe::lemma_construction(script);
        ReadCursor::lemma_first();
    }

    /// The `k`-th read after a load, counted from zero, serves frame
    /// `k mod 10`.
    pub proof fn lemma_kth_read(self, k: nat)
        requires
            self.cursor()@ == 0,
        ensures
            self.after_reads(k).cursor()@ == k % 10,
            frame_text(self.after_reads(k).cursor()@) == frame_text((k % 10) as int),
    {
        self.cursor().lemma_kth_read(k);
    }

    /// One more read after `reads` reads makes `reads + 1` reads.
    pub proof fn lemma_one_more_read(self, reads: nat)
        ensures
            self.after_reads(reads).after_reads(1) == self.after_reads(reads + 1),
            self.after_reads(0) == self,
    {
        reveal_with_fuel(ReadCursor::turned, 2);
    }

    /// Nothing of the cursor outlives an unload: however many reads a
    /// registered device has served, after an unload and a successful load
    /// the next read serves the first frame again.
    pub proof fn lemma_reload(self, reads: nat, controller: ParrotSafe)
        requires
            self.controller() is Some,
        ensures
            self.after_reads(reads).unloaded().controller() is None,
            self.after_reads(reads).unloaded().loaded(Ok(controller)).controller() == Some(
                controller,
            ),
            self.after_reads(reads).unloaded().loaded(Ok(controller)).cursor()@ == 0,
    {
        ReadCursor::lemma_first();
    }

    /// Ten reads in a row leave the device as it was, so the eleventh read
    /// serves what the first served.
    pub proof fn lemma_ten_reads(self)
        requires
            self.cursor().wf(),
        ensures
            self.after_reads(10) == self,
    {
        self.cursor().lemma_full_cycle();
    }
}

/// One step of the load entry point. Begin in [`Setup::Start`] with any
/// reply; after each [`Load::Call`], perform the call and come back with the
/// state handed out and the host's reply.
///
/// While construction is under way the device is left alone. When
/// construction succeeds, the controller is put into the slot, the cursor
/// stands at the first frame and the status is zero. When it fails, the
/// device is left as it was, the status is negative and the error is handed
/// out for the log.
pub fn init_module(parrot: &mut Parrot, state: Setup, reply: HostReply) -> (load: Load)
    ensures
        match ParrotSafe::spec_new(state, reply) {
            Progress::Call(next, call) => {
                &&& load == Load::Call(next, call)
                &&& *final(parrot) == *old(parrot)
            },
            Progress::Done(result) => {
                &&& load == (Load::Finished {
                    status: if result is Ok {
                        LOAD_OK
                    } else {
                        LOAD_FAILED
                    },
                    diagnostic: match result {
                        Ok(_) => None,
                        Err(error) => Some(error),
                    },
                })
                &&& *final(parrot) == old(parrot).loaded(result)
            },
        },
        final(parrot).controller() == match ParrotSafe::spec_new(state, reply) {
            Progress::Done(Ok(controller)) => Some(controller),
            _ => old(parrot).controller(),
        },
        final(parrot).cursor()@ == match ParrotSafe::spec_new(state, reply) {
            Progress::Done(Ok(_)) => 0,
            _ => old(parrot).cursor()@,
        },
{
    match ParrotSafe::new(state, reply) {
        Progress::Call(next, call) => Load::Call(next, call),
        Progress::Done(Ok(controller)) => {
            parrot.slot = Some(controller);
            parrot.cursor = ReadCursor::new();
            Load::Finished { status: LOAD_OK, diagnostic: None }
        },
        Progress::Done(Err(error)) => Load::Finished {
            status: LOAD_FAILED,
            diagnostic: Some(error),
        },
    }
}

/// The unload entry point. With a device registered it names the teardown
/// calls of the controller, empties the slot and puts the cursor back to the
/// first frame; teardown reports no error, so there is nothing for the log.
/// With no device registered it does nothing.
pub fn cleanup_module(parrot: &mut Parrot) -> (unload: Unload)
    ensures
        unload.diagnostic is None,
        unload.teardown == match old(parrot).controller() {
            Some(controller) => Some(controller.spec_cleanup()),
            None => None,
        },
        *final(parrot) == old(parrot).unloaded(),
        final(parrot).controller() is None,
{
    match parrot.slot {
        Some(mut controller) => {
            let outcome = controller.cleanup();
            parrot.slot = None;
            parrot.cursor = ReadCursor::new();
            match outcome {
                Ok(teardown) => Unload { teardown: Some(teardown), diagnostic: None },
                Err(error) => Unload { teardown: None, diagnostic: Some(error) },
            }
        },
        None => Unload { teardown: None, diagnostic: None },
    }
}

/// The read handler. It serves the line under the cursor, the empty line
/// should the cursor ever stand outside the table, and moves the cursor on
/// by one, back to the first line after the last. The reader is to be
/// blocked for a fixed time before the read returns. How many bytes were
/// asked for, and at which offset, makes no difference.
pub fn parrot_read(parrot: &mut Parrot, requested: u32, offset: u32) -> (plan: ReadPlan)
    ensures
        plan.line@ == frame_text(old(parrot).cursor()@)@,
        plan.line.spec_bytes() == frame_bytes(old(parrot).cursor()@),
        plan.count == frame_bytes(old(parrot).cursor()@).len(),
        plan.count == frame_len(old(parrot).cursor()@),
        plan.pause_ms == READ_PAUSE_MS,
        *final(parrot) == old(parrot).after_reads(1),
        final(parrot).cursor() == old(parrot).cursor().stepped(),
        final(parrot).cursor()@ == next_index(old(parrot).cursor()@),
        final(parrot).controller() == old(parrot).controller(),
        old(parrot).cursor().wf(),
        final(parrot).cursor().wf(),
{
    let _ = requested;
    let _ = offset;
    let line = frame(parrot.cursor.index());
    let count = line.as_bytes().len() as i32;
    parrot.cursor.advance();
    proof {
        reveal_with_fuel(ReadCursor::turned, 2);
    }
    ReadPlan { line, count, pause_ms: READ_PAUSE_MS }
}

/// The open handler: every open succeeds, and nothing is kept of it.
pub fn parrot_open(parrot: &Parrot) -> (status: i32)
    ensures
        status == 0,
{
    let _ = parrot;
    0
}

/// The release handler: every release succeeds, and nothing is kept of it.
pub fn parrot_release(parrot: &Parrot) -> (status: i32)
    ensures
        status == 0,
{
    let _ = parrot;
    0
}

} // verus!
