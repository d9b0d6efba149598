use crate::response::{Exchange, PlanModel, TransferPlan};
use vstd::prelude::*;

verus! {

/// Bytes asked of the body in one read: 64 KiB.
pub const CHUNK_SIZE: usize = 65536;

/// What broke a transfer off.
#[derive(Clone, Copy, Debug, PartialEq, Eq, Structural)]
pub enum Fault {
    /// Reading the body failed.
    Read,
    /// Writing to the file failed.
    Write,
    /// The file would have grown past what a 64-bit length can count.
    LengthLimit,
}

/// How a transfer ended.
#[derive(Clone, Copy, Debug, PartialEq, Eq, Structural)]
pub enum Ending {
    /// The body was read to its end.
    Completed,
    /// The interrupt flag was found raised between two chunks.
    Paused,
    Failed(Fault),
}

/// Where a transfer stands: what it waits for.
#[derive(Clone, Copy, Debug, PartialEq, Eq, Structural)]
pub enum Stage {
    /// Between chunks: the interrupt flag is to be looked at.
    AwaitFlag,
    /// A read of the body is under way.
    AwaitChunk,
    /// `len` bytes of the chunk just read, from index `from` on, are being
    /// appended to the file.
    AwaitWrite { from: usize, len: usize },
    Done(Ending),
}

/// What the outside reports back.
#[derive(Clone, Copy, Debug, PartialEq, Eq, Structural)]
pub enum Event {
    /// The interrupt flag as it was just read.
    Flag(bool),
    /// A read of the body gave this many bytes; 0 is the end of the stream.
    Chunk(usize),
    ReadFailed,
    /// The slice asked for is on disk.
    Written,
    WriteFailed,
}

/// What the outside is to do next.
#[derive(Clone, Copy, Debug, PartialEq, Eq, Structural)]
pub enum Action {
    /// Read the interrupt flag.
    CheckFlag,
    /// Read up to `capacity` bytes of the body into the chunk buffer.
    Read { capacity: usize },
    /// Seek to the end of the file and append `len` bytes of the chunk
    /// buffer, starting at index `from`.
    Append { from: usize, len: usize },
    /// Leave the loop.
    Stop(Ending),
}

/// A transfer as plain values.
pub struct TransferModel {
    /// Length of the file when the transfer began.
    pub resume_offset: u64,
    /// Bytes of the payload that are yet to be passed over because the file
    /// holds them already.
    pub skip: u64,
    /// Bytes appended to the file since the transfer began.
    pub appended: u64,
    pub total_size: Option<u64>,
    pub stage: Stage,
}

impl TransferModel {
    /// The length of the file as the transfer accounts for it.
    pub open spec fn position(self) -> nat {
        (self.resume_offset + self.appended) as nat
    }

    /// The file's length can be counted in 64 bits, now and after the slice
    /// that is being written.
    pub open spec fn wf(self) -> bool {
        &&& self.resume_offset + self.appended <= u64::MAX
        &&& self.stage matches Stage::AwaitWrite { from, len } ==> {
            &&& len > 0
            &&& from + len <= usize::MAX
            &&& self.resume_offset + self.appended + len <= u64::MAX
        }
    }

    pub open spec fn at(self, stage: Stage) -> TransferModel {
        TransferModel { stage, ..self }
    }
}

/// The transfer that a plan sets out: nothing appended yet, and the bytes on
/// disk to be passed over where the payload is the whole resource.
pub open spec fn started(plan: PlanModel) -> TransferModel {
    TransferModel {
        resume_offset: plan.resume_offset,
        skip: if plan.exchange == Exchange::ResumedFull {
            plan.resume_offset
        } else {
            0
        },
        appended: 0,
        total_size: plan.total_size,
        stage: Stage::AwaitFlag,
    }
}

/// The action that a stage waits on.
pub open spec fn awaited(stage: Stage) -> Action {
    match stage {
        Stage::AwaitFlag => Action::CheckFlag,
        Stage::AwaitChunk => Action::Read { capacity: CHUNK_SIZE },
        Stage::AwaitWrite { from, len } => Action::Append { from, len },
        Stage::Done(ending) => Action::Stop(ending),
    }
}

/// What a chunk of `n > 0` bytes leads to. A chunk that lies wholly within
/// the bytes to pass over is dropped; of any other, the part behind them is
/// appended, unless the file's length would leave 64 bits.
pub open spec fn on_chunk(s: TransferModel, n: usize) -> TransferModel {
    if n <= s.skip {
        TransferModel { skip: (s.skip - n) as u64, stage: Stage::AwaitFlag, ..s }
    } else if s.resume_offset + s.appended + (n - s.skip) > u64::MAX {
        s.at(Stage::Done(Ending::Failed(Fault::LengthLimit)))
    } else {
        TransferModel {
            skip: 0,
            stage: Stage::AwaitWrite { from: s.skip as usize, len: (n - s.skip) as usize },
            ..s
        }
    }
}

/// The transfer after an event. The flag is looked at before every read, and
/// a raised flag pauses without reading. A read of 0 bytes completes. A slice
/// counts as appended once it is reported written, never before. A failed
/// read or write ends the transfer. An event that the stage does not wait
/// for changes nothing.
pub open spec fn next(s: TransferModel, event: Event) -> TransferModel {
    match (s.stage, event) {
        (Stage::AwaitFlag, Event::Flag(raised)) => if raised {
            s.at(Stage::Done(Ending::Paused))
        } else {
            s.at(Stage::AwaitChunk)
        },
        (Stage::AwaitChunk, Event::Chunk(n)) => if n == 0 {
            s.at(Stage::Done(Ending::Completed))
        } else {
            on_chunk(s, n)
        },
        (Stage::AwaitChunk, Event::ReadFailed) => s.at(Stage::Done(Ending::Failed(Fault::Read))),
        (Stage::AwaitWrite { from, len }, Event::Written) => TransferModel {
            appended: (s.appended + len) as u64,
            stage: Stage::AwaitFlag,
            ..s
        },
        (Stage::AwaitWrite { from, len }, Event::WriteFailed) => s.at(
            Stage::Done(Ending::Failed(Fault::Write)),
        ),
        _ => s,
    }
}

/// The accounting survives every event: a transfer whose file length can be
/// counted stays one.
pub proof fn law_accounting_is_kept(s: TransferModel, event: Event)
    requires
        s.wf(),
    ensures
        next(s, event).wf(),
{
}

/// The file is never cut back: no event lowers the length accounted for, and
/// none changes where the transfer began.
pub proof fn law_file_never_shrinks(s: TransferModel, event: Event)
    requires
        s.wf(),
    ensures
        next(s, event).position() >= s.position(),
        next(s, event).resume_offset == s.resume_offset,
        next(s, event).total_size == s.total_size,
{
}

/// Bytes count as appended only through a report that they are written, and
/// then exactly the slice that was asked for counts.
pub proof fn law_only_written_slices_count(s: TransferModel, event: Event)
    requires
        s.wf(),
        next(s, event).appended != s.appended,
    ensures
        event == Event::Written,
        s.stage matches Stage::AwaitWrite { from, len } && next(s, event).appended == s.appended
            + len,
{
}

/// No read without a look at the flag: a transfer comes to wait for a chunk
/// only from between two chunks, on finding the flag down.
pub proof fn law_flag_is_looked_at_before_every_read(s: TransferModel, event: Event)
    requires
        s.stage != Stage::AwaitChunk,
        next(s, event).stage == Stage::AwaitChunk,
    ensures
        s.stage == Stage::AwaitFlag,
        event == Event::Flag(false),
{
}

/// A transfer that has ended stays as it is.
pub proof fn law_ending_is_final(s: TransferModel, event: Event)
    requires
        s.stage is Done,
    ensures
        next(s, event) == s,
{
}

/// What the progress display is told.
#[derive(Clone, Copy, Debug, PartialEq, Eq)]
pub struct TransferProgress {
    pub bytes_this_session: u64,
    pub total_size: Option<u64>,
}

/// One transfer: the streaming writer's decisions, without its I/O. The
/// caller performs each action and reports what came of it.
#[derive(Clone, Copy, Debug, PartialEq, Eq)]
pub struct Transfer {
    resume_offset: u64,
    skip: u64,
    appended: u64,
    total_size: Option<u64>,
    stage: Stage,
}

impl View for Transfer {
    type V = TransferModel;

    closed spec fn view(&self) -> TransferModel {
        TransferModel {
            resume_offset: self.resume_offset,
            skip: self.skip,
            appended: self.appended,
            total_size: self.total_size,
            stage: self.stage,
        }
    }
}

impl Transfer {
    #[verifier::type_invariant]
    spec fn inv(self) -> bool {
        self@.wf()
    }

    /// Sets out on a plan.
    pub fn begin(plan: &TransferPlan) -> (t: Transfer)
        ensures
            t@ == started(plan@),
            t@.wf(),
    {
        let skip: u64 = match plan.exchange {
            Exchange::ResumedFull => plan.resume_offset,
            _ => 0,
        };
        Transfer {
            resume_offset: plan.resume_offset,
            skip,
            appended: 0,
            total_size: plan.total_size,
            stage: Stage::AwaitFlag,
        }
    }

    /// The action that the transfer waits on.
    pub fn pending(&self) -> (action: Action)
        ensures
            action == awaited(self@.stage),
    {
        match self.stage {
            Stage::AwaitFlag => Action::CheckFlag,
            Stage::AwaitChunk => Action::Read { capacity: CHUNK_SIZE },
            Stage::AwaitWrite { from, len } => Action::Append { from, len },
            Stage::Done(ending) => Action::Stop(ending),
        }
    }

    /// Takes in an event and says what to do next.
    pub fn step(&mut self, event: Event) -> (action: Action)
        ensures
            final(self)@ == next(old(self)@, event),
            final(self)@.wf(),
            action == awaited(final(self)@.stage),
    {
        proof {
            use_type_invariant(&*self);
        }
        match (self.stage, event) {
            (Stage::AwaitFlag, Event::Flag(raised)) => {
                if raised {
                    self.stage = Stage::Done(Ending::Paused);
                } else {
                    self.stage = Stage::AwaitChunk;
                }
            },
            (Stage::AwaitChunk, Event::Chunk(n)) => {
                if n == 0 {
                    self.stage = Stage::Done(Ending::Completed);
                } else if n as u64 <= self.skip {
                    self.skip = self.skip - n as u64;
                    self.stage = Stage::AwaitFlag;
                } else {
                    let len: u64 = n as u64 - self.skip;
                    if len > u64::MAX - self.resume_offset - self.appended {
                        self.stage = Stage::Done(Ending::Failed(Fault::LengthLimit));
                    } else {
                        *self = Transfer {
                            skip: 0,
                            stage: Stage::AwaitWrite { from: self.skip as usize, len: len as usize },
                            ..*self
                        };
                    }
                }
            },
            (Stage::AwaitChunk, Event::ReadFailed) => {
                self.stage = Stage::Done(Ending::Failed(Fault::Read));
            },
            (Stage::AwaitWrite { from, len }, Event::Written) => {
                *self = Transfer {
                    appended: self.appended + len as u64,
                    stage: Stage::AwaitFlag,
                    ..*self
                };
            },
            (Stage::AwaitWrite { from, len }, Event::WriteFailed) => {
                self.stage = Stage::Done(Ending::Failed(Fault::Write));
            },
            _ => {},
        }
        self.pending()
    }

    /// The stage the transfer is in.
    pub fn stage(&self) -> (stage: Stage)
        ensures
            stage == self@.stage,
    {
        self.stage
    }

    /// How the transfer ended, once it has.
    pub fn ending(&self) -> (ending: Option<Ending>)
        ensures
            ending == (match self@.stage {
                Stage::Done(e) => Some(e),
                _ => None,
            }),
    {
        match self.stage {
            Stage::Done(e) => Some(e),
            _ => None,
        }
    }

    /// The length of the file: what it held at the start and what has been
    /// appended since.
    pub fn position(&self) -> (length: u64)
        ensures
            length == self@.position(),
            length == self@.resume_offset + self@.appended,
    {
        proof {
            use_type_invariant(self);
        }
        self.resume_offset + self.appended
    }

    /// The figures for the progress display.
    pub fn progress(&self) -> (p: TransferProgress)
        ensures
            p.bytes_this_session == self@.appended,
            p.total_size == self@.total_size,
    {
        TransferProgress { bytes_this_session: self.appended, total_size: self.total_size }
    }
}

} // verus!
