//! The call that builds a block.

use vstd::prelude::*;

use super::Vm;
use crate::block::{Binding, Block, NewBlock, NewBlockView};
use crate::choices::{Status, StatusView};
use crate::errors::Error;
use crate::ids::Id;

verus! {

/// A call that builds a block on the preferred one.
#[derive(Debug, PartialEq, Eq)]
pub enum BuildBlock<P> {
    /// Waits for the block that the state manager has stored under the identifier.
    ReadParent { id: Id },
    /// Waits for a block made from this.
    Make { content: NewBlock },
    /// Waits until this block was verified, with the machine's own state manager
    /// attached to it.
    Verify { block: Block<P> },
    /// Has come to an end.
    Finished(Result<Block<P>, Error>),
}

/// What a [`BuildBlock`] waits for.
#[derive(Debug, PartialEq, Eq)]
pub enum BuildEvent<P> {
    /// The parent was read.
    ParentRead(Block<P>),
    /// The block was made.
    Made(Block<P>),
    /// The block was verified, and found good.
    Verified,
}

/// A count of seconds since the Unix epoch as an unsigned number: a moment before
/// the epoch wraps around.
pub open spec fn wrapped_seconds(seconds: int) -> int {
    if seconds >= 0 {
        seconds
    } else {
        seconds + 0x1_0000_0000_0000_0000
    }
}

/// What a block is made from that is built on `parent` at the time `now`: it holds
/// no data and is not decided yet.
pub open spec fn child<P>(parent: Block<P>, now: i64) -> NewBlockView {
    NewBlockView {
        parent_id: parent.id@,
        height: parent.height + 1,
        timestamp: wrapped_seconds(now as int),
        data: Seq::empty(),
        status: StatusView::Processing,
    }
}

/// The count of seconds since the Unix epoch is that of a moment which a
/// `chrono::DateTime` can express: from the start of the year -262143 to the end of
/// the year 262142.
pub open spec fn is_moment(seconds: int) -> bool {
    -8_334_601_228_800 <= seconds <= 8_210_266_876_799
}

/// Converts a count of seconds since the Unix epoch to an unsigned number.
pub fn unix_seconds(seconds: i64) -> (unsigned: u64)
    ensures
        unsigned == wrapped_seconds(seconds as int),
{
    assert(seconds < 0 ==> seconds as u64 == seconds + 0x1_0000_0000_0000_0000) by (bit_vector);
    #[verifier::truncate]
    let unsigned: u64 = seconds as u64;
    unsigned
}

/// Calls `chrono::Utc::now` and `chrono::DateTime::timestamp`: the seconds from the
/// Unix epoch to the present. Trusted: they lie among the moments that a
/// `chrono::DateTime` can express. Which of these it is depends on the clock of the
/// machine. On a clock that is set before the epoch, or beyond those moments, the
/// call panics.
#[verifier::external_body]
fn unix_now() -> (seconds: i64)
    ensures
        is_moment(seconds as int),
{
    chrono::Utc::now().timestamp()
}

/// The clock has given this count of seconds: it is a result of [`unix_now`]. Of no
/// number can this be shown but by a call of that function.
pub closed spec fn is_clock_reading(seconds: i64) -> bool {
    call_ensures(unix_now, (), seconds)
}

/// Only what [`unix_now`] has returned is a reading of the clock.
proof fn readings_come_from_the_clock(seconds: i64)
    requires
        is_clock_reading(seconds),
    ensures
        call_ensures(unix_now, (), seconds),
        is_moment(seconds as int),
{
}

impl<P> BuildBlock<P> {
    /// The call on a machine that prefers the block `preferred`, with or without a
    /// state manager.
    pub open spec fn started(has_state: bool, preferred: Id) -> Self {
        if has_state {
            BuildBlock::ReadParent { id: preferred }
        } else {
            BuildBlock::Finished(Err(Error::BuildBlock))
        }
    }

    /// The call waits for this event. A parent at the largest height there is has
    /// no child.
    pub open spec fn awaits(self, event: BuildEvent<P>) -> bool {
        match event {
            BuildEvent::ParentRead(parent) => self is ReadParent && parent.height < u64::MAX,
            BuildEvent::Made(_) => self is Make,
            BuildEvent::Verified => self is Verify,
        }
    }

    /// At the time `now`, an event that the call waits for takes it to `next`. The
    /// machine's own state manager is attached to the block before it is verified, and
    /// the block that was verified is the one returned.
    pub open spec fn steps_to(self, event: BuildEvent<P>, now: i64, next: Self) -> bool {
        match (self, event) {
            (BuildBlock::ReadParent { .. }, BuildEvent::ParentRead(parent)) => {
                next matches BuildBlock::Make { content } && content@ == child(parent, now)
            },
            (BuildBlock::Make { .. }, BuildEvent::Made(made)) => next == BuildBlock::Verify {
                block: Block { binding: Binding::State, ..made },
            },
            (BuildBlock::Verify { block }, BuildEvent::Verified) => next
                == BuildBlock::<P>::Finished(Ok(block)),
            _ => false,
        }
    }

    /// How many events the call can still take.
    pub open spec fn steps_left(self) -> nat {
        match self {
            BuildBlock::ReadParent { .. } => 3,
            BuildBlock::Make { .. } => 2,
            BuildBlock::Verify { .. } => 1,
            BuildBlock::Finished(_) => 0,
        }
    }

    /// Hands the call an event that it waits for, at the time `now`.
    pub fn resume_at(self, event: BuildEvent<P>, now: i64) -> (call: Self)
        requires
            self.awaits(event),
        ensures
            self.steps_to(event, now, call),
            call.steps_left() < self.steps_left(),
    {
        match (self, event) {
            (BuildBlock::ReadParent { .. }, BuildEvent::ParentRead(parent)) => {
                let content = NewBlock {
                    parent_id: parent.id,
                    height: parent.height + 1,
                    timestamp: unix_seconds(now),
                    data: Vec::new(),
                    status: Status::Processing,
                };
                assert(content@.data =~= Seq::<u8>::empty());
                BuildBlock::Make { content }
            },
            (BuildBlock::Make { .. }, BuildEvent::Made(made)) => {
                let mut block = made;
                block.set_state(Binding::State);
                BuildBlock::Verify { block }
            },
            (BuildBlock::Verify { block }, BuildEvent::Verified) => BuildBlock::Finished(Ok(block)),
            (call, _) => call,
        }
    }

    /// Hands the call an event that it waits for, now. A block on a parent that was
    /// just read carries the present time, as the clock has given it in this call.
    pub fn resume(self, event: BuildEvent<P>) -> (call: Self)
        requires
            self.awaits(event),
        ensures
            exists|now: i64|
                is_moment(now as int) && #[trigger] self.steps_to(event, now, call),
            event is ParentRead ==> exists|now: i64|
                is_clock_reading(now) && is_moment(now as int) && #[trigger] self.steps_to(
                    event,
                    now,
                    call,
                ),
            call.steps_left() < self.steps_left(),
    {
        let now: i64 = match &event {
            BuildEvent::ParentRead(_) => unix_now(),
            _ => 0,
        };
        self.resume_at(event, now)
    }
}

impl<C, S> Vm<C, S> {
    /// Asks for a block on the preferred one.
    pub fn build_block<P>(&self) -> (call: BuildBlock<P>)
        ensures
            call == BuildBlock::<P>::started(self.state.state is Some, self.state.preferred),
    {
        if let Some(_) = &self.state.state {
            return BuildBlock::ReadParent { id: self.state.preferred };
        }
        BuildBlock::Finished(Err(Error::BuildBlock))
    }
}

} // verus!
