//! Adding memory to a trust domain before it runs.
//!
//! A region is first mapped, which copies its contents into the trust domain. A mapping that was
//! interrupted is tried again, as often as it takes. Where asked for, the contents are then added
//! to the measurement of the trust domain.

use vstd::prelude::*;

use crate::cmd::{outcome, TdxError};

verus! {

/// The error number of a call that a signal interrupted.
pub const EINTR: i32 = 4;

/// The error number of a call that should be tried again.
pub const EAGAIN: i32 = 11;

/// A range of guest pages, and where the contents come from.
#[derive(Clone, Copy, Debug, PartialEq, Eq)]
pub struct MemoryMapping {
    /// The number of the first guest page.
    pub base_gf: u64,
    /// The number of pages.
    pub nr_pages: u64,
    pub flags: u64,
    /// The host virtual address of the contents.
    pub source: u64,
}

/// How far a region has got.
#[derive(Clone, Copy, Debug, PartialEq, Eq)]
pub enum MemRegionPhase {
    /// The region is to be mapped, for the first time or again.
    Mapping,
    /// The region is mapped and is to be measured.
    Extending,
    /// All is done.
    Finished,
    /// A call failed.
    Failed(TdxError),
}

/// What is to be done next.
#[derive(Clone, Copy, Debug, PartialEq, Eq)]
pub enum MemRegionAction {
    /// Map these pages.
    MapMemory(MemoryMapping),
    /// Add these pages to the measurement.
    ExtendMeasurement(MemoryMapping),
    /// Return.
    Return(Result<(), TdxError>),
}

/// A region on its way into a trust domain.
#[derive(Clone, Copy, Debug, PartialEq, Eq)]
pub struct MemRegion {
    pub mapping: MemoryMapping,
    pub extend: bool,
    pub phase: MemRegionPhase,
}

/// Whether a failed mapping is tried again.
pub open spec fn is_transient(code: i32) -> bool {
    code == EINTR || code == EAGAIN
}

impl MemRegion {
    /// A region is measured only if that was asked for.
    pub open spec fn wf(self) -> bool {
        self.phase is Extending ==> self.extend
    }

    /// All calls for the region have been made.
    pub open spec fn is_over(self) -> bool {
        self.phase is Finished || self.phase is Failed
    }

    /// A region of `nr_pages` pages from the guest physical address `gpa` on, with the contents at
    /// `source`, before anything has been done.
    pub open spec fn starting(source: u64, gpa: u64, nr_pages: u64, extend: bool) -> MemRegion {
        MemRegion {
            mapping: MemoryMapping { base_gf: gpa / 4096, nr_pages, flags: 0, source },
            extend,
            phase: MemRegionPhase::Mapping,
        }
    }

    /// What is to be done next. A region that is measured is named by its pages alone.
    pub open spec fn next_action(self) -> MemRegionAction {
        match self.phase {
            MemRegionPhase::Mapping => MemRegionAction::MapMemory(self.mapping),
            MemRegionPhase::Extending => MemRegionAction::ExtendMeasurement(
                MemoryMapping { source: 0, flags: 0, ..self.mapping },
            ),
            MemRegionPhase::Finished => MemRegionAction::Return(Ok(())),
            MemRegionPhase::Failed(e) => MemRegionAction::Return(Err(e)),
        }
    }

    /// The region after the call that was due has been answered.
    pub open spec fn after(self, reply: Result<(), i32>) -> MemRegion {
        let phase = match (self.phase, reply) {
            (MemRegionPhase::Mapping, Ok(_)) => if self.extend {
                MemRegionPhase::Extending
            } else {
                MemRegionPhase::Finished
            },
            (MemRegionPhase::Mapping, Err(code)) => if is_transient(code) {
                MemRegionPhase::Mapping
            } else {
                MemRegionPhase::Failed(TdxError { code })
            },
            (MemRegionPhase::Extending, Ok(_)) => MemRegionPhase::Finished,
            (MemRegionPhase::Extending, Err(code)) => MemRegionPhase::Failed(TdxError { code }),
            (phase, _) => phase,
        };
        MemRegion { phase, ..self }
    }

    /// The region after a series of replies.
    pub open spec fn after_all(self, replies: Seq<Result<(), i32>>) -> MemRegion
        decreases replies.len(),
    {
        if replies.len() == 0 {
            self
        } else {
            self.after_all(replies.drop_last()).after(replies.last())
        }
    }

    /// A region before anything has been done.
    pub fn start(source: u64, gpa: u64, nr_pages: u64, extend: bool) -> (r: MemRegion)
        ensures
            r == Self::starting(source, gpa, nr_pages, extend),
            r.wf(),
    {
        assert(gpa >> 12u64 == gpa / 4096) by (bit_vector);
        MemRegion {
            mapping: MemoryMapping { base_gf: gpa >> 12u64, nr_pages, flags: 0, source },
            extend,
            phase: MemRegionPhase::Mapping,
        }
    }

    /// What is to be done next.
    pub fn action(&self) -> (r: MemRegionAction)
        ensures
            r == self.next_action(),
    {
        match self.phase {
            MemRegionPhase::Mapping => MemRegionAction::MapMemory(self.mapping),
            MemRegionPhase::Extending => MemRegionAction::ExtendMeasurement(
                MemoryMapping {
                    base_gf: self.mapping.base_gf,
                    nr_pages: self.mapping.nr_pages,
                    flags: 0,
                    source: 0,
                },
            ),
            MemRegionPhase::Finished => MemRegionAction::Return(Ok(())),
            MemRegionPhase::Failed(e) => MemRegionAction::Return(Err(e)),
        }
    }

    /// Takes the reply to the call that was due. A region that is over stays as it is.
    pub fn step(&mut self, reply: Result<(), i32>)
        ensures
            *final(self) == old(self).after(reply),
            old(self).wf() ==> final(self).wf(),
    {
        match self.phase {
            MemRegionPhase::Mapping => {
                match reply {
                    Ok(_) => {
                        if self.extend {
                            self.phase = MemRegionPhase::Extending;
                        } else {
                            self.phase = MemRegionPhase::Finished;
                        }
                    },
                    Err(code) => {
                        if !(code == EINTR || code == EAGAIN) {
                            self.phase = MemRegionPhase::Failed(TdxError::from(code));
                        }
                    },
                }
            },
            MemRegionPhase::Extending => {
                match reply {
                    Ok(_) => {
                        self.phase = MemRegionPhase::Finished;
                    },
                    Err(code) => {
                        self.phase = MemRegionPhase::Failed(TdxError::from(code));
                    },
                }
            },
            _ => {},
        }
    }
}

/// The reply says that the mapping should be tried again.
pub open spec fn is_retry(reply: Result<(), i32>) -> bool {
    reply matches Err(code) && is_transient(code)
}

/// However often a mapping is interrupted, the very same mapping is tried again.
pub proof fn law_interruptions_change_nothing(region: MemRegion, replies: Seq<Result<(), i32>>)
    requires
        region.phase is Mapping,
        forall|i: int| 0 <= i < replies.len() ==> is_retry(#[trigger] replies[i]),
    ensures
        region.after_all(replies) == region,
        region.after_all(replies).next_action() == MemRegionAction::MapMemory(region.mapping),
    decreases replies.len(),
{
    if replies.len() > 0 {
        assert forall|i: int| 0 <= i < replies.drop_last().len() implies is_retry(
            #[trigger] replies.drop_last()[i],
        ) by {
            assert(replies.drop_last()[i] == replies[i]);
        }
        law_interruptions_change_nothing(region, replies.drop_last());
        assert(is_retry(replies[replies.len() - 1]));
    }
}

/// After any number of interruptions, the first other reply decides: a failure is returned, and a
/// success is returned too unless the region is to be measured. If it is, its pages are measured
/// next, and the reply to that is returned, interrupted or not.
pub proof fn law_first_lasting_reply_decides(
    region: MemRegion,
    retries: Seq<Result<(), i32>>,
    mapped: Result<(), i32>,
    measured: Result<(), i32>,
)
    requires
        region.phase is Mapping,
        forall|i: int| 0 <= i < retries.len() ==> is_retry(#[trigger] retries[i]),
        !is_retry(mapped),
    ensures
        mapped is Ok && region.extend ==> {
            &&& region.after_all(retries.push(mapped)).next_action()
                == MemRegionAction::ExtendMeasurement(
                MemoryMapping { source: 0, flags: 0, ..region.mapping },
            )
            &&& region.after_all(retries.push(mapped).push(measured)).next_action()
                == MemRegionAction::Return(outcome(measured))
        },
        mapped is Err || !region.extend ==> region.after_all(retries.push(mapped)).next_action()
            == MemRegionAction::Return(outcome(mapped)),
{
    law_interruptions_change_nothing(region, retries);
    let once = retries.push(mapped);
    let twice = once.push(measured);
    assert(once.drop_last() =~= retries);
    assert(twice.drop_last() =~= once);
    assert(region.after_all(once) == region.after(mapped));
    assert(region.after_all(twice) == region.after(mapped).after(measured));
}

/// Once a region is done or has failed, it stays so, and the same result is returned.
pub proof fn law_nothing_follows_the_end(region: MemRegion, replies: Seq<Result<(), i32>>)
    requires
        region.is_over(),
    ensures
        region.after_all(replies) == region,
        region.next_action() is Return,
    decreases replies.len(),
{
    if replies.len() > 0 {
        law_nothing_follows_the_end(region, replies.drop_last());
    }
}

/// No region is measured, or reported as done, unless mapping it has succeeded, and none is
/// measured that was not to be.
pub proof fn law_nothing_is_measured_before_it_is_mapped(
    region: MemRegion,
    replies: Seq<Result<(), i32>>,
)
    requires
        region.phase is Mapping,
    ensures
        region.after_all(replies).phase is Extending || region.after_all(replies).phase is Finished
            ==> exists|i: int| 0 <= i < replies.len() && #[trigger] replies[i] is Ok,
        region.after_all(replies).phase is Extending ==> region.extend,
        region.after_all(replies).mapping == region.mapping,
        region.after_all(replies).extend == region.extend,
    decreases replies.len(),
{
    if replies.len() > 0 {
        let earlier = replies.drop_last();
        law_nothing_is_measured_before_it_is_mapped(region, earlier);
        let before = region.after_all(earlier);
        if before.phase is Mapping {
            assert(replies[replies.len() - 1] == replies.last());
        } else if before.phase is Extending || before.phase is Finished {
            let i = choose|i: int| 0 <= i < earlier.len() && #[trigger] earlier[i] is Ok;
            assert(replies[i] == earlier[i]);
        }
    }
}

/// A region of any size is measured, or its success returned, only after the very pages that were
/// asked for have been mapped: one of the calls was to map them, with their contents, and it was
/// answered with success.
pub proof fn law_success_takes_a_mapping(
    source: u64,
    gpa: u64,
    nr_pages: u64,
    extend: bool,
    replies: Seq<Result<(), i32>>,
)
    ensures
        ({
            let region = MemRegion::starting(source, gpa, nr_pages, extend);
            let action = region.after_all(replies).next_action();
            action is ExtendMeasurement || action == MemRegionAction::Return(Ok(())) ==> exists|i: int|
                0 <= i < replies.len() && #[trigger] replies[i] is Ok && region.after_all(
                    replies.take(i),
                ).next_action() == MemRegionAction::MapMemory(
                    MemoryMapping { base_gf: gpa / 4096, nr_pages, flags: 0, source },
                )
        }),
    decreases replies.len(),
{
    let region = MemRegion::starting(source, gpa, nr_pages, extend);
    let pages = MemoryMapping { base_gf: gpa / 4096, nr_pages, flags: 0, source };
    let action = region.after_all(replies).next_action();
    if replies.len() > 0 && (action is ExtendMeasurement || action == MemRegionAction::Return(
        Ok(()),
    )) {
        let earlier = replies.drop_last();
        let last = replies.len() - 1;
        law_success_takes_a_mapping(source, gpa, nr_pages, extend, earlier);
        law_nothing_is_measured_before_it_is_mapped(region, earlier);
        assert(replies.take(last) =~= earlier);
        if region.after_all(earlier).phase is Mapping {
            assert(replies[last] is Ok);
        } else {
            let i = choose|i: int|
                0 <= i < earlier.len() && #[trigger] earlier[i] is Ok && region.after_all(
                    earlier.take(i),
                ).next_action() == MemRegionAction::MapMemory(pages);
            assert(replies.take(i) =~= earlier.take(i));
            assert(replies[i] == earlier[i]);
        }
    }
}

} // verus!
