//! Sequencing of one configuration entry: the pre-phase hooks run first,
//! then every link is processed, then the post-phase hooks run.  A failure
//! at any point abandons the entry where it stands — nothing later runs,
//! and nothing already done is rolled back.
//!
//! The same machine serves setup, with the presetup and postsetup hook
//! phases around link application, and teardown, with the preteardown and
//! postteardown phases in the same positions around link removal.  The
//! caller performs each step and reports whether it succeeded; this module
//! decides what comes next.

use vstd::prelude::*;

verus! {

/// The stages one configuration entry passes through.
#[derive(Debug, Clone, Copy, PartialEq, Eq, Structural)]
pub enum EntryStage {
    /// Nothing has run yet.
    NotStarted,
    /// The pre-phase hooks have succeeded.
    HooksPre,
    /// Every link of the entry has been processed.
    LinksProcessed,
    /// The post-phase hooks have succeeded.
    HooksPost,
    /// The entry is complete.
    Done,
    /// A transition failed; the entry was abandoned where it stood.
    Failed,
}

/// What the caller is to do next for an entry.
#[derive(Debug, Clone, Copy, PartialEq, Eq, Structural)]
pub enum EntryStep {
    /// Run the hooks of the pre phase, in declared order.
    RunPreHooks,
    /// Resolve and process every link of the entry, in declared order.
    ProcessLinks,
    /// Run the hooks of the post phase, in declared order.
    RunPostHooks,
    /// There is nothing more to do for this entry.
    Finished,
}

/// The step each stage calls for: hooks of the pre phase first, then the
/// links, then hooks of the post phase; a finished or failed entry asks
/// for nothing.
pub open spec fn spec_step_of(stage: EntryStage) -> EntryStep {
    match stage {
        EntryStage::NotStarted => EntryStep::RunPreHooks,
        EntryStage::HooksPre => EntryStep::ProcessLinks,
        EntryStage::LinksProcessed => EntryStep::RunPostHooks,
        EntryStage::HooksPost => EntryStep::Finished,
        EntryStage::Done => EntryStep::Finished,
        EntryStage::Failed => EntryStep::Finished,
    }
}

/// Where an entry stands after a step was performed: success moves it one
/// stage forward, failure abandons it for good.
pub open spec fn spec_advance(stage: EntryStage, ok: bool) -> EntryStage {
    if !ok {
        EntryStage::Failed
    } else {
        match stage {
            EntryStage::NotStarted => EntryStage::HooksPre,
            EntryStage::HooksPre => EntryStage::LinksProcessed,
            EntryStage::LinksProcessed => EntryStage::HooksPost,
            EntryStage::HooksPost => EntryStage::Done,
            EntryStage::Done => EntryStage::Done,
            EntryStage::Failed => EntryStage::Failed,
        }
    }
}

/// The run of one configuration entry.
#[derive(Debug)]
pub struct EntryRun {
    stage: EntryStage,
}

impl EntryRun {
    /// The stage the entry stands at.
    pub closed spec fn spec_stage(&self) -> EntryStage {
        self.stage
    }

    /// A fresh run: nothing has happened yet.
    pub fn new() -> (r: Self)
        ensures
            r.spec_stage() == EntryStage::NotStarted,
    {
        EntryRun { stage: EntryStage::NotStarted }
    }

    pub fn stage(&self) -> (r: &EntryStage)
        ensures
            *r == self.spec_stage(),
    {
        &self.stage
    }

    /// What to do next, exactly as `spec_step_of` says.
    pub fn next_step(&self) -> (r: EntryStep)
        ensures
            r == spec_step_of(self.spec_stage()),
    {
        match self.stage {
            EntryStage::NotStarted => EntryStep::RunPreHooks,
            EntryStage::HooksPre => EntryStep::ProcessLinks,
            EntryStage::LinksProcessed => EntryStep::RunPostHooks,
            EntryStage::HooksPost => EntryStep::Finished,
            EntryStage::Done => EntryStep::Finished,
            EntryStage::Failed => EntryStep::Finished,
        }
    }

    /// Records whether the current step succeeded, exactly as
    /// `spec_advance` says: success moves the entry forward, failure
    /// abandons it.
    pub fn advance(&mut self, ok: bool)
        ensures
            final(self).spec_stage() == spec_advance(old(self).spec_stage(), ok),
    {
        if !ok {
            self.stage = EntryStage::Failed;
        } else {
            self.stage = match self.stage {
                EntryStage::NotStarted => EntryStage::HooksPre,
                EntryStage::HooksPre => EntryStage::LinksProcessed,
                EntryStage::LinksProcessed => EntryStage::HooksPost,
                EntryStage::HooksPost => EntryStage::Done,
                EntryStage::Done => EntryStage::Done,
                EntryStage::Failed => EntryStage::Failed,
            };
        }
    }
}

/// The links of an entry are processed strictly between the two hook
/// phases: the pre-phase hooks are asked for first, the links only after
/// they succeeded, the post-phase hooks only after every link was
/// processed.
pub proof fn lemma_links_run_between_hook_phases()
    ensures
        spec_step_of(EntryStage::NotStarted) == EntryStep::RunPreHooks,
        spec_step_of(spec_advance(EntryStage::NotStarted, true)) == EntryStep::ProcessLinks,
        spec_step_of(spec_advance(EntryStage::HooksPre, true)) == EntryStep::RunPostHooks,
        spec_step_of(spec_advance(EntryStage::LinksProcessed, true)) == EntryStep::Finished,
{
}

/// A failure at any stage abandons the entry for good: a failed entry asks
/// for nothing more, and it never leaves the failed stage.
pub proof fn lemma_entry_failure_is_final(stage: EntryStage, ok: bool)
    ensures
        spec_step_of(spec_advance(stage, false)) == EntryStep::Finished,
        spec_advance(EntryStage::Failed, ok) == EntryStage::Failed,
{
}

} // verus!
