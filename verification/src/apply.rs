//! Applying a palette across the configured targets: the targets are
//! processed strictly in declared order, one at a time, and a failure in
//! one target's pipeline is recorded against that target alone — the
//! session always advances to the next target.  When the pass is over, the
//! configuration's active palette is updated whatever the per-target
//! outcomes were.

use vstd::prelude::*;
use vstd::string::*;

use crate::config::{Config, Target};
use crate::errors::TargetError;

verus! {

/// What one target's pipeline ended in: its name, and the error when it
/// failed.
#[derive(Debug, Clone)]
pub struct TargetOutcome {
    pub name: String,
    pub error: Option<TargetError>,
}

/// One pass over the configured targets.
#[derive(Debug, Clone)]
pub struct ApplySession {
    pub targets: Vec<Target>,
    pub theme: String,
    pub idx: usize,
    pub outcomes: Vec<TargetOutcome>,
}

/// The outcome list after recording the current target's outcome: the
/// outcome is appended under the target's name — by the same step whether
/// the target failed or succeeded.
pub open spec fn spec_recorded_outcomes(s: ApplySession, error: Option<TargetError>) -> Seq<
    TargetOutcome,
> {
    s.outcomes@.push(TargetOutcome { name: s.targets@[s.idx as int].name, error })
}

impl ApplySession {
    /// The session is between targets: every target before `idx` has its
    /// outcome, in order, under its own name.
    pub open spec fn wf(self) -> bool {
        &&& self.idx <= self.targets@.len()
        &&& self.outcomes@.len() == self.idx
        &&& forall|i: int|
            0 <= i < self.idx ==> #[trigger] self.outcomes@[i].name@ == self.targets@[i].name@
    }

    /// Starts a pass over `targets` with the theme name used for reload
    /// commands.
    pub fn new(targets: Vec<Target>, theme: String) -> (r: ApplySession)
        ensures
            r.wf(),
            r.targets == targets,
            r.theme == theme,
            r.idx == 0,
            r.outcomes@.len() == 0,
    {
        ApplySession { targets, theme, idx: 0, outcomes: Vec::new() }
    }

    /// The target to process next, if any target is left.
    pub fn current(&self) -> (r: Option<&Target>)
        ensures
            self.idx < self.targets@.len() ==> (r matches Some(t) && *t == self.targets@[self.idx as int]),
            self.idx >= self.targets@.len() ==> r is None,
    {
        if self.idx < self.targets.len() {
            Some(&self.targets[self.idx])
        } else {
            None
        }
    }

    /// Records the current target's outcome and advances.  Whether `error`
    /// is present or not, the step is the same: the failure of one target
    /// never stops the targets after it.
    pub fn record(&mut self, error: Option<TargetError>)
        requires
            old(self).wf(),
            old(self).idx < old(self).targets@.len(),
        ensures
            final(self).wf(),
            final(self).idx == old(self).idx + 1,
            final(self).targets == old(self).targets,
            final(self).theme == old(self).theme,
            final(self).outcomes@ == spec_recorded_outcomes(*old(self), error),
    {
        let n = self.targets.len();
        assert(self.idx < n);
        let name = self.targets[self.idx].name.clone();
        self.outcomes.push(TargetOutcome { name, error });
        self.idx = self.idx + 1;
    }

    /// Whether every target has been processed.
    pub fn done(&self) -> (r: bool)
        ensures
            r == (self.idx == self.targets@.len()),
    {
        self.idx == self.targets.len()
    }

    /// The number of targets that failed so far.
    pub fn failure_count(&self) -> (r: usize)
        ensures
            r as int == self.outcomes@.filter(|o: TargetOutcome| o.error is Some).len(),
    {
        let mut n: usize = 0;
        let mut i: usize = 0;
        proof {
            assert(self.outcomes@.take(0).filter(|o: TargetOutcome| o.error is Some) =~= Seq::<
                TargetOutcome,
            >::empty());
        }
        while i < self.outcomes.len()
            invariant
                i <= self.outcomes@.len(),
                n as int == self.outcomes@.take(i as int).filter(
                    |o: TargetOutcome| o.error is Some,
                ).len(),
                n <= i,
            decreases self.outcomes@.len() - i,
        {
            proof {
                assert(self.outcomes@.take(i + 1).drop_last() =~= self.outcomes@.take(i as int));
                reveal_with_fuel(Seq::filter, 2);
            }
            if self.outcomes[i].error.is_some() {
                n = n + 1;
            }
            i = i + 1;
        }
        proof {
            assert(self.outcomes@.take(self.outcomes@.len() as int) =~= self.outcomes@);
        }
        n
    }
}

/// Law: failure isolation.  Recording a failed target and recording a
/// successful one advance the session identically: each appends one
/// outcome under the current target's name, leaves every earlier outcome
/// as it was, and never touches the targets still to come — only the
/// recorded error differs.
pub proof fn lemma_failure_isolation(s: ApplySession, e: TargetError)
    requires
        s.wf(),
        s.idx < s.targets@.len(),
    ensures
        spec_recorded_outcomes(s, Some(e)).len() == spec_recorded_outcomes(s, None).len(),
        forall|i: int|
            0 <= i < s.outcomes@.len() ==> spec_recorded_outcomes(s, Some(e))[i]
                == spec_recorded_outcomes(s, None)[i],
        spec_recorded_outcomes(s, Some(e)).last().name@ == s.targets@[s.idx as int].name@,
        spec_recorded_outcomes(s, None).last().name@ == s.targets@[s.idx as int].name@,
        spec_recorded_outcomes(s, Some(e)).last().error == Some(e),
        spec_recorded_outcomes(s, None).last().error is None,
{
}

/// The configuration to persist after a completed pass: the targets as
/// they were, the active palette set to the applied palette's name — on
/// every completed pass, whatever the per-target outcomes were.
pub fn updated_config(config: Config, palette_name: &str) -> (r: Config)
    ensures
        r.targets == config.targets,
        r.active_palette@ == palette_name@,
{
    let mut name = String::new();
    name.append(palette_name);
    assert(name@ =~= palette_name@);
    Config { active_palette: name, targets: config.targets }
}

} // verus!
