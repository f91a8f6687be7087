//! Resolution of a copyset's target specs into concrete watch plans.
//!
//! For each target spec, the resolver composes the absolute source and
//! target paths, picks the effective event mask (the spec's override when
//! present, else the copyset's default), and decides whether an initial
//! reconciliation copy is owed: exactly when the source is currently a
//! regular file and the target does not exist. The filesystem facts come in
//! as plain booleans; the caller checks them and carries out the plan.

use vstd::prelude::*;

verus! {

use crate::config::Copyset;
use crate::config::TargetSpec;
use crate::events::NotifyEvent;
use crate::events::mask_of;
use crate::events::mask_of_events;
use crate::pathstr::path_join;
use crate::pathstr::join_path;

/// A resolved (source, target) pair: one reconciliation copy reads the whole
/// source file and writes it to the target path.
#[derive(Debug)]
pub struct ResolvedTarget {
    pub source: String,
    pub target: String,
}

impl ResolvedTarget {
    /// Pairs an absolute source path with an absolute target path.
    pub fn new(source: String, target: String) -> (r: Self)
        ensures
            r.source == source,
            r.target == target,
    {
        ResolvedTarget { source, target }
    }
}

/// The relative target path of a spec: the configured one, or the relative
/// source path when none is configured.
pub open spec fn spec_target_rel(ts: TargetSpec) -> Seq<char> {
    match ts.target {
        Some(t) => t@,
        None => ts.source@,
    }
}

/// The event kinds in force for a spec: its override when present, else the
/// owning copyset's default kinds.
pub open spec fn spec_effective_events(cs: Copyset, ts: TargetSpec) -> Seq<NotifyEvent> {
    match ts.events {
        Some(es) => es@,
        None => cs.events@,
    }
}

/// What setup does for one target spec, as a value: the two composed paths,
/// the mask registered for the watch, and whether an initial copy is owed.
pub ghost struct PlanModel {
    pub source: Seq<char>,
    pub target: Seq<char>,
    pub mask: u32,
    pub copy_first: bool,
}

/// The plan for one target spec of a copyset, given whether the composed
/// source path is currently a regular file and whether the composed target
/// path currently exists.
pub open spec fn plan_model(
    cs: Copyset,
    ts: TargetSpec,
    source_is_file: bool,
    target_exists: bool,
) -> PlanModel {
    PlanModel {
        source: path_join(cs.source@, ts.source@),
        target: path_join(cs.target@, spec_target_rel(ts)),
        mask: mask_of(spec_effective_events(cs, ts)),
        copy_first: source_is_file && !target_exists,
    }
}

/// The executable plan for one target spec.
#[derive(Debug)]
pub struct WatchPlan {
    pub resolved: ResolvedTarget,
    pub mask: u32,
    pub copy_first: bool,
}

impl View for WatchPlan {
    type V = PlanModel;

    open spec fn view(&self) -> PlanModel {
        PlanModel {
            source: self.resolved.source@,
            target: self.resolved.target@,
            mask: self.mask,
            copy_first: self.copy_first,
        }
    }
}

impl Copyset {
    /// The absolute source path of a spec: the copyset's source base
    /// composed with the spec's relative source path.
    pub fn resolve_source(&self, ts: &TargetSpec) -> (r: String)
        ensures
            r@ == path_join(self.source@, ts.source@),
    {
        join_path(self.source.as_str(), ts.source.as_str())
    }

    /// The absolute target path of a spec: the copyset's target base
    /// composed with the spec's relative target path, or with its relative
    /// source path when no target path is configured.
    pub fn resolve_target(&self, ts: &TargetSpec) -> (r: String)
        ensures
            r@ == path_join(self.target@, spec_target_rel(*ts)),
    {
        match &ts.target {
            Some(t) => join_path(self.target.as_str(), t.as_str()),
            None => join_path(self.target.as_str(), ts.source.as_str()),
        }
    }

    /// The mask registered for a spec's watch: the union of its override
    /// kinds when it has any, else of the copyset's default kinds.
    pub fn effective_mask(&self, ts: &TargetSpec) -> (r: u32)
        ensures
            r == mask_of(spec_effective_events(*self, *ts)),
    {
        match &ts.events {
            Some(es) => mask_of_events(es),
            None => mask_of_events(&self.events),
        }
    }

    /// Everything setup decides for one target spec, given the two
    /// filesystem facts it depends on.
    pub fn plan_target(&self, ts: &TargetSpec, source_is_file: bool, target_exists: bool) -> (p:
        WatchPlan)
        ensures
            p@ == plan_model(*self, *ts, source_is_file, target_exists),
    {
        let source = self.resolve_source(ts);
        let target = self.resolve_target(ts);
        let mask = self.effective_mask(ts);
        WatchPlan {
            resolved: ResolvedTarget::new(source, target),
            mask,
            copy_first: needs_initial_copy(source_is_file, target_exists),
        }
    }
}

/// Whether an initial reconciliation copy is owed: exactly when the source
/// is currently a regular file and the target does not exist.
pub fn needs_initial_copy(source_is_file: bool, target_exists: bool) -> (r: bool)
    ensures
        r == (source_is_file && !target_exists),
{
    source_is_file && !target_exists
}

/// What an existence check that may have failed comes to: the target counts
/// as existing only when the check succeeded and said so. A failed check
/// (`None`) degrades to "does not exist" — logged by the caller, never
/// fatal — so a transient anomaly cannot block startup; a missing watch
/// would cost more than a spurious copy.
pub fn exists_check_outcome(check: Option<bool>) -> (r: bool)
    ensures
        r == (check == Some(true)),
{
    match check {
        Some(exists) => exists,
        None => false,
    }
}

/// A spec with an event override is watched with exactly the override's
/// mask; a spec without one is watched with exactly the copyset's default
/// mask.
pub proof fn lemma_override_mask(cs: Copyset, ts: TargetSpec, source_is_file: bool, target_exists: bool)
    ensures
        (ts.events matches Some(es) ==> plan_model(cs, ts, source_is_file, target_exists).mask
            == mask_of(es@)),
        ts.events is None ==> plan_model(cs, ts, source_is_file, target_exists).mask == mask_of(
            cs.events@,
        ),
{
}

/// A spec without a configured target path mirrors the source's relative
/// layout: its resolved target is the target base composed with the spec's
/// relative source path.
pub proof fn lemma_absent_target_mirrors_source(
    cs: Copyset,
    ts: TargetSpec,
    source_is_file: bool,
    target_exists: bool,
)
    requires
        ts.target is None,
    ensures
        plan_model(cs, ts, source_is_file, target_exists).target == path_join(
            cs.target@,
            ts.source@,
        ),
{
}

/// Setup is idempotent on an already-reconciled filesystem: when the target
/// already exists, no initial copy is planned, whatever else holds.
pub proof fn lemma_existing_target_not_copied(cs: Copyset, ts: TargetSpec, source_is_file: bool)
    ensures
        !plan_model(cs, ts, source_is_file, true).copy_first,
{
}

/// A present source file with an absent target is reconciled: the plan owes
/// the one initial copy, which the caller performs before registering the
/// spec's watch.
pub proof fn lemma_missing_target_copied(cs: Copyset, ts: TargetSpec)
    ensures
        plan_model(cs, ts, true, false).copy_first,
{
}

} // verus!
