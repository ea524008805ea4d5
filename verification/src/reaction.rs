//! Stateless trend-based reaction rules and their evaluator. A rule fires at
//! most once per full sampling period, exactly when the history length is a
//! whole multiple of the period: the firing cadence is derived purely from
//! sample count, never from a wall-clock timer, so the evaluator is stateless
//! and replayable from history alone.

use vstd::prelude::*;

use crate::climate_data::{metric_value, spec_metric_value, ClimateData, MetricKind};
use crate::clock::local_hour;
use crate::trend::{get_trend, spec_trend, Trend};

verus! {

/// The fixed cadence at which readings arrive, in seconds.
pub const SAMPLING_INTERVAL_SECS: u64 = 5;

/// A predicate over the most recent reading and the current local hour.
#[derive(Debug, Clone, Copy, PartialEq, Eq, Structural)]
pub enum RulePredicate {
    /// Holds of no reading.
    Never,
    /// The watched metric exceeds a threshold.
    MetricAbove { metric: MetricKind, threshold: i64 },
    /// The watched metric exceeds a threshold and the local hour lies
    /// strictly between the two bounds.
    MetricAboveDuringHours { metric: MetricKind, threshold: i64, after_hour: u32, before_hour: u32 },
}

/// Whether a predicate holds of `data` at local `hour`.
pub open spec fn spec_predicate_holds(p: RulePredicate, data: ClimateData, hour: u32) -> bool {
    match p {
        RulePredicate::Never => false,
        RulePredicate::MetricAbove { metric, threshold } => spec_metric_value(data, metric)
            > threshold,
        RulePredicate::MetricAboveDuringHours { metric, threshold, after_hour, before_hour } => {
            &&& hour > after_hour
            &&& hour < before_hour
            &&& spec_metric_value(data, metric) > threshold
        },
    }
}

/// Evaluates a rule predicate on one reading at local `hour`.
pub fn predicate_holds(p: &RulePredicate, data: &ClimateData, hour: u32) -> (r: bool)
    ensures
        r == spec_predicate_holds(*p, *data, hour),
{
    match p {
        RulePredicate::Never => false,
        RulePredicate::MetricAbove { metric, threshold } => metric_value(data, *metric)
            > *threshold,
        RulePredicate::MetricAboveDuringHours { metric, threshold, after_hour, before_hour } => {
            hour > *after_hour && hour < *before_hour && metric_value(data, *metric) > *threshold
        },
    }
}

/// The secondary automated action a triggered rule asks for.
#[derive(Debug, Clone, Copy, PartialEq, Eq, Structural)]
pub enum ReactionAction {
    /// Read the window-state sensor and suggest closing the blinds if the
    /// window is reported closed.
    CheckWindowSensor,
}

/// A stateless reaction rule: a value extractor, a required trend over a
/// window, an applicability predicate, a forced-override predicate, and the
/// action to run when the rule fires.
#[derive(Debug, Clone, Copy, PartialEq, Eq, Structural)]
pub struct ReactionRule {
    pub metric: MetricKind,
    pub trend: Trend,
    pub window_seconds: u64,
    pub only_if: RulePredicate,
    pub force_run: RulePredicate,
    pub action: ReactionAction,
}

impl ReactionRule {
    /// How many consecutive samples make up one full period of this rule.
    pub open spec fn period_size(&self) -> u64 {
        self.window_seconds / SAMPLING_INTERVAL_SECS
    }

    /// A usable rule covers at least one sampling interval.
    pub open spec fn wf(&self) -> bool {
        self.window_seconds >= SAMPLING_INTERVAL_SECS
    }
}

/// The scalars a rule watches, extracted from each reading of `s`.
pub open spec fn extracted(s: Seq<ClimateData>, metric: MetricKind) -> Seq<i64> {
    s.map_values(|c: ClimateData| spec_metric_value(c, metric))
}

/// Whether a rule fires on the given history at local `hour`:
/// an empty history never fires; a forced override fires immediately;
/// otherwise the applicability predicate must hold of the latest reading,
/// the history must hold at least one full period and be aligned to a whole
/// multiple of it, and the trend over the most recent period must equal the
/// rule's required trend.
pub open spec fn spec_validate(rule: ReactionRule, s: Seq<ClimateData>, hour: u32) -> bool {
    let period = rule.period_size() as int;
    if s.len() == 0 {
        false
    } else if spec_predicate_holds(rule.force_run, s.last(), hour) {
        true
    } else if !spec_predicate_holds(rule.only_if, s.last(), hour) {
        false
    } else if s.len() < period {
        false
    } else if s.len() as int % period != 0 {
        false
    } else {
        spec_trend(extracted(s.skip(s.len() - period), rule.metric)) == rule.trend
    }
}

/// Decides whether `rule` fires on the history `values` at local `hour`.
pub fn validate(rule: &ReactionRule, values: &[ClimateData], hour: u32) -> (r: bool)
    requires
        rule.wf(),
    ensures
        r == spec_validate(*rule, values@, hour),
{
    let len = values.len();
    if len == 0 {
        return false;
    }
    let last = &values[len - 1];
    if predicate_holds(&rule.force_run, last, hour) {
        return true;
    }
    if !predicate_holds(&rule.only_if, last, hour) {
        return false;
    }

    let period = rule.window_seconds / SAMPLING_INTERVAL_SECS;
    if (len as u64) < period {
        return false;
    }
    if (len as u64) % period != 0 {
        return false;
    }

    let period_len = period as usize;
    let start = len - period_len;
    let mut window_values: Vec<i64> = Vec::new();
    let mut i: usize = start;
    while i < len
        invariant
            start <= i <= len,
            start == len - period_len,
            period_len <= len == values@.len(),
            window_values@ == extracted(values@.subrange(start as int, i as int), rule.metric),
        decreases len - i,
    {
        window_values.push(metric_value(&values[i], rule.metric));
        proof {
            assert(values@.subrange(start as int, i + 1).drop_last() =~= values@.subrange(
                start as int,
                i as int,
            ));
            assert(window_values@ =~= extracted(
                values@.subrange(start as int, i + 1),
                rule.metric,
            ));
        }
        i = i + 1;
    }
    proof {
        assert(values@.subrange(start as int, len as int) =~= values@.skip(
            values@.len() - rule.period_size(),
        ));
    }
    let t = get_trend(window_values.as_slice());
    t == rule.trend
}

/// Alignment-gate law: without a forced override, a non-empty history whose
/// length is not a whole multiple of the rule's period never fires the rule,
/// even if the trend over the latest window would match.
pub proof fn lemma_alignment_gate(rule: ReactionRule, s: Seq<ClimateData>, hour: u32)
    requires
        rule.wf(),
        s.len() > 0,
        !spec_predicate_holds(rule.force_run, s.last(), hour),
        s.len() as int % rule.period_size() as int != 0,
    ensures
        !spec_validate(rule, s, hour),
{
}

/// Forced-override law: once there is at least one reading, a rule whose
/// forced-override predicate holds of the latest reading fires immediately,
/// whatever the applicability predicate, the alignment, or the trend.
pub proof fn lemma_forced_override(rule: ReactionRule, s: Seq<ClimateData>, hour: u32)
    requires
        s.len() > 0,
        spec_predicate_holds(rule.force_run, s.last(), hour),
    ensures
        spec_validate(rule, s, hour),
{
}

/// The actions of the rules that fire on `s` at local `hour`, in rule order.
pub open spec fn spec_triggered(rules: Seq<ReactionRule>, s: Seq<ClimateData>, hour: u32) -> Seq<
    ReactionAction,
>
    decreases rules.len(),
{
    if rules.len() == 0 {
        Seq::empty()
    } else {
        spec_triggered(rules.drop_last(), s, hour) + (if spec_validate(rules.last(), s, hour) {
            seq![rules.last().action]
        } else {
            Seq::empty()
        })
    }
}

/// Evaluates every rule against the history and collects the actions of
/// those that fire, in rule order.
pub fn triggered_actions(rules: &[ReactionRule], values: &[ClimateData], hour: u32) -> (r: Vec<
    ReactionAction,
>)
    requires
        forall|i: int| 0 <= i < rules@.len() ==> #[trigger] rules@[i].wf(),
    ensures
        r@ == spec_triggered(rules@, values@, hour),
{
    let mut actions: Vec<ReactionAction> = Vec::new();
    let mut i: usize = 0;
    while i < rules.len()
        invariant
            0 <= i <= rules@.len(),
            forall|j: int| 0 <= j < rules@.len() ==> #[trigger] rules@[j].wf(),
            actions@ == spec_triggered(rules@.take(i as int), values@, hour),
        decreases rules@.len() - i,
    {
        if validate(&rules[i], values, hour) {
            actions.push(rules[i].action);
        }
        proof {
            assert(rules@.take(i + 1).drop_last() =~= rules@.take(i as int));
            assert(actions@ =~= spec_triggered(rules@.take(i + 1), values@, hour));
        }
        i = i + 1;
    }
    proof {
        assert(rules@.take(rules@.len() as int) =~= rules@);
    }
    actions
}

/// Evaluates every rule at the current local hour; the triggered actions are
/// meant to be spawned as independent fire-and-forget tasks by the caller.
pub fn run_reactions(rules: &[ReactionRule], values: &[ClimateData]) -> (r: Vec<ReactionAction>)
    requires
        forall|i: int| 0 <= i < rules@.len() ==> #[trigger] rules@[i].wf(),
    ensures
        exists|hour: u32| hour < 24 && r@ == spec_triggered(rules@, values@, hour),
{
    let hour = local_hour();
    triggered_actions(rules, values, hour)
}

/// The statically constructed rule list: one rule that checks the window
/// sensor when ambient light has been rising over a ten-minute window during
/// daytime hours, or immediately when it passes a hard ceiling.
pub fn window_reaction_rule() -> (r: ReactionRule)
    ensures
        r == (ReactionRule {
            metric: MetricKind::Light,
            trend: Trend::Up,
            window_seconds: 600,
            only_if: RulePredicate::MetricAboveDuringHours {
                metric: MetricKind::Light,
                threshold: 800_000,
                after_hour: 8,
                before_hour: 20,
            },
            force_run: RulePredicate::MetricAbove {
                metric: MetricKind::Light,
                threshold: 1_200_000,
            },
            action: ReactionAction::CheckWindowSensor,
        }),
        r.wf(),
{
    ReactionRule {
        metric: MetricKind::Light,
        trend: Trend::Up,
        window_seconds: 600,
        only_if: RulePredicate::MetricAboveDuringHours {
            metric: MetricKind::Light,
            threshold: 800_000,
            after_hour: 8,
            before_hour: 20,
        },
        force_run: RulePredicate::MetricAbove { metric: MetricKind::Light, threshold: 1_200_000 },
        action: ReactionAction::CheckWindowSensor,
    }
}

} // verus!
