//! System metrics: what each collector contributes to a round, and the snapshot that a round makes.

use crate::availability::{news, AvailabilityState};
use crate::model::SystemSnapshot;
use vstd::prelude::*;

verus! {

/// What one collector contributes to a round. A field that it has nothing for is `None`.
#[derive(Debug, Clone, Copy, PartialEq)]
pub struct PartialMetrics<F> {
    pub cpu_usage: Option<F>,
    pub cpu_temp: Option<F>,
    pub gpu_usage: Option<F>,
    pub gpu_temp: Option<F>,
}

/// A contribution of nothing: what a collector that failed hands in.
pub open spec fn nothing<F>() -> PartialMetrics<F> {
    PartialMetrics { cpu_usage: None, cpu_temp: None, gpu_usage: None, gpu_temp: None }
}

/// The second reading if there is one, else the first.
pub open spec fn newest<F>(a: Option<F>, b: Option<F>) -> Option<F> {
    if b is Some {
        b
    } else {
        a
    }
}

/// Two contributions in one, the second winning where both have a reading.
pub open spec fn merged<F>(a: PartialMetrics<F>, b: PartialMetrics<F>) -> PartialMetrics<F> {
    PartialMetrics {
        cpu_usage: newest(a.cpu_usage, b.cpu_usage),
        cpu_temp: newest(a.cpu_temp, b.cpu_temp),
        gpu_usage: newest(a.gpu_usage, b.gpu_usage),
        gpu_temp: newest(a.gpu_temp, b.gpu_temp),
    }
}

/// All contributions of a round in one.
pub open spec fn merged_all<F>(parts: Seq<PartialMetrics<F>>) -> PartialMetrics<F>
    decreases parts.len(),
{
    if parts.len() == 0 {
        nothing()
    } else {
        merged(merged_all(parts.drop_last()), parts.last())
    }
}

impl<F> Default for PartialMetrics<F> {
    fn default() -> (m: Self)
        ensures
            m == nothing::<F>(),
    {
        PartialMetrics { cpu_usage: None, cpu_temp: None, gpu_usage: None, gpu_temp: None }
    }
}

impl<F> PartialMetrics<F> {
    /// Takes over every reading that `other` has.
    pub fn merge(&mut self, other: PartialMetrics<F>)
        ensures
            *final(self) == merged(*old(self), other),
    {
        if other.cpu_usage.is_some() {
            self.cpu_usage = other.cpu_usage;
        }
        if other.cpu_temp.is_some() {
            self.cpu_temp = other.cpu_temp;
        }
        if other.gpu_usage.is_some() {
            self.gpu_usage = other.gpu_usage;
        }
        if other.gpu_temp.is_some() {
            self.gpu_temp = other.gpu_temp;
        }
    }
}

/// The snapshot of a round. `zero` stands in for a CPU usage that no collector delivered.
pub open spec fn snapshot_of<F>(
    parts: Seq<PartialMetrics<F>>,
    ts_ms: u64,
    zero: F,
) -> SystemSnapshot<F> {
    let m = merged_all(parts);
    SystemSnapshot {
        ts_ms,
        cpu_usage: match m.cpu_usage {
            Some(usage) => usage,
            None => zero,
        },
        cpu_temp: m.cpu_temp,
        gpu_usage: m.gpu_usage,
        gpu_temp: m.gpu_temp,
    }
}

/// Makes the snapshot of a round out of what its collectors contributed, in their order.
pub fn sample_once<F: Copy>(parts: &Vec<PartialMetrics<F>>, ts_ms: u64, zero: F) -> (snapshot:
    SystemSnapshot<F>)
    ensures
        snapshot == snapshot_of(parts@, ts_ms, zero),
{
    let mut all: PartialMetrics<F> = PartialMetrics::default();
    for i in 0..parts.len()
        invariant
            all == merged_all(parts@.take(i as int)),
    {
        all.merge(parts[i]);
        assert(parts@.take(i + 1).drop_last() =~= parts@.take(i as int));
    }
    assert(parts@.take(parts@.len() as int) =~= parts@);
    SystemSnapshot {
        ts_ms,
        cpu_usage: match all.cpu_usage {
            Some(usage) => usage,
            None => zero,
        },
        cpu_temp: all.cpu_temp,
        gpu_usage: all.gpu_usage,
        gpu_temp: all.gpu_temp,
    }
}

/// What the CPU collector contributes: its reading, unless that is no finite number.
pub fn cpu_metrics<F>(usage: F, finite: bool) -> (m: PartialMetrics<F>)
    ensures
        m == (if finite {
            PartialMetrics { cpu_usage: Some(usage), ..nothing() }
        } else {
            nothing()
        }),
{
    if finite {
        PartialMetrics { cpu_usage: Some(usage), cpu_temp: None, gpu_usage: None, gpu_temp: None }
    } else {
        PartialMetrics::default()
    }
}

/// What the GPU driver gave in one round.
pub enum GpuSample<F> {
    /// There is no driver.
    NoDriver,
    /// The driver knows no GPU.
    Failed,
    /// The readings that the GPU gave.
    Readings { usage: Option<F>, temp: Option<F> },
}

/// What is worth logging about a source.
#[derive(Debug, Clone, Copy, PartialEq, Eq, Structural)]
pub enum SourceNotice {
    /// It delivers again, or for the first time.
    Available,
    /// It cannot be reached.
    Unreachable,
    /// It can be reached, but has no usable data.
    NoData,
}

/// The notice for a source that was reached, according to what its report is worth.
pub open spec fn reached_notice(change: Option<bool>) -> Option<SourceNotice> {
    match change {
        Some(true) => Some(SourceNotice::Available),
        Some(false) => Some(SourceNotice::NoData),
        None => None,
    }
}

/// The notice for a source that was not reached, according to what its report is worth.
pub open spec fn lost_notice(change: Option<bool>) -> Option<SourceNotice> {
    if change is Some {
        Some(SourceNotice::Unreachable)
    } else {
        None
    }
}

/// What a collector makes of a round: its contribution, and what is worth logging.
pub struct Collected<F> {
    pub metrics: PartialMetrics<F>,
    pub notice: Option<SourceNotice>,
}

fn note_reached(availability: &mut AvailabilityState, ok: bool) -> (notice: Option<SourceNotice>)
    ensures
        final(availability)@ == Some(ok),
        notice == reached_notice(news(old(availability)@, ok)),
{
    match availability.note(ok) {
        Some(true) => Some(SourceNotice::Available),
        Some(false) => Some(SourceNotice::NoData),
        None => None,
    }
}

fn note_lost(availability: &mut AvailabilityState) -> (notice: Option<SourceNotice>)
    ensures
        final(availability)@ == Some(false),
        notice == lost_notice(news(old(availability)@, false)),
{
    if availability.note(false).is_some() {
        Some(SourceNotice::Unreachable)
    } else {
        None
    }
}

/// What the GPU collector makes of a round. It is available if it has any reading.
pub fn gpu_metrics<F>(availability: &mut AvailabilityState, sample: GpuSample<F>) -> (collected:
    Collected<F>)
    ensures
        match sample {
            GpuSample::NoDriver => {
                &&& final(availability)@ == old(availability)@
                &&& collected.metrics == nothing::<F>()
                &&& collected.notice is None
            },
            GpuSample::Failed => {
                &&& final(availability)@ == Some(false)
                &&& collected.metrics == nothing::<F>()
                &&& collected.notice == lost_notice(news(old(availability)@, false))
            },
            GpuSample::Readings { usage, temp } => {
                let ok = usage is Some || temp is Some;
                &&& final(availability)@ == Some(ok)
                &&& collected.metrics == (PartialMetrics {
                    gpu_usage: usage,
                    gpu_temp: temp,
                    ..nothing()
                })
                &&& collected.notice == reached_notice(news(old(availability)@, ok))
            },
        },
{
    match sample {
        GpuSample::NoDriver => Collected { metrics: PartialMetrics::default(), notice: None },
        GpuSample::Failed => {
            let notice: Option<SourceNotice> = note_lost(availability);
            Collected { metrics: PartialMetrics::default(), notice }
        },
        GpuSample::Readings { usage, temp } => {
            let notice: Option<SourceNotice> = note_reached(
                availability,
                usage.is_some() || temp.is_some(),
            );
            Collected {
                metrics: PartialMetrics {
                    cpu_usage: None,
                    cpu_temp: None,
                    gpu_usage: usage,
                    gpu_temp: temp,
                },
                notice,
            }
        },
    }
}

/// What the CPU temperature collector makes of a round. The outer `None` stands for a sensor
/// service that did not answer, the inner one for an answer without a temperature.
pub fn cpu_temp_metrics<F>(
    availability: &mut AvailabilityState,
    answer: Option<Option<F>>,
) -> (collected: Collected<F>)
    ensures
        match answer {
            None => {
                &&& final(availability)@ == Some(false)
                &&& collected.metrics == nothing::<F>()
                &&& collected.notice == lost_notice(news(old(availability)@, false))
            },
            Some(temp) => {
                &&& final(availability)@ == Some(temp is Some)
                &&& collected.metrics == (PartialMetrics { cpu_temp: temp, ..nothing() })
                &&& collected.notice == reached_notice(news(old(availability)@, temp is Some))
            },
        },
{
    match answer {
        None => {
            let notice: Option<SourceNotice> = note_lost(availability);
            Collected { metrics: PartialMetrics::default(), notice }
        },
        Some(temp) => {
            let notice: Option<SourceNotice> = note_reached(availability, temp.is_some());
            Collected {
                metrics: PartialMetrics {
                    cpu_usage: None,
                    cpu_temp: temp,
                    gpu_usage: None,
                    gpu_temp: None,
                },
                notice,
            }
        },
    }
}

/// Whether no field has a reading in both contributions.
pub open spec fn disjoint<F>(a: PartialMetrics<F>, b: PartialMetrics<F>) -> bool {
    &&& a.cpu_usage is None || b.cpu_usage is None
    &&& a.cpu_temp is None || b.cpu_temp is None
    &&& a.gpu_usage is None || b.gpu_usage is None
    &&& a.gpu_temp is None || b.gpu_temp is None
}

/// A contribution of nothing changes nothing, and it does not matter how contributions are grouped.
pub proof fn merging_is_a_monoid<F>(
    a: PartialMetrics<F>,
    b: PartialMetrics<F>,
    c: PartialMetrics<F>,
)
    ensures
        merged(a, nothing()) == a,
        merged(nothing(), a) == a,
        merged(merged(a, b), c) == merged(a, merged(b, c)),
{
}

/// The order of two collectors that fill different fields does not matter.
pub proof fn disjoint_collectors_commute<F>(a: PartialMetrics<F>, b: PartialMetrics<F>)
    requires
        disjoint(a, b),
    ensures
        merged(a, b) == merged(b, a),
{
}

/// A collector that fails takes nothing away from the others: the round is the one that it would be
/// without that collector.
pub proof fn failed_collector_is_isolated<F>(
    before: Seq<PartialMetrics<F>>,
    after: Seq<PartialMetrics<F>>,
    ts_ms: u64,
    zero: F,
)
    ensures
        snapshot_of(before.push(nothing()) + after, ts_ms, zero) == snapshot_of(
            before + after,
            ts_ms,
            zero,
        ),
{
    skipping_nothing(before, after);
}

proof fn skipping_nothing<F>(before: Seq<PartialMetrics<F>>, after: Seq<PartialMetrics<F>>)
    ensures
        merged_all(before.push(nothing()) + after) == merged_all(before + after),
    decreases after.len(),
{
    let with = before.push(nothing()) + after;
    let without = before + after;
    if after.len() == 0 {
        assert(with.drop_last() =~= without);
    } else {
        skipping_nothing(before, after.drop_last());
        assert(with.drop_last() =~= before.push(nothing()) + after.drop_last());
        assert(without.drop_last() =~= before + after.drop_last());
    }
}

/// The last contribution with a reading decides what the snapshot shows of it, field by field; a field
/// without any reading is empty, and the CPU usage is then `zero`.
pub proof fn snapshot_shows_the_last_reading<F>(
    parts: Seq<PartialMetrics<F>>,
    ts_ms: u64,
    zero: F,
    i: int,
)
    requires
        0 <= i < parts.len(),
    ensures
        snapshot_of(parts, ts_ms, zero).ts_ms == ts_ms,
        parts[i].cpu_usage is Some && (forall|j: int|
            i < j < parts.len() ==> (#[trigger] parts[j]).cpu_usage is None) ==> Some(
            snapshot_of(parts, ts_ms, zero).cpu_usage,
        ) == parts[i].cpu_usage,
        parts[i].cpu_temp is Some && (forall|j: int|
            i < j < parts.len() ==> (#[trigger] parts[j]).cpu_temp is None) ==> snapshot_of(
            parts,
            ts_ms,
            zero,
        ).cpu_temp == parts[i].cpu_temp,
        parts[i].gpu_usage is Some && (forall|j: int|
            i < j < parts.len() ==> (#[trigger] parts[j]).gpu_usage is None) ==> snapshot_of(
            parts,
            ts_ms,
            zero,
        ).gpu_usage == parts[i].gpu_usage,
        parts[i].gpu_temp is Some && (forall|j: int|
            i < j < parts.len() ==> (#[trigger] parts[j]).gpu_temp is None) ==> snapshot_of(
            parts,
            ts_ms,
            zero,
        ).gpu_temp == parts[i].gpu_temp,
    decreases parts.len(),
{
    if i < parts.len() - 1 {
        let head = parts.drop_last();
        assert(parts.last() == parts[parts.len() - 1]);
        assert forall|j: int| 0 <= j < head.len() implies #[trigger] head[j] == parts[j] by {}
        snapshot_shows_the_last_reading(head, ts_ms, zero, i);
    } else {
        assert(parts.last() == parts[i]);
    }
}

/// A reading that no contribution has is not in the snapshot: nothing is made up, but for the `zero`
/// that stands in for the CPU usage.
pub proof fn nothing_is_made_up<F>(parts: Seq<PartialMetrics<F>>, ts_ms: u64, zero: F)
    ensures
        (forall|j: int| 0 <= j < parts.len() ==> (#[trigger] parts[j]).cpu_usage is None)
            ==> snapshot_of(parts, ts_ms, zero).cpu_usage == zero,
        (forall|j: int| 0 <= j < parts.len() ==> (#[trigger] parts[j]).cpu_temp is None)
            ==> snapshot_of(parts, ts_ms, zero).cpu_temp is None,
        (forall|j: int| 0 <= j < parts.len() ==> (#[trigger] parts[j]).gpu_usage is None)
            ==> snapshot_of(parts, ts_ms, zero).gpu_usage is None,
        (forall|j: int| 0 <= j < parts.len() ==> (#[trigger] parts[j]).gpu_temp is None)
            ==> snapshot_of(parts, ts_ms, zero).gpu_temp is None,
    decreases parts.len(),
{
    if parts.len() > 0 {
        let head = parts.drop_last();
        assert(parts.last() == parts[parts.len() - 1]);
        assert forall|j: int| 0 <= j < head.len() implies #[trigger] head[j] == parts[j] by {}
        nothing_is_made_up(head, ts_ms, zero);
    }
}

/// Of two contributions, a reading of the second stands; where it has none, that of the first does, field
/// by field. A contribution of nothing has no reading.
pub proof fn merging_goes_field_by_field<F>(a: PartialMetrics<F>, b: PartialMetrics<F>)
    ensures
        b.cpu_usage is Some ==> merged(a, b).cpu_usage == b.cpu_usage,
        b.cpu_usage is None ==> merged(a, b).cpu_usage == a.cpu_usage,
        b.cpu_temp is Some ==> merged(a, b).cpu_temp == b.cpu_temp,
        b.cpu_temp is None ==> merged(a, b).cpu_temp == a.cpu_temp,
        b.gpu_usage is Some ==> merged(a, b).gpu_usage == b.gpu_usage,
        b.gpu_usage is None ==> merged(a, b).gpu_usage == a.gpu_usage,
        b.gpu_temp is Some ==> merged(a, b).gpu_temp == b.gpu_temp,
        b.gpu_temp is None ==> merged(a, b).gpu_temp == a.gpu_temp,
        nothing::<F>().cpu_usage is None,
        nothing::<F>().cpu_temp is None,
        nothing::<F>().gpu_usage is None,
        nothing::<F>().gpu_temp is None,
{
}

/// A source is logged exactly when its state changes or is reported for the first time: as available
/// where it has data, as without data where it was reached, and as unreachable where it was not.
pub proof fn notices_tell_changes(last: Option<bool>, ok: bool)
    ensures
        last == Some(ok) ==> reached_notice(news(last, ok)) is None,
        last != Some(ok) && ok ==> reached_notice(news(last, ok)) == Some(SourceNotice::Available),
        last != Some(ok) && !ok ==> reached_notice(news(last, ok)) == Some(SourceNotice::NoData),
        last == Some(false) ==> lost_notice(news(last, false)) is None,
        last != Some(false) ==> lost_notice(news(last, false)) == Some(SourceNotice::Unreachable),
{
}

} // verus!
