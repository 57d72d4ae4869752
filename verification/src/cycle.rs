//! One reconciliation cycle: the order of its steps, the record that
//! compares the two sources, and the sleep that keeps the cadence.

use crate::fixed::{clamp_i32, whole_units, Milli};
use crate::indevolt::models::BatterySnapshot;
use crate::p1::reader::P1Reading;
use vstd::prelude::*;

verus! {

/// Nanoseconds in a second.
pub const NANOS_PER_SECOND: u128 = 1_000_000_000;

/// What follows a cycle's work.
#[derive(Debug, Clone, Copy, PartialEq, Eq, Structural)]
pub enum SleepPlan {
    /// The cycle ended early: sleep for this many nanoseconds.
    Sleep(u128),
    /// The cycle took the whole interval or more, by this many nanoseconds:
    /// do not sleep.
    Overrun(u128),
}

/// The plan after a cycle that took `elapsed` nanoseconds of an interval of
/// `interval` nanoseconds: the remainder is slept; a cycle that used up the
/// interval is followed at once by the next, and no sleep is owed later.
pub open spec fn sleep_plan(interval: int, elapsed: int) -> SleepPlan {
    if elapsed < interval {
        SleepPlan::Sleep((interval - elapsed) as u128)
    } else {
        SleepPlan::Overrun((elapsed - interval) as u128)
    }
}

/// Plans the sleep after a cycle that took `elapsed_nanos` nanoseconds, for
/// an interval of `interval_seconds` seconds.
pub fn plan_sleep(interval_seconds: u64, elapsed_nanos: u128) -> (plan: SleepPlan)
    ensures
        plan == sleep_plan(interval_seconds * NANOS_PER_SECOND, elapsed_nanos as int),
{
    let interval: u128 = (interval_seconds as u128) * NANOS_PER_SECOND;
    if elapsed_nanos < interval {
        SleepPlan::Sleep(interval - elapsed_nanos)
    } else {
        SleepPlan::Overrun(elapsed_nanos - interval)
    }
}

/// The cadence holds wherever it can: work and sleep together fill the
/// interval exactly, the sleep is never zero, and a cycle that overran is
/// not slept after at all.
pub proof fn lemma_sleep_fills_interval(interval: int, elapsed: int)
    requires
        0 <= elapsed,
        0 <= interval <= u128::MAX,
        elapsed <= u128::MAX,
    ensures
        match sleep_plan(interval, elapsed) {
            SleepPlan::Sleep(nanos) => elapsed < interval && nanos > 0 && elapsed + nanos
                == interval,
            SleepPlan::Overrun(nanos) => elapsed >= interval && interval + nanos == elapsed,
        },
{
}

/// The record of a cycle in which both sources were read.
#[derive(Debug, Clone)]
pub struct Reconciliation {
    /// Grid power as the meter reports it, in whole watts.
    pub p1_w: i32,
    /// Grid power as the inverter reports it, in watts.
    pub inverter_w: i32,
    /// The meter's figure less the inverter's, in watts.
    pub diff_w: i64,
    pub battery_soc: Milli,
    pub battery_state: String,
    pub working_mode: String,
    pub battery_power_w: i32,
}

/// What a cycle reports.
#[derive(Debug, Clone)]
pub enum CycleReport {
    /// Both sources were read.
    Reconciled(Reconciliation),
    /// The meter could not be read; nothing was compared.
    Degraded,
}

/// `record` compares `reading` with `battery`: the meter's grid power cut
/// to whole watts, the inverter's figure, their difference, and the
/// battery's telemetry as the snapshot has it.
pub open spec fn compares(record: Reconciliation, reading: P1Reading, battery: BatterySnapshot) -> bool {
    &&& record.p1_w == clamp_i32(whole_units(reading.raw.active_power_w@))
    &&& record.inverter_w == battery.meter_power_w
    &&& record.diff_w == record.p1_w - record.inverter_w
    &&& record.battery_soc == battery.battery_soc
    &&& record.battery_state@ == battery.battery_state@
    &&& record.working_mode@ == battery.working_mode@
    &&& record.battery_power_w == battery.battery_power_w
}

/// Compares the two sources of a cycle. Without a meter reading the cycle
/// is degraded and nothing is compared.
pub fn reconcile(meter: Option<&P1Reading>, battery: &BatterySnapshot) -> (report: CycleReport)
    ensures
        match meter {
            Some(reading) => report matches CycleReport::Reconciled(record) && compares(
                record,
                *reading,
                *battery,
            ),
            None => report is Degraded,
        },
{
    match meter {
        Some(reading) => {
            let p1_w = reading.raw.active_power_w.truncated_i32();
            let inverter_w = battery.meter_power_w;
            CycleReport::Reconciled(
                Reconciliation {
                    p1_w,
                    inverter_w,
                    diff_w: p1_w as i64 - inverter_w as i64,
                    battery_soc: battery.battery_soc,
                    battery_state: battery.battery_state.clone(),
                    working_mode: battery.working_mode.clone(),
                    battery_power_w: battery.battery_power_w,
                },
            )
        },
        None => CycleReport::Degraded,
    }
}

/// Where a cycle stands.
#[derive(Debug, Clone, Copy, PartialEq, Eq, Structural)]
pub enum CyclePhase {
    /// Between cycles.
    Idle,
    /// The meter is being read.
    FetchingMeter,
    /// The battery is being read; the meter was read before, with or
    /// without success.
    FetchingBattery { meter_present: bool },
    /// Both reads are over and the record is being made.
    Reconciling { meter_present: bool },
    /// The remainder of the interval is being slept.
    Sleeping,
}

/// What happened outside since the last step.
#[derive(Debug, Clone, Copy, PartialEq, Eq, Structural)]
pub enum CycleEvent {
    /// A cycle is to begin.
    Begin,
    /// The meter's read ended; `present` says whether it gave a reading.
    MeterFetched { present: bool },
    /// The battery's read ended. It always gives a snapshot.
    BatteryFetched,
    /// The record was made, `elapsed_nanos` after the cycle began.
    Reported { elapsed_nanos: u128 },
    /// The sleep is over.
    Woke,
}

/// What is to be done outside next.
#[derive(Debug, Clone, Copy, PartialEq, Eq, Structural)]
pub enum CycleAction {
    /// Note the time and read the meter.
    FetchMeter,
    /// Read the battery.
    FetchBattery,
    /// Make the record of the cycle, degraded if the meter gave no reading.
    Report { meter_present: bool },
    /// Sleep for this many nanoseconds.
    Sleep(u128),
    /// Note that the cycle overran by this many nanoseconds; the next one
    /// is due at once.
    NoteOverrun(u128),
    /// The cycle is over; the next one may begin.
    Finish,
}

/// A step of the cycle: the phase that follows and what to do.
#[derive(Debug, Clone, Copy, PartialEq, Eq, Structural)]
pub struct Transition {
    pub next: CyclePhase,
    pub action: CycleAction,
}

/// The step that `event` causes in `phase`, for an interval of `interval`
/// nanoseconds; `None` where the event does not belong to the phase.
pub open spec fn transition(phase: CyclePhase, event: CycleEvent, interval: int) -> Option<
    Transition,
> {
    match (phase, event) {
        (CyclePhase::Idle, CycleEvent::Begin) => Some(
            Transition { next: CyclePhase::FetchingMeter, action: CycleAction::FetchMeter },
        ),
        (CyclePhase::FetchingMeter, CycleEvent::MeterFetched { present }) => Some(
            Transition {
                next: CyclePhase::FetchingBattery { meter_present: present },
                action: CycleAction::FetchBattery,
            },
        ),
        (CyclePhase::FetchingBattery { meter_present }, CycleEvent::BatteryFetched) => Some(
            Transition {
                next: CyclePhase::Reconciling { meter_present },
                action: CycleAction::Report { meter_present },
            },
        ),
        (CyclePhase::Reconciling { .. }, CycleEvent::Reported { elapsed_nanos }) => Some(
            match sleep_plan(interval, elapsed_nanos as int) {
                SleepPlan::Sleep(nanos) => Transition {
                    next: CyclePhase::Sleeping,
                    action: CycleAction::Sleep(nanos),
                },
                SleepPlan::Overrun(nanos) => Transition {
                    next: CyclePhase::Idle,
                    action: CycleAction::NoteOverrun(nanos),
                },
            },
        ),
        (CyclePhase::Sleeping, CycleEvent::Woke) => Some(
            Transition { next: CyclePhase::Idle, action: CycleAction::Finish },
        ),
        _ => None,
    }
}

/// Takes one step of the cycle. An event that does not belong to the phase
/// changes nothing and gives `None`.
pub fn step(phase: CyclePhase, event: CycleEvent, interval_seconds: u64) -> (taken: Option<
    Transition,
>)
    ensures
        taken == transition(phase, event, interval_seconds * NANOS_PER_SECOND),
{
    match (phase, event) {
        (CyclePhase::Idle, CycleEvent::Begin) => Some(
            Transition { next: CyclePhase::FetchingMeter, action: CycleAction::FetchMeter },
        ),
        (CyclePhase::FetchingMeter, CycleEvent::MeterFetched { present }) => Some(
            Transition {
                next: CyclePhase::FetchingBattery { meter_present: present },
                action: CycleAction::FetchBattery,
            },
        ),
        (CyclePhase::FetchingBattery { meter_present }, CycleEvent::BatteryFetched) => Some(
            Transition {
                next: CyclePhase::Reconciling { meter_present },
                action: CycleAction::Report { meter_present },
            },
        ),
        (CyclePhase::Reconciling { .. }, CycleEvent::Reported { elapsed_nanos }) => Some(
            match plan_sleep(interval_seconds, elapsed_nanos) {
                SleepPlan::Sleep(nanos) => Transition {
                    next: CyclePhase::Sleeping,
                    action: CycleAction::Sleep(nanos),
                },
                SleepPlan::Overrun(nanos) => Transition {
                    next: CyclePhase::Idle,
                    action: CycleAction::NoteOverrun(nanos),
                },
            },
        ),
        (CyclePhase::Sleeping, CycleEvent::Woke) => Some(
            Transition { next: CyclePhase::Idle, action: CycleAction::Finish },
        ),
        _ => None,
    }
}

/// Whatever the meter's read gave, the cycle goes on: the battery is read
/// next, then the record is made, and the record is degraded exactly when
/// the meter gave no reading.
pub proof fn lemma_meter_failure_never_aborts(present: bool, interval: int)
    ensures
        transition(CyclePhase::Idle, CycleEvent::Begin, interval) == Some(
            Transition { next: CyclePhase::FetchingMeter, action: CycleAction::FetchMeter },
        ),
        transition(CyclePhase::FetchingMeter, CycleEvent::MeterFetched { present }, interval)
            == Some(
            Transition {
                next: CyclePhase::FetchingBattery { meter_present: present },
                action: CycleAction::FetchBattery,
            },
        ),
        transition(
            CyclePhase::FetchingBattery { meter_present: present },
            CycleEvent::BatteryFetched,
            interval,
        ) == Some(
            Transition {
                next: CyclePhase::Reconciling { meter_present: present },
                action: CycleAction::Report { meter_present: present },
            },
        ),
{
}

/// The two reads never overlap: the battery's read is asked for only by the
/// step that takes the end of the meter's read, and the meter's only by a
/// step out of the idle phase.
pub proof fn lemma_reads_are_sequential(phase: CyclePhase, event: CycleEvent, interval: int)
    ensures
        transition(phase, event, interval) matches Some(t) && t.action is FetchBattery ==> phase
            is FetchingMeter && event is MeterFetched,
        transition(phase, event, interval) matches Some(t) && t.action is FetchMeter ==> phase
            is Idle && event is Begin,
{
}

/// After the record a cycle either sleeps the remainder of the interval or,
/// having overrun, returns to idle at once without sleeping.
pub proof fn lemma_overrun_skips_sleep(meter_present: bool, elapsed_nanos: u128, interval: int)
    requires
        0 <= interval <= u128::MAX,
    ensures
        transition(
            CyclePhase::Reconciling { meter_present },
            CycleEvent::Reported { elapsed_nanos },
            interval,
        ) == Some(
            if elapsed_nanos < interval {
                Transition {
                    next: CyclePhase::Sleeping,
                    action: CycleAction::Sleep((interval - elapsed_nanos) as u128),
                }
            } else {
                Transition {
                    next: CyclePhase::Idle,
                    action: CycleAction::NoteOverrun((elapsed_nanos - interval) as u128),
                }
            },
        ),
{
}

/// A cycle that began in the idle phase is back there once its sleep is
/// over, so the next one can begin.
pub proof fn lemma_cycle_returns_to_idle(present: bool, elapsed_nanos: u128, interval: int)
    requires
        0 <= interval <= u128::MAX,
    ensures
        ({
            let reported = transition(
                CyclePhase::Reconciling { meter_present: present },
                CycleEvent::Reported { elapsed_nanos },
                interval,
            );
            &&& reported matches Some(t)
            &&& t.next is Idle || (t.next is Sleeping && transition(
                t.next,
                CycleEvent::Woke,
                interval,
            ) == Some(Transition { next: CyclePhase::Idle, action: CycleAction::Finish }))
        }),
{
}

} // verus!
