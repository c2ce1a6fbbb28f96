//! What holds of every tick, whatever the sensors read.

use crate::debounce::{elapsed_ticks, DebounceTimer};
use crate::mission::config::{Scan, SensorSnapshot, Task};
use crate::mission::machine::{successor, Mission};
use vstd::prelude::*;

verus! {

/// Without a signal from outside the mission does not start: a tick of the
/// waiting mission asks the drive to rest and leaves the mission as it was.
pub proof fn lemma_waits_for_start(m: Mission, snapshot: SensorSnapshot, now: u32, cosine: u32)
    requires
        m.task is WaitForButton,
    ensures
        m.request(snapshot, now) is Stop,
        m.advanced(snapshot, now, cosine) == m,
{
}

/// The wall counts as mounted on the tick on which the pitch is at or above
/// the threshold, and on no tick before: below it the mission stays as it
/// is. The heading is corrected only while the robot is level.
pub proof fn lemma_mounts_at_threshold(m: Mission, snapshot: SensorSnapshot, now: u32, cosine: u32)
    requires
        m.task is ApproachWall,
    ensures
        m.advanced(snapshot, now, cosine).task is ClimbUp <==> snapshot.pitch_degrees()
            >= m.config.mount_pitch@,
        snapshot.pitch_degrees() < m.config.mount_pitch@ ==> m.advanced(snapshot, now, cosine) == m,
        m.advanced(snapshot, now, cosine) == (Mission {
            task: m.advanced(snapshot, now, cosine).task,
            ..m
        }),
        m.request(snapshot, now) is Straight <==> snapshot.pitch_degrees() <= m.config.level_pitch@,
{
}

/// A tick keeps the phase or moves to the one that follows it, never to
/// another.
pub proof fn lemma_phases_in_order(m: Mission, snapshot: SensorSnapshot, now: u32, cosine: u32)
    ensures
        m.advanced(snapshot, now, cosine).task == m.task || m.advanced(snapshot, now, cosine).task
            == successor(m.task),
{
}

/// On the wall a phase ends only on a tick on which its pitch condition
/// holds, its timer was armed before, and the window has passed since the
/// timer was armed. A tick on which the condition does not hold leaves the
/// timer idle.
pub proof fn lemma_climb_is_debounced(m: Mission, snapshot: SensorSnapshot, now: u32, cosine: u32)
    requires
        m.task is ClimbUp || m.task is ClimbOver || m.task is ClimbDown,
    ensures
        m.advanced(snapshot, now, cosine).task != m.task <==> {
            &&& climb_condition(m, snapshot)
            &&& m.timer.armed
            &&& elapsed_ticks(m.timer.start_tick, now) >= climb_window(m)
        },
        !climb_condition(m, snapshot) ==> m.advanced(snapshot, now, cosine).timer
            == DebounceTimer::idle(),
        m.advanced(snapshot, now, cosine).task != m.task ==> !m.advanced(
            snapshot,
            now,
            cosine,
        ).timer.armed,
{
}

/// The pitch condition that ends a phase on the wall.
pub open spec fn climb_condition(m: Mission, snapshot: SensorSnapshot) -> bool {
    match m.task {
        Task::ClimbUp => snapshot.pitch_degrees() <= m.config.peak_pitch@,
        Task::ClimbOver => snapshot.pitch_degrees() <= m.config.descent_pitch@,
        Task::ClimbDown => snapshot.pitch_degrees() >= m.config.floor_pitch@,
        _ => false,
    }
}

/// The window for which that condition has to hold.
pub open spec fn climb_window(m: Mission) -> u32 {
    match m.task {
        Task::ClimbUp => m.config.peak_window,
        Task::ClimbOver => m.config.descent_window,
        Task::ClimbDown => m.config.floor_window,
        _ => 0,
    }
}

/// A sweep that reaches its limit turns back and goes on looking: the phase
/// stays. Short of the limit, a detection brings the robot to rest, and
/// only a rest that has lasted the settling window ends the phase, with the
/// attitude of that tick as the bearings of the approach.
pub proof fn lemma_sweep(m: Mission, snapshot: SensorSnapshot, now: u32, cosine: u32)
    requires
        m.task is FindPole,
    ensures
        m.scan is Left && snapshot.yaw_degrees() <= -m.config.scan_angle@ ==> m.advanced(
            snapshot,
            now,
            cosine,
        ) == (Mission { scan: Scan::Right, ..m }),
        m.scan is Right && snapshot.yaw_degrees() >= m.config.scan_angle@ ==> m.advanced(
            snapshot,
            now,
            cosine,
        ) == (Mission { scan: Scan::Left, ..m }),
        !(m.scan is Stop) ==> m.advanced(snapshot, now, cosine).task is FindPole,
        m.advanced(snapshot, now, cosine).scan_pause && !m.scan_pause ==> m.detects(
            snapshot,
            cosine,
        ),
        m.advanced(snapshot, now, cosine).task is ApproachPole <==> {
            &&& m.scan is Stop
            &&& m.scan_pause
            &&& m.timer.armed
            &&& elapsed_ticks(m.timer.start_tick, now) >= m.config.settle_window
        },
        m.advanced(snapshot, now, cosine).task is ApproachPole ==> {
            &&& m.advanced(snapshot, now, cosine).offset_angle == snapshot.yaw_degrees()
            &&& m.advanced(snapshot, now, cosine).pole_zero_pitch == snapshot.pitch_degrees()
            &&& m.advanced(snapshot, now, cosine).pole_zero_roll == snapshot.roll_degrees()
        },
{
}

/// Near the pole the mission ends exactly on a tick on which the range is
/// a reading below the contact range, or the raised pitch or the roll has
/// lasted the contact window. It then asks the drive to rest and forgets
/// the heading. A raised pitch or a roll that goes away before its window
/// has passed leaves its timer idle, and a roll never counts where only the
/// pitch is to.
pub proof fn lemma_contact(m: Mission, snapshot: SensorSnapshot, now: u32, cosine: u32)
    requires
        m.task is ApproachPole,
    ensures
        m.advanced(snapshot, now, cosine).task is WaitForButton <==> m.arrives(snapshot, now),
        m.arrives(snapshot, now) <==> {
            ||| 0 <= snapshot.range < m.config.contact_range
            ||| m.pitch_raised(snapshot) && m.timer.armed && elapsed_ticks(
                m.timer.start_tick,
                now,
            ) >= m.config.contact_window
            ||| m.rolled(snapshot) && m.roll_timer.armed && elapsed_ticks(
                m.roll_timer.start_tick,
                now,
            ) >= m.config.contact_window
        },
        m.arrives(snapshot, now) ==> m.request(snapshot, now) is Stop && m.advanced(
            snapshot,
            now,
            cosine,
        ).offset_angle == 0,
        !m.arrives(snapshot, now) ==> m.request(snapshot, now) is Straight,
        !m.pitch_raised(snapshot) ==> !m.advanced(snapshot, now, cosine).timer.armed,
        !m.rolled(snapshot) ==> !m.advanced(snapshot, now, cosine).roll_timer.armed,
        m.config.contact_guards is PitchOnly ==> !m.rolled(snapshot),
{
}

/// No tick changes what the mission was set up with.
pub proof fn lemma_setup_is_kept(m: Mission, snapshot: SensorSnapshot, now: u32, cosine: u32)
    ensures
        m.advanced(snapshot, now, cosine).config == m.config,
        m.advanced(snapshot, now, cosine).geometry == m.geometry,
{
}

} // verus!
