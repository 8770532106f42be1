//! The collision controller: detection rule, direction state machine, and
//! the whole-vehicle drive commands it issues.
//!
//! Each control cycle compares the live accelerometer sample against the
//! window mean; a collision fires when any axis of the *signed* difference
//! exceeds [`COLLISION_THRESHOLD`] — deliberately not the absolute value,
//! so only overshoot in the positive direction triggers. On a collision
//! the commanded direction toggles, the motors are stopped, and after a
//! settle delay all four motors are driven in the new direction.
//!
//! The embedding program runs the loop itself: it reads the sample, calls
//! [`control_step`], and performs the commanded actions ([`stop`], a
//! [`crate::time::Delay`] of [`SETTLE_DELAY_TICKS`], then [`go_forward`]
//! or [`go_backward`]).

use vstd::prelude::*;

use crate::bus::{extended_by_prefix, Bus, BusError, Transaction};
use crate::motor::{off_write, speed_writes, Direction, Motor, MotorDirection, Motors};
use crate::pca::PWM_MAX;
use crate::sample_buffer::Sample;

verus! {

/// Collision threshold in device units: an axis of (live − mean) beyond
/// this fires.
pub const COLLISION_THRESHOLD: i16 = 10_000;

/// Ticks to wait, motors stopped, between detecting a collision and
/// driving in the new direction.
pub const SETTLE_DELAY_TICKS: u32 = 1000;

/// Duty commanded when driving after a reversal: 100%.
pub const DRIVE_SPEED: u16 = 0xFFF;

/// Whether the live sample `a` counts as a collision against the mean
/// sample `b`, together with the elementwise difference it was decided on.
///
/// The comparison is on the signed difference: a collision fires exactly
/// when some axis of `a - b` exceeds the threshold, so a deceleration
/// spike below `-threshold` does not fire.
pub fn has_collided(a: &Sample, b: &Sample) -> (r: (bool, Sample))
    requires
        -0x8000 <= a.x - b.x <= 0x7FFF,
        -0x8000 <= a.y - b.y <= 0x7FFF,
        -0x8000 <= a.z - b.z <= 0x7FFF,
    ensures
        r.1.x == a.x - b.x,
        r.1.y == a.y - b.y,
        r.1.z == a.z - b.z,
        r.0 == (r.1.x > COLLISION_THRESHOLD || r.1.y > COLLISION_THRESHOLD || r.1.z
            > COLLISION_THRESHOLD),
{
    let dx = ((a.x as i32) - (b.x as i32)) as i16;
    let dy = ((a.y as i32) - (b.y as i32)) as i16;
    let dz = ((a.z as i32) - (b.z as i32)) as i16;
    let diff_sample = Sample { x: dx, y: dy, z: dz };
    (
        diff_sample.x > COLLISION_THRESHOLD || diff_sample.y > COLLISION_THRESHOLD
            || diff_sample.z > COLLISION_THRESHOLD,
        diff_sample,
    )
}

/// The direction to command after a cycle: toggled on a collision, kept
/// otherwise.
pub fn next_direction(collided: bool, current: Direction) -> (r: Direction)
    ensures
        r == if collided {
            crate::motor::opposite(current)
        } else {
            current
        },
{
    if collided {
        match current {
            Direction::Forward => Direction::Backward,
            Direction::Backward => Direction::Forward,
        }
    } else {
        current
    }
}

/// One control-cycle decision: whether the live sample against the mean
/// counts as a collision, the direction to command next, and the
/// difference the decision was made on.
pub fn control_step(current: Direction, live: &Sample, mean: &Sample) -> (r: (
    bool,
    Direction,
    Sample,
))
    requires
        -0x8000 <= live.x - mean.x <= 0x7FFF,
        -0x8000 <= live.y - mean.y <= 0x7FFF,
        -0x8000 <= live.z - mean.z <= 0x7FFF,
    ensures
        r.2.x == live.x - mean.x,
        r.2.y == live.y - mean.y,
        r.2.z == live.z - mean.z,
        r.0 == (r.2.x > COLLISION_THRESHOLD || r.2.y > COLLISION_THRESHOLD || r.2.z
            > COLLISION_THRESHOLD),
        r.1 == if r.0 {
            crate::motor::opposite(current)
        } else {
            current
        },
{
    let (collided, diff) = has_collided(live, mean);
    let dir = next_direction(collided, current);
    (collided, dir, diff)
}

/// The position on the eight-output visual ring that renders a commanded
/// direction: 0 (north) for forward, 4 (south) for backward.
pub fn direction_indicator(dir: Direction) -> (r: u8)
    ensures
        r == (match dir {
            Direction::Forward => 0u8,
            Direction::Backward => 4u8,
        }),
{
    match dir {
        Direction::Forward => 0,
        Direction::Backward => 4,
    }
}

/// The four (motor, direction) pairs of a whole-vehicle drive command, in
/// the order the commands are issued: front left, rear left, front right,
/// rear right.
pub open spec fn drive_dirs(dir: Direction) -> Seq<MotorDirection> {
    seq![
        (MotorDirection { motor: Motor::FrontLeft, dir }),
        (MotorDirection { motor: Motor::RearLeft, dir }),
        (MotorDirection { motor: Motor::FrontRight, dir }),
        (MotorDirection { motor: Motor::RearRight, dir }),
    ]
}

/// The eight transactions of a whole-vehicle drive command: the two
/// writes of each motor's speed command, motor by motor.
pub open spec fn drive_writes(dir: Direction, speed: u16) -> Seq<Transaction> {
    speed_writes(drive_dirs(dir)[0], speed) + speed_writes(drive_dirs(dir)[1], speed)
        + speed_writes(drive_dirs(dir)[2], speed) + speed_writes(drive_dirs(dir)[3], speed)
}

/// How the bus answered one motor command.
pub enum CommandOutcome {
    /// Both writes acknowledged.
    Completed,
    /// The antagonist-off write was refused with this error: nothing was
    /// written.
    OffRefused(BusError),
    /// The active-direction write was refused with this error: only the
    /// antagonist-off write stands.
    DriveRefused(BusError),
}

/// The writes one motor command put on the bus, by its outcome.
pub open spec fn outcome_writes(d: MotorDirection, speed: u16, oc: CommandOutcome) -> Seq<
    Transaction,
> {
    match oc {
        CommandOutcome::Completed => speed_writes(d, speed),
        CommandOutcome::OffRefused(_) => Seq::empty(),
        CommandOutcome::DriveRefused(_) => seq![off_write(d.spec_ant().spec_channel())],
    }
}

/// The writes a run of motor commands put on the bus: each command's
/// contribution, in command order.
pub open spec fn run_writes(
    dirs: Seq<MotorDirection>,
    speed: u16,
    ocs: Seq<CommandOutcome>,
) -> Seq<Transaction>
    decreases dirs.len(),
{
    if dirs.len() == 0 {
        Seq::empty()
    } else {
        outcome_writes(dirs[0], speed, ocs[0]) + run_writes(
            dirs.drop_first(),
            speed,
            ocs.drop_first(),
        )
    }
}

/// The refusals one motor command recorded: none when it completed, the
/// one error it was refused with otherwise.
pub open spec fn outcome_errors(oc: CommandOutcome) -> Seq<BusError> {
    match oc {
        CommandOutcome::Completed => Seq::empty(),
        CommandOutcome::OffRefused(e) => seq![e],
        CommandOutcome::DriveRefused(e) => seq![e],
    }
}

/// The errors a run of motor commands was refused with, in command order:
/// exactly one per refused command.
pub open spec fn run_failures(ocs: Seq<CommandOutcome>) -> Seq<BusError>
    decreases ocs.len(),
{
    if ocs.len() == 0 {
        Seq::empty()
    } else {
        outcome_errors(ocs[0]) + run_failures(ocs.drop_first())
    }
}

/// The result a run of motor commands reports: `Ok` when every command
/// completed, else the first refusal's error, surfaced verbatim.
pub open spec fn run_result(ocs: Seq<CommandOutcome>) -> Result<(), BusError>
    decreases ocs.len(),
{
    if ocs.len() == 0 {
        Ok(())
    } else {
        match ocs[0] {
            CommandOutcome::Completed => run_result(ocs.drop_first()),
            CommandOutcome::OffRefused(e) => Err(e),
            CommandOutcome::DriveRefused(e) => Err(e),
        }
    }
}

/// Relates a best-effort run of motor commands over `dirs` to the bus
/// history `h0 -> h1`, the failure log `f0 -> f1` and its result `r`:
/// every command is attempted, in order, whatever became of the commands
/// before it; each leaves behind what its outcome dictates — its two
/// writes, or nothing, or the antagonist-off write alone, plus one
/// recorded refusal; and `r` is `Ok` exactly when all completed, else the
/// first refusal's error.
pub open spec fn best_effort_drive(
    dirs: Seq<MotorDirection>,
    speed: u16,
    h0: Seq<Transaction>,
    h1: Seq<Transaction>,
    f0: Seq<BusError>,
    f1: Seq<BusError>,
    r: Result<(), BusError>,
) -> bool {
    exists|ocs: Seq<CommandOutcome>|
        #![trigger run_writes(dirs, speed, ocs)]
        ocs.len() == dirs.len() && h1 == h0 + run_writes(dirs, speed, ocs) && f1 == f0
            + run_failures(ocs) && r == run_result(ocs)
}

/// Drive all four motors forward at `speed`, front left, rear left, front
/// right, rear right. Every motor is commanded even when an earlier
/// command fails; the first bus error, if any, is returned — discarding
/// it is the caller's explicit, visible decision.
pub fn go_forward<B: Bus>(bus: &mut B, motors: &mut Motors, speed: u16) -> (r: Result<
    (),
    BusError,
>)
    requires
        speed <= PWM_MAX,
    ensures
        best_effort_drive(
            drive_dirs(Direction::Forward),
            speed,
            old(bus).history(),
            final(bus).history(),
            old(bus).failures(),
            final(bus).failures(),
            r,
        ),
        r is Ok ==> final(bus).history() == old(bus).history() + drive_writes(
            Direction::Forward,
            speed,
        ) && final(bus).failures() == old(bus).failures(),
        r matches Err(e) ==> final(bus).failures().len() > old(bus).failures().len()
            && final(bus).failures()[old(bus).failures().len() as int] == e,
{
    drive_all(bus, motors, Direction::Forward, speed)
}

/// Drive all four motors backward at `speed`, in the same motor order and
/// with the same best-effort failure handling as [`go_forward`].
pub fn go_backward<B: Bus>(bus: &mut B, motors: &mut Motors, speed: u16) -> (r: Result<
    (),
    BusError,
>)
    requires
        speed <= PWM_MAX,
    ensures
        best_effort_drive(
            drive_dirs(Direction::Backward),
            speed,
            old(bus).history(),
            final(bus).history(),
            old(bus).failures(),
            final(bus).failures(),
            r,
        ),
        r is Ok ==> final(bus).history() == old(bus).history() + drive_writes(
            Direction::Backward,
            speed,
        ) && final(bus).failures() == old(bus).failures(),
        r matches Err(e) ==> final(bus).failures().len() > old(bus).failures().len()
            && final(bus).failures()[old(bus).failures().len() as int] == e,
{
    drive_all(bus, motors, Direction::Backward, speed)
}

/// Stop the vehicle: force every direction channel to 0% duty, stopping
/// at the first bus failure and returning its error.
pub fn stop<B: Bus>(bus: &mut B, motors: &mut Motors) -> (r: Result<(), BusError>)
    ensures
        r is Ok ==> final(bus).history() == old(bus).history() + crate::motor::all_off_writes()
            && final(bus).failures() == old(bus).failures(),
        r matches Err(e) ==> extended_by_prefix(
            old(bus).history(),
            final(bus).history(),
            crate::motor::all_off_writes(),
        ) && final(bus).failures() == old(bus).failures().push(e),
{
    motors.all_off(bus)
}

/// Command each of the four motors in turn; a failed command does not
/// keep the later motors from being commanded.
fn drive_all<B: Bus>(bus: &mut B, motors: &mut Motors, dir: Direction, speed: u16) -> (r: Result<
    (),
    BusError,
>)
    requires
        speed <= PWM_MAX,
    ensures
        best_effort_drive(
            drive_dirs(dir),
            speed,
            old(bus).history(),
            final(bus).history(),
            old(bus).failures(),
            final(bus).failures(),
            r,
        ),
        r is Ok ==> final(bus).history() == old(bus).history() + drive_writes(dir, speed)
            && final(bus).failures() == old(bus).failures(),
        r matches Err(e) ==> final(bus).failures().len() > old(bus).failures().len()
            && final(bus).failures()[old(bus).failures().len() as int] == e,
{
    let ghost h0 = old(bus).history();
    let ghost f0 = old(bus).failures();
    let d0 = MotorDirection { motor: Motor::FrontLeft, dir };
    let d1 = MotorDirection { motor: Motor::RearLeft, dir };
    let d2 = MotorDirection { motor: Motor::FrontRight, dir };
    let d3 = MotorDirection { motor: Motor::RearRight, dir };

    let r0 = motors.set_motor_speed(bus, &d0, speed);
    let ghost h1 = bus.history();
    let ghost f1 = bus.failures();
    let r1 = motors.set_motor_speed(bus, &d1, speed);
    let ghost h2 = bus.history();
    let ghost f2 = bus.failures();
    let r2 = motors.set_motor_speed(bus, &d2, speed);
    let ghost h3 = bus.history();
    let ghost f3 = bus.failures();
    let r3 = motors.set_motor_speed(bus, &d3, speed);
    let ghost h4 = bus.history();
    let ghost f4 = bus.failures();

    let result = if r0.is_err() {
        r0
    } else if r1.is_err() {
        r1
    } else if r2.is_err() {
        r2
    } else if r3.is_err() {
        r3
    } else {
        Ok(())
    };

    proof {
        lemma_drive_summary(dir, speed, h0, h1, h2, h3, h4, f0, f1, f2, f3, f4, r0, r1, r2, r3, result);
    }
    result
}

/// The outcome a motor command's result and history delta witness: which
/// of its two writes, if any, the bus refused.
pub open spec fn outcome_of(
    r: Result<(), BusError>,
    before: Seq<Transaction>,
    after: Seq<Transaction>,
) -> CommandOutcome {
    match r {
        Ok(()) => CommandOutcome::Completed,
        Err(e) => if after.len() == before.len() {
            CommandOutcome::OffRefused(e)
        } else {
            CommandOutcome::DriveRefused(e)
        },
    }
}

/// What [`Motors::set_motor_speed`] ensures, restated by outcome: the
/// history grew by exactly the outcome's writes and the failure log by
/// exactly its refusals.
proof fn lemma_command_outcome(
    d: MotorDirection,
    speed: u16,
    h0: Seq<Transaction>,
    h1: Seq<Transaction>,
    f0: Seq<BusError>,
    f1: Seq<BusError>,
    r: Result<(), BusError>,
)
    requires
        r is Ok ==> h1 == h0 + speed_writes(d, speed) && f1 == f0,
        r matches Err(e) ==> (h1 == h0 || h1 == h0.push(off_write(d.spec_ant().spec_channel())))
            && f1 == f0.push(e),
    ensures
        h1 == h0 + outcome_writes(d, speed, outcome_of(r, h0, h1)),
        f1 == f0 + outcome_errors(outcome_of(r, h0, h1)),
{
    match r {
        Ok(_) => {
            assert(f1 =~= f0 + Seq::<BusError>::empty());
        },
        Err(e) => {
            assert(f1 =~= f0 + seq![e]);
            if h1.len() == h0.len() {
                assert(h1 =~= h0 + Seq::<Transaction>::empty());
            } else {
                assert(h1 =~= h0 + seq![off_write(d.spec_ant().spec_channel())]);
            }
        },
    }
}

/// One unfolding of the three run functions on a non-empty command run.
proof fn lemma_run_step(dirs: Seq<MotorDirection>, speed: u16, ocs: Seq<CommandOutcome>)
    requires
        dirs.len() > 0,
        ocs.len() > 0,
    ensures
        run_writes(dirs, speed, ocs) == outcome_writes(dirs[0], speed, ocs[0]) + run_writes(
            dirs.drop_first(),
            speed,
            ocs.drop_first(),
        ),
        run_failures(ocs) == outcome_errors(ocs[0]) + run_failures(ocs.drop_first()),
        run_result(ocs) == (if outcome_errors(ocs[0]).len() > 0 {
            Err(outcome_errors(ocs[0])[0])
        } else {
            run_result(ocs.drop_first())
        }),
{
    match ocs[0] {
        CommandOutcome::Completed => {
        },
        CommandOutcome::OffRefused(e) => {
        },
        CommandOutcome::DriveRefused(e) => {
        },
    }
}

/// The three run functions on the empty command run.
proof fn lemma_run_nil(speed: u16)
    ensures
        run_writes(Seq::empty(), speed, Seq::empty()) == Seq::<Transaction>::empty(),
        run_failures(Seq::empty()) == Seq::<BusError>::empty(),
        run_result(Seq::empty()) == Ok::<(), BusError>(()),
{
}

/// The three run functions unrolled over a run of exactly four commands.
proof fn lemma_run_unroll(dirs: Seq<MotorDirection>, speed: u16, ocs: Seq<CommandOutcome>)
    requires
        dirs.len() == 4,
        ocs.len() == 4,
    ensures
        run_writes(dirs, speed, ocs) == outcome_writes(dirs[0], speed, ocs[0]) + (outcome_writes(
            dirs[1],
            speed,
            ocs[1],
        ) + (outcome_writes(dirs[2], speed, ocs[2]) + outcome_writes(dirs[3], speed, ocs[3]))),
        run_failures(ocs) == outcome_errors(ocs[0]) + (outcome_errors(ocs[1]) + (outcome_errors(
            ocs[2],
        ) + outcome_errors(ocs[3]))),
        run_result(ocs) == (if outcome_errors(ocs[0]).len() > 0 {
            Err(outcome_errors(ocs[0])[0])
        } else if outcome_errors(ocs[1]).len() > 0 {
            Err(outcome_errors(ocs[1])[0])
        } else if outcome_errors(ocs[2]).len() > 0 {
            Err(outcome_errors(ocs[2])[0])
        } else if outcome_errors(ocs[3]).len() > 0 {
            Err(outcome_errors(ocs[3])[0])
        } else {
            Ok(())
        }),
{
    let dirs1 = dirs.drop_first();
    let dirs2 = dirs1.drop_first();
    let dirs3 = dirs2.drop_first();
    let dirs4 = dirs3.drop_first();
    let ocs1 = ocs.drop_first();
    let ocs2 = ocs1.drop_first();
    let ocs3 = ocs2.drop_first();
    let ocs4 = ocs3.drop_first();
    assert(dirs4 =~= Seq::<MotorDirection>::empty());
    assert(ocs4 =~= Seq::<CommandOutcome>::empty());
    assert(dirs1[0] == dirs[1] && dirs2[0] == dirs[2] && dirs3[0] == dirs[3]);
    assert(ocs1[0] == ocs[1] && ocs2[0] == ocs[2] && ocs3[0] == ocs[3]);
    lemma_run_nil(speed);
    lemma_run_step(dirs3, speed, ocs3);
    lemma_run_step(dirs2, speed, ocs2);
    lemma_run_step(dirs1, speed, ocs1);
    lemma_run_step(dirs, speed, ocs);
    assert(run_writes(dirs3, speed, ocs3) =~= outcome_writes(dirs[3], speed, ocs[3]));
    assert(run_failures(ocs3) =~= outcome_errors(ocs[3]));
}

/// Four appends in a row amount to appending the concatenation.
proof fn lemma_concat_four<T>(
    b0: Seq<T>,
    b1: Seq<T>,
    b2: Seq<T>,
    b3: Seq<T>,
    b4: Seq<T>,
    w0: Seq<T>,
    w1: Seq<T>,
    w2: Seq<T>,
    w3: Seq<T>,
)
    requires
        b1 == b0 + w0,
        b2 == b1 + w1,
        b3 == b2 + w2,
        b4 == b3 + w3,
    ensures
        b4 == b0 + (w0 + (w1 + (w2 + w3))),
{
    assert(b4 =~= b0 + (w0 + (w1 + (w2 + w3))));
}

/// Concatenation of four sequences, re-bracketed.
proof fn lemma_reassoc_four<T>(w0: Seq<T>, w1: Seq<T>, w2: Seq<T>, w3: Seq<T>)
    ensures
        w0 + (w1 + (w2 + w3)) == ((w0 + w1) + w2) + w3,
{
    assert(w0 + (w1 + (w2 + w3)) =~= ((w0 + w1) + w2) + w3);
}

/// The whole summary of four best-effort motor commands: given each
/// command's contract facts and the first-error result, the run meets
/// [`best_effort_drive`], and the success and failure clauses of the
/// drive commands hold.
#[verifier::rlimit(100)]
#[verifier::spinoff_prover]
proof fn lemma_drive_summary(
    dir: Direction,
    speed: u16,
    h0: Seq<Transaction>,
    h1: Seq<Transaction>,
    h2: Seq<Transaction>,
    h3: Seq<Transaction>,
    h4: Seq<Transaction>,
    f0: Seq<BusError>,
    f1: Seq<BusError>,
    f2: Seq<BusError>,
    f3: Seq<BusError>,
    f4: Seq<BusError>,
    r0: Result<(), BusError>,
    r1: Result<(), BusError>,
    r2: Result<(), BusError>,
    r3: Result<(), BusError>,
    result: Result<(), BusError>,
)
    requires
        speed <= PWM_MAX,
        r0 is Ok ==> h1 == h0 + speed_writes(drive_dirs(dir)[0], speed) && f1 == f0,
        r0 matches Err(e) ==> (h1 == h0 || h1 == h0.push(
            off_write(drive_dirs(dir)[0].spec_ant().spec_channel()),
        )) && f1 == f0.push(e),
        r1 is Ok ==> h2 == h1 + speed_writes(drive_dirs(dir)[1], speed) && f2 == f1,
        r1 matches Err(e) ==> (h2 == h1 || h2 == h1.push(
            off_write(drive_dirs(dir)[1].spec_ant().spec_channel()),
        )) && f2 == f1.push(e),
        r2 is Ok ==> h3 == h2 + speed_writes(drive_dirs(dir)[2], speed) && f3 == f2,
        r2 matches Err(e) ==> (h3 == h2 || h3 == h2.push(
            off_write(drive_dirs(dir)[2].spec_ant().spec_channel()),
        )) && f3 == f2.push(e),
        r3 is Ok ==> h4 == h3 + speed_writes(drive_dirs(dir)[3], speed) && f4 == f3,
        r3 matches Err(e) ==> (h4 == h3 || h4 == h3.push(
            off_write(drive_dirs(dir)[3].spec_ant().spec_channel()),
        )) && f4 == f3.push(e),
        result == (if r0 is Err {
            r0
        } else if r1 is Err {
            r1
        } else if r2 is Err {
            r2
        } else if r3 is Err {
            r3
        } else {
            Ok(())
        }),
    ensures
        best_effort_drive(drive_dirs(dir), speed, h0, h4, f0, f4, result),
        result is Ok ==> h4 == h0 + drive_writes(dir, speed) && f4 == f0,
        result matches Err(e) ==> f4.len() > f0.len() && f4[f0.len() as int] == e,
{
    let dirs = drive_dirs(dir);
    let oc0 = outcome_of(r0, h0, h1);
    let oc1 = outcome_of(r1, h1, h2);
    let oc2 = outcome_of(r2, h2, h3);
    let oc3 = outcome_of(r3, h3, h4);
    let ocs = seq![oc0, oc1, oc2, oc3];
    lemma_command_outcome(dirs[0], speed, h0, h1, f0, f1, r0);
    lemma_command_outcome(dirs[1], speed, h1, h2, f1, f2, r1);
    lemma_command_outcome(dirs[2], speed, h2, h3, f2, f3, r2);
    lemma_command_outcome(dirs[3], speed, h3, h4, f3, f4, r3);
    let w0 = outcome_writes(dirs[0], speed, oc0);
    let w1 = outcome_writes(dirs[1], speed, oc1);
    let w2 = outcome_writes(dirs[2], speed, oc2);
    let w3 = outcome_writes(dirs[3], speed, oc3);
    let e0 = outcome_errors(oc0);
    let e1 = outcome_errors(oc1);
    let e2 = outcome_errors(oc2);
    let e3 = outcome_errors(oc3);
    lemma_concat_four(h0, h1, h2, h3, h4, w0, w1, w2, w3);
    lemma_concat_four(f0, f1, f2, f3, f4, e0, e1, e2, e3);
    lemma_run_unroll(dirs, speed, ocs);
    assert(h4 == h0 + run_writes(dirs, speed, ocs));
    assert(f4 == f0 + run_failures(ocs));
    assert(result == run_result(ocs));
    assert(best_effort_drive(dirs, speed, h0, h4, f0, f4, result)) by {
        assert(ocs.len() == dirs.len() && h4 == h0 + run_writes(dirs, speed, ocs) && f4 == f0
            + run_failures(ocs) && result == run_result(ocs));
    }
    if result is Err {
        if r0 is Err {
            assert(f4[f0.len() as int] == r0->Err_0);
        } else if r1 is Err {
            assert(f4[f0.len() as int] == r1->Err_0);
        } else if r2 is Err {
            assert(f4[f0.len() as int] == r2->Err_0);
        } else {
            assert(f4[f0.len() as int] == r3->Err_0);
        }
    } else {
        lemma_reassoc_four(w0, w1, w2, w3);
        assert(w0 == speed_writes(dirs[0], speed));
        assert(w1 == speed_writes(dirs[1], speed));
        assert(w2 == speed_writes(dirs[2], speed));
        assert(w3 == speed_writes(dirs[3], speed));
        assert(h4 == h0 + drive_writes(dir, speed));
    }
}

} // verus!
