//! Transport decisions: which state a pause toggle asks for, and where a
//! relative seek lands.

use vstd::prelude::*;
use vstd::string::*;
use crate::command::{parse_command, spec_parse, Command, CommandView};
use crate::text::{decimal, decimal_string};

verus! {

/// Nanoseconds in a millisecond.
pub const NS_PER_MS: u64 = 1_000_000;

/// Lifecycle state of the pipeline.
#[derive(Clone, Copy, Debug, PartialEq, Eq, Structural)]
pub enum PipelineState {
    /// No state: what the pipeline reports when no change is pending.
    VoidPending,
    /// Stopped, with all resources released.
    Null,
    /// Stopped, with resources allocated.
    Ready,
    /// Prerolled and holding its position.
    Paused,
    /// Running.
    Playing,
}

/// The state a pause toggle asks for when the pipeline is in `current`.
pub open spec fn spec_toggle_target(current: PipelineState) -> PipelineState {
    if current == PipelineState::Playing {
        PipelineState::Paused
    } else {
        PipelineState::Playing
    }
}

/// The state to request when the user toggles pause: `Paused` if the
/// pipeline is playing, `Playing` otherwise.
pub fn toggle_target(current: PipelineState) -> (r: PipelineState)
    ensures
        r == spec_toggle_target(current),
{
    match current {
        PipelineState::Playing => PipelineState::Paused,
        _ => PipelineState::Playing,
    }
}

/// `x` held inside `[0, upper]`, or only kept non-negative when there is no
/// upper bound. The lower bound is applied first.
pub open spec fn clamp_target(x: int, upper: Option<int>) -> int {
    let floored = if x < 0 { 0 } else { x };
    match upper {
        Some(d) => if floored > d { d } else { floored },
        None => floored,
    }
}

/// Where a seek by `delta_ms` lands, in milliseconds, from a position and a
/// duration given in nanoseconds.
pub open spec fn spec_seek_target(position_ns: u64, duration_ns: Option<u64>, delta_ms: i64) -> int {
    clamp_target(
        position_ns as int / 1_000_000 + delta_ms as int,
        match duration_ns {
            Some(d) => Some(d as int / 1_000_000),
            None => None,
        },
    )
}

/// Target of a relative seek in milliseconds: the position plus `delta_ms`,
/// never below zero and never past the duration when that is known.
pub fn seek_target(position_ns: u64, duration_ns: Option<u64>, delta_ms: i64) -> (target_ms: u64)
    ensures
        target_ms as int == spec_seek_target(position_ns, duration_ns, delta_ms),
        duration_ns matches Some(d) ==> target_ms <= d / NS_PER_MS,
{
    let position_ms: u64 = position_ns / NS_PER_MS;
    let floored: u64 = if delta_ms >= 0 {
        position_ms + (delta_ms as u64)
    } else {
        let back: u64 = if delta_ms == i64::MIN {
            0x8000_0000_0000_0000u64
        } else {
            (-delta_ms) as u64
        };
        if back > position_ms {
            0
        } else {
            position_ms - back
        }
    };
    match duration_ns {
        Some(d) => {
            let duration_ms: u64 = d / NS_PER_MS;
            if floored > duration_ms {
                duration_ms
            } else {
                floored
            }
        },
        None => floored,
    }
}

/// The name of a state as it is printed.
pub open spec fn spec_state_name(s: PipelineState) -> Seq<char> {
    match s {
        PipelineState::VoidPending => "VoidPending"@,
        PipelineState::Null => "Null"@,
        PipelineState::Ready => "Ready"@,
        PipelineState::Paused => "Paused"@,
        PipelineState::Playing => "Playing"@,
    }
}

/// The name of a state as it is printed.
pub fn state_name(s: PipelineState) -> (r: &'static str)
    ensures
        r@ == spec_state_name(s),
{
    match s {
        PipelineState::VoidPending => "VoidPending",
        PipelineState::Null => "Null",
        PipelineState::Ready => "Ready",
        PipelineState::Paused => "Paused",
        PipelineState::Playing => "Playing",
    }
}

/// What the pipeline reports when it is asked just before a command is
/// carried out.
#[derive(Clone, Copy, Debug, PartialEq, Eq)]
pub struct Snapshot {
    /// Current lifecycle state.
    pub state: PipelineState,
    /// Current position in nanoseconds, if the pipeline reports one yet.
    pub position_ns: Option<u64>,
    /// Duration in nanoseconds, if known.
    pub duration_ns: Option<u64>,
}

/// What the controller does with one line of input.
#[derive(Clone, Debug, PartialEq, Eq)]
pub enum ControlAction {
    /// Nothing; read the next line.
    Nothing,
    /// Print the notice; read the next line.
    Notice(String),
    /// Request the state, whatever the outcome print the notice, and read
    /// the next line.
    SetState { target: PipelineState, notice: String },
    /// Issue a flushing, keyframe-aligned seek to the target; if it
    /// succeeds print the notice and read the next line, if it fails end the
    /// controller with that failure.
    Seek { target_ms: u64, notice: String },
    /// Print the notice, request the `Null` state and stop reading.
    Quit { notice: String },
}

/// A control action with its text as a sequence of characters.
pub enum ControlActionView {
    Nothing,
    Notice(Seq<char>),
    SetState { target: PipelineState, notice: Seq<char> },
    Seek { target_ms: u64, notice: Seq<char> },
    Quit { notice: Seq<char> },
}

impl View for ControlAction {
    type V = ControlActionView;

    open spec fn view(&self) -> ControlActionView {
        match self {
            ControlAction::Nothing => ControlActionView::Nothing,
            ControlAction::Notice(n) => ControlActionView::Notice(n@),
            ControlAction::SetState { target, notice } => ControlActionView::SetState {
                target: *target,
                notice: notice@,
            },
            ControlAction::Seek { target_ms, notice } => ControlActionView::Seek {
                target_ms: *target_ms,
                notice: notice@,
            },
            ControlAction::Quit { notice } => ControlActionView::Quit { notice: notice@ },
        }
    }
}

/// The line printed after a state request.
pub open spec fn state_notice(target: PipelineState) -> Seq<char> {
    "State -> "@ + spec_state_name(target)
}

/// The line printed after a seek.
pub open spec fn seek_notice(target_ms: u64) -> Seq<char> {
    "Seek -> "@ + decimal(target_ms as nat) + " ms"@
}

/// The line printed for a command that is not known.
pub open spec fn unknown_notice(raw: Seq<char>) -> Seq<char> {
    "Unknown command: '"@ + raw + "'. Use p/s/r/q."@
}

/// The line printed when the user quits.
pub open spec fn quit_notice() -> Seq<char> {
    "Quitting\u{2026}"@
}

/// The action for a seek by `delta_ms`: none while the pipeline reports no
/// position, else a seek to the clamped target.
pub open spec fn spec_seek_action(snapshot: Snapshot, delta_ms: i64) -> ControlActionView {
    match snapshot.position_ns {
        None => ControlActionView::Nothing,
        Some(p) => {
            let t = spec_seek_target(p, snapshot.duration_ns, delta_ms) as u64;
            ControlActionView::Seek { target_ms: t, notice: seek_notice(t) }
        },
    }
}

/// The action that a command calls for, given what the pipeline reports.
pub open spec fn spec_apply(cmd: CommandView, snapshot: Snapshot) -> ControlActionView {
    match cmd {
        CommandView::TogglePause => {
            let target = spec_toggle_target(snapshot.state);
            ControlActionView::SetState { target, notice: state_notice(target) }
        },
        CommandView::SeekForward(d) => spec_seek_action(snapshot, d as i64),
        CommandView::SeekBackward(d) => spec_seek_action(snapshot, (-(d as int)) as i64),
        CommandView::Quit => ControlActionView::Quit { notice: quit_notice() },
        CommandView::Unknown(raw) => ControlActionView::Notice(unknown_notice(raw)),
    }
}

/// The action that a line of input calls for.
pub open spec fn spec_control_step(line: Seq<char>, snapshot: Snapshot) -> ControlActionView {
    match spec_parse(line) {
        None => ControlActionView::Nothing,
        Some(cmd) => spec_apply(cmd, snapshot),
    }
}

/// A relative seek as an action: nothing while the position is not
/// reported, else a seek to the clamped target with its notice.
pub fn seek_relative(snapshot: &Snapshot, delta_ms: i64) -> (r: ControlAction)
    ensures
        r@ == spec_seek_action(*snapshot, delta_ms),
{
    match snapshot.position_ns {
        None => ControlAction::Nothing,
        Some(p) => {
            let target_ms: u64 = seek_target(p, snapshot.duration_ns, delta_ms);
            let mut notice: String = String::from_str("Seek -> ");
            let digits: String = decimal_string(target_ms);
            notice.append(digits.as_str());
            notice.append(" ms");
            ControlAction::Seek { target_ms, notice }
        },
    }
}

/// Decides what to do for a parsed command.
pub fn apply_command(cmd: Command, snapshot: &Snapshot) -> (r: ControlAction)
    ensures
        r@ == spec_apply(cmd@, *snapshot),
{
    match cmd {
        Command::TogglePause => {
            let target: PipelineState = toggle_target(snapshot.state);
            let notice: String = String::from_str("State -> ").concat(state_name(target));
            ControlAction::SetState { target, notice }
        },
        Command::SeekForward(d) => seek_relative(snapshot, d as i64),
        Command::SeekBackward(d) => seek_relative(snapshot, -(d as i64)),
        Command::Quit => ControlAction::Quit { notice: String::from_str("Quitting\u{2026}") },
        Command::Unknown(raw) => {
            let notice: String = String::from_str("Unknown command: '").concat(raw.as_str()).concat(
                "'. Use p/s/r/q.",
            );
            ControlAction::Notice(notice)
        },
    }
}

/// Decides what to do for one line of input: nothing for a blank line, else
/// what its command calls for.
pub fn control_step(line: &str, snapshot: &Snapshot) -> (r: ControlAction)
    ensures
        r@ == spec_control_step(line@, *snapshot),
{
    match parse_command(line) {
        None => ControlAction::Nothing,
        Some(cmd) => apply_command(cmd, snapshot),
    }
}

/// What the controller does once an action's request has been made.
#[derive(Clone, Copy, Debug, PartialEq, Eq, Structural)]
pub enum Next {
    /// Read the next line.
    Continue,
    /// Stop reading; the controller ends cleanly.
    Stop,
    /// Stop reading; the controller ends with the failure of its request.
    Fail,
}

/// Whether the notice of an action is printed, and how the controller goes
/// on, given whether the action's request to the pipeline succeeded.
#[derive(Clone, Copy, Debug, PartialEq, Eq, Structural)]
pub struct FollowUp {
    pub print: bool,
    pub next: Next,
}

/// The follow-up of an action. A state request is fire-and-forget: its
/// notice is printed whether or not it succeeded. A failed seek prints
/// nothing and ends the controller. Quitting always stops.
pub open spec fn spec_follow_up(action: ControlActionView, request_ok: bool) -> FollowUp {
    match action {
        ControlActionView::Nothing => FollowUp { print: false, next: Next::Continue },
        ControlActionView::Notice(_) => FollowUp { print: true, next: Next::Continue },
        ControlActionView::SetState { .. } => FollowUp { print: true, next: Next::Continue },
        ControlActionView::Seek { .. } => if request_ok {
            FollowUp { print: true, next: Next::Continue }
        } else {
            FollowUp { print: false, next: Next::Fail }
        },
        ControlActionView::Quit { .. } => FollowUp { print: true, next: Next::Stop },
    }
}

/// Decides what follows an action, given whether its request to the
/// pipeline succeeded (`request_ok` is not read for actions that make no
/// request).
pub fn follow_up(action: &ControlAction, request_ok: bool) -> (r: FollowUp)
    ensures
        r == spec_follow_up(action@, request_ok),
{
    match action {
        ControlAction::Nothing => FollowUp { print: false, next: Next::Continue },
        ControlAction::Notice(_) => FollowUp { print: true, next: Next::Continue },
        ControlAction::SetState { .. } => FollowUp { print: true, next: Next::Continue },
        ControlAction::Seek { .. } => {
            if request_ok {
                FollowUp { print: true, next: Next::Continue }
            } else {
                FollowUp { print: false, next: Next::Fail }
            }
        },
        ControlAction::Quit { .. } => FollowUp { print: true, next: Next::Stop },
    }
}

/// The largest number of nanoseconds that a pipeline clock time can hold.
pub const MAX_CLOCK_NS: u64 = 0xFFFF_FFFF_FFFF_FFFE;

/// A seek target in nanoseconds, if it fits in a pipeline clock time.
pub fn target_ns(target_ms: u64) -> (r: Option<u64>)
    ensures
        target_ms * NS_PER_MS <= MAX_CLOCK_NS ==> r == Some((target_ms * NS_PER_MS) as u64),
        target_ms * NS_PER_MS > MAX_CLOCK_NS ==> r is None,
{
    if target_ms <= MAX_CLOCK_NS / NS_PER_MS {
        assert(target_ms * NS_PER_MS <= MAX_CLOCK_NS) by (nonlinear_arith)
            requires
                target_ms <= MAX_CLOCK_NS / NS_PER_MS,
                NS_PER_MS == 1_000_000,
                MAX_CLOCK_NS == 0xFFFF_FFFF_FFFF_FFFE,
        ;
        Some(target_ms * NS_PER_MS)
    } else {
        assert(target_ms * NS_PER_MS > MAX_CLOCK_NS) by (nonlinear_arith)
            requires
                target_ms > MAX_CLOCK_NS / NS_PER_MS,
                NS_PER_MS == 1_000_000,
                MAX_CLOCK_NS == 0xFFFF_FFFF_FFFF_FFFE,
        ;
        None
    }
}

/// A clamped seek target is never negative and, where the duration is known
/// and not negative, never past it.
pub proof fn lemma_clamp_target_bounds(x: int, upper: Option<int>)
    ensures
        upper is None ==> clamp_target(x, upper) >= 0,
        upper matches Some(d) ==> (d >= 0 ==> 0 <= clamp_target(x, upper) <= d),
{
}

/// The target of a relative seek is never negative, never past the
/// duration in milliseconds when the duration is known, and the position
/// moved by the delta whenever that lies within those bounds.
pub proof fn lemma_seek_target_bounds(position_ns: u64, duration_ns: Option<u64>, delta_ms: i64)
    ensures
        0 <= spec_seek_target(position_ns, duration_ns, delta_ms) <= u64::MAX,
        duration_ns matches Some(d) ==> spec_seek_target(position_ns, duration_ns, delta_ms) <= d
            / 1_000_000,
        ({
            let moved = position_ns / 1_000_000 + delta_ms;
            0 <= moved && (duration_ns matches Some(d) ==> moved <= d / 1_000_000)
                ==> spec_seek_target(position_ns, duration_ns, delta_ms) == moved
        }),
{
}

/// Toggling alternates: from `Playing` it asks for `Paused`, from `Paused`
/// for `Playing`, so two toggles in a row, each seeing the state that the
/// one before asked for, end on the state that the first one saw.
pub proof fn lemma_toggle_alternates(s: PipelineState)
    ensures
        spec_toggle_target(PipelineState::Playing) == PipelineState::Paused,
        spec_toggle_target(PipelineState::Paused) == PipelineState::Playing,
        (s == PipelineState::Playing || s == PipelineState::Paused) ==> spec_toggle_target(
            spec_toggle_target(s),
        ) == s,
        spec_toggle_target(spec_toggle_target(spec_toggle_target(s))) == spec_toggle_target(s),
{
}

/// Two pause commands in a row, with nothing else changing the pipeline,
/// come back to where they started: if the first sees `Playing` or `Paused`
/// and the second sees the state that the first asked for, the second asks
/// for the state that the first saw.
pub proof fn lemma_two_toggles_return(first: Seq<char>, second: Seq<char>, snapshot: Snapshot)
    requires
        spec_parse(first) == Some(CommandView::TogglePause),
        spec_parse(second) == Some(CommandView::TogglePause),
        snapshot.state == PipelineState::Playing || snapshot.state == PipelineState::Paused,
    ensures
        spec_control_step(first, snapshot) matches ControlActionView::SetState { target: asked, .. }
            && asked != snapshot.state && (spec_control_step(
            second,
            Snapshot { state: asked, ..snapshot },
        ) matches ControlActionView::SetState { target: back, .. } && back == snapshot.state),
{
}

} // verus!
