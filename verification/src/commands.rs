//! Timer commands and diagnostic values.
//!
//! A tick's outcome is a sequence of commands for the host timer plus a set
//! of typed diagnostic values refreshed for observability. The end-of-run
//! flush — a bounded run of skip-splits followed by one split — lives here
//! as the sub-protocol shared by every mode that can finish a run with
//! checkpoint splits still pending.
use vstd::prelude::*;

use crate::states::PlayerState;
use crate::states::StageState;
use crate::states::Stages;
use crate::states::TimeTrialState;

verus! {

/// How many skip-splits the end-of-run flush emits before its final split:
/// enough to walk the split cursor past any realistic number of pending
/// per-checkpoint slots.
pub const FLUSH_SKIP_COUNT: usize = 100;

/// One command to the host timer. Durations are in nanoseconds.
#[derive(Clone, Copy, PartialEq, Eq, Structural, Debug)]
pub enum TimerCommand {
    Start,
    Split,
    SkipSplit,
    Reset,
    PauseGameTime,
    ResumeGameTime,
    SetGameTime(i64),
}

/// One diagnostic key/value pair, refreshed each tick for observability.
/// Times are centisecond counts; the load progress is the raw bit pattern
/// of the game's 32-bit encoding.
#[derive(Clone, Copy, PartialEq, Eq, Structural, Debug)]
pub enum Diag {
    Player(PlayerState),
    Loading(bool),
    Level(Stages),
    Checkpoint(i32),
    StageStep(StageState),
    Boss(u32),
    SpookyQte(bool),
    TrialBonus(u64),
    TrialTimer(i64),
    TrialState(TimeTrialState),
    LoadProgressBits(u32),
    IgtAccumulated(i64),
}

/// A run of `n` skip-split commands.
pub open spec fn skip_seq(n: int) -> Seq<TimerCommand> {
    Seq::new(n as nat, |i: int| TimerCommand::SkipSplit)
}

/// What the end-of-run flush emits: exactly [`FLUSH_SKIP_COUNT`] skip-splits
/// followed by exactly one split.
pub open spec fn flush_cmds() -> Seq<TimerCommand> {
    skip_seq(FLUSH_SKIP_COUNT as int).push(TimerCommand::Split)
}

/// Appends `n` skip-split commands.
pub fn push_skips(cmds: &mut Vec<TimerCommand>, n: usize)
    ensures
        final(cmds)@ == old(cmds)@ + skip_seq(n as int),
{
    let mut i: usize = 0;
    while i < n
        invariant
            i <= n,
            cmds@ == old(cmds)@ + skip_seq(i as int),
        decreases n - i,
    {
        cmds.push(TimerCommand::SkipSplit);
        i = i + 1;
        assert(cmds@ =~= old(cmds)@ + skip_seq(i as int));
    }
    assert(cmds@ =~= old(cmds)@ + skip_seq(n as int));
}

/// The end-of-run flush: emits the bounded run of skip-splits and the final
/// split, guaranteeing the timer reaches its last split slot even when
/// mid-run checkpoint splits were skipped.
pub fn end_of_run_flush(cmds: &mut Vec<TimerCommand>)
    ensures
        final(cmds)@ == old(cmds)@ + flush_cmds(),
{
    push_skips(cmds, FLUSH_SKIP_COUNT);
    cmds.push(TimerCommand::Split);
    assert(cmds@ =~= old(cmds)@ + flush_cmds());
}

} // verus!
