//! The command side of the engine: the configuration of one burn, the
//! commands the supervisor accepts, and how each command acts on the
//! cancellation flag. The supervisor thread handles commands strictly one at
//! a time, so these decisions are all it needs.

use vstd::prelude::*;

verus! {

/// Immutable description of one burn operation: the source image, the
/// destination device, and whether to verify the copy afterwards. Created by
/// the caller and consumed once at start time.
#[derive(Debug, Clone)]
pub struct BurnConfig {
    pub iso_path: String,
    pub device_path: String,
    pub verify: bool,
}

/// A control request to the engine's supervisor.
pub enum BurnCommand {
    Start(BurnConfig),
    Cancel,
}

/// What one command does: the cancellation flag's value after it, and the
/// configuration to run, if any.
pub open spec fn handle_command_spec(cmd: BurnCommand) -> (bool, Option<BurnConfig>) {
    match cmd {
        BurnCommand::Start(cfg) => (false, Some(cfg)),
        BurnCommand::Cancel => (true, None),
    }
}

/// Handles one command from the queue: `Start` clears the cancellation flag
/// and yields the operation to run; `Cancel` sets the flag and runs nothing.
/// The supervisor stores the returned flag value and, when a configuration is
/// returned, runs that operation to its terminal event before taking the next
/// command.
pub fn handle_command(cmd: BurnCommand) -> (r: (bool, Option<BurnConfig>))
    ensures
        r == handle_command_spec(cmd),
{
    match cmd {
        BurnCommand::Start(cfg) => (false, Some(cfg)),
        BurnCommand::Cancel => (true, None),
    }
}

/// The cancellation flag after a whole queue of commands has been handled.
pub open spec fn flag_after(init: bool, cmds: Seq<BurnCommand>) -> bool
    decreases cmds.len(),
{
    if cmds.len() == 0 {
        init
    } else {
        flag_after(handle_command_spec(cmds[0]).0, cmds.subrange(1, cmds.len() as int))
    }
}

/// Law: a cancel request before a start is invisible. `Cancel` runs no
/// operation and emits no event, and whatever commands came before, an
/// operation begun by `Start` always begins with the cancellation flag
/// cleared — so a cancel that precedes the start leaves no trace.
pub proof fn lemma_cancel_before_start_unobservable(init: bool, cmds: Seq<BurnCommand>, cfg: BurnConfig)
    requires
        cmds.len() > 0,
        cmds.last() == BurnCommand::Start(cfg),
    ensures
        handle_command_spec(BurnCommand::Cancel).1 is None,
        flag_after(init, cmds) == false,
    decreases cmds.len(),
{
    if cmds.len() == 1 {
        assert(cmds[0] == BurnCommand::Start(cfg));
        assert(cmds.subrange(1, 1).len() == 0);
        assert(flag_after(init, cmds) == flag_after(false, cmds.subrange(1, 1)));
    } else {
        let rest = cmds.subrange(1, cmds.len() as int);
        assert(rest.last() == cmds.last());
        lemma_cancel_before_start_unobservable(handle_command_spec(cmds[0]).0, rest, cfg);
    }
}

} // verus!
