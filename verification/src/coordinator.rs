//! Coordination of bus commands: TV power transitions drive the host CPU
//! quota, and bus-delivered play commands drive the virtual device.

use vstd::prelude::*;
use crate::dispatch::DeviceOp;
use crate::translate::ButtonId;

verus! {

/// How long the synthesized play/pause press is held, in milliseconds.
pub const PLAY_HOLD_MS: u64 = 16;

/// A CEC bus command opcode, as far as the coordinator distinguishes them.
/// `Other` stands for every opcode the coordinator ignores.
#[derive(Clone, Copy, Debug, PartialEq, Eq, Structural)]
pub enum Opcode {
    RequestActiveSource,
    Standby,
    Play,
    Other,
}

/// The class of a CEC bus participant. Only `Tv` carries meaning for the
/// coordinator; the remaining classes cover every other logical address.
#[derive(Clone, Copy, Debug, PartialEq, Eq, Structural)]
pub enum LogicalAddress {
    Tv,
    RecordingDevice,
    Tuner,
    PlaybackDevice,
    AudioSystem,
    Reserved,
    FreeUse,
    Unregistered,
}

/// A CEC protocol command distinct from a keypress.
#[derive(Clone, Copy, Debug, PartialEq, Eq, Structural)]
pub struct BusCommand {
    pub opcode: Opcode,
    pub initiator: LogicalAddress,
}

/// The CPU quota of the host user session: either unrestricted, or capped
/// at the fixed restricted percentage.
#[derive(Clone, Copy, Debug, PartialEq, Eq, Structural)]
pub enum QuotaState {
    Unrestricted,
    Limited,
}

/// The side effect a bus command calls for.
#[derive(Clone, Copy, Debug, PartialEq, Eq, Structural)]
pub enum CommandAction {
    /// Invoke the external CPU-quota command, setting the session to the
    /// given absolute state.
    SetQuota(QuotaState),
    /// Perform the given operation on the virtual input device.
    Device(DeviceOp),
    /// Do nothing.
    Ignore,
}

/// The dispatch table of the coordinator: an active-source request from the
/// TV lifts the CPU restriction, a standby from the TV imposes it, a play
/// command from anyone synthesizes a brief play/pause press, and every
/// other command is ignored.
pub open spec fn spec_on_command(cmd: BusCommand) -> CommandAction {
    match cmd.opcode {
        Opcode::RequestActiveSource => if cmd.initiator is Tv {
            CommandAction::SetQuota(QuotaState::Unrestricted)
        } else {
            CommandAction::Ignore
        },
        Opcode::Standby => if cmd.initiator is Tv {
            CommandAction::SetQuota(QuotaState::Limited)
        } else {
            CommandAction::Ignore
        },
        Opcode::Play => CommandAction::Device(
            DeviceOp::PressAndRelease(ButtonId::PlayPause, PLAY_HOLD_MS),
        ),
        Opcode::Other => CommandAction::Ignore,
    }
}

/// Decides what side effect one bus command calls for.
///
/// `(RequestActiveSource, Tv)` always yields the quota lift,
/// `(Standby, Tv)` always yields the quota restriction, `Play` from any
/// initiator yields the held play/pause press, and everything else —
/// including power commands from non-TV initiators — yields nothing.
pub fn on_command(cmd: BusCommand) -> (a: CommandAction)
    ensures
        a == spec_on_command(cmd),
        (a == CommandAction::SetQuota(QuotaState::Unrestricted)) <==> (cmd.opcode
            is RequestActiveSource && cmd.initiator is Tv),
        (a == CommandAction::SetQuota(QuotaState::Limited)) <==> (cmd.opcode is Standby
            && cmd.initiator is Tv),
{
    match cmd.opcode {
        Opcode::RequestActiveSource => if matches!(cmd.initiator, LogicalAddress::Tv) {
            CommandAction::SetQuota(QuotaState::Unrestricted)
        } else {
            CommandAction::Ignore
        },
        Opcode::Standby => if matches!(cmd.initiator, LogicalAddress::Tv) {
            CommandAction::SetQuota(QuotaState::Limited)
        } else {
            CommandAction::Ignore
        },
        Opcode::Play => CommandAction::Device(
            DeviceOp::PressAndRelease(ButtonId::PlayPause, PLAY_HOLD_MS),
        ),
        Opcode::Other => CommandAction::Ignore,
    }
}

/// The conceptual two-state quota machine: a quota action moves the session
/// to the commanded absolute state, every other action leaves it alone.
pub open spec fn spec_apply_quota(s: QuotaState, a: CommandAction) -> QuotaState {
    match a {
        CommandAction::SetQuota(q) => q,
        _ => s,
    }
}

/// Applies a coordinator action to the conceptual quota state.
pub fn apply_quota(s: QuotaState, a: CommandAction) -> (r: QuotaState)
    ensures
        r == spec_apply_quota(s, a),
{
    match a {
        CommandAction::SetQuota(q) => q,
        _ => s,
    }
}

/// A TV power transition commands an absolute quota value, so repeating the
/// same bus command is harmless: applying its action twice leaves the quota
/// exactly where applying it once does.
pub proof fn lemma_quota_idempotent(s: QuotaState, cmd: BusCommand)
    ensures
        spec_apply_quota(spec_apply_quota(s, spec_on_command(cmd)), spec_on_command(cmd))
            == spec_apply_quota(s, spec_on_command(cmd)),
{
}

/// Only TV-initiated power commands touch the quota: an active-source
/// request from the TV always commands the unrestricted state, a standby
/// from the TV always commands the limited state, and the same opcodes from
/// any other initiator command nothing at all.
pub proof fn lemma_quota_triggers(cmd: BusCommand)
    ensures
        (spec_on_command(cmd) == CommandAction::SetQuota(QuotaState::Unrestricted)) <==> (
        cmd.opcode is RequestActiveSource && cmd.initiator is Tv),
        (spec_on_command(cmd) == CommandAction::SetQuota(QuotaState::Limited)) <==> (cmd.opcode
            is Standby && cmd.initiator is Tv),
        !(cmd.initiator is Tv) && !(cmd.opcode is Play) ==> spec_on_command(cmd)
            == CommandAction::Ignore,
{
}

} // verus!
