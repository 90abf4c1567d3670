use cec_bridge::coordinator::{
    apply_quota, on_command, BusCommand, CommandAction, LogicalAddress, Opcode, QuotaState,
    PLAY_HOLD_MS,
};
use cec_bridge::dispatch::DeviceOp;
use cec_bridge::translate::ButtonId;

#[test]
fn tv_active_source_request_lifts_the_quota() {
    let action = on_command(BusCommand {
        opcode: Opcode::RequestActiveSource,
        initiator: LogicalAddress::Tv,
    });
    assert_eq!(action, CommandAction::SetQuota(QuotaState::Unrestricted));
}

#[test]
fn tv_standby_imposes_the_quota() {
    let action = on_command(BusCommand {
        opcode: Opcode::Standby,
        initiator: LogicalAddress::Tv,
    });
    assert_eq!(action, CommandAction::SetQuota(QuotaState::Limited));
}

#[test]
fn non_tv_initiators_trigger_no_quota_change() {
    for initiator in [
        LogicalAddress::RecordingDevice,
        LogicalAddress::Tuner,
        LogicalAddress::PlaybackDevice,
        LogicalAddress::AudioSystem,
        LogicalAddress::Unregistered,
    ] {
        let active = on_command(BusCommand {
            opcode: Opcode::RequestActiveSource,
            initiator,
        });
        let standby = on_command(BusCommand {
            opcode: Opcode::Standby,
            initiator,
        });
        assert_eq!(active, CommandAction::Ignore);
        assert_eq!(standby, CommandAction::Ignore);
    }
}

#[test]
fn play_command_synthesizes_a_held_play_pause_press() {
    let from_tv = on_command(BusCommand {
        opcode: Opcode::Play,
        initiator: LogicalAddress::Tv,
    });
    let from_player = on_command(BusCommand {
        opcode: Opcode::Play,
        initiator: LogicalAddress::PlaybackDevice,
    });
    let expected = CommandAction::Device(DeviceOp::PressAndRelease(ButtonId::PlayPause, 16));
    assert_eq!(PLAY_HOLD_MS, 16);
    assert_eq!(from_tv, expected);
    assert_eq!(from_player, expected);
}

#[test]
fn other_opcodes_are_ignored() {
    let action = on_command(BusCommand {
        opcode: Opcode::Other,
        initiator: LogicalAddress::Tv,
    });
    assert_eq!(action, CommandAction::Ignore);
}

#[test]
fn repeated_standby_is_idempotent_on_the_quota_state() {
    let cmd = BusCommand {
        opcode: Opcode::Standby,
        initiator: LogicalAddress::Tv,
    };
    let first = on_command(cmd);
    let second = on_command(cmd);
    assert_eq!(first, second);

    let after_one = apply_quota(QuotaState::Unrestricted, first);
    let after_two = apply_quota(after_one, second);
    assert_eq!(after_one, QuotaState::Limited);
    assert_eq!(after_two, QuotaState::Limited);
}

#[test]
fn ignored_actions_leave_the_quota_state_alone() {
    let ignore = on_command(BusCommand {
        opcode: Opcode::Other,
        initiator: LogicalAddress::AudioSystem,
    });
    assert_eq!(apply_quota(QuotaState::Limited, ignore), QuotaState::Limited);
    assert_eq!(
        apply_quota(QuotaState::Unrestricted, ignore),
        QuotaState::Unrestricted
    );
}
