use cec_bridge::coordinator::QuotaState;
use cec_bridge::device::{device_axes, device_buttons, device_descriptor, BusKind};
use cec_bridge::quota::{quota_command_args, quota_outcome, quota_program, quota_property, QuotaError};
use cec_bridge::translate::{AxisId, ButtonId};

#[test]
fn limiting_args_set_the_ten_percent_quota() {
    assert_eq!(quota_program(), "systemctl");
    let args = quota_command_args(QuotaState::Limited);
    assert_eq!(
        args,
        vec!["set-property", "--runtime", "user-1000.slice", "CPUQuota=10%"]
    );
}

#[test]
fn unlimiting_args_clear_the_quota() {
    let args = quota_command_args(QuotaState::Unrestricted);
    assert_eq!(
        args,
        vec!["set-property", "--runtime", "user-1000.slice", "CPUQuota="]
    );
    assert_eq!(quota_property(QuotaState::Unrestricted), "CPUQuota=");
}

#[test]
fn quota_outcome_follows_the_exit_status() {
    assert_eq!(quota_outcome(true), Ok(()));
    assert_eq!(quota_outcome(false), Err(QuotaError::CommandFailed));
}

#[test]
fn descriptor_mimics_a_bluetooth_gamepad() {
    let d = device_descriptor();
    assert_eq!(d.name, "CEC");
    assert!(matches!(d.bus, BusKind::Bluetooth));
    assert_eq!(d.vendor, 0x45e);
    assert_eq!(d.product, 0x2e0);
    assert_eq!(d.version, 0x903);
    assert!(d.misc_scan);
}

#[test]
fn capability_set_covers_every_mapped_button() {
    let buttons = device_buttons();
    assert_eq!(buttons.len(), 24);
    for b in [
        ButtonId::South,
        ButtonId::East,
        ButtonId::North,
        ButtonId::C,
        ButtonId::Start,
        ButtonId::MainMenu,
        ButtonId::AuxMenu,
        ButtonId::PlayPause,
        ButtonId::Stop,
        ButtonId::Record,
        ButtonId::Rewind,
        ButtonId::FastForward,
        ButtonId::EjectCd,
        ButtonId::Forward,
        ButtonId::Back,
        ButtonId::StopRecord,
        ButtonId::PauseRecord,
    ] {
        assert!(buttons.contains(&b), "missing button {:?}", b);
    }
}

#[test]
fn both_hats_range_over_the_extremes() {
    let axes = device_axes();
    assert_eq!(axes.len(), 2);
    assert_eq!(axes[0].axis, AxisId::HatX);
    assert_eq!(axes[1].axis, AxisId::HatY);
    for a in axes {
        assert_eq!(a.min, -1);
        assert_eq!(a.max, 1);
        assert_eq!(a.initial, 0);
    }
}
