//! The identity and capability set of the synthetic input device: what the
//! virtual-device handle is built from at startup.

use vstd::prelude::*;
use crate::translate::{AxisId, ButtonId};

verus! {

/// The hardware bus the synthetic device claims to sit on.
#[derive(Clone, Copy, Debug, PartialEq, Eq, Structural)]
pub enum BusKind {
    Bluetooth,
    Usb,
    Virtual,
}

/// The identity the synthetic device announces to the operating system.
/// The numbers mimic a well-known bluetooth game controller so that
/// applications pick the device up as a gamepad.
pub struct DeviceDescriptor {
    pub name: &'static str,
    pub bus: BusKind,
    pub vendor: u16,
    pub product: u16,
    pub version: u16,
    /// Whether the device declares the miscellaneous scan-code capability.
    pub misc_scan: bool,
}

/// The range of one directional hat: its resting position and both extremes.
#[derive(Clone, Copy, Debug, PartialEq, Eq, Structural)]
pub struct AxisSetup {
    pub axis: AxisId,
    pub min: i32,
    pub max: i32,
    pub initial: i32,
}

/// Builds the identity of the synthetic device.
pub fn device_descriptor() -> (d: DeviceDescriptor)
    ensures
        d.name@ == "CEC"@,
        d.bus is Bluetooth,
        d.vendor == 0x45e,
        d.product == 0x2e0,
        d.version == 0x903,
        d.misc_scan,
{
    DeviceDescriptor {
        name: "CEC",
        bus: BusKind::Bluetooth,
        vendor: 0x45e,
        product: 0x2e0,
        version: 0x903,
        misc_scan: true,
    }
}

/// The full button capability set of the synthetic device, in declaration
/// order: every button the mapping table can emit, and the remaining
/// gamepad buttons that round out the controller profile.
pub open spec fn spec_device_buttons() -> Seq<ButtonId> {
    seq![
        ButtonId::South,
        ButtonId::North,
        ButtonId::West,
        ButtonId::East,
        ButtonId::TriggerLeft,
        ButtonId::TriggerRight,
        ButtonId::TriggerLeft2,
        ButtonId::TriggerRight2,
        ButtonId::Start,
        ButtonId::Select,
        ButtonId::Z,
        ButtonId::C,
        ButtonId::MainMenu,
        ButtonId::AuxMenu,
        ButtonId::PlayPause,
        ButtonId::Stop,
        ButtonId::Record,
        ButtonId::Rewind,
        ButtonId::FastForward,
        ButtonId::EjectCd,
        ButtonId::Forward,
        ButtonId::Back,
        ButtonId::StopRecord,
        ButtonId::PauseRecord,
    ]
}

/// Lists the buttons the synthetic device is declared with.
pub fn device_buttons() -> (r: Vec<ButtonId>)
    ensures
        r@ == spec_device_buttons(),
{
    let mut r: Vec<ButtonId> = Vec::new();
    r.push(ButtonId::South);
    r.push(ButtonId::North);
    r.push(ButtonId::West);
    r.push(ButtonId::East);
    r.push(ButtonId::TriggerLeft);
    r.push(ButtonId::TriggerRight);
    r.push(ButtonId::TriggerLeft2);
    r.push(ButtonId::TriggerRight2);
    r.push(ButtonId::Start);
    r.push(ButtonId::Select);
    r.push(ButtonId::Z);
    r.push(ButtonId::C);
    r.push(ButtonId::MainMenu);
    r.push(ButtonId::AuxMenu);
    r.push(ButtonId::PlayPause);
    r.push(ButtonId::Stop);
    r.push(ButtonId::Record);
    r.push(ButtonId::Rewind);
    r.push(ButtonId::FastForward);
    r.push(ButtonId::EjectCd);
    r.push(ButtonId::Forward);
    r.push(ButtonId::Back);
    r.push(ButtonId::StopRecord);
    r.push(ButtonId::PauseRecord);
    assert(r@ =~= spec_device_buttons());
    r
}

/// Lists the two directional hats of the synthetic device, each resting at
/// neutral and ranging over the two extremes.
pub fn device_axes() -> (r: Vec<AxisSetup>)
    ensures
        r@.len() == 2,
        r@[0] == (AxisSetup { axis: AxisId::HatX, min: -1i32, max: 1i32, initial: 0i32 }),
        r@[1] == (AxisSetup { axis: AxisId::HatY, min: -1i32, max: 1i32, initial: 0i32 }),
{
    let mut r: Vec<AxisSetup> = Vec::new();
    r.push(AxisSetup { axis: AxisId::HatX, min: -1, max: 1, initial: 0 });
    r.push(AxisSetup { axis: AxisId::HatY, min: -1, max: 1, initial: 0 });
    r
}

} // verus!
