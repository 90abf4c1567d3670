//! Translation of CEC remote-control codes into synthetic input events.

use vstd::prelude::*;

verus! {

/// A CEC user-control code: the identifier of a button on the remote, as
/// delivered by the bus. `Other` stands for every code the bridge does not
/// map to a device event.
#[derive(Clone, Copy, Debug, PartialEq, Eq, Structural)]
pub enum RemoteCode {
    Select,
    Up,
    Down,
    Left,
    Right,
    RootMenu,
    SetupMenu,
    ContentsMenu,
    FavoriteMenu,
    Exit,
    TopMenu,
    Enter,
    PreviousChannel,
    DisplayInformation,
    Play,
    Stop,
    Pause,
    Record,
    Rewind,
    FastForward,
    Eject,
    Forward,
    Backward,
    StopRecord,
    PauseRecord,
    VideoOnDemand,
    ElectronicProgramGuide,
    SelectMediaFunction,
    F1Blue,
    F2Red,
    F3Green,
    F4Yellow,
    AnReturn,
    AnChannelsList,
    Other,
}

/// A button of the synthetic game controller.
#[derive(Clone, Copy, Debug, PartialEq, Eq, Structural)]
pub enum ButtonId {
    South,
    East,
    North,
    West,
    C,
    Z,
    TriggerLeft,
    TriggerRight,
    TriggerLeft2,
    TriggerRight2,
    Start,
    Select,
    MainMenu,
    AuxMenu,
    PlayPause,
    Stop,
    Record,
    Rewind,
    FastForward,
    EjectCd,
    Forward,
    Back,
    StopRecord,
    PauseRecord,
}

/// One of the two directional hats of the synthetic controller.
#[derive(Clone, Copy, Debug, PartialEq, Eq, Structural)]
pub enum AxisId {
    HatX,
    HatY,
}

/// What a remote-control code stands for on the synthetic device: either a
/// button, or a directional axis together with the extreme position
/// (`-1` or `1`) that pressing the code drives the axis to.
#[derive(Clone, Copy, Debug, PartialEq, Eq, Structural)]
pub enum SyntheticEvent {
    Button(ButtonId),
    Axis(AxisId, i32),
}

/// The static mapping table from remote-control codes to synthetic events.
/// Total over `RemoteCode`; codes the bridge ignores map to `None`.
pub open spec fn spec_translate(code: RemoteCode) -> Option<SyntheticEvent> {
    match code {
        RemoteCode::Select => Some(SyntheticEvent::Button(ButtonId::South)),
        RemoteCode::Up => Some(SyntheticEvent::Axis(AxisId::HatY, -1i32)),
        RemoteCode::Down => Some(SyntheticEvent::Axis(AxisId::HatY, 1i32)),
        RemoteCode::Left => Some(SyntheticEvent::Axis(AxisId::HatX, -1i32)),
        RemoteCode::Right => Some(SyntheticEvent::Axis(AxisId::HatX, 1i32)),
        RemoteCode::RootMenu => Some(SyntheticEvent::Button(ButtonId::MainMenu)),
        RemoteCode::SetupMenu => Some(SyntheticEvent::Button(ButtonId::MainMenu)),
        RemoteCode::ContentsMenu => Some(SyntheticEvent::Button(ButtonId::MainMenu)),
        RemoteCode::FavoriteMenu => Some(SyntheticEvent::Button(ButtonId::AuxMenu)),
        RemoteCode::Exit => Some(SyntheticEvent::Button(ButtonId::East)),
        RemoteCode::TopMenu => Some(SyntheticEvent::Button(ButtonId::MainMenu)),
        RemoteCode::Enter => Some(SyntheticEvent::Button(ButtonId::Start)),
        RemoteCode::PreviousChannel => Some(SyntheticEvent::Button(ButtonId::MainMenu)),
        RemoteCode::DisplayInformation => Some(SyntheticEvent::Button(ButtonId::Start)),
        RemoteCode::Play => Some(SyntheticEvent::Button(ButtonId::PlayPause)),
        RemoteCode::Stop => Some(SyntheticEvent::Button(ButtonId::Stop)),
        RemoteCode::Pause => Some(SyntheticEvent::Button(ButtonId::PlayPause)),
        RemoteCode::Record => Some(SyntheticEvent::Button(ButtonId::Record)),
        RemoteCode::Rewind => Some(SyntheticEvent::Button(ButtonId::Rewind)),
        RemoteCode::FastForward => Some(SyntheticEvent::Button(ButtonId::FastForward)),
        RemoteCode::Eject => Some(SyntheticEvent::Button(ButtonId::EjectCd)),
        RemoteCode::Forward => Some(SyntheticEvent::Button(ButtonId::Forward)),
        RemoteCode::Backward => Some(SyntheticEvent::Button(ButtonId::Back)),
        RemoteCode::StopRecord => Some(SyntheticEvent::Button(ButtonId::StopRecord)),
        RemoteCode::PauseRecord => Some(SyntheticEvent::Button(ButtonId::PauseRecord)),
        RemoteCode::VideoOnDemand => Some(SyntheticEvent::Button(ButtonId::MainMenu)),
        RemoteCode::ElectronicProgramGuide => Some(SyntheticEvent::Button(ButtonId::MainMenu)),
        RemoteCode::SelectMediaFunction => Some(SyntheticEvent::Button(ButtonId::Start)),
        RemoteCode::F1Blue => Some(SyntheticEvent::Button(ButtonId::C)),
        RemoteCode::F2Red => Some(SyntheticEvent::Button(ButtonId::South)),
        RemoteCode::F3Green => Some(SyntheticEvent::Button(ButtonId::East)),
        RemoteCode::F4Yellow => Some(SyntheticEvent::Button(ButtonId::North)),
        RemoteCode::AnReturn => Some(SyntheticEvent::Button(ButtonId::AuxMenu)),
        RemoteCode::AnChannelsList => Some(SyntheticEvent::Button(ButtonId::AuxMenu)),
        RemoteCode::Other => None,
    }
}

/// Translates a remote-control code to its synthetic event.
///
/// Pure and total: defined for every code, without side effects, and equal
/// to the static mapping table on every input; unmapped codes yield `None`.
pub fn translate(code: RemoteCode) -> (r: Option<SyntheticEvent>)
    ensures
        r == spec_translate(code),
{
    match code {
        RemoteCode::Select => Some(SyntheticEvent::Button(ButtonId::South)),
        RemoteCode::Up => Some(SyntheticEvent::Axis(AxisId::HatY, -1i32)),
        RemoteCode::Down => Some(SyntheticEvent::Axis(AxisId::HatY, 1i32)),
        RemoteCode::Left => Some(SyntheticEvent::Axis(AxisId::HatX, -1i32)),
        RemoteCode::Right => Some(SyntheticEvent::Axis(AxisId::HatX, 1i32)),
        RemoteCode::RootMenu => Some(SyntheticEvent::Button(ButtonId::MainMenu)),
        RemoteCode::SetupMenu => Some(SyntheticEvent::Button(ButtonId::MainMenu)),
        RemoteCode::ContentsMenu => Some(SyntheticEvent::Button(ButtonId::MainMenu)),
        RemoteCode::FavoriteMenu => Some(SyntheticEvent::Button(ButtonId::AuxMenu)),
        RemoteCode::Exit => Some(SyntheticEvent::Button(ButtonId::East)),
        RemoteCode::TopMenu => Some(SyntheticEvent::Button(ButtonId::MainMenu)),
        RemoteCode::Enter => Some(SyntheticEvent::Button(ButtonId::Start)),
        RemoteCode::PreviousChannel => Some(SyntheticEvent::Button(ButtonId::MainMenu)),
        RemoteCode::DisplayInformation => Some(SyntheticEvent::Button(ButtonId::Start)),
        RemoteCode::Play => Some(SyntheticEvent::Button(ButtonId::PlayPause)),
        RemoteCode::Stop => Some(SyntheticEvent::Button(ButtonId::Stop)),
        RemoteCode::Pause => Some(SyntheticEvent::Button(ButtonId::PlayPause)),
        RemoteCode::Record => Some(SyntheticEvent::Button(ButtonId::Record)),
        RemoteCode::Rewind => Some(SyntheticEvent::Button(ButtonId::Rewind)),
        RemoteCode::FastForward => Some(SyntheticEvent::Button(ButtonId::FastForward)),
        RemoteCode::Eject => Some(SyntheticEvent::Button(ButtonId::EjectCd)),
        RemoteCode::Forward => Some(SyntheticEvent::Button(ButtonId::Forward)),
        RemoteCode::Backward => Some(SyntheticEvent::Button(ButtonId::Back)),
        RemoteCode::StopRecord => Some(SyntheticEvent::Button(ButtonId::StopRecord)),
        RemoteCode::PauseRecord => Some(SyntheticEvent::Button(ButtonId::PauseRecord)),
        RemoteCode::VideoOnDemand => Some(SyntheticEvent::Button(ButtonId::MainMenu)),
        RemoteCode::ElectronicProgramGuide => Some(SyntheticEvent::Button(ButtonId::MainMenu)),
        RemoteCode::SelectMediaFunction => Some(SyntheticEvent::Button(ButtonId::Start)),
        RemoteCode::F1Blue => Some(SyntheticEvent::Button(ButtonId::C)),
        RemoteCode::F2Red => Some(SyntheticEvent::Button(ButtonId::South)),
        RemoteCode::F3Green => Some(SyntheticEvent::Button(ButtonId::East)),
        RemoteCode::F4Yellow => Some(SyntheticEvent::Button(ButtonId::North)),
        RemoteCode::AnReturn => Some(SyntheticEvent::Button(ButtonId::AuxMenu)),
        RemoteCode::AnChannelsList => Some(SyntheticEvent::Button(ButtonId::AuxMenu)),
        RemoteCode::Other => None,
    }
}

} // verus!
