//! Dispatch of keypress notifications into virtual-device operations.

use vstd::prelude::*;
use crate::translate::{spec_translate, AxisId, ButtonId, RemoteCode, SyntheticEvent, translate};

verus! {

/// A keypress notification from the bus. A duration of zero announces the
/// press (key-down); a nonzero duration announces the release (key-up) of
/// the same physical press.
#[derive(Clone, Copy, Debug, PartialEq, Eq, Structural)]
pub struct KeyPressEvent {
    pub code: RemoteCode,
    pub duration_ms: u64,
}

/// One operation to perform on the virtual input device.
#[derive(Clone, Copy, Debug, PartialEq, Eq, Structural)]
pub enum DeviceOp {
    /// Emit a key-down event for the button.
    Press(ButtonId),
    /// Emit a key-up event for the button.
    Release(ButtonId),
    /// Emit an absolute-axis event putting the hat at the position.
    SetAxis(AxisId, i32),
    /// Emit key-down, hold for the given number of milliseconds, then emit
    /// key-up, with no other device operation allowed in between.
    PressAndRelease(ButtonId, u64),
}

/// The device operation a keypress notification calls for: a down event or
/// the mapped axis extreme on a press, an up event or the neutral axis
/// position on a release, and nothing at all for an unmapped code.
pub open spec fn spec_key_press_op(ev: KeyPressEvent) -> Option<DeviceOp> {
    match spec_translate(ev.code) {
        None => None,
        Some(SyntheticEvent::Button(b)) => if ev.duration_ms == 0 {
            Some(DeviceOp::Press(b))
        } else {
            Some(DeviceOp::Release(b))
        },
        Some(SyntheticEvent::Axis(a, pos)) => if ev.duration_ms == 0 {
            Some(DeviceOp::SetAxis(a, pos))
        } else {
            Some(DeviceOp::SetAxis(a, 0i32))
        },
    }
}

/// Decides what the virtual device must do for one keypress notification.
///
/// Presses (`duration_ms == 0`) of a button code ask for a down event, of a
/// directional code for the axis at its mapped extreme; releases ask for an
/// up event, or for the axis back at neutral regardless of direction.
/// Unmapped codes ask for nothing.
pub fn key_press_op(ev: KeyPressEvent) -> (r: Option<DeviceOp>)
    ensures
        r == spec_key_press_op(ev),
{
    match translate(ev.code) {
        None => None,
        Some(SyntheticEvent::Button(b)) => if ev.duration_ms == 0 {
            Some(DeviceOp::Press(b))
        } else {
            Some(DeviceOp::Release(b))
        },
        Some(SyntheticEvent::Axis(a, pos)) => if ev.duration_ms == 0 {
            Some(DeviceOp::SetAxis(a, pos))
        } else {
            Some(DeviceOp::SetAxis(a, 0i32))
        },
    }
}

/// The device operations a sequence of keypress notifications calls for,
/// in delivery order; notifications of unmapped codes contribute none.
pub open spec fn ops_of(evs: Seq<KeyPressEvent>) -> Seq<DeviceOp>
    decreases evs.len(),
{
    if evs.len() == 0 {
        Seq::empty()
    } else {
        let rest = ops_of(evs.drop_first());
        match spec_key_press_op(evs[0]) {
            Some(op) => seq![op] + rest,
            None => rest,
        }
    }
}

/// The mapping table is a fixed function of the code alone: translating the
/// same code always yields the same synthetic event.
pub proof fn lemma_translate_deterministic(c1: RemoteCode, c2: RemoteCode)
    ensures
        c1 == c2 ==> spec_translate(c1) == spec_translate(c2),
{
}

/// For a code mapped to a button, a press followed by a release calls for
/// exactly one down event then one up event for that button, in that order.
pub proof fn lemma_button_press_release(down: KeyPressEvent, up: KeyPressEvent, b: ButtonId)
    requires
        down.code == up.code,
        spec_translate(down.code) == Some(SyntheticEvent::Button(b)),
        down.duration_ms == 0,
        up.duration_ms > 0,
    ensures
        ops_of(seq![down, up]) == seq![DeviceOp::Press(b), DeviceOp::Release(b)],
{
    let evs = seq![down, up];
    assert(ops_of(Seq::<KeyPressEvent>::empty()) == Seq::<DeviceOp>::empty());
    assert(evs.drop_first() =~= seq![up]);
    assert(seq![up].drop_first() =~= Seq::<KeyPressEvent>::empty());
    assert(ops_of(seq![up]) == seq![DeviceOp::Release(b)] + Seq::<DeviceOp>::empty());
    assert(ops_of(evs) =~= seq![DeviceOp::Press(b), DeviceOp::Release(b)]);
}

/// For codes mapped to the same axis, a press puts the axis at its mapped
/// nonzero extreme, and a release of either directional code of that axis
/// puts it back at neutral.
pub proof fn lemma_axis_press_release(
    down: KeyPressEvent,
    up: KeyPressEvent,
    a: AxisId,
    down_pos: i32,
    up_pos: i32,
)
    requires
        spec_translate(down.code) == Some(SyntheticEvent::Axis(a, down_pos)),
        spec_translate(up.code) == Some(SyntheticEvent::Axis(a, up_pos)),
        down.duration_ms == 0,
        up.duration_ms > 0,
    ensures
        down_pos == -1 || down_pos == 1,
        spec_key_press_op(down) == Some(DeviceOp::SetAxis(a, down_pos)),
        spec_key_press_op(up) == Some(DeviceOp::SetAxis(a, 0i32)),
{
}

/// A notification whose code is unmapped calls for no device operation.
pub proof fn lemma_unmapped_silent(ev: KeyPressEvent)
    requires
        spec_translate(ev.code) is None,
    ensures
        spec_key_press_op(ev) is None,
        ops_of(seq![ev]) == Seq::<DeviceOp>::empty(),
{
    assert(ops_of(Seq::<KeyPressEvent>::empty()) == Seq::<DeviceOp>::empty());
    assert(seq![ev].drop_first() =~= Seq::<KeyPressEvent>::empty());
    assert(ops_of(seq![ev]) =~= Seq::<DeviceOp>::empty());
}

} // verus!
