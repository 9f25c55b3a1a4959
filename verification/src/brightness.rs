//! The brightness pill.

use vstd::prelude::*;
use crate::decimal::{append_decimal, decimal, lemma_decimal_injective};
use crate::icons::ICON_BRIGHT;
use crate::pill::{option_copied, Pill, PillModel};
use crate::pointer::{wheel_delta, wheel_step, Gesture, LEVEL_STEP};

verus! {

/// The brightness that the bar shows; none where the backlight cannot be read.
#[derive(Clone, Copy, PartialEq, Eq, Debug, Structural)]
pub struct BrightnessSnapshot {
    pub percent: Option<u8>,
}

/// The label of a brightness.
pub open spec fn brightness_label(snapshot: Option<BrightnessSnapshot>) -> Seq<char> {
    match snapshot {
        Some(BrightnessSnapshot { percent: Some(p) }) => decimal(p as nat) + "%"@,
        _ => "--"@,
    }
}

/// What the brightness pill shows.
pub open spec fn brightness_pill(snapshot: Option<BrightnessSnapshot>) -> PillModel {
    PillModel {
        class: "pill brightness-pill"@,
        title: Some("左键加亮 / 右键减暗 / 滚轮调节"@),
        icon: ICON_BRIGHT@,
        text: brightness_label(snapshot),
    }
}

/// The brightness pill.
pub fn brightness_control(snapshot: Option<&BrightnessSnapshot>) -> (pill: Pill)
    ensures
        pill@ == brightness_pill(option_copied(snapshot)),
{
    let percent: Option<u8> = match snapshot {
        Some(s) => s.percent,
        None => None,
    };
    let mut label: String = String::new();
    match percent {
        Some(p) => {
            append_decimal(&mut label, p as u64);
            label.append("%");
        },
        None => {
            label.append("--");
        },
    }
    proof {
        assert(label@ =~= brightness_label(option_copied(snapshot)));
    }
    Pill {
        class: "pill brightness-pill".to_owned(),
        title: Some("左键加亮 / 右键减暗 / 滚轮调节".to_owned()),
        icon: ICON_BRIGHT,
        text: label,
    }
}

/// The step by which a gesture moves the brightness.
pub open spec fn brightness_delta(gesture: Gesture) -> int {
    match gesture {
        Gesture::Click => 5,
        Gesture::Context => -5,
        Gesture::Wheel { dy } => wheel_delta(dy),
    }
}

/// The step by which a gesture on the brightness pill moves the brightness.
pub fn brightness_gesture(gesture: Gesture) -> (delta: i32)
    ensures
        delta == brightness_delta(gesture),
{
    match gesture {
        Gesture::Click => LEVEL_STEP,
        Gesture::Context => -LEVEL_STEP,
        Gesture::Wheel { dy } => wheel_step(dy),
    }
}

/// Every gesture moves the brightness by one step, up or down.
pub proof fn lemma_gesture_moves_one_step(gesture: Gesture)
    ensures
        brightness_delta(gesture) == LEVEL_STEP || brightness_delta(gesture) == -LEVEL_STEP,
{
}

/// The label tells every brightness apart.
pub proof fn lemma_label_tells_brightness(a: u8, b: u8)
    requires
        brightness_label(Some(BrightnessSnapshot { percent: Some(a) })) == brightness_label(
            Some(BrightnessSnapshot { percent: Some(b) }),
        ),
    ensures
        a == b,
{
    reveal_strlit("%");
    let la = decimal(a as nat) + "%"@;
    let lb = decimal(b as nat) + "%"@;
    assert(la.drop_last() =~= decimal(a as nat));
    assert(lb.drop_last() =~= decimal(b as nat));
    lemma_decimal_injective(a as nat, b as nat);
}

} // verus!
