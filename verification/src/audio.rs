//! The volume pill.

use vstd::prelude::*;
use crate::decimal::{append_decimal_signed, decimal_signed};
use crate::icons::{ICON_VOL_HIGH, ICON_VOL_LOW, ICON_VOL_MID, ICON_VOL_MUTE};
use crate::pill::{option_copied, Pill, PillModel};
use crate::pointer::{wheel_delta, wheel_step, Gesture, LEVEL_STEP};

verus! {

/// The master device as the audio system reports it.
#[derive(Clone, Copy, PartialEq, Eq, Debug, Structural)]
pub struct MasterDevice {
    pub volume: i32,
    pub is_muted: bool,
}

/// The state of the master device that the bar shows.
#[derive(Clone, Copy, PartialEq, Eq, Debug, Structural)]
pub struct AudioSnapshot {
    pub volume: i32,
    pub is_muted: bool,
    pub has_device: bool,
}

/// The nearest percentage to a volume.
pub open spec fn clamp_percent(volume: int) -> int {
    if volume < 0 {
        0
    } else if volume > 100 {
        100
    } else {
        volume
    }
}

/// What the bar shows of a master device; without one, silence.
pub open spec fn snapshot_of(master: Option<MasterDevice>) -> AudioSnapshot {
    match master {
        Some(d) => AudioSnapshot {
            volume: clamp_percent(d.volume as int) as i32,
            is_muted: d.is_muted,
            has_device: true,
        },
        None => AudioSnapshot { volume: 0, is_muted: true, has_device: false },
    }
}

/// What the bar shows of the master device.
pub fn audio_snapshot_from(master: Option<&MasterDevice>) -> (snapshot: AudioSnapshot)
    ensures
        snapshot == snapshot_of(option_copied(master)),
{
    match master {
        Some(d) => {
            let volume: i32 = if d.volume < 0 {
                0
            } else if d.volume > 100 {
                100
            } else {
                d.volume
            };
            AudioSnapshot { volume, is_muted: d.is_muted, has_device: true }
        },
        None => AudioSnapshot { volume: 0, is_muted: true, has_device: false },
    }
}

/// Whether a snapshot counts as muted; an unknown one does.
pub open spec fn counts_as_muted(snapshot: Option<AudioSnapshot>) -> bool {
    match snapshot {
        Some(s) => s.is_muted || !s.has_device,
        None => true,
    }
}

/// The glyph of a volume: muted or at nothing, below 34, below 67, and from there on.
pub open spec fn volume_glyph(snapshot: Option<AudioSnapshot>) -> Seq<char> {
    match snapshot {
        Some(s) => if counts_as_muted(snapshot) || s.volume <= 0 {
            ICON_VOL_MUTE@
        } else if s.volume < 34 {
            ICON_VOL_LOW@
        } else if s.volume < 67 {
            ICON_VOL_MID@
        } else {
            ICON_VOL_HIGH@
        },
        None => ICON_VOL_MUTE@,
    }
}

/// The glyph of a volume.
pub fn volume_icon(snapshot: Option<&AudioSnapshot>) -> (glyph: &'static str)
    ensures
        glyph@ == volume_glyph(option_copied(snapshot)),
{
    match snapshot {
        None => ICON_VOL_MUTE,
        Some(s) => {
            if !s.has_device || s.is_muted || s.volume <= 0 {
                ICON_VOL_MUTE
            } else if s.volume < 34 {
                ICON_VOL_LOW
            } else if s.volume < 67 {
                ICON_VOL_MID
            } else {
                ICON_VOL_HIGH
            }
        },
    }
}

/// The label of a volume: a percentage, or a dash where there is no device.
pub open spec fn volume_label(snapshot: Option<AudioSnapshot>) -> Seq<char> {
    match snapshot {
        Some(s) => if s.has_device {
            decimal_signed(s.volume as int) + "%"@
        } else {
            "--"@
        },
        None => "--"@,
    }
}

/// What the volume pill shows.
pub open spec fn volume_pill(snapshot: Option<AudioSnapshot>) -> PillModel {
    PillModel {
        class: if counts_as_muted(snapshot) {
            "pill volume-pill muted"@
        } else {
            "pill volume-pill"@
        },
        title: Some("左键静音 / 滚轮调节 / 右键 -5"@),
        icon: volume_glyph(snapshot),
        text: volume_label(snapshot),
    }
}

/// The volume pill.
pub fn volume_control(snapshot: Option<&AudioSnapshot>) -> (pill: Pill)
    ensures
        pill@ == volume_pill(option_copied(snapshot)),
{
    let (muted, has_device, volume): (bool, bool, i32) = match snapshot {
        Some(s) => (s.is_muted || !s.has_device, s.has_device, s.volume),
        None => (true, false, 0i32),
    };
    let mut label: String = String::new();
    if has_device {
        append_decimal_signed(&mut label, volume);
        label.append("%");
    } else {
        label.append("--");
    }
    proof {
        assert(label@ =~= volume_label(option_copied(snapshot)));
    }
    let class: String = if muted {
        "pill volume-pill muted".to_owned()
    } else {
        "pill volume-pill".to_owned()
    };
    Pill {
        class,
        title: Some("左键静音 / 滚轮调节 / 右键 -5".to_owned()),
        icon: volume_icon(snapshot),
        text: label,
    }
}

/// What a gesture asks of a device.
#[derive(Clone, Copy, PartialEq, Eq, Debug, Structural)]
pub enum VolumeAction {
    ToggleMute,
    Adjust { delta: i32 },
}

/// A request to the audio system.
#[derive(Debug)]
pub struct VolumeRequest {
    pub device: String,
    pub action: VolumeAction,
}

/// What a gesture on the volume pill asks for.
pub open spec fn volume_action_of(gesture: Gesture) -> VolumeAction {
    match gesture {
        Gesture::Click => VolumeAction::ToggleMute,
        Gesture::Context => VolumeAction::Adjust { delta: (-5) as i32 },
        Gesture::Wheel { dy } => VolumeAction::Adjust { delta: wheel_delta(dy) as i32 },
    }
}

/// What a request asks of which device.
#[verifier::ext_equal]
pub struct RequestModel {
    pub device: Seq<char>,
    pub action: VolumeAction,
}

impl View for VolumeRequest {
    type V = RequestModel;

    open spec fn view(&self) -> RequestModel {
        RequestModel { device: self.device@, action: self.action }
    }
}

/// The request that a gesture makes of the master device of a name, if there is one.
pub open spec fn request_of(gesture: Gesture, master: Option<&str>) -> Option<RequestModel> {
    match master {
        Some(name) => Some(RequestModel { device: name@, action: volume_action_of(gesture) }),
        None => None,
    }
}

/// The request that a gesture on the volume pill makes of the master device of that
/// name; without a master device there is none.
pub fn volume_gesture(gesture: Gesture, master: Option<&str>) -> (request: Option<VolumeRequest>)
    ensures
        request is Some <==> master is Some,
        request is Some <==> request_of(gesture, master) is Some,
        request matches Some(r) ==> r@ == request_of(gesture, master)->0,
        request matches Some(r) ==> r.device@ == master->0@ && r.action == volume_action_of(gesture),
{
    match master {
        Some(name) => {
            let action: VolumeAction = match gesture {
                Gesture::Click => VolumeAction::ToggleMute,
                Gesture::Context => VolumeAction::Adjust { delta: -LEVEL_STEP },
                Gesture::Wheel { dy } => VolumeAction::Adjust { delta: wheel_step(dy) },
            };
            Some(VolumeRequest { device: name.to_owned(), action })
        },
        None => None,
    }
}

/// A snapshot always holds a percentage.
pub proof fn lemma_snapshot_is_percent(master: Option<MasterDevice>)
    ensures
        0 <= snapshot_of(master).volume <= 100,
        snapshot_of(master).has_device <==> master is Some,
{
}

/// A pill that is drawn as muted has the glyph of silence.
pub proof fn lemma_muted_pill_is_silent(snapshot: Option<AudioSnapshot>)
    requires
        volume_pill(snapshot).class == "pill volume-pill muted"@,
    ensures
        volume_pill(snapshot).icon == ICON_VOL_MUTE@,
{
    reveal_strlit("pill volume-pill muted");
    reveal_strlit("pill volume-pill");
    assert("pill volume-pill muted"@.len() != "pill volume-pill"@.len());
}

/// No device, a muted device and an unknown one have the same glyph, whatever the level.
pub proof fn lemma_no_device_is_silent(volume: i32, is_muted: bool)
    ensures
        volume_glyph(Some(AudioSnapshot { volume, is_muted, has_device: false })) == volume_glyph(None),
        volume_glyph(Some(AudioSnapshot { volume, is_muted: true, has_device: true })) == volume_glyph(None),
{
}

} // verus!
