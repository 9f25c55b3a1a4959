//! What the bar's pills, buttons and texts show of what they are given.

use vstd::prelude::*;
use crate::audio::{request_of, snapshot_of, volume_pill, AudioSnapshot, MasterDevice, VolumeAction};
use crate::binary64::Binary64;
use crate::brightness::{brightness_delta, brightness_pill, BrightnessSnapshot};
use crate::buttons::{button_class_at, states_of_tags, ButtonStateData, TagStatus};
use crate::clock::{clock_shows, clock_text, year_text, zero_padded, CivilTime, PATTERN_MINUTES, PATTERN_SECONDS};
use crate::command::{command_for_layout, command_for_tag, CommandKind};
use crate::decimal::{decimal, decimal_signed, lemma_decimal_length, pow10};
use crate::drawing::scale_label;
use crate::icons::{monitor_glyph, tag_glyph, ICON_TIME, TAG_COUNT};
use crate::layout::{option_class_of, symbol_of_layout, toggle_class_of, LAYOUT_COUNT};
use crate::number_laws::{lemma_below_zero_by_bits, lemma_decimal_reads_back, reads_as};
use crate::pointer::{Gesture, LEVEL_STEP};
use crate::screenshot::{screenshot_pill, Screenshot};
use crate::size::bytes_text;
use crate::pill::option_copied;
use crate::startup::{path_of, speaks_of_screen, text_of};
use crate::system::{battery_pill, cpu_pill, memory_pill, SystemReading};
use crate::text::{occurs, occurs_at};

verus! {

/// The class of a load: good up to 30, warn up to 60, caution up to 80, danger beyond,
/// all at single precision, and danger too for what is no number.
pub open spec fn is_load_class(class: Seq<char>, load: Binary64) -> bool {
    &&& load.number().narrowed_at_most(30) ==> class == "pill usage-pill usage-good"@
    &&& !load.number().narrowed_at_most(30) && load.number().narrowed_at_most(60) ==> class
        == "pill usage-pill usage-warn"@
    &&& !load.number().narrowed_at_most(30) && !load.number().narrowed_at_most(60)
        && load.number().narrowed_at_most(80) ==> class == "pill usage-pill usage-caution"@
    &&& !load.number().narrowed_at_most(30) && !load.number().narrowed_at_most(60)
        && !load.number().narrowed_at_most(80) ==> class == "pill usage-pill usage-danger"@
}

proof fn lemma_usage_class_texts()
    ensures
        "pill usage-pill "@ + "usage-good"@ == "pill usage-pill usage-good"@,
        "pill usage-pill "@ + "usage-warn"@ == "pill usage-pill usage-warn"@,
        "pill usage-pill "@ + "usage-caution"@ == "pill usage-pill usage-caution"@,
        "pill usage-pill "@ + "usage-danger"@ == "pill usage-pill usage-danger"@,
{
    reveal_strlit("pill usage-pill ");
    reveal_strlit("usage-good");
    reveal_strlit("usage-warn");
    reveal_strlit("usage-caution");
    reveal_strlit("usage-danger");
    reveal_strlit("pill usage-pill usage-good");
    reveal_strlit("pill usage-pill usage-warn");
    reveal_strlit("pill usage-pill usage-caution");
    reveal_strlit("pill usage-pill usage-danger");
    assert("pill usage-pill "@ + "usage-good"@ =~= "pill usage-pill usage-good"@);
    assert("pill usage-pill "@ + "usage-warn"@ =~= "pill usage-pill usage-warn"@);
    assert("pill usage-pill "@ + "usage-caution"@ =~= "pill usage-pill usage-caution"@);
    assert("pill usage-pill "@ + "usage-danger"@ =~= "pill usage-pill usage-danger"@);
}

/// The processor's pill shows the processor's load: its colour, and the whole percentage.
pub proof fn lemma_cpu_pill_shows_load(s: SystemReading)
    ensures
        is_load_class(cpu_pill(Some(s)).class, s.cpu_average),
        cpu_pill(Some(s)).title == Some("CPU 平均使用率"@),
        cpu_pill(Some(s)).icon == seq!['\u{F4BC}'],
        cpu_pill(Some(s)).text == s.cpu_average.number().fixed_text(0).push('%'),
{
    lemma_usage_class_texts();
    reveal_strlit("%");
    reveal_strlit("\u{F4BC}");
    assert("\u{F4BC}"@ =~= seq!['\u{F4BC}']);
    assert(cpu_pill(Some(s)).text =~= s.cpu_average.number().fixed_text(0).push('%'));
}

/// The memory's pill shows the memory's load in the same way, and in its tooltip how much
/// is used, of how much.
pub proof fn lemma_memory_pill_shows_load(s: SystemReading)
    ensures
        is_load_class(memory_pill(Some(s)).class, s.memory_usage_percent),
        memory_pill(Some(s)).title == Some(
            "内存使用: "@ + bytes_text(s.memory_used as nat) + seq![' ', '/', ' '] + bytes_text(
                s.memory_total as nat,
            ),
        ),
        memory_pill(Some(s)).icon == seq!['\u{F035B}'],
        memory_pill(Some(s)).text == s.memory_usage_percent.number().fixed_text(0).push('%'),
{
    lemma_usage_class_texts();
    reveal_strlit("%");
    reveal_strlit(" / ");
    reveal_strlit("\u{F035B}");
    assert(" / "@ =~= seq![' ', '/', ' ']);
    assert("\u{F035B}"@ =~= seq!['\u{F035B}']);
    assert(memory_pill(Some(s)).text =~= s.memory_usage_percent.number().fixed_text(0).push('%'));
}

/// Equal loads of processor and memory have the same colour and the same percentage.
pub proof fn lemma_equal_loads_look_equal(a: SystemReading, b: SystemReading)
    requires
        a.cpu_average == b.memory_usage_percent,
    ensures
        cpu_pill(Some(a)).class == memory_pill(Some(b)).class,
        cpu_pill(Some(a)).text == memory_pill(Some(b)).text,
{
    lemma_cpu_pill_shows_load(a);
    lemma_memory_pill_shows_load(b);
}

/// The battery's pill: good above 50, warn above 20, else danger. Its glyph and its
/// tooltip tell whether it charges; the tooltip has one decimal place.
pub proof fn lemma_battery_pill_shows_level(s: SystemReading)
    ensures
        s.battery_percent.number().above(50) ==> battery_pill(Some(s)).class
            == "pill usage-pill usage-good"@,
        !s.battery_percent.number().above(50) && s.battery_percent.number().above(20)
            ==> battery_pill(Some(s)).class == "pill usage-pill usage-warn"@,
        !s.battery_percent.number().above(50) && !s.battery_percent.number().above(20)
            ==> battery_pill(Some(s)).class == "pill usage-pill usage-danger"@,
        s.is_charging ==> battery_pill(Some(s)).title == Some(
            ("电池充电中: "@ + s.battery_percent.number().fixed_text(1)).push('%'),
        ) && battery_pill(Some(s)).icon == seq!['\u{F0084}'],
        !s.is_charging ==> battery_pill(Some(s)).title == Some(
            ("电池电量: "@ + s.battery_percent.number().fixed_text(1)).push('%'),
        ) && battery_pill(Some(s)).icon == seq!['\u{F0079}'],
        battery_pill(Some(s)).text == s.battery_percent.number().fixed_text(0).push('%'),
{
    lemma_usage_class_texts();
    reveal_strlit("%");
    reveal_strlit("\u{F0084}");
    reveal_strlit("\u{F0079}");
    assert("\u{F0084}"@ =~= seq!['\u{F0084}']);
    assert("\u{F0079}"@ =~= seq!['\u{F0079}']);
    let level = s.battery_percent.number();
    assert("电池充电中: "@ + (level.fixed_text(1) + "%"@) =~= ("电池充电中: "@ + level.fixed_text(
        1,
    )).push('%'));
    assert("电池电量: "@ + (level.fixed_text(1) + "%"@) =~= ("电池电量: "@ + level.fixed_text(
        1,
    )).push('%'));
    assert(battery_pill(Some(s)).text =~= level.fixed_text(0).push('%'));
}

/// Before a reading every pill of the system monitor shows a dash, without a tooltip.
pub proof fn lemma_unread_pills_show_dash()
    ensures
        forall|p: crate::pill::PillModel|
            p == cpu_pill(None) || p == memory_pill(None) || p == battery_pill(None) ==> (
            #[trigger] p.text) == seq!['-', '-', '%'] && p.title is None && p.class
                == "pill usage-pill usage-warn"@,
        cpu_pill(None).icon == seq!['\u{F4BC}'],
        memory_pill(None).icon == seq!['\u{F035B}'],
        battery_pill(None).icon == seq!['\u{F0079}'],
{
    lemma_usage_class_texts();
    reveal_strlit("--%");
    reveal_strlit("\u{F4BC}");
    reveal_strlit("\u{F035B}");
    reveal_strlit("\u{F0079}");
    assert("--%"@ =~= seq!['-', '-', '%']);
    assert("\u{F4BC}"@ =~= seq!['\u{F4BC}']);
    assert("\u{F035B}"@ =~= seq!['\u{F035B}']);
    assert("\u{F0079}"@ =~= seq!['\u{F0079}']);
}

/// The snapshot of a device keeps whether it is muted, and its volume where that lies
/// from 0 to 100; other volumes go to the nearer end. No device is muted, at nothing.
pub proof fn lemma_snapshot_of_device(master: Option<MasterDevice>)
    ensures
        master matches Some(d) ==> {
            let s = snapshot_of(master);
            &&& s.has_device
            &&& s.is_muted == d.is_muted
            &&& 0 <= d.volume <= 100 ==> s.volume == d.volume
            &&& d.volume < 0 ==> s.volume == 0
            &&& d.volume > 100 ==> s.volume == 100
        },
        master is None ==> {
            let s = snapshot_of(master);
            !s.has_device && s.is_muted && s.volume == 0
        },
{
}

/// The glyph of the volume pill: silence for an unknown, missing or muted device and for
/// no volume; else low below 34, middle below 67, and high.
pub proof fn lemma_volume_glyph(snapshot: Option<AudioSnapshot>)
    ensures
        snapshot is None ==> volume_pill(snapshot).icon == seq!['\u{F075F}'],
        snapshot matches Some(s) ==> {
            let icon = volume_pill(snapshot).icon;
            let silent = s.is_muted || !s.has_device || s.volume <= 0;
            &&& silent ==> icon == seq!['\u{F075F}']
            &&& !silent && s.volume <= 33 ==> icon == seq!['\u{F057F}']
            &&& !silent && 34 <= s.volume <= 66 ==> icon == seq!['\u{F0580}']
            &&& !silent && 67 <= s.volume ==> icon == seq!['\u{F057E}']
        },
{
    reveal_strlit("\u{F075F}");
    reveal_strlit("\u{F057F}");
    reveal_strlit("\u{F0580}");
    reveal_strlit("\u{F057E}");
    assert("\u{F075F}"@ =~= seq!['\u{F075F}']);
    assert("\u{F057F}"@ =~= seq!['\u{F057F}']);
    assert("\u{F0580}"@ =~= seq!['\u{F0580}']);
    assert("\u{F057E}"@ =~= seq!['\u{F057E}']);
}

/// The volume pill's label is the volume in percent where there is a device, muted or not,
/// and a dash where there is none; its class tells whether it is muted.
pub proof fn lemma_volume_label_and_class(snapshot: Option<AudioSnapshot>)
    ensures
        snapshot matches Some(s) && s.has_device ==> volume_pill(snapshot).text == decimal_signed(
            snapshot->0.volume as int,
        ).push('%'),
        !(snapshot matches Some(s) && s.has_device) ==> volume_pill(snapshot).text == seq!['-', '-'],
        snapshot matches Some(s) && s.has_device && !s.is_muted ==> volume_pill(snapshot).class
            == "pill volume-pill"@,
        !(snapshot matches Some(s) && s.has_device && !s.is_muted) ==> volume_pill(snapshot).class
            == "pill volume-pill muted"@,
        volume_pill(snapshot).title == Some("左键静音 / 滚轮调节 / 右键 -5"@),
{
    reveal_strlit("%");
    reveal_strlit("--");
    assert("--"@ =~= seq!['-', '-']);
    if snapshot matches Some(s) && s.has_device {
        assert(volume_pill(snapshot).text =~= decimal_signed(snapshot->0.volume as int).push('%'));
    }
}

/// What gestures on the volume pill ask of the master device: a click to toggle its mute,
/// a context click to lower it by 5, the wheel to raise it by 5 where the distance is
/// below zero and to lower it by 5 for every other distance. The request names the device.
pub proof fn lemma_volume_gestures(gesture: Gesture, name: &str)
    ensures
        request_of(gesture, None) is None,
        request_of(gesture, Some(name)) is Some,
        request_of(gesture, Some(name))->0.device == name@,
        gesture == Gesture::Click ==> request_of(gesture, Some(name))->0.action
            == VolumeAction::ToggleMute,
        gesture == Gesture::Context ==> request_of(gesture, Some(name))->0.action == (
        VolumeAction::Adjust { delta: (-5) as i32 }),
        gesture matches Gesture::Wheel { dy } ==> {
            let action = request_of(gesture, Some(name))->0.action;
            &&& 0x8000_0000_0000_0000 < dy.bits <= 0xfff0_0000_0000_0000 ==> action == (
            VolumeAction::Adjust { delta: 5i32 })
            &&& !(0x8000_0000_0000_0000 < dy.bits <= 0xfff0_0000_0000_0000) ==> action == (
            VolumeAction::Adjust { delta: (-5) as i32 })
        },
{
    if let Gesture::Wheel { dy } = gesture {
        lemma_below_zero_by_bits(dy);
    }
}

/// Gestures on the brightness pill: a click raises by 5, a context click lowers by 5, and
/// the wheel does as on the volume pill.
pub proof fn lemma_brightness_gestures(gesture: Gesture)
    ensures
        LEVEL_STEP == 5,
        gesture == Gesture::Click ==> brightness_delta(gesture) == 5,
        gesture == Gesture::Context ==> brightness_delta(gesture) == -5,
        gesture matches Gesture::Wheel { dy } ==> brightness_delta(gesture) == (
        if 0x8000_0000_0000_0000 < dy.bits <= 0xfff0_0000_0000_0000 {
            5int
        } else {
            -5int
        }),
{
    if let Gesture::Wheel { dy } = gesture {
        lemma_below_zero_by_bits(dy);
    }
}

/// The wheel moves volume and brightness alike.
pub proof fn lemma_wheel_moves_levels_alike(dy: Binary64, name: &str)
    ensures
        request_of(Gesture::Wheel { dy }, Some(name))->0.action == (VolumeAction::Adjust {
            delta: brightness_delta(Gesture::Wheel { dy }) as i32,
        }),
{
    lemma_volume_gestures(Gesture::Wheel { dy }, name);
    lemma_brightness_gestures(Gesture::Wheel { dy });
}

/// The brightness pill's label is the percentage where it is known, else a dash.
pub proof fn lemma_brightness_pill(snapshot: Option<BrightnessSnapshot>)
    ensures
        brightness_pill(snapshot).class == "pill brightness-pill"@,
        brightness_pill(snapshot).title == Some("左键加亮 / 右键减暗 / 滚轮调节"@),
        brightness_pill(snapshot).icon == seq!['\u{F00DE}'],
        snapshot is None ==> brightness_pill(snapshot).text == seq!['-', '-'],
        snapshot matches Some(s) ==> match s.percent {
            Some(p) => brightness_pill(snapshot).text == decimal(p as nat).push('%'),
            None => brightness_pill(snapshot).text == seq!['-', '-'],
        },
{
    reveal_strlit("%");
    reveal_strlit("--");
    reveal_strlit("\u{F00DE}");
    assert("\u{F00DE}"@ =~= seq!['\u{F00DE}']);
    assert("--"@ =~= seq!['-', '-']);
    if let Some(s) = snapshot {
        if let Some(p) = s.percent {
            assert(brightness_pill(snapshot).text =~= decimal(p as nat).push('%'));
        }
    }
}

/// The screenshot pill is marked while it is not idle.
pub proof fn lemma_screenshot_pill(state: Screenshot)
    ensures
        screenshot_pill(state).icon == seq!['\u{F0104}'],
        screenshot_pill(state).title == Some("截图 (Flameshot)"@),
        screenshot_pill(state).text.len() == 0,
        state == Screenshot::Idle ==> screenshot_pill(state).class == "pill screenshot-pill"@,
        state == Screenshot::Launching || state == Screenshot::Running ==> screenshot_pill(state).class
            == "pill screenshot-pill taking"@,
{
    reveal_strlit("");
    reveal_strlit("\u{F0104}");
    assert("\u{F0104}"@ =~= seq!['\u{F0104}']);
}

/// The screenshot tool is launched by a click where none is under way, awaited where it
/// started, and over where it did not start or has exited. Nothing else changes anything.
pub proof fn lemma_screenshot_steps(ok: bool)
    ensures
        Screenshot::Idle.launches_on_click() && Screenshot::Idle.after_click()
            == Screenshot::Launching,
        forall|s: Screenshot|
            s != Screenshot::Idle ==> !(#[trigger] s.launches_on_click()) && s.after_click() == s,
        Screenshot::Launching.after_launch(ok) == (if ok {
            Screenshot::Running
        } else {
            Screenshot::Idle
        }),
        Screenshot::Launching.waits_after_launch(ok) == ok,
        forall|s: Screenshot|
            s != Screenshot::Launching ==> !(#[trigger] s.waits_after_launch(ok)) && s.after_launch(
                ok,
            ) == s,
        Screenshot::Running.after_exit() == Screenshot::Idle,
        forall|s: Screenshot| s != Screenshot::Running ==> (#[trigger] s.after_exit()) == s,
{
}

/// Each of a button's four flags is the flag of the same meaning in the report of its tag;
/// a tag that was not reported has none. There are nine buttons.
pub proof fn lemma_button_has_flags_of_tag(tags: Seq<TagStatus>, i: int)
    requires
        0 <= i < 9,
    ensures
        states_of_tags(tags).len() == 9,
        i < tags.len() ==> {
            let button = states_of_tags(tags)[i];
            let tag = tags[i];
            &&& button.is_filtered == tag.is_filled
            &&& button.is_selected == tag.is_selected
            &&& button.is_urg == tag.is_urg
            &&& button.is_occ == tag.is_occ
        },
        i >= tags.len() ==> {
            let button = states_of_tags(tags)[i];
            !button.is_filtered && !button.is_selected && !button.is_urg && !button.is_occ
        },
{
}

/// A row of buttons draws each by the first of its flags that is set: filtered, selected,
/// urgent, occupied. A button without a flag, and one that is not there, is the default.
pub proof fn lemma_button_drawn_by_first_flag(states: Seq<ButtonStateData>, i: int)
    ensures
        0 <= i < states.len() ==> {
            let class = button_class_at(i, states);
            let b = states[i];
            &&& b.is_filtered ==> class == "emoji-button state-filtered"@
            &&& !b.is_filtered && b.is_selected ==> class == "emoji-button state-selected"@
            &&& !b.is_filtered && !b.is_selected && b.is_urg ==> class
                == "emoji-button state-urgent"@
            &&& !b.is_filtered && !b.is_selected && !b.is_urg && b.is_occ ==> class
                == "emoji-button state-occupied"@
            &&& !b.is_filtered && !b.is_selected && !b.is_urg && !b.is_occ ==> class
                == "emoji-button state-default"@
        },
        i < 0 || i >= states.len() ==> button_class_at(i, states) == "emoji-button state-default"@,
{
}

/// What a report says of a tag is what its button looks like.
pub proof fn lemma_tag_is_drawn_as_reported(tags: Seq<TagStatus>, i: int)
    requires
        0 <= i < 9,
        i < tags.len(),
    ensures
        ({
            let class = button_class_at(i, states_of_tags(tags));
            let tag = tags[i];
            &&& tag.is_filled ==> class == "emoji-button state-filtered"@
            &&& !tag.is_filled && tag.is_selected ==> class == "emoji-button state-selected"@
            &&& !tag.is_filled && !tag.is_selected && tag.is_urg ==> class
                == "emoji-button state-urgent"@
            &&& !tag.is_filled && !tag.is_selected && !tag.is_urg && tag.is_occ ==> class
                == "emoji-button state-occupied"@
            &&& !tag.is_filled && !tag.is_selected && !tag.is_urg && !tag.is_occ ==> class
                == "emoji-button state-default"@
        }),
{
    lemma_button_has_flags_of_tag(tags, i);
    lemma_button_drawn_by_first_flag(states_of_tags(tags), i);
}

/// Every tag has a glyph of its own, and so do the clock and the first two monitors.
pub proof fn lemma_glyphs(num: int)
    ensures
        TAG_COUNT == 9,
        tag_glyph(0) == seq!['\u{F0A1E}'],
        tag_glyph(1) == seq!['\u{F0239}'],
        tag_glyph(2) == seq!['\u{F0A1B}'],
        tag_glyph(3) == seq!['\u{F0B79}'],
        tag_glyph(4) == seq!['\u{F024B}'],
        tag_glyph(5) == seq!['\u{F0388}'],
        tag_glyph(6) == seq!['\u{F0567}'],
        tag_glyph(7) == seq!['\u{F01F0}'],
        tag_glyph(8) == seq!['\u{F0297}'],
        ICON_TIME@ == seq!['\u{F0954}'],
        num == 0 ==> monitor_glyph(num) == seq!['\u{F02DA}'],
        num == 1 ==> monitor_glyph(num) == seq!['\u{F02DB}'],
        num != 0 && num != 1 ==> monitor_glyph(num) == seq!['?'],
{
    reveal_strlit("\u{F0A1E}");
    reveal_strlit("\u{F0239}");
    reveal_strlit("\u{F0A1B}");
    reveal_strlit("\u{F0B79}");
    reveal_strlit("\u{F024B}");
    reveal_strlit("\u{F0388}");
    reveal_strlit("\u{F0567}");
    reveal_strlit("\u{F01F0}");
    reveal_strlit("\u{F0297}");
    reveal_strlit("\u{F0954}");
    reveal_strlit("\u{F02DA}");
    reveal_strlit("\u{F02DB}");
    reveal_strlit("?");
    assert(tag_glyph(0) =~= seq!['\u{F0A1E}']);
    assert(tag_glyph(1) =~= seq!['\u{F0239}']);
    assert(tag_glyph(2) =~= seq!['\u{F0A1B}']);
    assert(tag_glyph(3) =~= seq!['\u{F0B79}']);
    assert(tag_glyph(4) =~= seq!['\u{F024B}']);
    assert(tag_glyph(5) =~= seq!['\u{F0388}']);
    assert(tag_glyph(6) =~= seq!['\u{F0567}']);
    assert(tag_glyph(7) =~= seq!['\u{F01F0}']);
    assert(tag_glyph(8) =~= seq!['\u{F0297}']);
    assert(ICON_TIME@ =~= seq!['\u{F0954}']);
    assert("\u{F02DA}"@ =~= seq!['\u{F02DA}']);
    assert("\u{F02DB}"@ =~= seq!['\u{F02DB}']);
    assert("?"@ =~= seq!['?']);
}

/// The command for a tag names its monitor and has the bit of its tag: 1 for the first
/// tag, and twice as much for each further one. To view and to toggle are told apart.
pub proof fn lemma_tag_command_fields(monitor_id: i32, tag: nat, is_view: bool)
    requires
        tag < 32,
    ensures
        command_for_tag(monitor_id, tag, is_view).monitor_id == monitor_id,
        is_view ==> command_for_tag(monitor_id, tag, is_view).kind == CommandKind::ViewTag,
        !is_view ==> command_for_tag(monitor_id, tag, is_view).kind == CommandKind::ToggleTag,
        tag == 0 ==> command_for_tag(monitor_id, tag, is_view).parameter == 1,
        tag < 31 ==> command_for_tag(monitor_id, tag + 1, is_view).parameter == 2
            * command_for_tag(monitor_id, tag, is_view).parameter,
{
    crate::command::lemma_mask_fits(tag);
    vstd::arithmetic::power2::lemma2_to64();
    if tag < 31 {
        crate::command::lemma_mask_fits(tag + 1);
        vstd::arithmetic::power2::lemma_pow2_unfold(tag + 1);
    }
}

/// The command for a layout names its monitor and the layout itself.
pub proof fn lemma_layout_command_fields(monitor_id: i32, layout: u32)
    ensures
        command_for_layout(monitor_id, layout).kind == CommandKind::SetLayout,
        command_for_layout(monitor_id, layout).parameter == layout,
        command_for_layout(monitor_id, layout).monitor_id == monitor_id,
{
}

/// There are three layouts, each with its symbol.
pub proof fn lemma_layout_symbols()
    ensures
        LAYOUT_COUNT == 3,
        symbol_of_layout(0) == seq!['[', ']', '='],
        symbol_of_layout(1) == seq!['>', '<', '>'],
        symbol_of_layout(2) == seq!['[', 'M', ']'],
{
    reveal_strlit("[]=");
    reveal_strlit("><>");
    reveal_strlit("[M]");
    assert("[]="@ =~= seq!['[', ']', '=']);
    assert("><>"@ =~= seq!['>', '<', '>']);
    assert("[M]"@ =~= seq!['[', 'M', ']']);
}

/// The switch tells by its class whether it is open, and a choice whether the current
/// symbol holds its own.
pub proof fn lemma_layout_classes(open: bool, current: Seq<char>, index: int)
    ensures
        open ==> toggle_class_of(open) == "pill layout-toggle open"@,
        !open ==> toggle_class_of(open) == "pill layout-toggle closed"@,
        occurs(current, symbol_of_layout(index)) ==> option_class_of(current, index)
            == "pill layout-option current"@,
        !occurs(current, symbol_of_layout(index)) ==> option_class_of(current, index)
            == "pill layout-option "@,
{
}

/// A text holds a part exactly where it is something, then the part, then something.
pub proof fn lemma_occurs_in_the_middle(text: Seq<char>, part: Seq<char>)
    ensures
        occurs(text, part) <==> exists|before: Seq<char>, behind: Seq<char>|
            text == #[trigger] (before + part + behind),
{
    if occurs(text, part) {
        let at = choose|at: int| occurs_at(text, part, at);
        let before = text.take(at);
        let behind = text.skip(at + part.len());
        assert(text =~= before + part + behind);
    }
    if exists|before: Seq<char>, behind: Seq<char>| text == #[trigger] (before + part + behind) {
        let (before, behind) = choose|before: Seq<char>, behind: Seq<char>|
            text == #[trigger] (before + part + behind);
        let at = before.len() as int;
        assert(text.subrange(at, at + part.len()) =~= part);
        assert(occurs_at(text, part, at));
    }
}

/// A line speaks of a screen where it holds the word for the primary one, or a star.
pub proof fn lemma_screen_lines(before: Seq<char>, behind: Seq<char>, line: Seq<char>)
    ensures
        speaks_of_screen(before + "primary"@ + behind),
        line.contains('*') ==> speaks_of_screen(line),
        !line.contains('*') && !occurs(line, "primary"@) ==> !speaks_of_screen(line),
{
    let named = before + "primary"@ + behind;
    assert(named.subrange(before.len() as int, (before.len() + "primary"@.len()) as int) =~= "primary"@);
    assert(occurs_at(named, "primary"@, before.len() as int));
    reveal_strlit("*");
    if line.contains('*') {
        let i = choose|i: int| 0 <= i < line.len() && line[i] == '*';
        assert(line.subrange(i, i + 1) =~= "*"@);
        assert(occurs_at(line, "*"@, i));
    } else if occurs(line, "*"@) {
        let at = choose|at: int| occurs_at(line, "*"@, at);
        assert(line.subrange(at, at + 1)[0] == '*');
        assert(line[at] == '*');
    }
}

/// The path is the argument; without one, the environment's; without either, that of the
/// first monitor.
pub proof fn lemma_path_order(argument: Option<Seq<char>>, environment: Option<Seq<char>>)
    ensures
        argument is Some ==> path_of(argument, environment) == argument->0,
        argument is None && environment is Some ==> path_of(argument, environment)
            == environment->0,
        argument is None && environment is None ==> path_of(argument, environment)
            == "/dev/shm/monitor_0"@,
{
}

/// A reading behind an optional reference, and the text of an optional string, are there
/// exactly where the option is, and are what it holds.
pub proof fn lemma_options_hold_values(s: SystemReading, a: AudioSnapshot, d: MasterDevice, path: String)
    ensures
        option_copied(Some(&s)) == Some(s),
        option_copied(Some(&a)) == Some(a),
        option_copied(Some(&d)) == Some(d),
        option_copied::<SystemReading>(None) is None,
        option_copied::<AudioSnapshot>(None) is None,
        option_copied::<MasterDevice>(None) is None,
        text_of(Some(path)) == Some(path@),
        text_of(None) is None,
{
}

/// The patterns of the clock differ in the seconds only.
pub proof fn lemma_clock_patterns()
    ensures
        PATTERN_MINUTES@ == "%Y-%m-%d %H:%M"@,
        PATTERN_SECONDS@ == PATTERN_MINUTES@ + seq![':', '%', 'S'],
{
    reveal_strlit("%Y-%m-%d %H:%M");
    reveal_strlit("%Y-%m-%d %H:%M:%S");
    assert("%Y-%m-%d %H:%M:%S"@ =~= "%Y-%m-%d %H:%M"@ + seq![':', '%', 'S']);
}

/// The scale is shown with two decimal places.
pub proof fn lemma_scale_label(scale_factor: Binary64)
    ensures
        scale_label(scale_factor) == seq!['s', ':', ' '] + scale_factor.number().fixed_text(2),
{
    reveal_strlit("s: ");
    assert("s: "@ =~= seq!['s', ':', ' ']);
}

proof fn lemma_leading_zeros(k: nat, text: Seq<char>)
    ensures
        reads_as(Seq::new(k, |i: int| '0') + text) == reads_as(text),
    decreases k + text.len(),
{
    let zeros = Seq::new(k, |i: int| '0');
    let all = zeros + text;
    if text.len() > 0 {
        lemma_leading_zeros(k, text.drop_last());
        assert(all.drop_last() =~= zeros + text.drop_last());
    } else if k > 0 {
        lemma_leading_zeros((k - 1) as nat, text);
        assert(all.drop_last() =~= Seq::new((k - 1) as nat, |i: int| '0') + text);
    } else {
        assert(all =~= text);
    }
}

proof fn lemma_padded_reads_back(n: nat, width: nat)
    ensures
        reads_as(zero_padded(n, width)) == n,
        zero_padded(n, width).len() >= width,
{
    lemma_decimal_reads_back(n);
    if decimal(n).len() < width {
        lemma_leading_zeros((width - decimal(n).len()) as nat, decimal(n));
    }
}

proof fn lemma_two_digits(n: nat)
    requires
        n < 100,
    ensures
        reads_as(zero_padded(n, 2)) == n,
        zero_padded(n, 2).len() == 2,
{
    reveal_with_fuel(pow10, 3);
    lemma_decimal_length(n, 2);
    lemma_padded_reads_back(n, 2);
}

/// The year reads back from its text, which has at least four digits, and exactly four
/// from 0 to 9999. Other years have their sign before the digits.
pub proof fn lemma_year_reads_back(year: int)
    ensures
        0 <= year <= 9999 ==> year_text(year).len() == 4 && reads_as(year_text(year)) == year,
        year > 9999 ==> year_text(year)[0] == '+' && reads_as(year_text(year).skip(1)) == year,
        year < 0 ==> year_text(year)[0] == '-' && reads_as(year_text(year).skip(1)) == -year
            && year_text(year).len() >= 5,
{
    reveal_strlit("+");
    reveal_strlit("-");
    reveal_with_fuel(pow10, 5);
    if year < 0 {
        lemma_padded_reads_back((-year) as nat, 4);
        assert(year_text(year).skip(1) =~= zero_padded((-year) as nat, 4));
    } else {
        lemma_padded_reads_back(year as nat, 4);
        if year > 9999 {
            assert(year_text(year).skip(1) =~= zero_padded(year as nat, 4));
        } else {
            lemma_decimal_length(year as nat, 4);
        }
    }
}

/// The fields of a time read back from what the clock shows: behind the year stand the
/// month, the day, the hour, the minute and, if shown, the second, two digits each, with
/// their separators.
pub proof fn lemma_clock_reads_back(time: CivilTime)
    requires
        time.exists_in_calendar(),
    ensures
        clock_shows(time, true) is Some,
        clock_shows(time, false) is Some,
        ({
            let text = clock_shows(time, true)->0;
            let y = text.len() - 15;
            &&& y >= 4
            &&& text.take(y) == year_text(time.year as int)
            &&& text[y] == '-'
            &&& reads_as(text.subrange(y + 1, y + 3)) == time.month
            &&& text[y + 3] == '-'
            &&& reads_as(text.subrange(y + 4, y + 6)) == time.day
            &&& text[y + 6] == ' '
            &&& reads_as(text.subrange(y + 7, y + 9)) == time.hour
            &&& text[y + 9] == ':'
            &&& reads_as(text.subrange(y + 10, y + 12)) == time.minute
            &&& text[y + 12] == ':'
            &&& reads_as(text.subrange(y + 13, y + 15)) == time.second
            &&& clock_shows(time, false)->0 == text.take(y + 12)
        }),
{
    reveal_strlit("-");
    reveal_strlit(":");
    reveal_strlit(" ");
    lemma_two_digits(time.month as nat);
    lemma_two_digits(time.day as nat);
    lemma_two_digits(time.hour as nat);
    lemma_two_digits(time.minute as nat);
    lemma_two_digits(time.second as nat);
    lemma_year_reads_back(time.year as int);
    if time.year > 9999 {
        lemma_padded_reads_back(time.year as nat, 4);
    }
    let text = clock_text(time, true);
    let y = text.len() - 15;
    assert(text.take(y) =~= year_text(time.year as int));
    assert(text.subrange(y + 1, y + 3) =~= zero_padded(time.month as nat, 2));
    assert(text.subrange(y + 4, y + 6) =~= zero_padded(time.day as nat, 2));
    assert(text.subrange(y + 7, y + 9) =~= zero_padded(time.hour as nat, 2));
    assert(text.subrange(y + 10, y + 12) =~= zero_padded(time.minute as nat, 2));
    assert(text.subrange(y + 13, y + 15) =~= zero_padded(time.second as nat, 2));
    assert(text.take(y + 12) =~= clock_text(time, false));
}

/// The days that a clock knows: the months have 31, 30, 28 or 29 days, with 29 in every
/// fourth year but in three of four centuries; the hours, minutes and seconds are those of
/// a day.
pub proof fn lemma_calendar(time: CivilTime)
    ensures
        clock_shows(time, true) is Some <==> clock_shows(time, false) is Some,
        clock_shows(time, true) is Some ==> time.hour <= 23 && time.minute <= 59 && time.second
            <= 59 && 1 <= time.day <= 31 && 1 <= time.month <= 12,
        -262143 <= time.year <= 262142 && 1 <= time.month <= 12 && 1 <= time.day <= 28 && time.hour
            <= 23 && time.minute <= 59 && time.second <= 59 ==> clock_shows(time, true) is Some,
        !(-262143 <= time.year <= 262142) ==> clock_shows(time, true) is None,
        time.day == 31 && (time.month == 4 || time.month == 6 || time.month == 9 || time.month == 11)
            ==> clock_shows(time, true) is None,
        time.month == 2 && time.day > 29 ==> clock_shows(time, true) is None,
        time.month == 2 && time.day == 29 && clock_shows(time, true) is Some ==> time.year as int % 4
            == 0 && (time.year as int % 400 == 0 || time.year as int % 100 != 0),
        clock_shows(CivilTime { day: 28, month: 2, ..time }, true) is Some && time.year as int % 4
            == 0 && (time.year as int % 400 == 0 || time.year as int % 100 != 0) ==> clock_shows(
            CivilTime { day: 29, month: 2, ..time },
            true,
        ) is Some,
        clock_shows(CivilTime { day: 28, ..time }, true) is Some && time.month != 2 ==> clock_shows(
            CivilTime { day: 30, ..time },
            true,
        ) is Some,
        clock_shows(CivilTime { day: 28, ..time }, true) is Some && (time.month == 1 || time.month
            == 3 || time.month == 5 || time.month == 7 || time.month == 8 || time.month == 10
            || time.month == 12) ==> clock_shows(CivilTime { day: 31, ..time }, true) is Some,
{
}

} // verus!
