//! What each event does to the bar, and what the bar shows of it.

use vstd::prelude::*;
use crate::audio::{AudioSnapshot, VolumeRequest};
use crate::bar::{Bar, BarMessage, BarModel, MessageModel, Outcome};
use crate::brightness::BrightnessSnapshot;
use crate::buttons::{css_class, state_of_flags, ButtonState, ButtonStateData};
use crate::clock::interval_of;
use crate::command::CommandKind;
use crate::decimal::decimal;
use crate::drawing::{ButtonView, LayoutOption};
use crate::laws::{after_all, Event};
use crate::pill::Pill;
use crate::shown_laws::{is_load_class, lemma_button_drawn_by_first_flag, lemma_cpu_pill_shows_load, lemma_glyphs, lemma_layout_classes, lemma_layout_symbols, lemma_memory_pill_shows_load, lemma_tag_command_fields, lemma_volume_glyph};
use crate::system::SystemReading;
use crate::text::occurs;
use crate::worker::{goes_on_after, Phase, Worker, WorkerEvent};

verus! {

/// The bar starts with its seconds shown, its panel closed, nothing pressed and nothing
/// known of the monitor or the machine.
pub proof fn lemma_initial_bar(has_buffer: bool, i: int)
    ensures
        ({
            let bar = BarModel::initial(has_buffer);
            &&& bar.show_seconds
            &&& !bar.layout_open
            &&& bar.pressed_button is None
            &&& bar.monitor_num is None
            &&& bar.system is None
            &&& bar.audio is None
            &&& bar.brightness is None
            &&& bar.layout_symbol == seq!['[', ']', '=']
            &&& bar.has_buffer == has_buffer
            &&& bar.button_states.len() == 9
            &&& 0 <= i < 9 ==> !bar.button_states[i].is_filtered && !bar.button_states[i].is_selected
                && !bar.button_states[i].is_urg && !bar.button_states[i].is_occ
        }),
{
    reveal_strlit("[]=");
    assert("[]="@ =~= seq!['[', ']', '=']);
}

/// The button that is held: a press holds its button, whichever was held before; a release
/// and the pointer's leaving let go; so does a click on the held button. Nothing else does.
pub proof fn lemma_held_button(bar: BarModel, event: Event)
    ensures
        event matches Event::Press { index } ==> bar.after(event).pressed_button == Some(index),
        event is Release || event is Leave ==> bar.after(event).pressed_button is None,
        event matches Event::Click { index } ==> bar.after(event).pressed_button == (
        if bar.pressed_button == Some(index) {
            None
        } else {
            bar.pressed_button
        }),
        !(event is Press || event is Release || event is Leave || event is Click) ==> bar.after(
            event,
        ).pressed_button == bar.pressed_button,
{
}

/// The panel of layouts: the switch opens and closes it, a choice closes it.
pub proof fn lemma_panel(bar: BarModel, event: Event)
    ensures
        event is ToggleLayout ==> bar.after(event).layout_open != bar.layout_open,
        event is SelectLayout ==> !bar.after(event).layout_open,
        !(event is ToggleLayout || event is SelectLayout) ==> bar.after(event).layout_open
            == bar.layout_open,
{
}

/// The seconds of the clock: a click on the clock shows or hides them.
pub proof fn lemma_seconds(bar: BarModel, event: Event)
    ensures
        event is ToggleSeconds ==> bar.after(event).show_seconds != bar.show_seconds,
        !(event is ToggleSeconds) ==> bar.after(event).show_seconds == bar.show_seconds,
{
}

/// What is known of the monitor and its tags is what a message says of them, and nothing
/// else touches it.
pub proof fn lemma_message_is_taken_over(bar: BarModel, event: Event, i: int)
    ensures
        event matches Event::Message { message } ==> {
            let after = bar.after(event);
            &&& after.monitor_num == Some(message.monitor_num)
            &&& after.layout_symbol == message.layout_symbol
            &&& after.button_states.len() == 9
            &&& 0 <= i < 9 && i < message.tags.len() ==> {
                &&& after.button_states[i].is_filtered == message.tags[i].is_filled
                &&& after.button_states[i].is_selected == message.tags[i].is_selected
                &&& after.button_states[i].is_urg == message.tags[i].is_urg
                &&& after.button_states[i].is_occ == message.tags[i].is_occ
            }
            &&& message.tags.len() <= i < 9 ==> {
                &&& !after.button_states[i].is_filtered
                &&& !after.button_states[i].is_selected
                &&& !after.button_states[i].is_urg
                &&& !after.button_states[i].is_occ
            }
        },
        !(event is Message) ==> {
            let after = bar.after(event);
            &&& after.monitor_num == bar.monitor_num
            &&& after.layout_symbol == bar.layout_symbol
            &&& after.button_states == bar.button_states
        },
{
}

/// A reading that came is the one shown, whatever was shown before; one that did not come
/// leaves what was shown; nothing else touches it.
pub proof fn lemma_reading_is_taken_over(bar: BarModel, event: Event)
    ensures
        event matches Event::System { system: Some(s) } ==> bar.after(event).system == Some(s),
        !(event matches Event::System { system: Some(s) }) ==> bar.after(event).system
            == bar.system,
        event matches Event::Audio { audio: Some(a) } ==> bar.after(event).audio == Some(a),
        !(event matches Event::Audio { audio: Some(a) }) ==> bar.after(event).audio == bar.audio,
        event matches Event::Brightness { brightness: Some(b) } ==> bar.after(event).brightness
            == Some(b),
        !(event matches Event::Brightness { brightness: Some(b) }) ==> bar.after(event).brightness
            == bar.brightness,
        bar.after(event).has_buffer == bar.has_buffer,
{
}

/// Each refresh takes over the reading it is given, and leaves the two others.
pub proof fn lemma_refresh_takes_over(
    bar: BarModel,
    s: SystemReading,
    a: AudioSnapshot,
    b: BrightnessSnapshot,
)
    ensures
        bar.after_system(Some(s)).system == Some(s),
        bar.after_system(Some(s)).audio == bar.audio,
        bar.after_system(Some(s)).brightness == bar.brightness,
        bar.after_audio(Some(a)).audio == Some(a),
        bar.after_audio(Some(a)).system == bar.system,
        bar.after_audio(Some(a)).brightness == bar.brightness,
        bar.after_brightness(Some(b)).brightness == Some(b),
        bar.after_brightness(Some(b)).system == bar.system,
        bar.after_brightness(Some(b)).audio == bar.audio,
        bar.after_system(None) == bar,
        bar.after_audio(None) == bar,
        bar.after_brightness(None) == bar,
{
}

/// What a refresh or a message tells of itself is whether it changed what is shown.
pub proof fn lemma_changes_are_told(
    bar: BarModel,
    audio: Option<AudioSnapshot>,
    brightness: Option<BrightnessSnapshot>,
    message: MessageModel,
)
    ensures
        bar.audio_is_new(audio) <==> bar.after_audio(audio).audio != bar.audio,
        bar.brightness_is_new(brightness) <==> bar.after_brightness(brightness).brightness
            != bar.brightness,
        bar.buttons_changed_by(message) <==> bar.after_message(message).button_states
            != bar.button_states,
        bar.audio_is_new(audio) ==> !bar.after_audio(audio).audio_is_new(audio),
        bar.brightness_is_new(brightness) ==> !bar.after_brightness(brightness).brightness_is_new(
            brightness,
        ),
        !bar.after_message(message).buttons_changed_by(message),
{
}

/// What is asked of the window manager: to set the chosen layout, for a choice; to view the
/// tag, for a release, and for a click on the button still held. The monitor is the one
/// known. Without a monitor or a buffer it is told that there is no one to ask.
pub proof fn lemma_requests(bar: BarModel, index: usize, layout: u32)
    requires
        index < 32,
    ensures
        bar.monitor_num is None || !bar.has_buffer ==> {
            &&& bar.outcome(Event::SelectLayout { layout }) == Outcome::Unavailable
            &&& bar.outcome(Event::Release { index }) == Outcome::Unavailable
            &&& bar.pressed_button == Some(index) ==> bar.outcome(Event::Click { index })
                == Outcome::Unavailable
        },
        bar.pressed_button != Some(index) ==> bar.outcome(Event::Click { index })
            == Outcome::Nothing,
        bar.pressed_button == Some(index) ==> bar.outcome(Event::Click { index }) == bar.outcome(
            Event::Release { index },
        ),
        bar.monitor_num is Some && bar.has_buffer ==> {
            let chosen = bar.outcome(Event::SelectLayout { layout });
            let released = bar.outcome(Event::Release { index });
            &&& chosen is Send
            &&& chosen->command.kind == CommandKind::SetLayout
            &&& chosen->command.parameter == layout
            &&& chosen->command.monitor_id == bar.monitor_num->0
            &&& released is Send
            &&& released->command.kind == CommandKind::ViewTag
            &&& released->command.parameter == vstd::arithmetic::power2::pow2(index as nat)
            &&& released->command.monitor_id == bar.monitor_num->0
        },
{
    crate::command::lemma_mask_fits(index as nat);
}

/// Choosing a layout sends that layout: the request's parameter is the one chosen, for
/// every layout, and two choices ask the same exactly where they are the same.
pub proof fn lemma_choice_is_sent(bar: BarModel, monitor: i32, layout: u32, other: u32)
    requires
        bar.monitor_num == Some(monitor),
        bar.has_buffer,
    ensures
        bar.select_outcome(layout) matches Outcome::Send { command } && command.kind
            == CommandKind::SetLayout && command.parameter == layout && command.monitor_id
            == monitor,
        bar.select_outcome(layout) == bar.select_outcome(other) <==> layout == other,
{
}

/// Releasing a tag's button sends the bit of that tag: 1 for the first, twice as much for
/// the next.
pub proof fn lemma_release_is_sent(bar: BarModel, monitor: i32, index: nat)
    requires
        bar.monitor_num == Some(monitor),
        bar.has_buffer,
        index < 32,
    ensures
        bar.release_outcome(index) matches Outcome::Send { command } && command.kind
            == CommandKind::ViewTag && command.monitor_id == monitor,
        bar.release_outcome(0)->command.parameter == 1,
        index < 31 ==> bar.release_outcome(index + 1)->command.parameter == 2
            * bar.release_outcome(index)->command.parameter,
{
    lemma_tag_command_fields(monitor, index, true);
    lemma_tag_command_fields(monitor, 0, true);
}

/// No other event asks for anything.
pub proof fn lemma_other_events_ask_nothing(bar: BarModel, event: Event)
    requires
        !(event is Release || event is Click || event is SelectLayout),
    ensures
        bar.outcome(event) == Outcome::Nothing,
{
}

/// After any course of events the bar shows the last reading of the system that came.
pub proof fn lemma_last_system_reading_is_shown(
    bar: BarModel,
    before: Seq<Event>,
    s: SystemReading,
    later: Seq<Event>,
)
    requires
        forall|i: int|
            0 <= i < later.len() ==> !((#[trigger] later[i]) matches Event::System {
                system: Some(r),
            }),
    ensures
        ({
            let shown = after_all(bar, before.push(Event::System { system: Some(s) }) + later);
            &&& shown.system == Some(s)
            &&& is_load_class(shown.system_pills().0.class, s.cpu_average)
            &&& is_load_class(shown.system_pills().1.class, s.memory_usage_percent)
            &&& shown.system_pills().2.text == s.battery_percent.number().fixed_text(0).push('%')
        }),
    decreases later.len(),
{
    let start = before.push(Event::System { system: Some(s) });
    let all = start + later;
    if later.len() == 0 {
        assert(all.drop_last() =~= before);
    } else {
        let rest = later.drop_last();
        assert forall|i: int| 0 <= i < rest.len() implies !((#[trigger] rest[i]) matches Event::System {
            system: Some(r),
        }) by {
            assert(rest[i] == later[i]);
        }
        lemma_last_system_reading_is_shown(bar, before, s, rest);
        assert(all.drop_last() =~= start + rest);
        assert(all.last() == later[later.len() - 1]);
    }
    lemma_cpu_pill_shows_load(s);
    lemma_memory_pill_shows_load(s);
    crate::shown_laws::lemma_battery_pill_shows_level(s);
}

/// After any course of events the bar shows the last reading of the audio system that came.
pub proof fn lemma_last_audio_reading_is_shown(
    bar: BarModel,
    before: Seq<Event>,
    a: AudioSnapshot,
    later: Seq<Event>,
)
    requires
        forall|i: int|
            0 <= i < later.len() ==> !((#[trigger] later[i]) matches Event::Audio {
                audio: Some(r),
            }),
    ensures
        after_all(bar, before.push(Event::Audio { audio: Some(a) }) + later).audio == Some(a),
    decreases later.len(),
{
    let start = before.push(Event::Audio { audio: Some(a) });
    let all = start + later;
    if later.len() == 0 {
        assert(all.drop_last() =~= before);
    } else {
        let rest = later.drop_last();
        assert forall|i: int| 0 <= i < rest.len() implies !((#[trigger] rest[i]) matches Event::Audio {
            audio: Some(r),
        }) by {
            assert(rest[i] == later[i]);
        }
        lemma_last_audio_reading_is_shown(bar, before, a, rest);
        assert(all.drop_last() =~= start + rest);
        assert(all.last() == later[later.len() - 1]);
    }
}

/// After any course of events the bar shows the last reading of the backlight that came.
pub proof fn lemma_last_brightness_reading_is_shown(
    bar: BarModel,
    before: Seq<Event>,
    b: BrightnessSnapshot,
    later: Seq<Event>,
)
    requires
        forall|i: int|
            0 <= i < later.len() ==> !((#[trigger] later[i]) matches Event::Brightness {
                brightness: Some(r),
            }),
    ensures
        after_all(bar, before.push(Event::Brightness { brightness: Some(b) }) + later).brightness
            == Some(b),
    decreases later.len(),
{
    let start = before.push(Event::Brightness { brightness: Some(b) });
    let all = start + later;
    if later.len() == 0 {
        assert(all.drop_last() =~= before);
    } else {
        let rest = later.drop_last();
        assert forall|i: int| 0 <= i < rest.len() implies !((#[trigger] rest[i]) matches Event::Brightness {
            brightness: Some(r),
        }) by {
            assert(rest[i] == later[i]);
        }
        lemma_last_brightness_reading_is_shown(bar, before, b, rest);
        assert(all.drop_last() =~= start + rest);
        assert(all.last() == later[later.len() - 1]);
    }
}

/// After any course of events the bar knows of the monitor and its tags what the last
/// message said, and draws each tag by it.
pub proof fn lemma_last_message_is_shown(
    bar: BarModel,
    before: Seq<Event>,
    message: MessageModel,
    later: Seq<Event>,
    i: int,
)
    requires
        forall|j: int| 0 <= j < later.len() ==> !((#[trigger] later[j]) is Message),
    ensures
        ({
            let shown = after_all(bar, before.push(Event::Message { message }) + later);
            &&& shown.monitor_num == Some(message.monitor_num)
            &&& shown.layout_symbol == message.layout_symbol
            &&& shown.button_states.len() == 9
            &&& 0 <= i < 9 && i < message.tags.len() ==> {
                &&& shown.button_states[i].is_filtered == message.tags[i].is_filled
                &&& shown.button_states[i].is_selected == message.tags[i].is_selected
                &&& shown.button_states[i].is_urg == message.tags[i].is_urg
                &&& shown.button_states[i].is_occ == message.tags[i].is_occ
            }
        }),
    decreases later.len(),
{
    let start = before.push(Event::Message { message });
    let all = start + later;
    if later.len() == 0 {
        assert(all.drop_last() =~= before);
    } else {
        let rest = later.drop_last();
        assert forall|j: int| 0 <= j < rest.len() implies !((#[trigger] rest[j]) is Message) by {
            assert(rest[j] == later[j]);
        }
        lemma_last_message_is_shown(bar, before, message, rest, i);
        assert(all.drop_last() =~= start + rest);
        assert(all.last() == later[later.len() - 1]);
    }
}

/// A button's flags and its style: the first flag that is set decides, in the order
/// filtered, selected, urgent, occupied, and each state has its style.
pub proof fn lemma_flags_and_styles(
    is_filtered: bool,
    is_selected: bool,
    is_urg: bool,
    is_occ: bool,
)
    ensures
        is_filtered ==> state_of_flags(is_filtered, is_selected, is_urg, is_occ)
            == ButtonState::Filtered,
        !is_filtered && is_selected ==> state_of_flags(is_filtered, is_selected, is_urg, is_occ)
            == ButtonState::Selected,
        !is_filtered && !is_selected && is_urg ==> state_of_flags(
            is_filtered,
            is_selected,
            is_urg,
            is_occ,
        ) == ButtonState::Urgent,
        !is_filtered && !is_selected && !is_urg && is_occ ==> state_of_flags(
            is_filtered,
            is_selected,
            is_urg,
            is_occ,
        ) == ButtonState::Occupied,
        !is_filtered && !is_selected && !is_urg && !is_occ ==> state_of_flags(
            is_filtered,
            is_selected,
            is_urg,
            is_occ,
        ) == ButtonState::Default,
        (ButtonStateData { is_filtered, is_selected, is_urg, is_occ }).state() == state_of_flags(
            is_filtered,
            is_selected,
            is_urg,
            is_occ,
        ),
        css_class(ButtonState::Filtered) == "emoji-button state-filtered"@,
        css_class(ButtonState::Selected) == "emoji-button state-selected"@,
        css_class(ButtonState::Urgent) == "emoji-button state-urgent"@,
        css_class(ButtonState::Occupied) == "emoji-button state-occupied"@,
        css_class(ButtonState::Default) == "emoji-button state-default"@,
        !ButtonStateData::unset().is_filtered,
        !ButtonStateData::unset().is_selected,
        !ButtonStateData::unset().is_urg,
        !ButtonStateData::unset().is_occ,
{
}

/// The class of a button with these flags, without a mark for being held.
pub open spec fn is_flag_class(class: Seq<char>, b: ButtonStateData) -> bool {
    &&& b.is_filtered ==> class == "emoji-button state-filtered"@
    &&& !b.is_filtered && b.is_selected ==> class == "emoji-button state-selected"@
    &&& !b.is_filtered && !b.is_selected && b.is_urg ==> class == "emoji-button state-urgent"@
    &&& !b.is_filtered && !b.is_selected && !b.is_urg && b.is_occ ==> class
        == "emoji-button state-occupied"@
    &&& !b.is_filtered && !b.is_selected && !b.is_urg && !b.is_occ ==> class
        == "emoji-button state-default"@
}

/// The row of tag buttons: nine, each with the class of its own flags, a mark exactly on
/// the one that is held, its number counted from one, and its glyph.
pub proof fn lemma_tag_row(bar: BarModel, i: int)
    requires
        bar.well_formed(),
        0 <= i < 9,
    ensures
        bar.tag_row().len() == 9,
        bar.pressed_button != Some(i as usize) ==> is_flag_class(
            bar.tag_row()[i].class,
            bar.button_states[i],
        ),
        bar.pressed_button == Some(i as usize) ==> {
            let class = bar.tag_row()[i].class;
            &&& class.len() > 8
            &&& class.skip(class.len() - 8) == " pressed"@
            &&& is_flag_class(class.take(class.len() - 8), bar.button_states[i])
        },
        bar.tag_row()[i].title == seq!['T', 'a', 'g', ' '] + decimal((i + 1) as nat),
        i == 0 ==> bar.tag_row()[i].icon == seq!['\u{F0A1E}'],
        i == 1 ==> bar.tag_row()[i].icon == seq!['\u{F0239}'],
        i == 2 ==> bar.tag_row()[i].icon == seq!['\u{F0A1B}'],
        i == 3 ==> bar.tag_row()[i].icon == seq!['\u{F0B79}'],
        i == 4 ==> bar.tag_row()[i].icon == seq!['\u{F024B}'],
        i == 5 ==> bar.tag_row()[i].icon == seq!['\u{F0388}'],
        i == 6 ==> bar.tag_row()[i].icon == seq!['\u{F0567}'],
        i == 7 ==> bar.tag_row()[i].icon == seq!['\u{F01F0}'],
        i == 8 ==> bar.tag_row()[i].icon == seq!['\u{F0297}'],
{
    lemma_glyphs(0);
    lemma_button_drawn_by_first_flag(bar.button_states, i);
    reveal_strlit("Tag ");
    reveal_strlit(" pressed");
    assert("Tag "@ =~= seq!['T', 'a', 'g', ' ']);
    reveal_strlit("emoji-button state-filtered");
    reveal_strlit("emoji-button state-selected");
    reveal_strlit("emoji-button state-urgent");
    reveal_strlit("emoji-button state-occupied");
    reveal_strlit("emoji-button state-default");
    let plain = crate::buttons::button_class_at(i, bar.button_states);
    let class = bar.tag_row()[i].class;
    if bar.pressed_button == Some(i as usize) {
        assert(class.skip(class.len() - 8) =~= " pressed"@);
        assert(class.take(class.len() - 8) =~= plain);
    }
}

/// The layout switch: the current symbol, and while the panel is open three choices in
/// order, each with its layout, its symbol, and a mark where the current symbol holds it.
pub proof fn lemma_layout_switch(bar: BarModel, i: int)
    requires
        0 <= i < 3,
    ensures
        bar.layout_switch().symbol == bar.layout_symbol,
        bar.layout_open ==> bar.layout_switch().toggle_class == "pill layout-toggle open"@,
        !bar.layout_open ==> bar.layout_switch().toggle_class == "pill layout-toggle closed"@
            && bar.layout_switch().options is None,
        bar.layout_open ==> {
            let options = bar.layout_switch().options;
            &&& options is Some
            &&& options->0.len() == 3
            &&& options->0[i].index == i
            &&& i == 0 ==> options->0[i].symbol == seq!['[', ']', '=']
            &&& i == 1 ==> options->0[i].symbol == seq!['>', '<', '>']
            &&& i == 2 ==> options->0[i].symbol == seq!['[', 'M', ']']
            &&& occurs(bar.layout_symbol, options->0[i].symbol) ==> options->0[i].class
                == "pill layout-option current"@
            &&& !occurs(bar.layout_symbol, options->0[i].symbol) ==> options->0[i].class
                == "pill layout-option "@
        },
{
    lemma_layout_symbols();
    lemma_layout_classes(bar.layout_open, bar.layout_symbol, i);
}

/// The monitor's pill shows the number of the monitor known, or the first before any is.
pub proof fn lemma_monitor_pill(bar: BarModel)
    ensures
        bar.monitor_pill().class == "pill monitor-pill"@,
        bar.monitor_pill().title is None,
        bar.monitor_pill().icon == seq!['\u{F0379}'],
        bar.monitor_num is None || bar.monitor_num == Some(0i32) ==> bar.monitor_pill().text == seq![
            '\u{F02DA}',
        ],
        bar.monitor_num == Some(1i32) ==> bar.monitor_pill().text == seq!['\u{F02DB}'],
        bar.monitor_num matches Some(n) && n != 0 && n != 1 ==> bar.monitor_pill().text == seq!['?'],
{
    lemma_glyphs(0);
    lemma_glyphs(1);
    if let Some(n) = bar.monitor_num {
        lemma_glyphs(n as int);
    }
    reveal_strlit("\u{F0379}");
    assert("\u{F0379}"@ =~= seq!['\u{F0379}']);
}

/// Each pill shows the reading of its own kind: the processor's, the memory's and the
/// battery's in this order, the volume, the brightness.
pub proof fn lemma_pills_show_own_readings(bar: BarModel)
    ensures
        bar.system matches Some(s) ==> {
            let pills = bar.system_pills();
            &&& is_load_class(pills.0.class, s.cpu_average)
            &&& pills.0.text == s.cpu_average.number().fixed_text(0).push('%')
            &&& is_load_class(pills.1.class, s.memory_usage_percent)
            &&& pills.1.text == s.memory_usage_percent.number().fixed_text(0).push('%')
            &&& pills.2.text == s.battery_percent.number().fixed_text(0).push('%')
        },
        bar.system_pills().0.icon == seq!['\u{F4BC}'],
        bar.system_pills().1.icon == seq!['\u{F035B}'],
        bar.system is None ==> bar.system_pills().0.text == seq!['-', '-', '%'],
        bar.audio is None ==> bar.shown_volume().icon == seq!['\u{F075F}'],
        bar.audio matches Some(a) && a.has_device ==> bar.shown_volume().text
            == crate::decimal::decimal_signed(bar.audio->0.volume as int).push('%'),
        bar.shown_brightness().icon == seq!['\u{F00DE}'],
        bar.brightness matches Some(b) && b.percent is Some ==> bar.shown_brightness().text
            == decimal(bar.brightness->0.percent->0 as nat).push('%'),
{
    crate::shown_laws::lemma_unread_pills_show_dash();
    if let Some(s) = bar.system {
        lemma_cpu_pill_shows_load(s);
        lemma_memory_pill_shows_load(s);
        crate::shown_laws::lemma_battery_pill_shows_level(s);
    } else {
        let p = bar.system_pills().0;
        assert(p.text == seq!['-', '-', '%']);
    }
    lemma_volume_glyph(bar.audio);
    crate::shown_laws::lemma_volume_label_and_class(bar.audio);
    crate::shown_laws::lemma_brightness_pill(bar.brightness);
}

/// The worker waits, reads, hands on, and waits again. It reads when something is ready,
/// hands on a message whose timestamp is not the last one's, and stops where waiting or
/// handing on fails. It keeps the timestamp of the last message it took up.
pub proof fn lemma_worker_steps(worker: Worker, event: WorkerEvent, has_buffer: bool, now: u128)
    ensures
        Worker::started(has_buffer, now).prev_timestamp == now,
        has_buffer ==> Worker::started(has_buffer, now).phase == Phase::Waiting,
        !has_buffer ==> Worker::started(has_buffer, now).phase == Phase::Stopped,
        worker.phase == Phase::Waiting ==> {
            let next = worker.after(event);
            &&& next.prev_timestamp == worker.prev_timestamp
            &&& event == WorkerEvent::Ready ==> next.phase == Phase::Reading
            &&& event == WorkerEvent::WaitFailed ==> next.phase == Phase::Stopped
            &&& event != WorkerEvent::Ready && event != WorkerEvent::WaitFailed ==> next.phase
                == Phase::Waiting
        },
        worker.phase == Phase::Reading ==> {
            let next = worker.after(event);
            &&& event matches WorkerEvent::Message { timestamp } ==> {
                &&& next.prev_timestamp == timestamp
                &&& timestamp == worker.prev_timestamp ==> next.phase == Phase::Waiting
                &&& timestamp != worker.prev_timestamp ==> next.phase == Phase::Sending
            }
            &&& event == WorkerEvent::NoMessage ==> next.phase == Phase::Waiting
            &&& !(event is Message) ==> next.prev_timestamp == worker.prev_timestamp
            &&& !(event is Message) && event != WorkerEvent::NoMessage ==> next.phase
                == Phase::Reading
        },
        worker.phase == Phase::Sending ==> {
            let next = worker.after(event);
            &&& next.prev_timestamp == worker.prev_timestamp
            &&& event == WorkerEvent::Sent ==> next.phase == Phase::Waiting
            &&& event == WorkerEvent::SendFailed ==> next.phase == Phase::Stopped
            &&& event != WorkerEvent::Sent && event != WorkerEvent::SendFailed ==> next.phase
                == Phase::Sending
        },
        worker.phase == Phase::Stopped ==> worker.after(event) == worker,
{
}

/// The sampling of the system ends where a reading could not be handed on, and only there.
pub proof fn lemma_sampling(handed: Option<bool>)
    ensures
        handed is None ==> goes_on_after(handed),
        handed matches Some(ok) ==> goes_on_after(handed) == ok,
{
}

/// The clock is updated every second where it shows seconds, else every sixty.
pub proof fn lemma_update_interval(show_seconds: bool)
    ensures
        interval_of(true) == 1000,
        interval_of(false) == 60 * interval_of(true),
        show_seconds ==> interval_of(show_seconds) == 1000,
        !show_seconds ==> interval_of(show_seconds) == 60000,
{
}

/// The models hold what the values hold.
pub proof fn lemma_models_hold_values(
    bar: Bar,
    message: BarMessage,
    pill: Pill,
    button: ButtonView,
    option: LayoutOption,
    request: VolumeRequest,
)
    ensures
        bar@.button_states == bar.button_states@,
        bar@.show_seconds == bar.show_seconds,
        bar@.system == bar.system,
        bar@.audio == bar.audio,
        bar@.brightness == bar.brightness,
        bar@.pressed_button == bar.pressed_button,
        bar@.monitor_num == bar.monitor_num,
        bar@.layout_symbol == bar.layout_symbol@,
        bar@.layout_open == bar.layout_open,
        bar@.has_buffer == bar.has_buffer,
        message@.layout_symbol == message.layout_symbol@,
        message@.monitor_num == message.monitor_num,
        message@.tags == message.tags@,
        pill@.class == pill.class@,
        pill@.title is Some <==> pill.title is Some,
        pill.title matches Some(title) ==> pill@.title == Some(title@),
        pill@.icon == pill.icon@,
        pill@.text == pill.text@,
        button@.class == button.class@,
        button@.title == button.title@,
        button@.icon == button.icon@,
        option@.class == option.class@,
        option@.symbol == option.symbol@,
        option@.index == option.index,
        request@.device == request.device@,
        request@.action == request.action,
{
}

} // verus!
