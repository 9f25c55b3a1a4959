//! What holds of the bar over every course of events.

use vstd::prelude::*;
use crate::audio::AudioSnapshot;
use crate::bar::{BarModel, MessageModel, Outcome};
use crate::brightness::BrightnessSnapshot;
use crate::buttons::{button_class_at, states_of_tags};
use crate::command::{command_for_tag, Command};
use crate::icons::TAG_COUNT;
use crate::layout::toggle_class_of;
use crate::system::SystemReading;

verus! {

/// An event that the bar takes up.
pub enum Event {
    Press { index: usize },
    Release { index: usize },
    Leave,
    Click { index: usize },
    ToggleLayout,
    SelectLayout { layout: u32 },
    ToggleSeconds,
    Message { message: MessageModel },
    Audio { audio: Option<AudioSnapshot> },
    Brightness { brightness: Option<BrightnessSnapshot> },
    System { system: Option<SystemReading> },
}

impl BarModel {
    /// The bar after an event.
    pub open spec fn after(self, event: Event) -> BarModel {
        match event {
            Event::Press { index } => self.after_press(index),
            Event::Release { .. } => self.after_release(),
            Event::Leave => self.after_leave(),
            Event::Click { index } => self.after_click(index),
            Event::ToggleLayout => self.after_toggle_layout(),
            Event::SelectLayout { .. } => self.after_select_layout(),
            Event::ToggleSeconds => self.after_toggle_seconds(),
            Event::Message { message } => self.after_message(message),
            Event::Audio { audio } => self.after_audio(audio),
            Event::Brightness { brightness } => self.after_brightness(brightness),
            Event::System { system } => self.after_system(system),
        }
    }

    /// What is to be done on an event.
    pub open spec fn outcome(self, event: Event) -> Outcome {
        match event {
            Event::Release { index } => self.release_outcome(index as nat),
            Event::Click { index } => self.click_outcome(index),
            Event::SelectLayout { layout } => self.select_outcome(layout),
            _ => Outcome::Nothing,
        }
    }
}

/// The bar after a course of events.
pub open spec fn after_all(bar: BarModel, events: Seq<Event>) -> BarModel
    decreases events.len(),
{
    if events.len() == 0 {
        bar
    } else {
        after_all(bar, events.drop_last()).after(events.last())
    }
}

/// The commands that are sent in a course of events.
pub open spec fn commands(bar: BarModel, events: Seq<Event>) -> Seq<Command>
    decreases events.len(),
{
    if events.len() == 0 {
        Seq::empty()
    } else {
        let before = commands(bar, events.drop_last());
        match after_all(bar, events.drop_last()).outcome(events.last()) {
            Outcome::Send { command } => before.push(command),
            _ => before,
        }
    }
}

/// Every event leaves the bar with one button for each tag, and leaves the way to the
/// window manager as it was.
pub proof fn lemma_event_keeps_form(bar: BarModel, event: Event)
    ensures
        bar.well_formed() ==> bar.after(event).well_formed(),
        bar.after(event).has_buffer == bar.has_buffer,
{
}

/// In every state that the bar can come to, there is one button for each tag.
pub proof fn lemma_always_well_formed(has_buffer: bool, events: Seq<Event>)
    ensures
        after_all(BarModel::initial(has_buffer), events).well_formed(),
        after_all(BarModel::initial(has_buffer), events).has_buffer == has_buffer,
    decreases events.len(),
{
    if events.len() > 0 {
        lemma_always_well_formed(has_buffer, events.drop_last());
        lemma_event_keeps_form(
            after_all(BarModel::initial(has_buffer), events.drop_last()),
            events.last(),
        );
    }
}

/// A command goes to the monitor that the window manager named last, and only where there
/// is a buffer to send it through.
pub proof fn lemma_command_goes_to_known_monitor(bar: BarModel, event: Event)
    ensures
        bar.outcome(event) matches Outcome::Send { command } ==> bar.has_buffer && bar.monitor_num
            == Some(command.monitor_id),
{
}

/// Of an event that asks for a command, either the command is sent or it is reported that
/// it cannot be: it is not lost in silence.
pub proof fn lemma_request_is_answered(bar: BarModel, index: usize, layout: u32)
    ensures
        bar.outcome(Event::Release { index }) != Outcome::Nothing,
        bar.outcome(Event::SelectLayout { layout }) != Outcome::Nothing,
        bar.pressed_button == Some(index) ==> bar.outcome(Event::Click { index })
            != Outcome::Nothing,
{
}

/// Before the window manager's first message no command is sent.
pub proof fn lemma_silent_before_first_message(has_buffer: bool, events: Seq<Event>)
    requires
        forall|i: int| 0 <= i < events.len() ==> !(#[trigger] events[i] is Message),
    ensures
        after_all(BarModel::initial(has_buffer), events).monitor_num is None,
        commands(BarModel::initial(has_buffer), events).len() == 0,
    decreases events.len(),
{
    if events.len() > 0 {
        let before = events.drop_last();
        assert forall|i: int| 0 <= i < before.len() implies !(#[trigger] before[i] is Message) by {
            assert(before[i] == events[i]);
        }
        lemma_silent_before_first_message(has_buffer, before);
        assert(!(events[events.len() - 1] is Message));
    }
}

/// Without a buffer no command is ever sent.
pub proof fn lemma_silent_without_buffer(events: Seq<Event>)
    ensures
        commands(BarModel::initial(false), events).len() == 0,
    decreases events.len(),
{
    if events.len() > 0 {
        lemma_silent_without_buffer(events.drop_last());
        lemma_always_well_formed(false, events.drop_last());
    }
}

/// A press and a release of a button send the command for its tag, and the click that
/// follows them sends no second one.
pub proof fn lemma_press_release_click_sends_once(bar: BarModel, index: usize)
    requires
        bar.can_send(),
        index < 32,
    ensures
        commands(
            bar,
            seq![Event::Press { index }, Event::Release { index }, Event::Click { index }],
        ) == seq![command_for_tag(bar.monitor_num->0, index as nat, true)],
{
    let all = seq![Event::Press { index }, Event::Release { index }, Event::Click { index }];
    let two = seq![Event::Press { index }, Event::Release { index }];
    let one = seq![Event::Press { index }];
    assert(all.drop_last() =~= two);
    assert(two.drop_last() =~= one);
    assert(one.drop_last() =~= Seq::empty());
    reveal_with_fuel(after_all, 4);
    reveal_with_fuel(commands, 4);
    assert(commands(bar, all) =~= seq![command_for_tag(bar.monitor_num->0, index as nat, true)]);
}

/// A press that ends with the pointer leaving sends nothing, and neither does a click on a
/// button after that.
pub proof fn lemma_leaving_cancels_press(bar: BarModel, index: usize, other: usize)
    ensures
        commands(bar, seq![Event::Press { index }, Event::Leave, Event::Click { index: other }])
            == Seq::<Command>::empty(),
{
    let all = seq![Event::Press { index }, Event::Leave, Event::Click { index: other }];
    let two = seq![Event::Press { index }, Event::Leave];
    let one = seq![Event::Press { index }];
    assert(all.drop_last() =~= two);
    assert(two.drop_last() =~= one);
    assert(one.drop_last() =~= Seq::empty());
    reveal_with_fuel(after_all, 4);
    reveal_with_fuel(commands, 4);
}

/// A message that comes twice in a row changes nothing the second time.
pub proof fn lemma_repeated_message_changes_nothing(bar: BarModel, message: MessageModel)
    ensures
        bar.after_message(message).after_message(message) == bar.after_message(message),
        bar.after_message(message).button_states == states_of_tags(message.tags),
{
}

/// A message leaves what the user has done to the bar as it was.
pub proof fn lemma_message_keeps_user_state(bar: BarModel, message: MessageModel)
    ensures
        bar.after_message(message).pressed_button == bar.pressed_button,
        bar.after_message(message).layout_open == bar.layout_open,
        bar.after_message(message).show_seconds == bar.show_seconds,
{
}

/// Two clicks on the layout switch, or on the clock, undo each other.
pub proof fn lemma_toggles_undo_themselves(bar: BarModel)
    ensures
        bar.after_toggle_layout().after_toggle_layout() == bar,
        bar.after_toggle_seconds().after_toggle_seconds() == bar,
{
}

/// Choosing a layout closes the panel, whether or not the command can be sent.
pub proof fn lemma_choice_closes_panel(bar: BarModel)
    ensures
        !bar.after_select_layout().layout_open,
        toggle_class_of(bar.after_select_layout().layout_open) == "pill layout-toggle closed"@,
{
}

/// A tag's button is drawn as pressed exactly while it is the one pressed.
pub proof fn lemma_pressed_is_drawn(bar: BarModel, tag: int)
    requires
        0 <= tag < TAG_COUNT,
    ensures
        bar.tag_button(tag).class == button_class_at(tag, bar.button_states) + " pressed"@ <==> bar.pressed_button
            == Some(tag as usize),
{
    reveal_strlit(" pressed");
    let class = button_class_at(tag, bar.button_states);
    assert((class + " pressed"@).len() != class.len());
}

} // verus!
