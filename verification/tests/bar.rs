use dioxus_bar::audio::AudioSnapshot;
use dioxus_bar::bar::{Bar, BarMessage, Outcome};
use dioxus_bar::binary64::Binary64;
use dioxus_bar::brightness::BrightnessSnapshot;
use dioxus_bar::buttons::{
    button_states_from, get_button_class, same_states, ButtonState, ButtonStateData, TagStatus,
};
use dioxus_bar::command::{layout_command, tag_command, Command, CommandKind};
use dioxus_bar::layout::{layout_option_class, layout_symbol, layout_toggle_class};
use dioxus_bar::system::SystemReading;
use dioxus_bar::text::contains;
use dioxus_bar::worker::{sampling_continues, Phase, Worker, WorkerEvent};

fn tag(filled: bool, selected: bool, urg: bool, occ: bool) -> TagStatus {
    TagStatus { is_selected: selected, is_urg: urg, is_filled: filled, is_occ: occ }
}

fn message(symbol: &str, monitor_num: i32, tags: Vec<TagStatus>) -> BarMessage {
    BarMessage { layout_symbol: symbol.to_string(), monitor_num, tags }
}

#[test]
fn flags_in_order() {
    for bits in 0..16 {
        let (f, s, u, o) = (bits & 8 != 0, bits & 4 != 0, bits & 2 != 0, bits & 1 != 0);
        let expected = match bits {
            8..=15 => ButtonState::Filtered,
            4..=7 => ButtonState::Selected,
            2..=3 => ButtonState::Urgent,
            1 => ButtonState::Occupied,
            _ => ButtonState::Default,
        };
        assert_eq!(ButtonState::from_flags(f, s, u, o), expected);
        let data = ButtonStateData { is_filtered: f, is_selected: s, is_urg: u, is_occ: o };
        assert_eq!(data.get_state(), expected);
    }
}

#[test]
fn css_classes() {
    assert_eq!(ButtonState::Filtered.to_css_class(), "emoji-button state-filtered");
    assert_eq!(ButtonState::Selected.to_css_class(), "emoji-button state-selected");
    assert_eq!(ButtonState::Urgent.to_css_class(), "emoji-button state-urgent");
    assert_eq!(ButtonState::Occupied.to_css_class(), "emoji-button state-occupied");
    assert_eq!(ButtonState::Default.to_css_class(), "emoji-button state-default");
}

#[test]
fn classes_by_index() {
    let states = button_states_from(&[tag(false, true, false, false), tag(false, false, true, true)]);
    assert_eq!(states.len(), 9);
    assert_eq!(get_button_class(0, &states), "emoji-button state-selected");
    assert_eq!(get_button_class(1, &states), "emoji-button state-urgent");
    assert_eq!(get_button_class(2, &states), "emoji-button state-default");
    assert_eq!(get_button_class(9, &states), "emoji-button state-default");
    assert_eq!(get_button_class(usize::MAX, &[]), "emoji-button state-default");
}

#[test]
fn tags_beyond_the_bar_are_ignored() {
    let mut many = vec![tag(false, false, false, true); 9];
    let nine = button_states_from(&many);
    many.push(tag(true, true, true, true));
    many.push(tag(true, false, true, false));
    assert_eq!(button_states_from(&many), nine);
    assert!(same_states(&button_states_from(&many), &nine));
    assert!(!same_states(&nine, &nine[..8]));
    assert_eq!(button_states_from(&[]), vec![ButtonStateData::default(); 9]);
}

#[test]
fn tag_commands() {
    assert_eq!(
        tag_command(1, 0, true),
        Command { kind: CommandKind::ViewTag, parameter: 1, monitor_id: 1 }
    );
    assert_eq!(
        tag_command(-2, 8, false),
        Command { kind: CommandKind::ToggleTag, parameter: 256, monitor_id: -2 }
    );
    assert_eq!(tag_command(0, 31, true).parameter, 0x8000_0000);
    for a in 0..31 {
        assert!(tag_command(0, a, true).parameter < tag_command(0, a + 1, true).parameter);
    }
}

#[test]
fn layout_commands() {
    assert_eq!(
        layout_command(3, 2),
        Command { kind: CommandKind::SetLayout, parameter: 2, monitor_id: 3 }
    );
}

#[test]
fn searching() {
    assert!(contains("", ""));
    assert!(contains("abc", ""));
    assert!(!contains("", "a"));
    assert!(contains("[]= x", "[]="));
    assert!(contains("x []=", "[]="));
    assert!(contains("aab", "ab"));
    assert!(!contains("aba", "abb"));
    assert!(contains("内存使用", "存使"));
    for text in ["", "a", "ab", "abab", "bba", "aabb"] {
        for part in ["", "a", "b", "ab", "ba", "abb", "aabbb"] {
            assert_eq!(contains(text, part), text.contains(part));
        }
    }
}

#[test]
fn layout_classes() {
    assert_eq!(layout_toggle_class(true), "pill layout-toggle open");
    assert_eq!(layout_toggle_class(false), "pill layout-toggle closed");
    assert_eq!(layout_option_class("[]=", 0), "pill layout-option current");
    assert_eq!(layout_option_class("[]=", 1), "pill layout-option ");
    assert_eq!(layout_option_class("><> 2", 1), "pill layout-option current");
    for i in 0..3 {
        assert_eq!(layout_option_class(layout_symbol(i), i), "pill layout-option current");
    }
}

#[test]
fn bar_at_its_start() {
    let bar = Bar::new(true);
    assert_eq!(bar.button_states.len(), 9);
    assert!(bar.show_seconds);
    assert!(!bar.layout_open);
    assert_eq!(bar.layout_symbol, "[]=");
    assert_eq!(bar.monitor_num, None);
    assert_eq!(bar.pressed_button, None);
    assert_eq!(bar.draw_monitor().text, "\u{F02DA}");
    assert_eq!(bar.draw_monitor().class, "pill monitor-pill");
    assert_eq!(bar.draw_volume().text, "--");
    assert_eq!(bar.draw_brightness().text, "--");
    assert_eq!(bar.draw_system().cpu.text, "--%");
    assert!(bar.draw_layout().options.is_none());
    for button in bar.draw_tag_buttons() {
        assert_eq!(button.class, "emoji-button state-default");
    }
}

#[test]
fn no_command_before_the_first_message() {
    let mut bar = Bar::new(true);
    bar.press(4);
    assert_eq!(bar.release(4), Outcome::Unavailable);
    assert_eq!(bar.select_layout(1), Outcome::Unavailable);
    // No command is made, so a tag beyond a mask does no harm.
    assert_eq!(bar.release(1000), Outcome::Unavailable);
}

#[test]
fn no_command_without_a_buffer() {
    let mut bar = Bar::new(false);
    bar.receive(message("[]=", 0, Vec::new()));
    bar.press(4);
    assert_eq!(bar.click(4), Outcome::Unavailable);
    assert_eq!(bar.select_layout(1), Outcome::Unavailable);
}

#[test]
fn press_release_click_sends_once() {
    let mut bar = Bar::new(true);
    bar.receive(message("[]=", 1, Vec::new()));
    bar.press(3);
    assert_eq!(bar.draw_tag_buttons()[3].class, "emoji-button state-default pressed");
    assert_eq!(bar.draw_tag_buttons()[2].class, "emoji-button state-default");
    let sent = Outcome::Send { command: Command { kind: CommandKind::ViewTag, parameter: 8, monitor_id: 1 } };
    assert_eq!(bar.release(3), sent);
    assert_eq!(bar.click(3), Outcome::Nothing);
    assert_eq!(bar.draw_tag_buttons()[3].class, "emoji-button state-default");
}

#[test]
fn click_on_a_pressed_button_releases_it() {
    let mut bar = Bar::new(true);
    bar.receive(message("[]=", 0, Vec::new()));
    bar.press(2);
    assert_eq!(bar.click(5), Outcome::Nothing);
    assert_eq!(bar.pressed_button, Some(2));
    let sent = Outcome::Send { command: Command { kind: CommandKind::ViewTag, parameter: 4, monitor_id: 0 } };
    assert_eq!(bar.click(2), sent);
    assert_eq!(bar.pressed_button, None);
}

#[test]
fn leaving_cancels_a_press() {
    let mut bar = Bar::new(true);
    bar.receive(message("[]=", 0, Vec::new()));
    bar.press(2);
    bar.leave();
    assert_eq!(bar.pressed_button, None);
    assert_eq!(bar.click(2), Outcome::Nothing);
}

#[test]
fn layout_panel() {
    let mut bar = Bar::new(true);
    bar.receive(message("[M]", 7, Vec::new()));
    bar.toggle_layout_panel();
    let view = bar.draw_layout();
    assert_eq!(view.toggle_class, "pill layout-toggle open");
    assert_eq!(view.symbol, "[M]");
    let options = view.options.unwrap();
    assert_eq!(options.len(), 3);
    for (i, symbol) in ["[]=", "><>", "[M]"].into_iter().enumerate() {
        assert_eq!(options[i].symbol, symbol);
        assert_eq!(options[i].index, i as u32);
        let class = if i == 2 { "pill layout-option current" } else { "pill layout-option " };
        assert_eq!(options[i].class, class);
    }
    let sent = Outcome::Send { command: Command { kind: CommandKind::SetLayout, parameter: 1, monitor_id: 7 } };
    assert_eq!(bar.select_layout(1), sent);
    assert!(!bar.layout_open);
    bar.toggle_layout_panel();
    bar.toggle_layout_panel();
    assert!(!bar.layout_open);
}

#[test]
fn messages() {
    let mut bar = Bar::new(true);
    bar.press(1);
    let tags = || vec![tag(false, true, false, true), tag(true, false, false, false)];
    assert!(bar.receive(message("><>", 1, tags())));
    assert_eq!(bar.layout_symbol, "><>");
    assert_eq!(bar.monitor_num, Some(1));
    assert_eq!(bar.pressed_button, Some(1));
    assert_eq!(bar.draw_monitor().text, "\u{F02DB}");
    let buttons = bar.draw_tag_buttons();
    assert_eq!(buttons.len(), 9);
    assert_eq!(buttons[0].class, "emoji-button state-selected");
    assert_eq!(buttons[1].class, "emoji-button state-filtered pressed");
    assert_eq!(buttons[0].title, "Tag 1");
    assert_eq!(buttons[8].title, "Tag 9");
    assert_eq!(buttons[8].icon, "\u{F0297}");
    assert!(!bar.receive(message("><>", 1, tags())));
    assert!(!bar.receive(message("[M]", 2, tags())));
    assert_eq!(bar.layout_symbol, "[M]");
    assert!(bar.receive(message("[M]", 2, Vec::new())));
}

#[test]
fn readings() {
    let mut bar = Bar::new(true);
    let audio = AudioSnapshot { volume: 20, is_muted: false, has_device: true };
    assert!(bar.refresh_audio(Some(audio)));
    assert!(!bar.refresh_audio(Some(audio)));
    assert!(!bar.refresh_audio(None));
    assert_eq!(bar.draw_volume().text, "20%");
    let dim = BrightnessSnapshot { percent: Some(10) };
    assert!(bar.refresh_brightness(Some(dim)));
    assert!(!bar.refresh_brightness(Some(dim)));
    assert!(!bar.refresh_brightness(None));
    assert!(bar.refresh_brightness(Some(BrightnessSnapshot { percent: None })));
    assert_eq!(bar.draw_brightness().text, "--");
    let hundred = Binary64 { bits: 100f64.to_bits() };
    let system = SystemReading {
        cpu_average: hundred,
        memory_usage_percent: hundred,
        memory_used: 1,
        memory_total: 1,
        battery_percent: hundred,
        is_charging: false,
    };
    bar.refresh_system(Some(system));
    bar.refresh_system(None);
    assert_eq!(bar.draw_system().battery.text, "100%");
}

#[test]
fn seconds() {
    let mut bar = Bar::new(false);
    bar.toggle_seconds();
    assert!(!bar.show_seconds);
    bar.toggle_seconds();
    assert!(bar.show_seconds);
}

fn run(mut worker: Worker, events: &[WorkerEvent]) -> (Worker, Vec<u128>) {
    let mut handed_on = Vec::new();
    for event in events {
        let before = worker.phase;
        worker = worker.step(*event);
        if before == Phase::Reading && worker.phase == Phase::Sending {
            handed_on.push(worker.prev_timestamp);
        }
    }
    (worker, handed_on)
}

#[test]
fn worker_hands_on_new_messages() {
    let read = |timestamp: u128| [WorkerEvent::Ready, WorkerEvent::Message { timestamp }, WorkerEvent::Sent];
    let mut events = Vec::new();
    for t in [100u128, 101, 101, 102, 101] {
        events.extend(read(t));
    }
    let (worker, handed_on) = run(Worker::start(true, 100), &events);
    assert_eq!(handed_on, vec![101, 102, 101]);
    assert_eq!(worker, Worker { phase: Phase::Waiting, prev_timestamp: 101 });
}

#[test]
fn worker_waits_on() {
    let worker = Worker::start(true, 5);
    assert_eq!(worker.phase, Phase::Waiting);
    assert_eq!(worker.step(WorkerEvent::TimedOut), worker);
    assert_eq!(worker.step(WorkerEvent::Ready).phase, Phase::Reading);
    assert_eq!(worker.step(WorkerEvent::Ready).step(WorkerEvent::NoMessage), worker);
}

#[test]
fn worker_stops() {
    let worker = Worker::start(true, 5);
    assert_eq!(worker.step(WorkerEvent::WaitFailed).phase, Phase::Stopped);
    let sending = worker.step(WorkerEvent::Ready).step(WorkerEvent::Message { timestamp: 6 });
    assert_eq!(sending, Worker { phase: Phase::Sending, prev_timestamp: 6 });
    let stopped = sending.step(WorkerEvent::SendFailed);
    assert_eq!(stopped.phase, Phase::Stopped);
    let (after, handed_on) = run(stopped, &[WorkerEvent::Ready, WorkerEvent::Message { timestamp: 9 }]);
    assert_eq!(after, stopped);
    assert!(handed_on.is_empty());
    assert_eq!(Worker::start(false, 5).phase, Phase::Stopped);
}

#[test]
fn sampling() {
    assert!(sampling_continues(None));
    assert!(sampling_continues(Some(true)));
    assert!(!sampling_continues(Some(false)));
}
