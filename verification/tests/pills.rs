use dioxus_bar::audio::{
    audio_snapshot_from, volume_control, volume_gesture, volume_icon, AudioSnapshot, MasterDevice, VolumeAction,
};
use dioxus_bar::binary64::Binary64;
use dioxus_bar::brightness::{brightness_control, brightness_gesture, BrightnessSnapshot};
use dioxus_bar::clock::{time_text, update_interval, CivilTime};
use dioxus_bar::drawing::scale_text;
use dioxus_bar::icons::{
    monitor_icon_glyph, tag_icon, ICON_BAT_CHG, ICON_BAT_FULL, ICON_BRIGHT, ICON_CPU, ICON_MEM, ICON_SHOT,
    ICON_VOL_HIGH, ICON_VOL_LOW, ICON_VOL_MID, ICON_VOL_MUTE,
};
use dioxus_bar::pointer::{wheel_step, Gesture};
use dioxus_bar::screenshot::Screenshot;
use dioxus_bar::startup::{is_screen_line, shared_path};
use dioxus_bar::system::{system_info_display, SystemReading};

fn of(x: f64) -> Binary64 {
    Binary64 { bits: x.to_bits() }
}

fn reading(cpu: f64, mem: f64, battery: f64, charging: bool) -> SystemReading {
    SystemReading {
        cpu_average: of(cpu),
        memory_usage_percent: of(mem),
        memory_used: 3 * 1024 * 1024 * 1024 / 2,
        memory_total: 8 * 1024 * 1024 * 1024,
        battery_percent: of(battery),
        is_charging: charging,
    }
}

#[test]
fn system_pills_of_a_reading() {
    let info = system_info_display(Some(&reading(29.6, 61.2, 50.0, true)));
    assert_eq!(info.cpu.class, "pill usage-pill usage-good");
    assert_eq!(info.cpu.title.unwrap(), "CPU 平均使用率");
    assert_eq!(info.cpu.icon, ICON_CPU);
    assert_eq!(info.cpu.text, "30%");
    assert_eq!(info.memory.class, "pill usage-pill usage-caution");
    assert_eq!(info.memory.title.unwrap(), "内存使用: 1.5GB / 8.0GB");
    assert_eq!(info.memory.icon, ICON_MEM);
    assert_eq!(info.memory.text, "61%");
    assert_eq!(info.battery.class, "pill usage-pill usage-warn");
    assert_eq!(info.battery.title.unwrap(), "电池充电中: 50.0%");
    assert_eq!(info.battery.icon, ICON_BAT_CHG);
    assert_eq!(info.battery.text, "50%");
}

#[test]
fn battery_that_does_not_charge() {
    let info = system_info_display(Some(&reading(0.0, 0.0, 87.46, false)));
    assert_eq!(info.battery.class, "pill usage-pill usage-good");
    assert_eq!(info.battery.title.unwrap(), "电池电量: 87.5%");
    assert_eq!(info.battery.icon, ICON_BAT_FULL);
    let low = system_info_display(Some(&reading(0.0, 0.0, 20.0, false)));
    assert_eq!(low.battery.class, "pill usage-pill usage-danger");
}

#[test]
fn system_pills_before_a_reading() {
    let info = system_info_display(None);
    for (pill, icon) in [(info.cpu, ICON_CPU), (info.memory, ICON_MEM), (info.battery, ICON_BAT_FULL)] {
        assert_eq!(pill.class, "pill usage-pill usage-warn");
        assert!(pill.title.is_none());
        assert_eq!(pill.icon, icon);
        assert_eq!(pill.text, "--%");
    }
}

#[test]
fn load_grades() {
    let class = |x: f64| system_info_display(Some(&reading(x, x, 0.0, false))).cpu.class;
    assert_eq!(class(30.0), "pill usage-pill usage-good");
    // At single precision this is still 30.
    assert_eq!(class(30.0000001), "pill usage-pill usage-good");
    assert_eq!(class(30.01), "pill usage-pill usage-warn");
    assert_eq!(class(60.0), "pill usage-pill usage-warn");
    assert_eq!(class(80.0), "pill usage-pill usage-caution");
    assert_eq!(class(80.1), "pill usage-pill usage-danger");
    assert_eq!(class(f64::NAN), "pill usage-pill usage-danger");
    assert_eq!(class(-1.0), "pill usage-pill usage-good");
}

#[test]
fn grades_follow_the_load() {
    let grades = ["usage-good", "usage-warn", "usage-caution", "usage-danger"];
    let mut last = 0;
    for i in 0..1000 {
        let info = system_info_display(Some(&reading(i as f64 / 10.0, 0.0, 0.0, false)));
        let grade = grades.iter().position(|g| info.cpu.class.ends_with(g)).unwrap();
        assert!(grade >= last);
        last = grade;
    }
    assert_eq!(last, 3);
}

#[test]
fn audio_snapshots() {
    let s = audio_snapshot_from(Some(&MasterDevice { volume: 150, is_muted: false }));
    assert_eq!(s, AudioSnapshot { volume: 100, is_muted: false, has_device: true });
    let s = audio_snapshot_from(Some(&MasterDevice { volume: -3, is_muted: true }));
    assert_eq!(s, AudioSnapshot { volume: 0, is_muted: true, has_device: true });
    let s = audio_snapshot_from(Some(&MasterDevice { volume: 42, is_muted: false }));
    assert_eq!(s.volume, 42);
    let s = audio_snapshot_from(None);
    assert_eq!(s, AudioSnapshot { volume: 0, is_muted: true, has_device: false });
}

fn volume(v: i32) -> AudioSnapshot {
    AudioSnapshot { volume: v, is_muted: false, has_device: true }
}

#[test]
fn volume_glyphs() {
    assert_eq!(volume_icon(None), ICON_VOL_MUTE);
    assert_eq!(volume_icon(Some(&volume(0))), ICON_VOL_MUTE);
    assert_eq!(volume_icon(Some(&volume(1))), ICON_VOL_LOW);
    assert_eq!(volume_icon(Some(&volume(33))), ICON_VOL_LOW);
    assert_eq!(volume_icon(Some(&volume(34))), ICON_VOL_MID);
    assert_eq!(volume_icon(Some(&volume(66))), ICON_VOL_MID);
    assert_eq!(volume_icon(Some(&volume(67))), ICON_VOL_HIGH);
    assert_eq!(volume_icon(Some(&AudioSnapshot { volume: 80, is_muted: true, has_device: true })), ICON_VOL_MUTE);
    assert_eq!(volume_icon(Some(&AudioSnapshot { volume: 80, is_muted: false, has_device: false })), ICON_VOL_MUTE);
}

#[test]
fn volume_pill() {
    let p = volume_control(Some(&volume(70)));
    assert_eq!(p.class, "pill volume-pill");
    assert_eq!(p.text, "70%");
    assert_eq!(p.icon, ICON_VOL_HIGH);
    assert_eq!(p.title.unwrap(), "左键静音 / 滚轮调节 / 右键 -5");
    let p = volume_control(Some(&AudioSnapshot { volume: 70, is_muted: true, has_device: true }));
    assert_eq!(p.class, "pill volume-pill muted");
    assert_eq!(p.text, "70%");
    assert_eq!(p.icon, ICON_VOL_MUTE);
    let p = volume_control(None);
    assert_eq!(p.class, "pill volume-pill muted");
    assert_eq!(p.text, "--");
    assert_eq!(volume_control(Some(&volume(-12))).text, "-12%");
}

#[test]
fn volume_gestures() {
    let r = volume_gesture(Gesture::Click, Some("Master")).unwrap();
    assert_eq!(r.device, "Master");
    assert_eq!(r.action, VolumeAction::ToggleMute);
    let r = volume_gesture(Gesture::Context, Some("Master")).unwrap();
    assert_eq!(r.action, VolumeAction::Adjust { delta: -5 });
    let r = volume_gesture(Gesture::Wheel { dy: of(-120.0) }, Some("Master")).unwrap();
    assert_eq!(r.action, VolumeAction::Adjust { delta: 5 });
    assert!(volume_gesture(Gesture::Click, None).is_none());
}

#[test]
fn wheel_steps() {
    assert_eq!(wheel_step(of(-0.1)), 5);
    assert_eq!(wheel_step(of(0.1)), -5);
    assert_eq!(wheel_step(of(0.0)), -5);
    assert_eq!(wheel_step(of(-0.0)), -5);
    assert_eq!(wheel_step(of(f64::NAN)), -5);
    assert_eq!(wheel_step(of(f64::NEG_INFINITY)), 5);
}

#[test]
fn brightness_pill() {
    let p = brightness_control(Some(&BrightnessSnapshot { percent: Some(45) }));
    assert_eq!(p.class, "pill brightness-pill");
    assert_eq!(p.text, "45%");
    assert_eq!(p.icon, ICON_BRIGHT);
    assert_eq!(p.title.unwrap(), "左键加亮 / 右键减暗 / 滚轮调节");
    assert_eq!(brightness_control(Some(&BrightnessSnapshot { percent: None })).text, "--");
    assert_eq!(brightness_control(None).text, "--");
    assert_eq!(brightness_control(Some(&BrightnessSnapshot { percent: Some(0) })).text, "0%");
    assert_eq!(brightness_control(Some(&BrightnessSnapshot { percent: Some(255) })).text, "255%");
}

#[test]
fn brightness_labels_differ() {
    for a in 0..=254u8 {
        let x = brightness_control(Some(&BrightnessSnapshot { percent: Some(a) })).text;
        let y = brightness_control(Some(&BrightnessSnapshot { percent: Some(a + 1) })).text;
        assert_ne!(x, y);
    }
}

#[test]
fn brightness_gestures() {
    assert_eq!(brightness_gesture(Gesture::Click), 5);
    assert_eq!(brightness_gesture(Gesture::Context), -5);
    assert_eq!(brightness_gesture(Gesture::Wheel { dy: of(-1.0) }), 5);
    assert_eq!(brightness_gesture(Gesture::Wheel { dy: of(1.0) }), -5);
}

#[test]
fn glyphs() {
    assert_eq!(monitor_icon_glyph(0), "\u{F02DA}");
    assert_eq!(monitor_icon_glyph(1), "\u{F02DB}");
    assert_eq!(monitor_icon_glyph(2), "?");
    assert_eq!(monitor_icon_glyph(-1), "?");
    let tags = [
        "\u{F0A1E}", "\u{F0239}", "\u{F0A1B}", "\u{F0B79}", "\u{F024B}", "\u{F0388}", "\u{F0567}", "\u{F01F0}",
        "\u{F0297}",
    ];
    for i in 0..9 {
        assert_eq!(tag_icon(i), tags[i]);
    }
}

fn time(year: i32, month: u32, day: u32, hour: u32, minute: u32, second: u32) -> CivilTime {
    CivilTime { year, month, day, hour, minute, second }
}

#[test]
fn clock_texts() {
    let t = time(2015, 9, 5, 23, 56, 4);
    assert_eq!(time_text(&t, true).unwrap(), "2015-09-05 23:56:04");
    assert_eq!(time_text(&t, false).unwrap(), "2015-09-05 23:56");
    assert_eq!(time_text(&time(7, 1, 2, 3, 4, 5), true).unwrap(), "0007-01-02 03:04:05");
    assert_eq!(time_text(&time(0, 1, 1, 0, 0, 0), false).unwrap(), "0000-01-01 00:00");
    assert_eq!(time_text(&time(12345, 12, 31, 23, 59, 59), true).unwrap(), "+12345-12-31 23:59:59");
    assert_eq!(time_text(&time(-4, 2, 29, 0, 0, 0), false).unwrap(), "-0004-02-29 00:00");
}

#[test]
fn clock_knows_the_calendar() {
    assert!(time_text(&time(2023, 2, 29, 0, 0, 0), true).is_none());
    assert!(time_text(&time(2024, 2, 29, 0, 0, 0), true).is_some());
    assert!(time_text(&time(1900, 2, 29, 0, 0, 0), true).is_none());
    assert!(time_text(&time(2000, 2, 29, 0, 0, 0), true).is_some());
    assert!(time_text(&time(2023, 4, 31, 0, 0, 0), true).is_none());
    assert!(time_text(&time(2023, 0, 1, 0, 0, 0), true).is_none());
    assert!(time_text(&time(2023, 13, 1, 0, 0, 0), true).is_none());
    assert!(time_text(&time(2023, 1, 0, 0, 0, 0), true).is_none());
    assert!(time_text(&time(2023, 1, 1, 24, 0, 0), true).is_none());
    assert!(time_text(&time(2023, 1, 1, 0, 60, 0), true).is_none());
    assert!(time_text(&time(2023, 1, 1, 0, 0, 60), true).is_none());
    assert!(time_text(&time(262142, 12, 31, 0, 0, 0), false).is_some());
    assert!(time_text(&time(262143, 1, 1, 0, 0, 0), false).is_none());
    assert!(time_text(&time(-262143, 1, 1, 0, 0, 0), false).is_some());
    assert!(time_text(&time(-262144, 12, 31, 0, 0, 0), false).is_none());
}

#[test]
fn clock_agrees_with_the_month_lengths() {
    let lengths = [31, 28, 31, 30, 31, 30, 31, 31, 30, 31, 30, 31];
    for month in 1..=12u32 {
        for day in 1..=40u32 {
            let shown = time_text(&time(2025, month, day, 12, 30, 15), true);
            assert_eq!(shown.is_some(), day <= lengths[month as usize - 1]);
            if let Some(text) = shown {
                assert_eq!(text, format!("2025-{:02}-{:02} 12:30:15", month, day));
                assert_eq!(text.len(), 19);
            }
        }
    }
}

#[test]
fn clock_intervals() {
    assert_eq!(update_interval(true), 1000);
    assert_eq!(update_interval(false), 60000);
}

#[test]
fn scale_texts() {
    assert_eq!(scale_text(of(1.0)), "s: 1.00");
    assert_eq!(scale_text(of(1.125)), "s: 1.12");
    assert_eq!(scale_text(of(2.0 / 3.0)), "s: 0.67");
}

#[test]
fn one_screenshot_at_a_time() {
    let mut s = Screenshot::Idle;
    assert_eq!(s.pill().class, "pill screenshot-pill");
    assert_eq!(s.pill().icon, ICON_SHOT);
    assert_eq!(s.pill().title.unwrap(), "截图 (Flameshot)");
    assert!(s.click());
    assert_eq!(s.pill().class, "pill screenshot-pill taking");
    assert!(!s.click());
    assert!(s.launched(true));
    assert!(!s.click());
    assert_eq!(s.pill().class, "pill screenshot-pill taking");
    s.exited();
    assert_eq!(s.pill().class, "pill screenshot-pill");
    assert!(s.click());
    assert!(!s.launched(false));
    assert_eq!(s, Screenshot::Idle);
}

#[test]
fn shared_paths() {
    let some = |s: &str| Some(s.to_string());
    assert_eq!(shared_path(some("/dev/shm/a"), some("/dev/shm/b")), "/dev/shm/a");
    assert_eq!(shared_path(None, some("/dev/shm/b")), "/dev/shm/b");
    assert_eq!(shared_path(None, None), "/dev/shm/monitor_0");
    assert_eq!(shared_path(some(""), None), "");
}

#[test]
fn screen_lines() {
    assert!(is_screen_line("eDP-1 connected primary 1920x1080+0+0"));
    assert!(is_screen_line("   1920x1080     60.02*+  59.97"));
    assert!(!is_screen_line("HDMI-1 disconnected (normal left)"));
    assert!(!is_screen_line(""));
    assert!(!is_screen_line("primar"));
}
