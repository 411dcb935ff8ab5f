use std::time::Duration;

use oledshift::dialog::{DelayDialogData, DistanceDialogData, NumberRange, SpinDialogData};
use oledshift::geometry::MonitorRect;
use oledshift::labels::{append_decimal, format_distance, format_interval, format_millis, format_tooltip};
use oledshift::topology::{
    is_autohide_state, is_maximized_state, smallest_screen_size, taskbar_height, wide_len,
    wide_to_string,
};

fn wide(s: &str) -> Vec<u16> {
    s.encode_utf16().collect()
}

#[test]
fn text_ends_at_the_first_zero() {
    let mut buf = wide("\\\\.\\DISPLAY1");
    buf.extend([0u16, 88, 89, 0, 0]);
    assert_eq!(wide_len(&buf), 12);
    assert_eq!(wide_to_string(&buf), "\\\\.\\DISPLAY1");
    assert_eq!(wide_len(&[0u16, 65]), 0);
    assert_eq!(wide_to_string(&[0u16, 65]), "");
    assert_eq!(wide_len(&[]), 0);
    assert_eq!(wide_to_string(&[]), "");
}

#[test]
fn unterminated_buffer_is_read_whole() {
    let buf = wide("Generic PnP Monitor");
    assert_eq!(wide_len(&buf), buf.len());
    assert_eq!(wide_to_string(&buf), "Generic PnP Monitor");
}

#[test]
fn wide_text_is_decoded() {
    let mut buf = wide("Écran 日本 😀");
    buf.push(0);
    assert_eq!(wide_to_string(&buf), "Écran 日本 😀");
    assert_eq!(wide_to_string(&[0x0041, 0xD800, 0x0042, 0]), "A\u{FFFD}B");
}

#[test]
fn smallest_screen_orders_by_width_then_height() {
    assert_eq!(smallest_screen_size(&Vec::new()), None);
    assert_eq!(smallest_screen_size(&vec![(1920, 1080)]), Some((1920, 1080)));
    assert_eq!(
        smallest_screen_size(&vec![(2560, 1440), (1920, 1200), (1920, 1080), (3840, 600)]),
        Some((1920, 1080))
    );
    assert_eq!(smallest_screen_size(&vec![(1280, 1024), (1280, 720), (1280, 800)]), Some((1280, 720)));
    assert_eq!(smallest_screen_size(&vec![(5, 5), (-1, 900)]), Some((-1, 900)));
}

#[test]
fn taskbar_height_is_what_the_work_area_leaves() {
    assert_eq!(taskbar_height(1080, &MonitorRect::new(0, 0, 1920, 1040)), Some(40));
    assert_eq!(taskbar_height(1080, &MonitorRect::new(0, 0, 1920, 1080)), Some(0));
    assert_eq!(taskbar_height(1080, &MonitorRect::new(0, 48, 1920, 1080)), Some(48));
    assert_eq!(taskbar_height(i32::MAX, &MonitorRect::new(0, 1, 0, 0)), None);
    assert_eq!(taskbar_height(i32::MIN, &MonitorRect::new(0, 0, 0, 1)), None);
}

#[test]
fn state_flags() {
    assert!(is_autohide_state(1));
    assert!(is_autohide_state(3));
    assert!(!is_autohide_state(0));
    assert!(!is_autohide_state(2));
    assert!(is_maximized_state(3));
    assert!(!is_maximized_state(1));
    assert!(!is_maximized_state(2));
    assert!(!is_maximized_state(0));
}

#[test]
fn preset_intervals_have_fixed_texts() {
    assert_eq!(format_millis(30000), "30 seconds");
    assert_eq!(format_millis(60000), "1 minute");
    assert_eq!(format_millis(120000), "2 minutes");
    assert_eq!(format_millis(300000), "5 minutes");
    assert_eq!(format_interval(Duration::from_secs(300)), "5 minutes");
}

#[test]
fn custom_intervals() {
    assert_eq!(format_millis(1000), "1 second (Custom)");
    assert_eq!(format_millis(1999), "1 second (Custom)");
    assert_eq!(format_millis(5000), "5 seconds (Custom)");
    assert_eq!(format_millis(0), "0 seconds (Custom)");
    assert_eq!(format_millis(999), "0 seconds (Custom)");
    assert_eq!(format_millis(59000), "59 seconds (Custom)");
    assert_eq!(format_millis(180000), "3 minutes (Custom)");
    assert_eq!(format_millis(1800000), "30 minutes (Custom)");
    assert_eq!(format_millis(61000), "1 minute and 1 second (Custom)");
    assert_eq!(format_millis(62000), "1 minute and 2 seconds (Custom)");
    assert_eq!(format_millis(125000), "2 minutes and 5 seconds (Custom)");
    assert_eq!(format_millis(601000), "10 minutes and 1 second (Custom)");
    assert_eq!(format_millis(-1500), "-1 seconds (Custom)");
    assert_eq!(format_millis(-999), "0 seconds (Custom)");
    assert_eq!(format_millis(i32::MAX), "35791 minutes and 23 seconds (Custom)");
    assert_eq!(format_millis(i32::MIN), "-2147483 seconds (Custom)");
    assert_eq!(format_interval(Duration::from_millis(90500)), "1 minute and 30 seconds (Custom)");
}

#[test]
fn distances_as_text() {
    assert_eq!(format_distance(25, 25), "25 px (Small)");
    assert_eq!(format_distance(50, 50), "50 px (Medium)");
    assert_eq!(format_distance(100, 100), "100 px (Large)");
    assert_eq!(format_distance(25, 50), "25 px (x) 50 px (y) (Custom)");
    assert_eq!(format_distance(7, 7), "7 px (x) 7 px (y) (Custom)");
    assert_eq!(format_distance(-3, 1200), "-3 px (x) 1200 px (y) (Custom)");
}

#[test]
fn numbers_in_decimal() {
    for n in [0, 1, 9, 10, 11, 99, 100, 101, 12345, -1, -10, -909, i32::MAX, i32::MIN] {
        let mut out = String::from("n=");
        append_decimal(&mut out, n);
        assert_eq!(out, format!("n={}", n));
    }
}

#[test]
fn tooltip() {
    assert_eq!(
        format_tooltip(true, Duration::from_secs(30), 50, 50),
        "OLEDShift\nStatus: running\nDelay: 30 seconds\nMax distance: 50 px (Medium)"
    );
    assert_eq!(
        format_tooltip(false, Duration::from_secs(75), 10, 20),
        "OLEDShift\nStatus: paused\nDelay: 1 minute and 15 seconds (Custom)\nMax distance: 10 px (x) 20 px (y) (Custom)"
    );
}

#[test]
fn delay_dialog() {
    assert_eq!(DelayDialogData::range(30000), NumberRange { value: 30, step: 1, max: 1800, min: 5 });
    assert_eq!(DelayDialogData::range(1999), NumberRange { value: 1, step: 1, max: 1800, min: 5 });
    assert_eq!(DelayDialogData::range(-1999), NumberRange { value: -1, step: 1, max: 1800, min: 5 });
    assert_eq!(DelayDialogData::confirmed(Some(45)), DelayDialogData::Value(45000));
    assert_eq!(DelayDialogData::confirmed(Some(-45)), DelayDialogData::Value(45000));
    assert_eq!(DelayDialogData::confirmed(Some(0)), DelayDialogData::Value(0));
    assert_eq!(DelayDialogData::confirmed(Some(2147483)), DelayDialogData::Value(2147483000));
    assert_eq!(DelayDialogData::confirmed(None), DelayDialogData::Cancel);
    assert!(DelayDialogData::accepts(Some(-2147483)));
    assert!(DelayDialogData::accepts(None));
    assert!(!DelayDialogData::accepts(Some(2147484)));
    assert!(!DelayDialogData::accepts(Some(i32::MIN)));
}

#[test]
fn distance_dialog() {
    let (x, y) = DistanceDialogData::ranges(50, 25, Some((1920, 1080)));
    assert_eq!(x, NumberRange { value: 50, step: 1, max: 480, min: 1 });
    assert_eq!(y, NumberRange { value: 25, step: 1, max: 270, min: 1 });
    let (x, y) = DistanceDialogData::ranges(1, 2, None);
    assert_eq!(x, NumberRange { value: 1, step: 1, max: 100, min: 1 });
    assert_eq!(y, NumberRange { value: 2, step: 1, max: 100, min: 1 });
    let (x, _) = DistanceDialogData::ranges(1, 2, Some((1023, -7)));
    assert_eq!(x.max, 255);
    assert_eq!(DistanceDialogData::confirmed(Some(3), Some(-4)), DistanceDialogData::Value(3, -4));
    assert_eq!(DistanceDialogData::confirmed(None, Some(4)), DistanceDialogData::Cancel);
    assert_eq!(DistanceDialogData::confirmed(Some(3), None), DistanceDialogData::Cancel);
    assert_eq!(DistanceDialogData::confirmed(None, None), DistanceDialogData::Cancel);
}

#[test]
fn spin_dialog() {
    assert_eq!(SpinDialogData::confirmed(Some(-12)), SpinDialogData::Value(12));
    assert_eq!(SpinDialogData::confirmed(Some(12)), SpinDialogData::Value(12));
    assert_eq!(SpinDialogData::confirmed(Some(i32::MAX)), SpinDialogData::Value(i32::MAX));
    assert_eq!(SpinDialogData::confirmed(None), SpinDialogData::Cancel);
}
