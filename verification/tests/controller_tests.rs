use std::time::Duration;

use oledshift::controller::{Controller, Delays, Distances};
use oledshift::device_map::DeviceMap;
use oledshift::scheduler::LoopAction::{Continue, MoveWindows, Wait};
use oledshift::scheduler::LoopEvent::{PassDone, Signalled, TimedOut};
use oledshift::scheduler::LoopState::{Evaluating, Idle, Moving};
use oledshift::scheduler::{step, LoopAction, LoopEvent, LoopState};
use oledshift::settings::{Settings, SettingsManager};

#[test]
fn delays_round_trip() {
    assert_eq!(Delays::from_millis(30000), Delays::ThirtySeconds);
    assert_eq!(Delays::from_millis(60000), Delays::OneMinute);
    assert_eq!(Delays::from_millis(120000), Delays::TwoMinutes);
    assert_eq!(Delays::from_millis(300000), Delays::FiveMinutes);
    assert_eq!(Delays::from_millis(0), Delays::Custom);
    assert_eq!(Delays::from_millis(30001), Delays::Custom);
    assert_eq!(Delays::from_millis(-30000), Delays::Custom);
    assert_eq!(Delays::ThirtySeconds.as_millis(), 30000);
    assert_eq!(Delays::OneMinute.as_millis(), 60000);
    assert_eq!(Delays::TwoMinutes.as_millis(), 120000);
    assert_eq!(Delays::FiveMinutes.as_millis(), 300000);
    assert_eq!(Delays::Custom.as_millis(), 0);
    assert_eq!(Delays::TwoMinutes.as_duration(), Duration::from_secs(120));
    assert_eq!(Delays::Custom.as_duration(), Duration::ZERO);
}

#[test]
fn distances_round_trip() {
    assert_eq!(Distances::from_distance(25, 25), Distances::Small);
    assert_eq!(Distances::from_distance(50, 50), Distances::Medium);
    assert_eq!(Distances::from_distance(100, 100), Distances::Large);
    assert_eq!(Distances::from_distance(25, 50), Distances::Custom);
    assert_eq!(Distances::from_distance(0, 0), Distances::Custom);
    assert_eq!(Distances::from_distance(7, 7), Distances::Custom);
    assert_eq!(Distances::Small.pixels(), 25);
    assert_eq!(Distances::Medium.pixels(), 50);
    assert_eq!(Distances::Large.pixels(), 100);
    assert_eq!(Distances::Custom.pixels(), 0);
}

#[test]
fn new_controller_has_the_defaults() {
    let c = Controller::new();
    assert!(c.is_running());
    assert_eq!(c.get_interval(), Duration::from_secs(30));
    assert_eq!(c.get_max_move(), (50, 50));
    assert_eq!(c.get_all_monitors().len(), 0);
    assert!(!c.wake_pending());
    let d = Controller::default();
    assert_eq!(d.get_max_move(), (50, 50));
}

#[test]
fn set_settings_takes_over_the_record() {
    let mut monitors = DeviceMap::new();
    monitors.insert("A".to_string(), false);
    let manager = SettingsManager::load(Ok(Settings::new(false, 5000, 10, 20, monitors))).ok().unwrap();
    let mut c = Controller::new();
    c.set_settings(manager);
    assert!(!c.is_running());
    assert_eq!(c.get_interval(), Duration::from_millis(5000));
    assert_eq!(c.get_max_move(), (10, 20));
    let b = c.displacement_bounds();
    assert_eq!((b.max_x, b.max_y), (10, 20));
    assert_eq!(c.get_all_monitors().get("A"), Some(&false));
    assert_eq!(c.settings().delay_millis(), 5000);
    assert!(!c.wake_pending());
}

#[test]
fn corrected_record_still_gives_a_usable_controller() {
    let (message, manager) =
        SettingsManager::load(Ok(Settings::new(true, 100, 50, 50, DeviceMap::new()))).err().unwrap();
    assert!(!message.is_empty());
    let mut c = Controller::new();
    c.set_settings(manager);
    assert_eq!(c.get_interval(), Duration::from_millis(1000));
    assert!(c.is_running());
}

#[test]
fn changed_interval_takes_effect_in_the_wait_in_progress() {
    let mut c = Controller::new();
    let mut state = LoopState::Idle;
    assert_eq!(c.begin_wait(), Duration::from_millis(30000));
    assert!(!c.wake_pending());
    c.set_interval(Duration::from_millis(5000));
    assert!(c.wake_pending());
    let (next, action) = c.advance(state, LoopEvent::Signalled);
    state = next;
    assert_eq!(state, LoopState::Idle);
    assert_eq!(action, LoopAction::Wait);
    assert_eq!(c.begin_wait(), Duration::from_millis(5000));
    assert!(!c.wake_pending());
    let (next, action) = c.advance(state, LoopEvent::TimedOut);
    assert_eq!((next, action), (LoopState::Moving, LoopAction::MoveWindows));
}

#[test]
fn every_mutator_of_the_loop_asks_for_a_wake() {
    let mut c = Controller::new();
    c.toggle_running();
    assert!(c.wake_pending());
    assert!(!c.is_running());
    c.begin_wait();
    c.set_max_move(25, 100);
    assert!(c.wake_pending());
    assert_eq!(c.get_max_move(), (25, 100));
    c.begin_wait();
    c.set_interval(Delays::OneMinute.as_duration());
    assert!(c.wake_pending());
    assert_eq!(c.get_interval(), Duration::from_secs(60));
    c.begin_wait();
    c.set_monitor_state("A", true);
    assert!(!c.wake_pending());
}

#[test]
fn paused_loop_never_moves() {
    let mut c = Controller::new();
    c.toggle_running();
    let (next, action) = c.advance(LoopState::Idle, LoopEvent::TimedOut);
    assert_eq!((next, action), (LoopState::Idle, LoopAction::Wait));
    let (next, action) = c.advance(LoopState::Evaluating, LoopEvent::TimedOut);
    assert_eq!((next, action), (LoopState::Idle, LoopAction::Wait));
}

#[test]
fn loop_steps() {
    assert_eq!(step(Idle, TimedOut, true), (Moving, MoveWindows));
    assert_eq!(step(Idle, TimedOut, false), (Idle, Wait));
    assert_eq!(step(Idle, Signalled, true), (Idle, Wait));
    assert_eq!(step(Idle, Signalled, false), (Idle, Wait));
    assert_eq!(step(Idle, PassDone, true), (Idle, Wait));
    assert_eq!(step(Evaluating, TimedOut, true), (Moving, MoveWindows));
    assert_eq!(step(Evaluating, Signalled, true), (Moving, MoveWindows));
    assert_eq!(step(Evaluating, PassDone, false), (Idle, Wait));
    assert_eq!(step(Moving, PassDone, true), (Idle, Wait));
    assert_eq!(step(Moving, PassDone, false), (Idle, Wait));
    assert_eq!(step(Moving, TimedOut, true), (Moving, Continue));
    assert_eq!(step(Moving, Signalled, true), (Moving, Continue));
}

#[test]
fn no_more_passes_than_timeouts() {
    let events = [
        Signalled, TimedOut, TimedOut, Signalled, PassDone, PassDone, TimedOut, Signalled, PassDone,
        Signalled, Signalled, TimedOut, PassDone,
    ];
    let mut state = LoopState::Idle;
    let mut passes = 0;
    let mut timeouts = 0;
    for e in events {
        if e == TimedOut {
            timeouts += 1;
        }
        let (next, action) = step(state, e, true);
        if action == LoopAction::MoveWindows {
            passes += 1;
        }
        state = next;
    }
    assert_eq!(timeouts, 4);
    assert_eq!(passes, 3);
    assert_eq!(state, LoopState::Idle);
}
