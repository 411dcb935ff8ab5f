//! The controller: the one object through which the interval, the running
//! flag, the displacement bounds and the per-monitor flags are read and
//! changed, and which tells the background loop when to wake.

use std::time::Duration;
use vstd::prelude::*;

use crate::device_map::DeviceMap;
use crate::monitors::{
    collect_connected,
    connected_names,
    merge_monitors,
    merge_spec,
    names_of,
    rows_of,
    LiveMonitor,
    MonitorEntry,
};
use crate::placement::DisplacementBounds;
use crate::scheduler::{next_action, next_state, step, LoopAction, LoopEvent, LoopState};
use crate::settings::{
    default_settings,
    duration_millis,
    Settings,
    SettingsManager,
    SettingsView,
};

verus! {

/// The delays that can be selected from the tray menu.
#[derive(Clone, Copy, Debug, PartialEq, Eq, Structural)]
pub enum Delays {
    ThirtySeconds,
    OneMinute,
    TwoMinutes,
    FiveMinutes,
    Custom,
}

impl Delays {
    /// The delay in milliseconds; zero stands for a custom delay.
    pub open spec fn millis(self) -> int {
        match self {
            Delays::ThirtySeconds => 30000,
            Delays::OneMinute => 60000,
            Delays::TwoMinutes => 120000,
            Delays::FiveMinutes => 300000,
            Delays::Custom => 0,
        }
    }

    /// The menu entry that stands for a delay in milliseconds.
    pub open spec fn of_millis(millis: int) -> Delays {
        if millis == 30000 {
            Delays::ThirtySeconds
        } else if millis == 60000 {
            Delays::OneMinute
        } else if millis == 120000 {
            Delays::TwoMinutes
        } else if millis == 300000 {
            Delays::FiveMinutes
        } else {
            Delays::Custom
        }
    }

    /// Converts a delay in milliseconds to a `Delays`.
    pub fn from_millis(millis: i32) -> (d: Self)
        ensures
            d == Delays::of_millis(millis as int),
    {
        if millis == 30000 {
            Delays::ThirtySeconds
        } else if millis == 60000 {
            Delays::OneMinute
        } else if millis == 120000 {
            Delays::TwoMinutes
        } else if millis == 300000 {
            Delays::FiveMinutes
        } else {
            Delays::Custom
        }
    }

    /// Returns the delay in milliseconds.
    pub fn as_millis(&self) -> (ms: u64)
        ensures
            ms == self.millis(),
    {
        match self {
            Delays::ThirtySeconds => 30000,
            Delays::OneMinute => 60000,
            Delays::TwoMinutes => 120000,
            Delays::FiveMinutes => 300000,
            Delays::Custom => 0,
        }
    }

    /// Converts a delay to a `Duration`.
    pub fn as_duration(&self) -> (d: Duration)
        ensures
            duration_millis(d) == self.millis(),
    {
        Duration::from_millis(self.as_millis())
    }
}

/// The distances that can be selected from the tray menu.
#[derive(Clone, Copy, Debug, PartialEq, Eq, Structural)]
pub enum Distances {
    Small,
    Medium,
    Large,
    Custom,
}

impl Distances {
    /// The distance in pixels; zero stands for a custom distance.
    pub open spec fn spec_pixels(self) -> int {
        match self {
            Distances::Small => 25,
            Distances::Medium => 50,
            Distances::Large => 100,
            Distances::Custom => 0,
        }
    }

    /// The menu entry that stands for a pair of distances: a preset only
    /// when both axes have that preset's value.
    pub open spec fn of_distance(max_x: int, max_y: int) -> Distances {
        if max_x != max_y {
            Distances::Custom
        } else if max_x == 25 {
            Distances::Small
        } else if max_x == 50 {
            Distances::Medium
        } else if max_x == 100 {
            Distances::Large
        } else {
            Distances::Custom
        }
    }

    /// Converts a pair of distances to a `Distances`.
    pub fn from_distance(max_x: i32, max_y: i32) -> (d: Self)
        ensures
            d == Distances::of_distance(max_x as int, max_y as int),
    {
        if max_x != max_y {
            return Distances::Custom;
        }
        if max_x == 25 {
            Distances::Small
        } else if max_x == 50 {
            Distances::Medium
        } else if max_x == 100 {
            Distances::Large
        } else {
            Distances::Custom
        }
    }

    /// Returns the distance in pixels.
    pub fn pixels(&self) -> (px: i32)
        ensures
            px == self.spec_pixels(),
    {
        match self {
            Distances::Small => 25,
            Distances::Medium => 50,
            Distances::Large => 100,
            Distances::Custom => 0,
        }
    }
}

/// Owns the preferences and the wake flag of the background loop.
#[derive(Debug)]
pub struct Controller {
    settings_manager: SettingsManager,
    wake_pending: bool,
}

/// A controller as plain mathematical values.
pub ghost struct ControllerView {
    pub settings: SettingsView,
    /// A change was made that the waiting loop has not yet been told of.
    pub wake_pending: bool,
}

impl View for Controller {
    type V = ControllerView;

    closed spec fn view(&self) -> ControllerView {
        ControllerView { settings: self.settings_manager@, wake_pending: self.wake_pending }
    }
}

impl Default for Controller {
    fn default() -> (c: Self)
        ensures
            c@ == (ControllerView { settings: default_settings(), wake_pending: false }),
    {
        Controller { settings_manager: SettingsManager::default(), wake_pending: false }
    }
}

/// The flag that selecting a monitor in the menu leaves behind: the
/// opposite of the stored one, where a monitor not yet stored counts as
/// enabled.
pub open spec fn toggled_flag(prefs: Map<Seq<char>, bool>, id: Seq<char>) -> bool {
    if prefs.dom().contains(id) {
        !prefs[id]
    } else {
        false
    }
}

impl Controller {
    pub fn new() -> (c: Self)
        ensures
            c@ == (ControllerView { settings: default_settings(), wake_pending: false }),
    {
        Controller::default()
    }

    /// Sets the settings manager for the controller.
    pub fn set_settings(&mut self, settings: SettingsManager)
        ensures
            final(self)@ == (ControllerView { settings: settings@, ..old(self)@ }),
    {
        self.settings_manager = settings;
    }

    /// The record as it stands, for writing it to storage.
    pub fn settings(&self) -> (s: &Settings)
        ensures
            s@ == self@.settings,
    {
        self.settings_manager.settings()
    }

    pub fn get_interval(&self) -> (d: Duration)
        ensures
            duration_millis(d) == (self@.settings.delay_milliseconds as u64),
            self@.settings.delay_milliseconds >= 0 ==> duration_millis(d)
                == self@.settings.delay_milliseconds,
    {
        self.settings_manager.get_delay()
    }

    /// Sets the interval and asks for the waiting loop to be woken, so that
    /// the new interval counts from now.
    pub fn set_interval(&mut self, interval: Duration)
        ensures
            final(self)@.settings == (SettingsView {
                delay_milliseconds: (duration_millis(interval) as i32) as int,
                ..old(self)@.settings
            }),
            duration_millis(interval) <= i32::MAX ==> final(self)@.settings.delay_milliseconds
                == duration_millis(interval),
            final(self)@.wake_pending,
    {
        self.settings_manager.set_delay(interval);
        self.wake_pending = true;
    }

    pub fn is_running(&self) -> (r: bool)
        ensures
            r == self@.settings.running,
    {
        self.settings_manager.is_running()
    }

    /// Flips the running flag and asks for the waiting loop to be woken.
    pub fn toggle_running(&mut self)
        ensures
            final(self)@.settings == (SettingsView {
                running: !old(self)@.settings.running,
                ..old(self)@.settings
            }),
            final(self)@.wake_pending,
    {
        self.settings_manager.toggle_running();
        self.wake_pending = true;
    }

    pub fn get_max_move(&self) -> (m: (i32, i32))
        ensures
            m.0 == self@.settings.max_distance_x,
            m.1 == self@.settings.max_distance_y,
    {
        self.settings_manager.get_max_distance()
    }

    /// Both displacement bounds, read together.
    pub fn displacement_bounds(&self) -> (b: DisplacementBounds)
        ensures
            b.max_x == self@.settings.max_distance_x,
            b.max_y == self@.settings.max_distance_y,
    {
        let m = self.settings_manager.get_max_distance();
        DisplacementBounds::new(m.0, m.1)
    }

    /// Sets both displacement bounds and asks for the waiting loop to be
    /// woken.
    pub fn set_max_move(&mut self, max_move_x: i32, max_move_y: i32)
        ensures
            final(self)@.settings == (SettingsView {
                max_distance_x: max_move_x as int,
                max_distance_y: max_move_y as int,
                ..old(self)@.settings
            }),
            final(self)@.wake_pending,
    {
        self.settings_manager.set_max_distance(max_move_x, max_move_y);
        self.wake_pending = true;
    }

    /// Returns all the monitors, attached or stored, keyed by device
    /// identity. Nothing is stored by asking.
    pub fn get_monitors_merged(&self, live: &Vec<LiveMonitor>) -> (table: DeviceMap<MonitorEntry>)
        ensures
            table.wf(),
            rows_of(table) == merge_spec(connected_names(live@), self@.settings.enabled_monitors),
            table.ids().len() == merge_spec(
                connected_names(live@),
                self@.settings.enabled_monitors,
            ).dom().len(),
    {
        let connected = self.get_connected_monitors(live);
        let known = self.get_all_monitors();
        merge_monitors(&connected, &known)
    }

    /// Returns the attached monitors as a map from device identity to
    /// friendly name.
    pub fn get_connected_monitors(&self, live: &Vec<LiveMonitor>) -> (connected: DeviceMap<String>)
        ensures
            connected.wf(),
            names_of(connected) == connected_names(live@),
    {
        collect_connected(live)
    }

    pub fn get_all_monitors(&self) -> (m: DeviceMap<bool>)
        ensures
            m@ == self@.settings.enabled_monitors,
            m.wf(),
    {
        self.settings_manager.get_all_monitors()
    }

    /// Sets the stored flag of a monitor.
    pub fn set_monitor_state(&mut self, monitor: &str, enabled: bool)
        ensures
            final(self)@ == (ControllerView {
                settings: SettingsView {
                    enabled_monitors: old(self)@.settings.enabled_monitors.insert(
                        monitor@,
                        enabled,
                    ),
                    ..old(self)@.settings
                },
                ..old(self)@
            }),
    {
        self.settings_manager.set_monitor_state(monitor, enabled);
    }

    /// Adds a monitor to the stored ones, enabled.
    pub fn add_monitor(&mut self, monitor: &str)
        ensures
            final(self)@ == (ControllerView {
                settings: SettingsView {
                    enabled_monitors: old(self)@.settings.enabled_monitors.insert(monitor@, true),
                    ..old(self)@.settings
                },
                ..old(self)@
            }),
    {
        self.settings_manager.set_monitor_state(monitor, true);
    }

    /// Reacts to a monitor being picked in the menu: flips its stored flag.
    /// A monitor that was not stored yet is added first, enabled, and so
    /// ends up disabled.
    pub fn handle_monitor_selected(&mut self, device_id: &str)
        ensures
            final(self)@ == (ControllerView {
                settings: SettingsView {
                    enabled_monitors: old(self)@.settings.enabled_monitors.insert(
                        device_id@,
                        toggled_flag(old(self)@.settings.enabled_monitors, device_id@),
                    ),
                    ..old(self)@.settings
                },
                ..old(self)@
            }),
    {
        let known = self.get_all_monitors();
        let enabled = match known.get(device_id) {
            Some(flag) => *flag,
            None => {
                self.add_monitor(device_id);
                true
            },
        };
        self.set_monitor_state(device_id, !enabled);
        proof {
            let prefs = old(self)@.settings.enabled_monitors;
            assert(prefs.insert(device_id@, true).insert(device_id@, false) =~= prefs.insert(
                device_id@,
                false,
            ));
        }
    }

    /// Tells whether a change was made that the waiting loop has not been
    /// told of yet.
    pub fn wake_pending(&self) -> (w: bool)
        ensures
            w == self@.wake_pending,
    {
        self.wake_pending
    }

    /// Starts a wait: takes note that the loop has seen every change so
    /// far, and returns the interval to wait for, read afresh.
    pub fn begin_wait(&mut self) -> (interval: Duration)
        ensures
            final(self)@ == (ControllerView { wake_pending: false, ..old(self)@ }),
            duration_millis(interval) == (old(self)@.settings.delay_milliseconds as u64),
            old(self)@.settings.delay_milliseconds >= 0 ==> duration_millis(interval) == old(
                self,
            )@.settings.delay_milliseconds,
    {
        self.wake_pending = false;
        self.settings_manager.get_delay()
    }

    /// One step of the background loop, decided on the running flag as it
    /// stands now.
    pub fn advance(&self, state: LoopState, event: LoopEvent) -> (r: (LoopState, LoopAction))
        ensures
            r.0 == next_state(state, event, self@.settings.running),
            r.1 == next_action(state, event, self@.settings.running),
    {
        step(state, event, self.settings_manager.is_running())
    }
}

} // verus!
