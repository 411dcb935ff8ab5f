//! The preference record, the rules that a loaded record is held to, and
//! the manager through which the rest of the program reads and changes it.

use std::time::Duration;
use vstd::prelude::*;
use vstd::string::StringExecFns;

use crate::device_map::{lists, texts, DeviceMap};

verus! {

/// Lowest delay allowed, in milliseconds (one second).
pub const LOWEST_DELAY_MS: i32 = 1000;

/// Highest delay allowed, in milliseconds (thirty minutes).
pub const MAX_DELAY_MS: i32 = 1800000;

/// Lowest maximum distance allowed, in pixels.
pub const LOWEST_MAX_DISTANCE: i32 = 1;

/// Delay of a fresh record, in milliseconds.
pub const DEFAULT_DELAY_MS: i32 = 30000;

/// Maximum distance of a fresh record, per axis, in pixels.
pub const DEFAULT_MAX_DISTANCE: i32 = 50;

/// The whole milliseconds that a `Duration` holds.
pub uninterp spec fn duration_millis(d: Duration) -> nat;

/// `Duration::from_millis` makes the duration that holds exactly the given
/// number of milliseconds.
pub assume_specification[ Duration::from_millis ](millis: u64) -> (d: Duration)
    ensures
        duration_millis(d) == millis,
;

/// `Duration::as_millis` returns the total number of whole milliseconds
/// that the duration holds.
pub assume_specification[ Duration::as_millis ](d: &Duration) -> (millis: u128)
    ensures
        millis == duration_millis(*d),
;

/// The persisted preference record.
#[derive(Debug)]
pub struct Settings {
    running: bool,
    delay_milliseconds: i32,
    max_distance_x: i32,
    max_distance_y: i32,
    enabled_monitors: DeviceMap<bool>,
}

/// A preference record as plain mathematical values.
pub ghost struct SettingsView {
    pub running: bool,
    pub delay_milliseconds: int,
    pub max_distance_x: int,
    pub max_distance_y: int,
    pub enabled_monitors: Map<Seq<char>, bool>,
}

impl View for Settings {
    type V = SettingsView;

    closed spec fn view(&self) -> SettingsView {
        SettingsView {
            running: self.running,
            delay_milliseconds: self.delay_milliseconds as int,
            max_distance_x: self.max_distance_x as int,
            max_distance_y: self.max_distance_y as int,
            enabled_monitors: self.enabled_monitors@,
        }
    }
}

/// The record that is used when none is stored: running, every thirty
/// seconds, by at most fifty pixels per axis, no monitor known.
pub open spec fn default_settings() -> SettingsView {
    SettingsView {
        running: true,
        delay_milliseconds: DEFAULT_DELAY_MS as int,
        max_distance_x: DEFAULT_MAX_DISTANCE as int,
        max_distance_y: DEFAULT_MAX_DISTANCE as int,
        enabled_monitors: Map::empty(),
    }
}

/// A record is valid when the delay lies between one second and thirty
/// minutes and both distances are at least one pixel.
pub open spec fn valid(s: SettingsView) -> bool {
    &&& LOWEST_DELAY_MS <= s.delay_milliseconds <= MAX_DELAY_MS
    &&& s.max_distance_x >= LOWEST_MAX_DISTANCE
    &&& s.max_distance_y >= LOWEST_MAX_DISTANCE
}

/// The record with every number moved to the nearest allowed value.
pub open spec fn corrected(s: SettingsView) -> SettingsView {
    SettingsView {
        delay_milliseconds: if s.delay_milliseconds < LOWEST_DELAY_MS {
            LOWEST_DELAY_MS as int
        } else if s.delay_milliseconds > MAX_DELAY_MS {
            MAX_DELAY_MS as int
        } else {
            s.delay_milliseconds
        },
        max_distance_x: if s.max_distance_x < LOWEST_MAX_DISTANCE {
            LOWEST_MAX_DISTANCE as int
        } else {
            s.max_distance_x
        },
        max_distance_y: if s.max_distance_y < LOWEST_MAX_DISTANCE {
            LOWEST_MAX_DISTANCE as int
        } else {
            s.max_distance_y
        },
        ..s
    }
}

pub open spec fn delay_too_low_message() -> Seq<char> {
    "The delay was too low, it has been set to the lowest possible value of 1 second."@
}

pub open spec fn delay_too_high_message() -> Seq<char> {
    "The delay was too high, it has been set to the highest possible value of 1800 seconds."@
}

pub open spec fn distance_x_too_low_message() -> Seq<char> {
    "The max distance X was too low, it has been set to the lowest possible value of 1 pixel."@
}

pub open spec fn distance_y_too_low_message() -> Seq<char> {
    "The max distance Y was too low, it has been set to the lowest possible value of 1 pixel."@
}

/// `s`, or nothing when the condition does not hold.
pub open spec fn when(cond: bool, s: Seq<char>) -> Seq<Seq<char>> {
    if cond {
        seq![s]
    } else {
        Seq::empty()
    }
}

/// One message for every number of the record that had to be corrected, in
/// the order delay, distance X, distance Y.
pub open spec fn complaints(s: SettingsView) -> Seq<Seq<char>> {
    when(s.delay_milliseconds < LOWEST_DELAY_MS, delay_too_low_message()) + when(
        s.delay_milliseconds > MAX_DELAY_MS,
        delay_too_high_message(),
    ) + when(s.max_distance_x < LOWEST_MAX_DISTANCE, distance_x_too_low_message()) + when(
        s.max_distance_y < LOWEST_MAX_DISTANCE,
        distance_y_too_low_message(),
    )
}

/// The lines joined by a line feed between each two.
pub open spec fn join_lines(lines: Seq<Seq<char>>) -> Seq<char>
    decreases lines.len(),
{
    if lines.len() == 0 {
        Seq::empty()
    } else if lines.len() == 1 {
        lines[0]
    } else {
        join_lines(lines.drop_last()) + seq!['\n'] + lines.last()
    }
}

/// Correcting a record makes it valid and changes nothing of a valid one;
/// and there is a complaint exactly when the record was not valid.
pub proof fn lemma_correction(s: SettingsView)
    ensures
        valid(corrected(s)),
        valid(s) ==> corrected(s) == s,
        corrected(corrected(s)) == corrected(s),
        valid(s) <==> complaints(s).len() == 0,
        corrected(s).running == s.running,
        corrected(s).enabled_monitors == s.enabled_monitors,
{
}

impl Default for Settings {
    fn default() -> (s: Self)
        ensures
            s@ == default_settings(),
    {
        let s = Settings {
            running: true,
            delay_milliseconds: DEFAULT_DELAY_MS,
            max_distance_x: DEFAULT_MAX_DISTANCE,
            max_distance_y: DEFAULT_MAX_DISTANCE,
            enabled_monitors: DeviceMap::new(),
        };
        s
    }
}

impl Settings {
    /// A record with the given values, as read from storage. Nothing is
    /// checked here; see `validate`.
    pub fn new(
        running: bool,
        delay_milliseconds: i32,
        max_distance_x: i32,
        max_distance_y: i32,
        enabled_monitors: DeviceMap<bool>,
    ) -> (s: Self)
        ensures
            s@ == (SettingsView {
                running,
                delay_milliseconds: delay_milliseconds as int,
                max_distance_x: max_distance_x as int,
                max_distance_y: max_distance_y as int,
                enabled_monitors: enabled_monitors@,
            }),
    {
        Settings { running, delay_milliseconds, max_distance_x, max_distance_y, enabled_monitors }
    }

    pub fn get_running(&self) -> (r: bool)
        ensures
            r == self@.running,
    {
        self.running
    }

    pub fn set_running(&mut self, running: bool)
        ensures
            final(self)@ == (SettingsView { running, ..old(self)@ }),
    {
        self.running = running;
    }

    /// The delay in milliseconds, as stored.
    pub fn delay_millis(&self) -> (ms: i32)
        ensures
            ms == self@.delay_milliseconds,
    {
        self.delay_milliseconds
    }

    /// Returns the delay.
    pub fn get_delay(&self) -> (d: Duration)
        ensures
            duration_millis(d) == (self@.delay_milliseconds as u64),
            self@.delay_milliseconds >= 0 ==> duration_millis(d) == self@.delay_milliseconds,
    {
        Duration::from_millis(#[verifier::truncate] (self.delay_milliseconds as u64))
    }

    /// Sets the delay. The milliseconds of `delay` are stored as a 32-bit
    /// number, truncated should they not fit.
    pub fn set_delay(&mut self, delay: Duration)
        ensures
            final(self)@ == (SettingsView {
                delay_milliseconds: (duration_millis(delay) as i32) as int,
                ..old(self)@
            }),
            duration_millis(delay) <= i32::MAX ==> final(self)@.delay_milliseconds
                == duration_millis(delay),
    {
        let millis: u128 = delay.as_millis();
        self.delay_milliseconds = #[verifier::truncate] (millis as i32);
    }

    pub fn get_max_distance(&self) -> (d: (i32, i32))
        ensures
            d.0 == self@.max_distance_x,
            d.1 == self@.max_distance_y,
    {
        (self.max_distance_x, self.max_distance_y)
    }

    pub fn set_max_distance(&mut self, max_distance_x: i32, max_distance_y: i32)
        ensures
            final(self)@ == (SettingsView {
                max_distance_x: max_distance_x as int,
                max_distance_y: max_distance_y as int,
                ..old(self)@
            }),
    {
        self.max_distance_x = max_distance_x;
        self.max_distance_y = max_distance_y;
    }

    /// A copy of the per-monitor flags.
    pub fn get_all_monitors(&self) -> (m: DeviceMap<bool>)
        ensures
            m@ == self@.enabled_monitors,
            m.wf(),
    {
        self.enabled_monitors.duplicate()
    }

    /// The per-monitor flags, borrowed.
    pub fn monitors(&self) -> (m: &DeviceMap<bool>)
        ensures
            m@ == self@.enabled_monitors,
    {
        &self.enabled_monitors
    }

    pub fn set_monitor_state(&mut self, monitor: &str, enabled: bool)
        ensures
            final(self)@ == (SettingsView {
                enabled_monitors: old(self)@.enabled_monitors.insert(monitor@, enabled),
                ..old(self)@
            }),
    {
        self.enabled_monitors.insert(monitor.to_owned(), enabled);
    }

    /// Tells whether every number of the record is in its allowed range.
    pub fn is_valid(&self) -> (b: bool)
        ensures
            b == valid(self@),
    {
        LOWEST_DELAY_MS <= self.delay_milliseconds && self.delay_milliseconds <= MAX_DELAY_MS
            && self.max_distance_x >= LOWEST_MAX_DISTANCE && self.max_distance_y
            >= LOWEST_MAX_DISTANCE
    }

    /// Moves every out-of-range number to the nearest allowed value and
    /// returns one message for each correction made.
    pub fn validate(&mut self) -> (messages: Vec<String>)
        ensures
            final(self)@ == corrected(old(self)@),
            valid(final(self)@),
            texts(messages@) == complaints(old(self)@),
    {
        let mut messages: Vec<String> = Vec::new();
        if self.delay_milliseconds < LOWEST_DELAY_MS {
            self.delay_milliseconds = LOWEST_DELAY_MS;
            messages.push(
                "The delay was too low, it has been set to the lowest possible value of 1 second.".to_owned(),
            );
        }
        if self.delay_milliseconds > MAX_DELAY_MS {
            self.delay_milliseconds = MAX_DELAY_MS;
            messages.push(
                "The delay was too high, it has been set to the highest possible value of 1800 seconds.".to_owned(),
            );
        }
        assert(texts(messages@) =~= when(
            old(self)@.delay_milliseconds < LOWEST_DELAY_MS,
            delay_too_low_message(),
        ) + when(old(self)@.delay_milliseconds > MAX_DELAY_MS, delay_too_high_message()));
        let ghost after_delay = texts(messages@);
        if self.max_distance_x < LOWEST_MAX_DISTANCE {
            self.max_distance_x = LOWEST_MAX_DISTANCE;
            messages.push(
                "The max distance X was too low, it has been set to the lowest possible value of 1 pixel.".to_owned(),
            );
        }
        assert(texts(messages@) =~= after_delay + when(
            old(self)@.max_distance_x < LOWEST_MAX_DISTANCE,
            distance_x_too_low_message(),
        ));
        let ghost after_x = texts(messages@);
        if self.max_distance_y < LOWEST_MAX_DISTANCE {
            self.max_distance_y = LOWEST_MAX_DISTANCE;
            messages.push(
                "The max distance Y was too low, it has been set to the lowest possible value of 1 pixel.".to_owned(),
            );
        }
        assert(texts(messages@) =~= after_x + when(
            old(self)@.max_distance_y < LOWEST_MAX_DISTANCE,
            distance_y_too_low_message(),
        ));
        messages
    }
}

/// Joins the lines with a line feed between each two.
pub fn join_messages(lines: &Vec<String>) -> (joined: String)
    ensures
        joined@ == join_lines(texts(lines@)),
{
    let mut joined = String::new();
    let mut i: usize = 0;
    assert(texts(lines@).take(0) =~= Seq::<Seq<char>>::empty());
    while i < lines.len()
        invariant
            i <= lines@.len(),
            joined@ == join_lines(texts(lines@).take(i as int)),
        decreases lines@.len() - i,
    {
        proof {
            reveal_strlit("\n");
            let next = texts(lines@).take(i as int + 1);
            assert(next.drop_last() =~= texts(lines@).take(i as int));
            assert(next.last() == lines@[i as int]@);
            assert("\n"@ =~= seq!['\n']);
            if i == 0 {
                assert(joined@ =~= Seq::<char>::empty());
                assert(joined@ + lines@[0]@ =~= lines@[0]@);
            }
        }
        if i > 0 {
            joined.append("\n");
        }
        joined.append(lines[i].as_str());
        i += 1;
    }
    assert(texts(lines@).take(lines@.len() as int) =~= texts(lines@));
    joined
}

/// Holds the preference record for the running program. Every change goes
/// through it, so that the holder can write the record through to storage
/// after each one.
#[derive(Debug)]
pub struct SettingsManager {
    settings: Settings,
}

impl View for SettingsManager {
    type V = SettingsView;

    closed spec fn view(&self) -> SettingsView {
        self.settings@
    }
}

impl Default for SettingsManager {
    fn default() -> (m: Self)
        ensures
            m@ == default_settings(),
    {
        SettingsManager { settings: Settings::default() }
    }
}

/// What loading makes of the outcome of reading the stored record. A
/// readable, valid record is taken as it is. A readable record with numbers
/// out of range is corrected, and the complaints come back beside it. An
/// unreadable record gives the reason beside the default record.
pub open spec fn loaded(parsed: Result<SettingsView, Seq<char>>) -> Result<
    SettingsView,
    (Seq<char>, SettingsView),
> {
    match parsed {
        Ok(s) => if valid(s) {
            Ok(s)
        } else {
            Err((join_lines(complaints(s)), corrected(s)))
        },
        Err(reason) => Err((reason, default_settings())),
    }
}

impl SettingsManager {
    /// Takes over the outcome of reading the stored record: `Ok` with the
    /// record as read, or `Err` with the reason it could not be read. On
    /// `Err` the manager that comes back is still usable; the text beside it
    /// is meant for the user.
    pub fn load(parsed: Result<Settings, String>) -> (r: Result<
        SettingsManager,
        (String, SettingsManager),
    >)
        ensures
            match (parsed, r) {
                (Ok(s), Ok(m)) => loaded(Ok(s@)) == Ok::<SettingsView, (Seq<char>, SettingsView)>(
                    m@,
                ),
                (Ok(s), Err(e)) => loaded(Ok(s@)) == Err::<SettingsView, (Seq<char>, SettingsView)>(
                    (e.0@, e.1@),
                ),
                (Err(reason), Ok(m)) => false,
                (Err(reason), Err(e)) => e.0@ == reason@ && e.1@ == default_settings(),
            },
    {
        match parsed {
            Ok(settings) => {
                let mut settings = settings;
                let ghost before = settings@;
                let messages = settings.validate();
                if messages.len() == 0 {
                    proof {
                        lemma_correction(before);
                        assert(texts(messages@).len() == 0);
                    }
                    Ok(SettingsManager { settings })
                } else {
                    proof {
                        lemma_correction(before);
                        assert(texts(messages@).len() != 0);
                    }
                    Err((join_messages(&messages), SettingsManager { settings }))
                }
            },
            Err(reason) => Err((reason, SettingsManager::default())),
        }
    }

    /// The record as it stands, for writing it to storage.
    pub fn settings(&self) -> (s: &Settings)
        ensures
            s@ == self@,
    {
        &self.settings
    }

    pub fn is_running(&self) -> (r: bool)
        ensures
            r == self@.running,
    {
        self.settings.get_running()
    }

    /// Sets the running state.
    pub fn set_running(&mut self, running: bool)
        ensures
            final(self)@ == (SettingsView { running, ..old(self)@ }),
    {
        self.settings.set_running(running);
    }

    /// Toggles the running state.
    pub fn toggle_running(&mut self)
        ensures
            final(self)@ == (SettingsView { running: !old(self)@.running, ..old(self)@ }),
    {
        let now = self.settings.get_running();
        self.settings.set_running(!now);
    }

    pub fn get_delay(&self) -> (d: Duration)
        ensures
            duration_millis(d) == (self@.delay_milliseconds as u64),
            self@.delay_milliseconds >= 0 ==> duration_millis(d) == self@.delay_milliseconds,
    {
        self.settings.get_delay()
    }

    /// Sets the delay; see `Settings::set_delay`.
    pub fn set_delay(&mut self, duration: Duration)
        ensures
            final(self)@ == (SettingsView {
                delay_milliseconds: (duration_millis(duration) as i32) as int,
                ..old(self)@
            }),
            duration_millis(duration) <= i32::MAX ==> final(self)@.delay_milliseconds
                == duration_millis(duration),
    {
        self.settings.set_delay(duration);
    }

    pub fn get_max_distance(&self) -> (d: (i32, i32))
        ensures
            d.0 == self@.max_distance_x,
            d.1 == self@.max_distance_y,
    {
        self.settings.get_max_distance()
    }

    /// Sets the max distance, in pixels.
    pub fn set_max_distance(&mut self, max_distance_x: i32, max_distance_y: i32)
        ensures
            final(self)@ == (SettingsView {
                max_distance_x: max_distance_x as int,
                max_distance_y: max_distance_y as int,
                ..old(self)@
            }),
    {
        self.settings.set_max_distance(max_distance_x, max_distance_y);
    }

    /// Returns all the monitors of the record.
    pub fn get_all_monitors(&self) -> (m: DeviceMap<bool>)
        ensures
            m@ == self@.enabled_monitors,
            m.wf(),
    {
        self.settings.get_all_monitors()
    }

    /// Returns only the enabled monitors, each once.
    pub fn get_enabled_monitors(&self) -> (r: Vec<String>)
        ensures
            forall|k: Seq<char>| #[trigger]
                lists(r@, k) <==> (self@.enabled_monitors.dom().contains(k)
                    && self@.enabled_monitors[k]),
            forall|i: int, j: int| 0 <= i < j < r@.len() ==> r@[i]@ != r@[j]@,
    {
        self.settings.monitors().enabled_ids()
    }

    pub fn set_monitor_state(&mut self, monitor: &str, enabled: bool)
        ensures
            final(self)@ == (SettingsView {
                enabled_monitors: old(self)@.enabled_monitors.insert(monitor@, enabled),
                ..old(self)@
            }),
    {
        self.settings.set_monitor_state(monitor, enabled);
    }
}

} // verus!
