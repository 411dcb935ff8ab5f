//! What the configuration dialogs start from and what they hand back.

use vstd::prelude::*;

use crate::settings::LOWEST_MAX_DISTANCE;

verus! {

/// Outcome of the delay dialog; the value is in milliseconds.
#[derive(Clone, Copy, Debug, PartialEq, Eq, Structural)]
pub enum DelayDialogData {
    Cancel,
    Value(i32),
}

/// Outcome of the distance dialog; the values are in pixels, per axis.
#[derive(Clone, Copy, Debug, PartialEq, Eq, Structural)]
pub enum DistanceDialogData {
    Cancel,
    Value(i32, i32),
}

/// Outcome of a plain number dialog.
#[derive(Clone, Copy, Debug, PartialEq, Eq, Structural)]
pub enum SpinDialogData {
    Cancel,
    Value(i32),
}

/// What a number field starts from and the range it accepts.
#[derive(Clone, Copy, Debug, PartialEq, Eq, Structural)]
pub struct NumberRange {
    pub value: i64,
    pub step: i64,
    pub max: i64,
    pub min: i64,
}

/// Shortest delay that the delay dialog offers, in seconds.
pub const DIALOG_MIN_SECONDS: i64 = 5;

/// Longest delay that the delay dialog offers, in seconds.
pub const DIALOG_MAX_SECONDS: i64 = 1800;

/// Screen size assumed when no screen is found.
pub const FALLBACK_SCREEN_SIZE: i32 = 400;

pub open spec fn spec_abs(v: int) -> int {
    if v < 0 {
        -v
    } else {
        v
    }
}

/// The quotient rounded toward zero, for a positive divisor.
pub open spec fn toward_zero(a: int, b: int) -> int {
    if a >= 0 {
        a / b
    } else {
        -((-a) / b)
    }
}

impl DelayDialogData {
    /// The number field of the delay dialog: whole seconds, starting from
    /// the current delay.
    pub fn range(current_millis: i32) -> (r: NumberRange)
        ensures
            r == (NumberRange {
                value: toward_zero(current_millis as int, 1000) as i64,
                step: 1,
                max: DIALOG_MAX_SECONDS,
                min: DIALOG_MIN_SECONDS,
            }),
    {
        NumberRange {
            value: (current_millis / 1000) as i64,
            step: 1,
            max: DIALOG_MAX_SECONDS,
            min: DIALOG_MIN_SECONDS,
        }
    }

    /// The outcome when the dialog is confirmed: the seconds entered, sign
    /// dropped, in milliseconds; or a cancel when no number was entered.
    pub fn confirmed(entered: Option<i32>) -> (d: Self)
        requires
            entered matches Some(v) ==> spec_abs(v as int) * 1000 <= i32::MAX,
        ensures
            d == match entered {
                Some(v) => DelayDialogData::Value((spec_abs(v as int) * 1000) as i32),
                None => DelayDialogData::Cancel,
            },
    {
        match entered {
            Some(v) => {
                let magnitude: i32 = if v < 0 {
                    -v
                } else {
                    v
                };
                DelayDialogData::Value(magnitude * 1000)
            },
            None => DelayDialogData::Cancel,
        }
    }

    /// Tells whether `confirmed` can take the number entered.
    pub fn accepts(entered: Option<i32>) -> (b: bool)
        ensures
            b == (entered matches Some(v) ==> spec_abs(v as int) * 1000 <= i32::MAX),
    {
        match entered {
            Some(v) => -2147483 <= v && v <= 2147483,
            None => true,
        }
    }
}

impl DistanceDialogData {
    /// The two number fields of the distance dialog. Each accepts at most a
    /// quarter of the smallest screen's extent on its axis.
    pub fn ranges(current_x: i32, current_y: i32, smallest_screen: Option<(i32, i32)>) -> (r: (
        NumberRange,
        NumberRange,
    ))
        ensures
            r.0 == (NumberRange {
                value: current_x as i64,
                step: 1,
                max: toward_zero(
                    match smallest_screen {
                        Some(s) => s.0 as int,
                        None => FALLBACK_SCREEN_SIZE as int,
                    },
                    4,
                ) as i64,
                min: LOWEST_MAX_DISTANCE as i64,
            }),
            r.1 == (NumberRange {
                value: current_y as i64,
                step: 1,
                max: toward_zero(
                    match smallest_screen {
                        Some(s) => s.1 as int,
                        None => FALLBACK_SCREEN_SIZE as int,
                    },
                    4,
                ) as i64,
                min: LOWEST_MAX_DISTANCE as i64,
            }),
    {
        let smallest: (i32, i32) = match smallest_screen {
            Some(s) => s,
            None => (FALLBACK_SCREEN_SIZE, FALLBACK_SCREEN_SIZE),
        };
        (
            NumberRange {
                value: current_x as i64,
                step: 1,
                max: smallest.0 as i64 / 4,
                min: LOWEST_MAX_DISTANCE as i64,
            },
            NumberRange {
                value: current_y as i64,
                step: 1,
                max: smallest.1 as i64 / 4,
                min: LOWEST_MAX_DISTANCE as i64,
            },
        )
    }

    /// The outcome when the dialog is confirmed: both numbers as entered,
    /// or a cancel when either is missing.
    pub fn confirmed(entered_x: Option<i32>, entered_y: Option<i32>) -> (d: Self)
        ensures
            d == match (entered_x, entered_y) {
                (Some(x), Some(y)) => DistanceDialogData::Value(x, y),
                _ => DistanceDialogData::Cancel,
            },
    {
        match (entered_x, entered_y) {
            (Some(x), Some(y)) => DistanceDialogData::Value(x, y),
            _ => DistanceDialogData::Cancel,
        }
    }
}

impl SpinDialogData {
    /// The outcome when the dialog is confirmed: the number entered, sign
    /// dropped; or a cancel when no number was entered.
    pub fn confirmed(entered: Option<i32>) -> (d: Self)
        requires
            entered != Some(i32::MIN),
        ensures
            d == match entered {
                Some(v) => SpinDialogData::Value(spec_abs(v as int) as i32),
                None => SpinDialogData::Cancel,
            },
    {
        match entered {
            Some(v) => SpinDialogData::Value(
                if v < 0 {
                    -v
                } else {
                    v
                },
            ),
            None => SpinDialogData::Cancel,
        }
    }
}

} // verus!
