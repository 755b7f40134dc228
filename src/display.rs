//! The two text fields that the window shows, owned by the UI thread.

use vstd::prelude::*;

use crate::clock::{
    clock_texts_at, clock_value_at, compute_clock_value, is_clock_texts, timestamp_in_range,
    utc_now_seconds, ClockValue,
};

verus! {

/// The hour and minute texts currently shown. Both are always written together,
/// from one clock value.
pub struct DisplayState {
    hour: String,
    minute: String,
}

impl View for DisplayState {
    type V = (Seq<char>, Seq<char>);

    closed spec fn view(&self) -> (Seq<char>, Seq<char>) {
        (self.hour@, self.minute@)
    }
}

impl DisplayState {
    /// Both fields always come from one clock value: never an hour of one and
    /// a minute of another.
    #[verifier::type_invariant]
    spec fn shows_one_value(self) -> bool {
        is_clock_texts((self.hour@, self.minute@))
    }

    /// The display that shows `value`.
    pub fn new(value: &ClockValue) -> (r: DisplayState)
        ensures
            r@ == value@,
    {
        DisplayState {
            hour: String::from_str(value.hour_text()),
            minute: String::from_str(value.minute_text()),
        }
    }

    /// The display as first built: it shows the time now.
    pub fn new_now() -> (r: DisplayState)
        ensures
            exists|t: int| timestamp_in_range(t) && r@ == #[trigger] clock_texts_at(t),
    {
        let value = compute_clock_value();
        DisplayState::new(&value)
    }

    /// The display as first built at the instant `utc_seconds`; `None` for an
    /// instant outside chrono's range.
    pub fn new_at(utc_seconds: i64) -> (r: Option<DisplayState>)
        ensures
            r is Some <==> timestamp_in_range(utc_seconds as int),
            r matches Some(d) ==> d@ == clock_texts_at(utc_seconds as int),
    {
        match clock_value_at(utc_seconds) {
            Some(value) => Some(DisplayState::new(&value)),
            None => None,
        }
    }

    /// The hour text shown.
    pub fn hour_text(&self) -> (r: &str)
        ensures
            r@ == self@.0,
            is_clock_texts(self@),
    {
        proof {
            use_type_invariant(self);
        }
        self.hour.as_str()
    }

    /// The minute text shown.
    pub fn minute_text(&self) -> (r: &str)
        ensures
            r@ == self@.1,
            is_clock_texts(self@),
    {
        proof {
            use_type_invariant(self);
        }
        self.minute.as_str()
    }

    /// Shows `value`: both fields are replaced, from that one value.
    pub fn show(&mut self, value: &ClockValue)
        ensures
            final(self)@ == value@,
    {
        *self = DisplayState::new(value);
    }

    /// The refresh action: reads the clock once and shows the time at that
    /// instant, hour and minute from the one reading. Returns the instant read.
    pub fn refresh(&mut self) -> (t: i64)
        ensures
            timestamp_in_range(t as int),
            final(self)@ == clock_texts_at(t as int),
    {
        let now = utc_now_seconds();
        let value = clock_value_at(now).unwrap();
        self.show(&value);
        now
    }

    /// The refresh action at the instant `utc_seconds`. Returns whether it ran:
    /// for an instant outside chrono's range the display stays as it was.
    pub fn refresh_at(&mut self, utc_seconds: i64) -> (r: bool)
        ensures
            r <==> timestamp_in_range(utc_seconds as int),
            r ==> final(self)@ == clock_texts_at(utc_seconds as int),
            !r ==> final(self)@ == old(self)@,
    {
        match clock_value_at(utc_seconds) {
            Some(value) => {
                self.show(&value);
                true
            },
            None => false,
        }
    }
}

} // verus!
