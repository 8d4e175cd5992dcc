//! Registration times, readings of the wall clock, and the test that tells
//! whether the instant to fire has come.

use chrono::Timelike;
use vstd::prelude::*;
use vstd::string::StringExecFns;

verus! {

/// Milliseconds between two readings of the clock while waiting to fire.
pub const POLL_INTERVAL_MILLIS: u64 = 10;

/// Number of registration times that the operator can choose from.
pub const REGISTRATION_TIME_COUNT: usize = 1440;

/// The character of a decimal digit.
pub open spec fn digit_char(d: int) -> char {
    if d == 0 {
        '0'
    } else if d == 1 {
        '1'
    } else if d == 2 {
        '2'
    } else if d == 3 {
        '3'
    } else if d == 4 {
        '4'
    } else if d == 5 {
        '5'
    } else if d == 6 {
        '6'
    } else if d == 7 {
        '7'
    } else if d == 8 {
        '8'
    } else {
        '9'
    }
}

/// A number below one hundred in two digits, with a leading zero.
pub open spec fn two_digits(n: int) -> Seq<char> {
    seq![digit_char(n / 10), digit_char(n % 10)]
}

/// A number below one thousand in three digits, with leading zeros.
pub open spec fn three_digits(n: int) -> Seq<char> {
    seq![digit_char(n / 100), digit_char((n / 10) % 10), digit_char(n % 10)]
}

fn digit_str(d: u32) -> (s: &'static str)
    requires
        d < 10,
    ensures
        s@ == seq![digit_char(d as int)],
{
    proof {
        reveal_strlit("0");
        reveal_strlit("1");
        reveal_strlit("2");
        reveal_strlit("3");
        reveal_strlit("4");
        reveal_strlit("5");
        reveal_strlit("6");
        reveal_strlit("7");
        reveal_strlit("8");
        reveal_strlit("9");
    }
    let s = if d == 0 {
        "0"
    } else if d == 1 {
        "1"
    } else if d == 2 {
        "2"
    } else if d == 3 {
        "3"
    } else if d == 4 {
        "4"
    } else if d == 5 {
        "5"
    } else if d == 6 {
        "6"
    } else if d == 7 {
        "7"
    } else if d == 8 {
        "8"
    } else {
        "9"
    };
    assert(s@ =~= seq![digit_char(d as int)]);
    s
}

fn push_two_digits(out: &mut String, n: u32)
    requires
        n < 100,
    ensures
        final(out)@ == old(out)@ + two_digits(n as int),
{
    out.append(digit_str(n / 10));
    out.append(digit_str(n % 10));
    assert(out@ =~= old(out)@ + two_digits(n as int));
}

fn push_three_digits(out: &mut String, n: u32)
    requires
        n < 1000,
    ensures
        final(out)@ == old(out)@ + three_digits(n as int),
{
    out.append(digit_str(n / 100));
    out.append(digit_str((n / 10) % 10));
    out.append(digit_str(n % 10));
    assert(out@ =~= old(out)@ + three_digits(n as int));
}

/// One reading of the local wall clock.
#[derive(Debug, Clone, Copy, PartialEq, Eq, Structural)]
pub struct ClockReading {
    pub hour: u32,
    pub minute: u32,
    pub second: u32,
    /// Nanoseconds since the whole second; a billion or more during a leap
    /// second.
    pub nanosecond: u32,
}

/// The time of day of `chrono::Local::now()`, taken apart with `Timelike`'s
/// `hour`, `minute`, `second` and `nanosecond`.  Trusted: the hour is below
/// 24, minute and second are below 60, and the nanoseconds are below two
/// billion, as `Timelike` documents for each of the four.
#[verifier::external_body]
fn read_local_clock() -> (clock: ClockReading)
    ensures
        clock.wf(),
{
    let now = chrono::Local::now();
    ClockReading {
        hour: now.hour(),
        minute: now.minute(),
        second: now.second(),
        nanosecond: now.nanosecond(),
    }
}

impl ClockReading {
    /// Each part lies in the range of a clock.
    pub open spec fn wf(&self) -> bool {
        &&& self.hour < 24
        &&& self.minute < 60
        &&& self.second < 60
        &&& self.nanosecond < 2_000_000_000
    }

    /// The seconds as a clock shows them: 60 during a leap second.
    pub open spec fn shown_second(&self) -> int {
        self.second + self.nanosecond as int / 1_000_000_000
    }

    /// The milliseconds since the shown second.
    pub open spec fn shown_millis(&self) -> int {
        (self.nanosecond as int / 1_000_000) % 1000
    }

    /// The reading as `HH:MM:SS.mmm`.
    pub open spec fn stamp_text(&self) -> Seq<char> {
        two_digits(self.hour as int) + seq![':'] + two_digits(self.minute as int) + seq![':']
            + two_digits(self.shown_second()) + seq!['.'] + three_digits(self.shown_millis())
    }

    /// Builds a reading, refusing parts that no clock shows.
    pub fn new(hour: u32, minute: u32, second: u32, nanosecond: u32) -> (r: Option<ClockReading>)
        ensures
            r == if hour < 24 && minute < 60 && second < 60 && nanosecond < 2_000_000_000 {
                Some(ClockReading { hour, minute, second, nanosecond })
            } else {
                None::<ClockReading>
            },
    {
        if hour < 24 && minute < 60 && second < 60 && nanosecond < 2_000_000_000 {
            Some(ClockReading { hour, minute, second, nanosecond })
        } else {
            None
        }
    }

    /// Tells whether each part lies in the range of a clock.
    pub fn is_valid(&self) -> (r: bool)
        ensures
            r == self.wf(),
    {
        self.hour < 24 && self.minute < 60 && self.second < 60 && self.nanosecond < 2_000_000_000
    }

    /// Reads the local wall clock.
    pub fn now() -> (clock: ClockReading)
        ensures
            clock.wf(),
    {
        read_local_clock()
    }

    /// The reading as `HH:MM:SS.mmm`.
    pub fn stamp(&self) -> (s: String)
        requires
            self.wf(),
        ensures
            s@ == self.stamp_text(),
    {
        let mut s = String::new();
        push_two_digits(&mut s, self.hour);
        s.append(":");
        push_two_digits(&mut s, self.minute);
        s.append(":");
        push_two_digits(&mut s, self.second + self.nanosecond / 1_000_000_000);
        s.append(".");
        push_three_digits(&mut s, (self.nanosecond / 1_000_000) % 1000);
        proof {
            reveal_strlit(":");
            reveal_strlit(".");
            assert(":"@ =~= seq![':']);
            assert("."@ =~= seq!['.']);
            assert(s@ =~= self.stamp_text());
        }
        s
    }

    /// The name of the file that holds what the page looked like when a run
    /// failed at this reading: `debug-HH:MM:SS.mmm.png`.
    pub fn debug_artifact_name(&self) -> (name: String)
        requires
            self.wf(),
        ensures
            name@ == "debug-"@ + self.stamp_text() + ".png"@,
    {
        let mut name = String::from_str("debug-");
        let stamp = self.stamp();
        name.append(stamp.as_str());
        name.append(".png");
        name
    }
}

/// A time of day on a twelve-hour clock, to the minute.
#[derive(Debug, Clone, Copy, PartialEq, Eq, Structural)]
pub struct RegistrationTime {
    /// The hour, from 1 to 12.
    pub hour: u32,
    /// The minute, from 0 to 59.
    pub minute: u32,
    /// Before noon.
    pub is_morning: bool,
}

impl RegistrationTime {
    /// Hour and minute lie in the range of a twelve-hour clock.
    pub open spec fn wf(&self) -> bool {
        &&& 1 <= self.hour <= 12
        &&& self.minute < 60
    }

    /// The hour that the clock's hour is compared with: the hour itself before
    /// noon, twelve more after it.  Hour 12 gets no special treatment, so
    /// "12 AM" stands for hour 12, noon, and "12 PM" for hour 24, which no
    /// clock shows.
    pub open spec fn spec_hour_24(&self) -> int {
        if self.is_morning {
            self.hour as int
        } else {
            self.hour + 12
        }
    }

    /// The clock shows the hour and the minute of this time.
    pub open spec fn spec_is_due(&self, clock: ClockReading) -> bool {
        clock.hour == self.spec_hour_24() && clock.minute == self.minute
    }

    /// The time as `HH:MM AM` or `HH:MM PM`.
    pub open spec fn label_text(&self) -> Seq<char> {
        two_digits(self.hour as int) + seq![':'] + two_digits(self.minute as int) + seq![
            ' ',
            if self.is_morning {
                'A'
            } else {
                'P'
            },
            'M',
        ]
    }

    /// Builds a time, refusing an hour outside `1..=12` and a minute above 59.
    pub fn new(hour: u32, minute: u32, is_morning: bool) -> (r: Option<RegistrationTime>)
        ensures
            r == if 1 <= hour <= 12 && minute < 60 {
                Some(RegistrationTime { hour, minute, is_morning })
            } else {
                None::<RegistrationTime>
            },
    {
        if 1 <= hour && hour <= 12 && minute < 60 {
            Some(RegistrationTime { hour, minute, is_morning })
        } else {
            None
        }
    }

    /// Tells whether hour and minute lie in the range of a twelve-hour clock.
    pub fn is_valid(&self) -> (r: bool)
        ensures
            r == self.wf(),
    {
        1 <= self.hour && self.hour <= 12 && self.minute < 60
    }

    /// The hour that the clock's hour is compared with.
    pub fn hour_24(&self) -> (h: u32)
        requires
            self.wf(),
        ensures
            h == self.spec_hour_24(),
            1 <= h <= 24,
    {
        if self.is_morning {
            self.hour
        } else {
            self.hour + 12
        }
    }

    /// Tells whether the clock shows the hour and the minute of this time.
    /// Seconds and their fractions play no part: the time is due during the
    /// whole minute.
    pub fn is_due(&self, clock: &ClockReading) -> (due: bool)
        ensures
            due == self.spec_is_due(*clock),
    {
        if clock.minute != self.minute {
            false
        } else if self.is_morning {
            clock.hour == self.hour
        } else {
            clock.hour >= 12 && clock.hour - 12 == self.hour
        }
    }

    /// Reads the local wall clock and tells whether this time is due at the
    /// reading, which is handed back with the answer.
    pub fn is_due_now(&self) -> (r: (bool, ClockReading))
        ensures
            r.1.wf(),
            r.0 == self.spec_is_due(r.1),
    {
        let clock = read_local_clock();
        (self.is_due(&clock), clock)
    }

    /// Tells whether any reading of a clock makes this time due.
    pub fn can_fire(&self) -> (r: bool)
        requires
            self.wf(),
        ensures
            r == (exists|clock: ClockReading| clock.wf() && #[trigger] self.spec_is_due(clock)),
            r == !(self.hour == 12 && !self.is_morning),
    {
        let h = self.hour_24();
        if h < 24 {
            proof {
                let witness = ClockReading {
                    hour: h,
                    minute: self.minute,
                    second: 0,
                    nanosecond: 0,
                };
                assert(witness.wf() && self.spec_is_due(witness));
            }
            true
        } else {
            false
        }
    }

    /// The time as `HH:MM AM` or `HH:MM PM`.
    pub fn label(&self) -> (s: String)
        requires
            self.wf(),
        ensures
            s@ == self.label_text(),
    {
        let mut s = String::new();
        push_two_digits(&mut s, self.hour);
        s.append(":");
        push_two_digits(&mut s, self.minute);
        if self.is_morning {
            s.append(" AM");
        } else {
            s.append(" PM");
        }
        proof {
            reveal_strlit(":");
            reveal_strlit(" AM");
            reveal_strlit(" PM");
            assert(":"@ =~= seq![':']);
            assert(" AM"@ =~= seq![' ', 'A', 'M']);
            assert(" PM"@ =~= seq![' ', 'P', 'M']);
            assert(s@ =~= self.label_text());
        }
        s
    }
}

/// The time that stands at position `2 * (60 * (hour - 1) + minute)` of the
/// list of registration times, and, after noon, at the position behind it.
pub open spec fn position_of(hour: int, minute: int, is_morning: bool) -> int {
    2 * (60 * (hour - 1) + minute) + if is_morning {
        0int
    } else {
        1int
    }
}

/// Every time that the operator can choose from: the hours from 1 to 12, for
/// each hour the minutes from 0 to 59, for each minute first the time before
/// noon and then the time after it.
pub fn registration_times() -> (times: Vec<RegistrationTime>)
    ensures
        times.len() == REGISTRATION_TIME_COUNT,
        forall|hour: int, minute: int, is_morning: bool|
            1 <= hour <= 12 && 0 <= minute < 60 ==> #[trigger] times[position_of(
                hour,
                minute,
                is_morning,
            )] == (RegistrationTime { hour: hour as u32, minute: minute as u32, is_morning }),
        forall|k: int| 0 <= k < times.len() ==> (#[trigger] times[k]).wf(),
{
    let mut times: Vec<RegistrationTime> = Vec::new();
    let mut hour: u32 = 1;
    while hour <= 12
        invariant
            1 <= hour <= 13,
            times.len() == 120 * (hour - 1),
            forall|h: int, m: int, am: bool|
                1 <= h < hour && 0 <= m < 60 ==> #[trigger] times[position_of(h, m, am)] == (
                RegistrationTime { hour: h as u32, minute: m as u32, is_morning: am }),
            forall|k: int| 0 <= k < times.len() ==> (#[trigger] times[k]).wf(),
        decreases 13 - hour,
    {
        let mut minute: u32 = 0;
        while minute < 60
            invariant
                1 <= hour <= 12,
                minute <= 60,
                times.len() == 120 * (hour - 1) + 2 * minute,
                forall|h: int, m: int, am: bool|
                    (1 <= h < hour && 0 <= m < 60) || (h == hour && 0 <= m < minute)
                        ==> #[trigger] times[position_of(h, m, am)] == (RegistrationTime {
                        hour: h as u32,
                        minute: m as u32,
                        is_morning: am,
                    }),
                forall|k: int| 0 <= k < times.len() ==> (#[trigger] times[k]).wf(),
            decreases 60 - minute,
        {
            let ghost before = times@;
            times.push(RegistrationTime { hour, minute, is_morning: true });
            times.push(RegistrationTime { hour, minute, is_morning: false });
            proof {
                assert(position_of(hour as int, minute as int, true) == before.len());
                assert(position_of(hour as int, minute as int, false) == before.len() + 1);
                assert forall|h: int, m: int, am: bool|
                    (1 <= h < hour && 0 <= m < 60) || (h == hour && 0 <= m < minute + 1)
                        implies #[trigger] times[position_of(h, m, am)] == (RegistrationTime {
                        hour: h as u32,
                        minute: m as u32,
                        is_morning: am,
                    }) by {
                    if h == hour && m == minute {
                    } else {
                        assert(position_of(h, m, am) < before.len());
                        assert(times[position_of(h, m, am)] == before[position_of(h, m, am)]);
                    }
                }
            }
            minute += 1;
        }
        hour += 1;
    }
    times
}

/// A time at twelve after noon is never due: it stands for hour 24.
pub proof fn lemma_twelve_pm_is_never_due(time: RegistrationTime, clock: ClockReading)
    requires
        time.hour == 12,
        !time.is_morning,
        clock.wf(),
    ensures
        !time.spec_is_due(clock),
{
}

/// A time at twelve before noon is due at noon, not at midnight: it stands
/// for hour 12.
pub proof fn lemma_twelve_am_is_due_at_noon(time: RegistrationTime, clock: ClockReading)
    requires
        time.hour == 12,
        time.is_morning,
    ensures
        time.spec_is_due(clock) <==> clock.hour == 12 && clock.minute == time.minute,
{
}

} // verus!
