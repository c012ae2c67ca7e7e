//! The event record and its builder: recognizing a line, extracting its
//! fields, normalizing date and time, and assembling an immutable
//! [`EventModel`] or a typed [`EventParseError`].

use vstd::prelude::*;
use vstd::pervasive::unreached;

use crate::calendar::Date;
use crate::calendar::Time;
use crate::calendar::chrono_parse_date;
use crate::calendar::chrono_parse_time;
use crate::calendar::current_year;
use crate::calendar::date_of_str;
use crate::calendar::time_of_str;
use crate::dates::DateOutcome;
use crate::dates::built_date;
use crate::dates::build_canonical_date;
use crate::dates::date_outcome;
use crate::dates::date_shape1_exec;
use crate::dates::date_shape2_exec;
use crate::dates::date_shape3_exec;
use crate::parsing::extract_exec;
use crate::parsing::extract_spec;
use crate::parsing::is_event_shape;
use crate::parsing::line_is_event;
use crate::textscan::trim_exec;
use crate::textscan::trim_seq;
use crate::times::TimeOutcome;
use crate::times::build_canonical_time;
use crate::times::canonical_time;
use crate::times::time_outcome;
use crate::times::time_shape1_exec;
use crate::times::time_shape2_exec;
use crate::times::time_shape3_exec;

verus! {

/// Why a line failed to become an event. A failure inside a recognized
/// date or time shape carries the underlying parser's message.
#[derive(Debug, Clone, PartialEq)]
pub enum EventParseError {
    NotAnEventLine,
    FieldExtractionFailed,
    UnrecognizedDateShape,
    DateParseFailure(String),
    UnrecognizedTimeShape,
    TimeParseFailure(String),
    EmptyTitle,
}

/// An immutable calendar-event record built from a single text line.
///
/// `end_date` equals `start_date` when the line gave no range; absent
/// times mean an all-day event; `place` may be empty; `title` of an event
/// built by [`EventModel::from_line`] is trimmed and never empty.
#[derive(Debug, Clone, PartialEq)]
pub struct EventModel {
    pub start_date: Date,
    pub end_date: Date,
    pub start_time: Option<Time>,
    pub end_time: Option<Time>,
    pub place: String,
    pub title: String,
}

impl Default for EventModel {
    /// The record all other constructions start from: the epoch date, no
    /// times, empty place and title.
    fn default() -> (e: EventModel)
        ensures
            e.start_date == (Date { year: 1970, month: 1, day: 1 }),
            e.end_date == (Date { year: 1970, month: 1, day: 1 }),
            e.start_time is None,
            e.end_time is None,
            e.place@ == Seq::<char>::empty(),
            e.title@ == Seq::<char>::empty(),
    {
        EventModel {
            start_date: Date { year: 1970, month: 1, day: 1 },
            end_date: Date { year: 1970, month: 1, day: 1 },
            start_time: None,
            end_time: None,
            place: String::new(),
            title: String::new(),
        }
    }
}

/// The date normalizer's contract: its result under current year `cy`
/// follows [`date_outcome`], with the error variant the outcome dictates.
pub open spec fn date_result_ok(
    s: Seq<char>,
    cy: int,
    r: Result<(Option<Date>, Option<Date>), EventParseError>,
) -> bool {
    match date_outcome(s, cy) {
        DateOutcome::Built(a, b) => r == Ok::<(Option<Date>, Option<Date>), EventParseError>(
            (a, b),
        ),
        DateOutcome::ParseFail => r matches Err(e) && e is DateParseFailure,
        DateOutcome::BadShape => r == Err::<(Option<Date>, Option<Date>), EventParseError>(
            EventParseError::UnrecognizedDateShape,
        ),
    }
}

/// The time normalizer's contract: its result follows [`time_outcome`],
/// with the error variant the outcome dictates.
pub open spec fn time_result_ok(
    s: Seq<char>,
    r: Result<(Option<Time>, Option<Time>), EventParseError>,
) -> bool {
    match time_outcome(s) {
        TimeOutcome::Built(a, b) => r == Ok::<(Option<Time>, Option<Time>), EventParseError>(
            (a, b),
        ),
        TimeOutcome::ParseFail => r matches Err(e) && e is TimeParseFailure,
        TimeOutcome::BadShape => r == Err::<(Option<Time>, Option<Time>), EventParseError>(
            EventParseError::UnrecognizedTimeShape,
        ),
    }
}

/// The event builder's whole contract under current year `cy`: each stage
/// decides the result exactly, and each error names the stage that failed.
pub open spec fn from_line_post(
    line: Seq<char>,
    cy: int,
    r: Result<EventModel, EventParseError>,
) -> bool {
    if !is_event_shape(line) {
        r == Err::<EventModel, EventParseError>(EventParseError::NotAnEventLine)
    } else {
        match extract_spec(line) {
            None => r == Err::<EventModel, EventParseError>(
                EventParseError::FieldExtractionFailed,
            ),
            Some((d, t, pl, ti)) => match date_outcome(d, cy) {
                DateOutcome::BadShape => r == Err::<EventModel, EventParseError>(
                    EventParseError::UnrecognizedDateShape,
                ),
                DateOutcome::ParseFail => r matches Err(e) && e is DateParseFailure,
                DateOutcome::Built(sd, ed) => match time_outcome(t) {
                    TimeOutcome::BadShape => r == Err::<EventModel, EventParseError>(
                        EventParseError::UnrecognizedTimeShape,
                    ),
                    TimeOutcome::ParseFail => r matches Err(e) && e is TimeParseFailure,
                    TimeOutcome::Built(st, et) => {
                        if trim_seq(ti).len() == 0 {
                            r == Err::<EventModel, EventParseError>(EventParseError::EmptyTitle)
                        } else {
                            &&& r matches Ok(ev)
                            &&& sd matches Some(sd0)
                            &&& ev.start_date == sd0
                            &&& ev.end_date == (match ed {
                                Some(e0) => e0,
                                None => sd0,
                            })
                            &&& ev.start_time == st
                            &&& ev.end_time == et
                            &&& ev.place@ == pl
                            &&& ev.title@ == trim_seq(ti)
                        }
                    },
                },
            },
        }
    }
}

impl EventModel {
    /// Hands a canonical `"D Mon YYYY"` string to the calendar-date
    /// parser.
    pub fn base_parse_date(datestr: &str) -> (r: Result<Date, EventParseError>)
        ensures
            match date_of_str(datestr@) {
                Some((y, m, d)) => r == Ok::<Date, EventParseError>(built_date(y, m, d)),
                None => r matches Err(e) && e is DateParseFailure,
            },
    {
        match chrono_parse_date(datestr) {
            Ok(d) => Ok(d),
            Err(m) => Err(EventParseError::DateParseFailure(m)),
        }
    }

    /// Hands a canonical `"H:MM AM|PM"` string to the clock parser.
    pub fn base_parse_time(timestr: &str) -> (r: Result<Time, EventParseError>)
        ensures
            match time_of_str(timestr@) {
                Some((h, m)) => r == Ok::<Time, EventParseError>(
                    crate::times::built_time(h, m),
                ),
                None => r matches Err(e) && e is TimeParseFailure,
            },
    {
        match chrono_parse_time(timestr) {
            Ok(t) => Ok(t),
            Err(m) => Err(EventParseError::TimeParseFailure(m)),
        }
    }

    /// Splits an event line into its four raw fields: date text, time
    /// text, place text and title text.
    pub fn extract_from_line<'a>(haystack: &'a str) -> (r: Result<
        (&'a str, &'a str, &'a str, &'a str),
        EventParseError,
    >)
        ensures
            match r {
                Ok(t) => extract_spec(haystack@) == Some((t.0@, t.1@, t.2@, t.3@)),
                Err(e) => e == EventParseError::FieldExtractionFailed && extract_spec(haystack@)
                    is None,
            },
    {
        match extract_exec(haystack) {
            Some(t) => Ok(t),
            None => Err(EventParseError::FieldExtractionFailed),
        }
    }

    /// Normalizes a date text under an explicit current year, used when a
    /// shape leaves the year blank.
    pub fn parse_date_tup_with_year(datestr: &str, year: i32) -> (r: Result<
        (Option<Date>, Option<Date>),
        EventParseError,
    >)
        ensures
            date_result_ok(datestr@, year as int, r),
            r matches Ok(t) ==> t.0 is Some,
    {
        let n = datestr.unicode_len();
        match date_shape1_exec(datestr) {
            Some((de, ms, me, ys)) => {
                let day = datestr.substring_char(0, de);
                let mon = datestr.substring_char(ms, me);
                let yt: String = if ys < n {
                    let cap = datestr.substring_char(ys, n);
                    cap.to_owned()
                } else {
                    crate::calendar::i32_to_string(year)
                };
                let c = build_canonical_date(day, mon, yt.as_str());
                match chrono_parse_date(c.as_str()) {
                    Ok(d) => Ok((Some(d), None)),
                    Err(m) => Err(EventParseError::DateParseFailure(m)),
                }
            },
            None => match date_shape2_exec(datestr) {
                Some((d1e, d2s, d2e, ms, me, ys)) => {
                    let d1 = datestr.substring_char(0, d1e);
                    let d2 = datestr.substring_char(d2s, d2e);
                    let mon = datestr.substring_char(ms, me);
                    let yt: String = if ys < n {
                        let cap = datestr.substring_char(ys, n);
                        cap.to_owned()
                    } else {
                        crate::calendar::i32_to_string(year)
                    };
                    let c1 = build_canonical_date(d1, mon, yt.as_str());
                    match chrono_parse_date(c1.as_str()) {
                        Err(m) => Err(EventParseError::DateParseFailure(m)),
                        Ok(a) => {
                            let c2 = build_canonical_date(d2, mon, yt.as_str());
                            match chrono_parse_date(c2.as_str()) {
                                Err(m) => Err(EventParseError::DateParseFailure(m)),
                                Ok(b) => Ok((Some(a), Some(b))),
                            }
                        },
                    }
                },
                None => match date_shape3_exec(datestr) {
                    Some((d1e, m1s, m1e, d2s, d2e, m2s, m2e, ys)) => {
                        let d1 = datestr.substring_char(0, d1e);
                        let m1 = datestr.substring_char(m1s, m1e);
                        let d2 = datestr.substring_char(d2s, d2e);
                        let m2 = datestr.substring_char(m2s, m2e);
                        let yt: String = if ys < n {
                            let cap = datestr.substring_char(ys, n);
                            cap.to_owned()
                        } else {
                            crate::calendar::i32_to_string(year)
                        };
                        let c1 = build_canonical_date(d1, m1, yt.as_str());
                        match chrono_parse_date(c1.as_str()) {
                            Err(m) => Err(EventParseError::DateParseFailure(m)),
                            Ok(a) => {
                                let c2 = build_canonical_date(d2, m2, yt.as_str());
                                match chrono_parse_date(c2.as_str()) {
                                    Err(m) => Err(EventParseError::DateParseFailure(m)),
                                    Ok(b) => Ok((Some(a), Some(b))),
                                }
                            },
                        }
                    },
                    None => Err(EventParseError::UnrecognizedDateShape),
                },
            },
        }
    }

    /// Normalizes a date text, reading the ambient current year for
    /// shapes that leave the year blank.
    pub fn parse_date_tup(datestr: &str) -> (r: Result<
        (Option<Date>, Option<Date>),
        EventParseError,
    >)
        ensures
            exists|cy: int|
                #![auto]
                -262143 <= cy <= 262142 && date_result_ok(datestr@, cy, r),
            r matches Ok(t) ==> t.0 is Some,
    {
        let cy = current_year();
        let r = Self::parse_date_tup_with_year(datestr, cy);
        proof {
            assert(-262143 <= cy as int <= 262142 && date_result_ok(datestr@, cy as int, r));
        }
        r
    }

    /// Normalizes a time text: empty means an all-day event; in a range a
    /// side the clock parser rejects degrades to `None`.
    pub fn parse_time_tup(timestr: &str) -> (r: Result<
        (Option<Time>, Option<Time>),
        EventParseError,
    >)
        ensures
            time_result_ok(timestr@, r),
    {
        let n = timestr.unicode_len();
        if n == 0 {
            return Ok((None, None));
        }
        if time_shape1_exec(timestr) {
            match chrono_parse_time(timestr) {
                Ok(t) => Ok((Some(t), None)),
                Err(m) => Err(EventParseError::TimeParseFailure(m)),
            }
        } else {
            match time_shape2_exec(timestr) {
                Some(h) => {
                    let ht = timestr.substring_char(0, h);
                    let mer = timestr.substring_char(h + 1, h + 3);
                    let empty_min = "";
                    let c = build_canonical_time(ht, empty_min, mer);
                    proof {
                        reveal_strlit("");
                        assert(empty_min@ =~= Seq::<char>::empty());
                        assert(c@ == canonical_time(ht@, Seq::<char>::empty(), mer@));
                    }
                    match chrono_parse_time(c.as_str()) {
                        Ok(t) => Ok((Some(t), None)),
                        Err(m) => Err(EventParseError::TimeParseFailure(m)),
                    }
                },
                None => match time_shape3_exec(timestr) {
                    Some((h1e, i1, i2, h2s, h2e, i3, i4)) => {
                        let h1 = timestr.substring_char(0, h1e);
                        let min1 = timestr.substring_char(h1e, i1);
                        let mer1 = timestr.substring_char(i1, i2);
                        let h2 = timestr.substring_char(h2s, h2e);
                        let min2 = timestr.substring_char(h2e, i3);
                        let mer2 = timestr.substring_char(i4, n);
                        let mer_start = if i2 > i1 {
                            mer1
                        } else {
                            mer2
                        };
                        let cs = build_canonical_time(h1, min1, mer_start);
                        let ce = build_canonical_time(h2, min2, mer2);
                        let st = match chrono_parse_time(cs.as_str()) {
                            Ok(t) => Some(t),
                            Err(_) => None,
                        };
                        let et = match chrono_parse_time(ce.as_str()) {
                            Ok(t) => Some(t),
                            Err(_) => None,
                        };
                        Ok((st, et))
                    },
                    None => Err(EventParseError::UnrecognizedTimeShape),
                },
            }
        }
    }

    /// Builds an event from a line under an explicit current year: checks
    /// the line shape, extracts the fields, normalizes date and time,
    /// keeps the place verbatim, and trims the title, which must not end
    /// up empty.
    pub fn from_line_with_year(linestr: &str, year: i32) -> (r: Result<
        EventModel,
        EventParseError,
    >)
        ensures
            from_line_post(linestr@, year as int, r),
    {
        if !line_is_event(linestr) {
            return Err(EventParseError::NotAnEventLine);
        }
        let fields = match extract_exec(linestr) {
            None => {
                return Err(EventParseError::FieldExtractionFailed);
            },
            Some(t) => t,
        };
        let (datestr, timestr, placestr, titlestr) = fields;
        let dates = match Self::parse_date_tup_with_year(datestr, year) {
            Err(e) => {
                return Err(e);
            },
            Ok(p) => p,
        };
        let start = match dates.0 {
            Some(x) => x,
            None => unreached(),
        };
        let end = match dates.1 {
            Some(x) => x,
            None => start,
        };
        let times = match Self::parse_time_tup(timestr) {
            Err(e) => {
                return Err(e);
            },
            Ok(p) => p,
        };
        let title = trim_exec(titlestr);
        if title.unicode_len() == 0 {
            return Err(EventParseError::EmptyTitle);
        }
        Ok(EventModel {
            start_date: start,
            end_date: end,
            start_time: times.0,
            end_time: times.1,
            place: placestr.to_owned(),
            title: title.to_owned(),
        })
    }

    /// Builds an event from a line, reading the ambient current year for
    /// date shapes that leave the year blank.
    pub fn from_line(linestr: String) -> (r: Result<EventModel, EventParseError>)
        ensures
            exists|cy: int|
                #![auto]
                -262143 <= cy <= 262142 && from_line_post(linestr@, cy, r),
    {
        let cy = current_year();
        let r = Self::from_line_with_year(linestr.as_str(), cy);
        proof {
            assert(-262143 <= cy as int <= 262142 && from_line_post(linestr@, cy as int, r));
        }
        r
    }

    /// Builds a record directly from a canonical `"D Mon YYYY"` start
    /// date, a place and a title. The optional end date and time texts are
    /// accepted but not read: the end date is set to the start date and
    /// the times to absent.
    #[allow(unused_variables)]
    pub fn new(
        start_date: String,
        end_date: Option<String>,
        start_time: Option<String>,
        end_time: Option<String>,
        place: Option<String>,
        title: String,
    ) -> (r: Result<EventModel, EventParseError>)
        ensures
            match date_of_str(start_date@) {
                Some((y, m, d)) => {
                    &&& r matches Ok(ev)
                    &&& ev.start_date == built_date(y, m, d)
                    &&& ev.end_date == built_date(y, m, d)
                    &&& ev.start_time is None
                    &&& ev.end_time is None
                    &&& ev.title@ == title@
                    &&& ev.place@ == (match place {
                        Some(p) => p@,
                        None => Seq::<char>::empty(),
                    })
                },
                None => r matches Err(e) && e is DateParseFailure,
            },
    {
        let date_struct = match chrono_parse_date(start_date.as_str()) {
            Ok(d) => d,
            Err(m) => {
                return Err(EventParseError::DateParseFailure(m));
            },
        };
        let p = match place {
            Some(s) => s,
            None => String::new(),
        };
        Ok(EventModel {
            start_date: date_struct,
            end_date: date_struct,
            start_time: None,
            end_time: None,
            place: p,
            title,
        })
    }

    /// Builds a record holding only a start date parsed from a canonical
    /// `"D Mon YYYY"` string; everything else stays at its default.
    pub fn with_date(date_str: String) -> (r: Result<EventModel, EventParseError>)
        ensures
            match date_of_str(date_str@) {
                Some((y, m, d)) => {
                    &&& r matches Ok(ev)
                    &&& ev.start_date == built_date(y, m, d)
                    &&& ev.end_date == built_date(y, m, d)
                    &&& ev.start_time is None
                    &&& ev.end_time is None
                    &&& ev.place@ == Seq::<char>::empty()
                    &&& ev.title@ == Seq::<char>::empty()
                },
                None => r matches Err(e) && e is DateParseFailure,
            },
    {
        let date_struct = match chrono_parse_date(date_str.as_str()) {
            Ok(d) => d,
            Err(m) => {
                return Err(EventParseError::DateParseFailure(m));
            },
        };
        Ok(EventModel {
            start_date: date_struct,
            end_date: date_struct,
            start_time: None,
            end_time: None,
            place: String::new(),
            title: String::new(),
        })
    }
}

} // verus!
