use vstd::prelude::*;
use vstd::string::StringExecFns;
use crate::TimeUnit;
use crate::digits::dec_digits;
use crate::digits::u64_to_decimal;

verus! {

/// The unit a magnitude of seconds is phrased in. Each coarser unit count is
/// derived from the previous one by truncating division, and each threshold is
/// checked against that derived count, not against the raw seconds.
pub open spec fn bucket_of(secs: int) -> TimeUnit {
    let mins: int = secs / 60;
    let hours: int = mins / 60;
    let days: int = hours / 24;
    let months: int = days / 30;
    if secs <= 89 {
        if secs <= 44 {
            TimeUnit::Seconds
        } else {
            TimeUnit::Minutes
        }
    } else if mins <= 89 {
        if mins <= 44 {
            TimeUnit::Minutes
        } else {
            TimeUnit::Hours
        }
    } else if hours <= 35 {
        if hours <= 21 {
            TimeUnit::Hours
        } else {
            TimeUnit::Days
        }
    } else if days <= 45 {
        if days <= 25 {
            TimeUnit::Days
        } else {
            TimeUnit::Months
        }
    } else if months <= 17 {
        if months <= 10 {
            TimeUnit::Months
        } else {
            TimeUnit::Years
        }
    } else {
        TimeUnit::Years
    }
}

/// The phrase for a magnitude of `secs` seconds: a word description at the low
/// end of each unit's range ("a minute", "an hour", ...), a counted one above
/// it. Years are rounded to the nearest whole count, ties away from zero.
pub open spec fn relative_phrase(secs: int) -> Seq<char> {
    let mins: int = secs / 60;
    let hours: int = mins / 60;
    let days: int = hours / 24;
    let months: int = days / 30;
    let years: int = (months + 6) / 12;
    match bucket_of(secs) {
        TimeUnit::Seconds => "a few seconds"@,
        TimeUnit::Minutes => if secs <= 89 {
            "a minute"@
        } else {
            dec_digits(mins as nat) + " minutes"@
        },
        TimeUnit::Hours => if mins <= 89 {
            "an hour"@
        } else {
            dec_digits(hours as nat) + " hours"@
        },
        TimeUnit::Days => if hours <= 35 {
            "a day"@
        } else {
            dec_digits(days as nat) + " days"@
        },
        TimeUnit::Months => if days <= 45 {
            "a month"@
        } else {
            dec_digits(months as nat) + " months"@
        },
        TimeUnit::Years => if months <= 17 {
            "a year"@
        } else {
            dec_digits(years as nat) + " years"@
        },
    }
}

/// The phrase for a non-negative magnitude of seconds.
pub fn magnitude_phrase(secs: u64) -> (r: String)
    ensures
        r@ == relative_phrase(secs as int),
{
    if secs <= 44 {
        return String::from_str("a few seconds");
    }
    if secs <= 89 {
        return String::from_str("a minute");
    }
    let mins: u64 = secs / 60;
    if mins <= 44 {
        let mut s = u64_to_decimal(mins);
        s.append(" minutes");
        return s;
    }
    if mins <= 89 {
        return String::from_str("an hour");
    }
    let hours: u64 = mins / 60;
    if hours <= 21 {
        let mut s = u64_to_decimal(hours);
        s.append(" hours");
        return s;
    }
    if hours <= 35 {
        return String::from_str("a day");
    }
    let days: u64 = hours / 24;
    if days <= 25 {
        let mut s = u64_to_decimal(days);
        s.append(" days");
        return s;
    }
    if days <= 45 {
        return String::from_str("a month");
    }
    let months: u64 = days / 30;
    if months <= 10 {
        let mut s = u64_to_decimal(months);
        s.append(" months");
        return s;
    }
    if months <= 17 {
        return String::from_str("a year");
    }
    proof {
        assert(30 * (months as int) <= days as int);
        assert(24 * (days as int) <= hours as int);
        assert(60 * (hours as int) <= mins as int);
        assert(60 * (mins as int) <= secs as int);
        assert(months as int <= u64::MAX - 6);
    }
    let years: u64 = (months + 6) / 12;
    let mut s = u64_to_decimal(years);
    s.append(" years");
    s
}

/// The phrase for a magnitude of `secs` seconds. Callers are expected to hand
/// over a non-negative magnitude and apply direction themselves; a negative
/// input simply lands in the finest bucket. Thresholds are taken from day.js.
pub fn english_relative_time(secs: i64) -> (r: String)
    ensures
        r@ == relative_phrase(secs as int),
{
    if secs <= 44 {
        return String::from_str("a few seconds");
    }
    magnitude_phrase(secs as u64)
}

/// A phrase wrapped for a point in the future: "in {phrase}".
pub open spec fn in_phrase(secs: int) -> Seq<char> {
    "in "@ + relative_phrase(secs)
}

/// A phrase wrapped for a point in the past: "{phrase} ago".
pub open spec fn ago_phrase(secs: int) -> Seq<char> {
    relative_phrase(secs) + " ago"@
}

/// A signed offset phrased by its sign: strictly negative offsets read
/// "{phrase} ago", all others (zero included) read "in {phrase}".
pub open spec fn signed_phrase(secs: int) -> Seq<char> {
    if secs < 0 {
        ago_phrase(-secs)
    } else {
        in_phrase(secs)
    }
}

/// The future-style rendering of a non-negative magnitude.
pub fn future_phrase(secs: u64) -> (r: String)
    ensures
        r@ == in_phrase(secs as int),
{
    let p = magnitude_phrase(secs);
    String::from_str("in ").concat(p.as_str())
}

/// The past-style rendering of a non-negative magnitude.
pub fn past_phrase(secs: u64) -> (r: String)
    ensures
        r@ == ago_phrase(secs as int),
{
    let p = magnitude_phrase(secs);
    p.concat(" ago")
}

/// The rendering of a signed offset: magnitude phrased, direction by sign.
pub fn signed_relative_time(secs: i64) -> (r: String)
    ensures
        r@ == signed_phrase(secs as int),
{
    if secs < 0 {
        let mag: u64 = ((-(secs + 1)) as u64) + 1;
        proof {
            assert(mag as int == -(secs as int));
        }
        past_phrase(mag)
    } else {
        future_phrase(secs as u64)
    }
}

} // verus!
