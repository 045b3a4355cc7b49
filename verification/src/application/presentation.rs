//! How long ago something happened, in the compact form shown to users.
use vstd::prelude::*;
use crate::domain::{max_utc_seconds, min_utc_seconds, Timestamp};
use vstd::arithmetic::div_mod::lemma_mod_multiples_vanish;
use crate::text::{decimal, push_decimal, push_str};

verus! {

/// The text for a non-negative number of elapsed seconds: "just now" under a
/// minute, whole minutes under an hour, hours and minutes under a day, and
/// days and hours beyond; a zero second unit is left out.
pub open spec fn relative_time_text(elapsed: int) -> Seq<char> {
    if elapsed < 60 {
        "just now"@
    } else if elapsed < 3600 {
        decimal((elapsed / 60int) as nat) + "m ago"@
    } else if elapsed < 86400 {
        let hours = elapsed / 3600int;
        let minutes = (elapsed % 3600int) / 60int;
        if minutes == 0 {
            decimal(hours as nat) + "h ago"@
        } else {
            decimal(hours as nat) + "h "@ + decimal(minutes as nat) + "m ago"@
        }
    } else {
        let days = elapsed / 86400int;
        let hours = (elapsed % 86400int) / 3600int;
        if hours == 0 {
            decimal(days as nat) + "d ago"@
        } else {
            decimal(days as nat) + "d "@ + decimal(hours as nat) + "h ago"@
        }
    }
}

/// The relative time counts whole units of the elapsed seconds: "just now"
/// under a minute; otherwise it starts with the whole number of elapsed
/// minutes followed by "m" under an hour, of elapsed hours followed by "h"
/// under a day, and of elapsed days followed by "d" from a day on; the hours
/// of a day, or the minutes of an hour, that remain follow unless they are
/// zero.
pub proof fn lemma_relative_time_counts_whole_units(elapsed: int)
    requires
        elapsed >= 0,
    ensures
        elapsed < 60 ==> relative_time_text(elapsed) == "just now"@,
        60 <= elapsed < 3600 ==> relative_time_text(elapsed) == decimal((elapsed / 60) as nat)
            + "m ago"@,
        3600 <= elapsed < 86400 ==> {
            let lead = decimal((elapsed / 3600) as nat) + "h"@;
            &&& relative_time_text(elapsed).len() >= lead.len()
            &&& relative_time_text(elapsed).subrange(0, lead.len() as int) == lead
        },
        elapsed >= 86400 ==> {
            let lead = decimal((elapsed / 86400) as nat) + "d"@;
            &&& relative_time_text(elapsed).len() >= lead.len()
            &&& relative_time_text(elapsed).subrange(0, lead.len() as int) == lead
        },
        3600 <= elapsed < 86400 ==> relative_time_text(elapsed) == if (elapsed % 3600) / 60 == 0 {
            decimal((elapsed / 3600) as nat) + "h ago"@
        } else {
            decimal((elapsed / 3600) as nat) + "h "@ + decimal(((elapsed % 3600) / 60) as nat)
                + "m ago"@
        },
        elapsed >= 86400 ==> relative_time_text(elapsed) == if (elapsed % 86400) / 3600 == 0 {
            decimal((elapsed / 86400) as nat) + "d ago"@
        } else {
            decimal((elapsed / 86400) as nat) + "d "@ + decimal(((elapsed % 86400) / 3600) as nat)
                + "h ago"@
        },
{
    reveal_strlit("h ago");
    reveal_strlit("h ");
    reveal_strlit("h");
    reveal_strlit("d ago");
    reveal_strlit("d ");
    reveal_strlit("d");
    let text = relative_time_text(elapsed);
    if 3600 <= elapsed < 86400 {
        let lead = decimal((elapsed / 3600) as nat) + "h"@;
        assert(text.subrange(0, lead.len() as int) =~= lead);
    } else if elapsed >= 86400 {
        let lead = decimal((elapsed / 86400) as nat) + "d"@;
        assert(text.subrange(0, lead.len() as int) =~= lead);
    }
}

/// Whether the instant of `first_seconds` and `first_nanos` comes before the
/// instant of `second_seconds` and `second_nanos`, as the time library orders
/// instants: by seconds, then by nanoseconds.
pub open spec fn instant_before(
    first_seconds: int,
    first_nanos: int,
    second_seconds: int,
    second_nanos: int,
) -> bool {
    first_seconds < second_seconds || (first_seconds == second_seconds && first_nanos
        < second_nanos)
}

/// The nanoseconds from the instant `earlier` to the instant `later` (each as
/// seconds since the Unix epoch and nanoseconds within the second), as
/// `DateTime::signed_duration_since` counts them: a leap second of one
/// instant is counted only when the other instant's time of day lies on the
/// far side of it.
pub open spec fn elapsed_nanos(
    earlier_seconds: int,
    earlier_nanos: int,
    later_seconds: int,
    later_nanos: int,
) -> int {
    let earlier_of_day = earlier_seconds % 86400;
    let later_of_day = later_seconds % 86400;
    let leap = if later_of_day > earlier_of_day && earlier_nanos >= 1_000_000_000 {
        1int
    } else if later_of_day < earlier_of_day && later_nanos >= 1_000_000_000 {
        -1int
    } else {
        0int
    };
    (later_seconds - earlier_seconds + leap) * 1_000_000_000 + (later_nanos - earlier_nanos)
}

/// The whole seconds in a span of nanoseconds, rounded toward zero
/// (`TimeDelta::num_seconds`).
pub open spec fn whole_seconds(nanos: int) -> int {
    if nanos >= 0 {
        nanos / 1_000_000_000
    } else {
        -((-nanos) / 1_000_000_000)
    }
}

/// How long before the instant `later` the instant `earlier` lies, as text
/// of the whole elapsed seconds; `None` when `later` comes before `earlier`.
pub open spec fn relative_time_between(
    earlier_seconds: int,
    earlier_nanos: int,
    later_seconds: int,
    later_nanos: int,
) -> Option<Seq<char>> {
    if instant_before(later_seconds, later_nanos, earlier_seconds, earlier_nanos) {
        None
    } else {
        Some(
            relative_time_text(
                whole_seconds(
                    elapsed_nanos(earlier_seconds, earlier_nanos, later_seconds, later_nanos),
                ),
            ),
        )
    }
}

/// The second of the day (0 to 86399) of a representable number of seconds
/// since the Unix epoch.
fn second_of_day(seconds: i64) -> (r: i64)
    requires
        min_utc_seconds() <= seconds <= max_utc_seconds(),
    ensures
        r == seconds % 86400,
{
    let shifted: i64 = seconds + 8_334_601_228_800;
    proof {
        lemma_mod_multiples_vanish(96_465_292, seconds as int, 86400);
    }
    shifted % 86400
}

/// How long before `reference_time` the `timestamp` lies, as text such as
/// "13h 45m ago"; `None` when the timestamp is later than the reference time.
pub fn format_relative_time(timestamp: Timestamp, reference_time: Timestamp) -> (r: Option<
    String,
>)
    ensures
        r is None <==> instant_before(
            reference_time.spec_seconds() as int,
            reference_time.spec_nanos() as int,
            timestamp.spec_seconds() as int,
            timestamp.spec_nanos() as int,
        ),
        r matches Some(text) ==> relative_time_between(
            timestamp.spec_seconds() as int,
            timestamp.spec_nanos() as int,
            reference_time.spec_seconds() as int,
            reference_time.spec_nanos() as int,
        ) == Some(text@),
{
    let reference_seconds = reference_time.seconds();
    let reference_nanos = reference_time.nanos();
    let timestamp_seconds = timestamp.seconds();
    let timestamp_nanos = timestamp.nanos();
    if reference_seconds < timestamp_seconds || (reference_seconds == timestamp_seconds
        && reference_nanos < timestamp_nanos) {
        return None;
    }
    let reference_of_day = second_of_day(reference_seconds);
    let timestamp_of_day = second_of_day(timestamp_seconds);
    let leap: i128 = if reference_of_day > timestamp_of_day && timestamp_nanos >= 1_000_000_000 {
        1
    } else if reference_of_day < timestamp_of_day && reference_nanos >= 1_000_000_000 {
        -1
    } else {
        0
    };
    let elapsed: i128 = (reference_seconds as i128 - timestamp_seconds as i128 + leap)
        * 1_000_000_000i128 + (reference_nanos as i128 - timestamp_nanos as i128);
    assert(elapsed == elapsed_nanos(
        timestamp_seconds as int,
        timestamp_nanos as int,
        reference_seconds as int,
        reference_nanos as int,
    ));
    assert(elapsed > -1_000_000_000);
    let elapsed_seconds: i128 = if elapsed < 0 {
        0
    } else {
        elapsed / 1_000_000_000i128
    };
    assert(elapsed_seconds == whole_seconds(elapsed as int));
    assert(elapsed_seconds < 0x1_0000_0000_0000_0000);
    let mut text = String::new();
    if elapsed_seconds < 60 {
        push_str(&mut text, "just now");
    } else if elapsed_seconds < 60 * 60 {
        push_decimal(&mut text, (elapsed_seconds / 60) as u64);
        push_str(&mut text, "m ago");
    } else if elapsed_seconds < 24 * 60 * 60 {
        let hours = (elapsed_seconds / (60 * 60)) as u64;
        let minutes = ((elapsed_seconds % (60 * 60)) / 60) as u64;
        push_decimal(&mut text, hours);
        if minutes == 0 {
            push_str(&mut text, "h ago");
        } else {
            push_str(&mut text, "h ");
            push_decimal(&mut text, minutes);
            push_str(&mut text, "m ago");
        }
    } else {
        let days = (elapsed_seconds / (24 * 60 * 60)) as u64;
        let hours = ((elapsed_seconds % (24 * 60 * 60)) / (60 * 60)) as u64;
        push_decimal(&mut text, days);
        if hours == 0 {
            push_str(&mut text, "d ago");
        } else {
            push_str(&mut text, "d ");
            push_decimal(&mut text, hours);
            push_str(&mut text, "h ago");
        }
    }
    assert(text@ =~= relative_time_text(elapsed_seconds as int));
    Some(text)
}

} // verus!
