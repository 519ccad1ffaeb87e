use vstd::prelude::*;

use crate::text::{decimal, push_char, push_decimal, push_str, string_of};

verus! {

/// A duration of `secs` seconds in its largest whole unit: seconds under a
/// minute, minutes under an hour, hours under a day, else days (`45s`,
/// `2m`, `5h`, `3d`).
pub open spec fn short_duration(secs: nat) -> Seq<char> {
    if secs < 60 {
        decimal(secs).push('s')
    } else if secs < 3600 {
        decimal(secs / 60).push('m')
    } else if secs < 86400 {
        decimal(secs / 3600).push('h')
    } else {
        decimal(secs / 86400).push('d')
    }
}

/// Appends the short rendering of a duration of `secs` seconds.
pub fn push_short_duration(s: &mut String, secs: u64)
    ensures
        final(s)@ == old(s)@ + short_duration(secs as nat),
{
    if secs < 60 {
        push_decimal(s, secs);
        push_char(s, 's');
    } else if secs < 3600 {
        push_decimal(s, secs / 60);
        push_char(s, 'm');
    } else if secs < 86400 {
        push_decimal(s, secs / 3600);
        push_char(s, 'h');
    } else {
        push_decimal(s, secs / 86400);
        push_char(s, 'd');
    }
    assert(s@ =~= old(s)@ + short_duration(secs as nat));
}

/// A duration of `secs` seconds in its largest whole unit.
pub fn human_short(secs: u64) -> (r: String)
    ensures
        r@ == short_duration(secs as nat),
{
    let mut s = String::new();
    push_short_duration(&mut s, secs);
    assert(s@ =~= short_duration(secs as nat));
    s
}

/// How a status badge is coloured.
#[derive(Copy, Clone, Debug, PartialEq, Eq, Structural)]
pub enum Severity {
    Good,
    Warning,
    Bad,
    /// Nothing to judge yet.
    Unknown,
}

/// A status-bar badge: its text and colour.
#[derive(Debug)]
pub struct Badge {
    pub text: String,
    pub severity: Severity,
}

/// The battery badge for a level in percent: above 100 means external
/// power ("bat AC", good); below 20 is bad, below 40 a warning, else good.
pub open spec fn battery_badge_spec(level: u8) -> (Seq<char>, Severity) {
    if level > 100 {
        ("bat AC"@, Severity::Good)
    } else {
        (
            "bat "@ + decimal(level as nat) + "%"@,
            if level < 20 {
                Severity::Bad
            } else if level < 40 {
                Severity::Warning
            } else {
                Severity::Good
            },
        )
    }
}

/// The battery badge for a level in percent.
pub fn battery_badge(level: u8) -> (r: Badge)
    ensures
        (r.text@, r.severity) == battery_badge_spec(level),
{
    if level > 100 {
        return Badge { text: string_of("bat AC"), severity: Severity::Good };
    }
    let mut text = string_of("bat ");
    push_decimal(&mut text, level as u64);
    push_str(&mut text, "%");
    let severity = if level < 20 {
        Severity::Bad
    } else if level < 40 {
        Severity::Warning
    } else {
        Severity::Good
    };
    Badge { text, severity }
}

/// The link badge: how long since the radio was last heard from ("link"
/// and the short duration; good under 30 s, a warning under 2 min, else
/// bad), or "link: waiting" before anything was heard.
pub open spec fn link_badge_spec(last_activity_ms: Option<u64>, now_ms: u64) -> (Seq<char>, Severity) {
    match last_activity_ms {
        None => ("link: waiting"@, Severity::Unknown),
        Some(t) => {
            let secs: nat = if t <= now_ms {
                ((now_ms - t) / 1000) as nat
            } else {
                0
            };
            (
                "link "@ + short_duration(secs),
                if secs < 30 {
                    Severity::Good
                } else if secs < 120 {
                    Severity::Warning
                } else {
                    Severity::Bad
                },
            )
        },
    }
}

/// The link badge, at `now_ms`, for the last sign of life at
/// `last_activity_ms` (milliseconds of the same clock).
pub fn link_badge(last_activity_ms: Option<u64>, now_ms: u64) -> (r: Badge)
    ensures
        (r.text@, r.severity) == link_badge_spec(last_activity_ms, now_ms),
{
    match last_activity_ms {
        None => Badge { text: string_of("link: waiting"), severity: Severity::Unknown },
        Some(t) => {
            let secs: u64 = if t <= now_ms {
                (now_ms - t) / 1000
            } else {
                0
            };
            let mut text = string_of("link ");
            push_short_duration(&mut text, secs);
            let severity = if secs < 30 {
                Severity::Good
            } else if secs < 120 {
                Severity::Warning
            } else {
                Severity::Bad
            };
            Badge { text, severity }
        },
    }
}

/// The relay badge: how many packets the radio relayed for others.
pub fn relay_label(n: u32) -> (r: String)
    ensures
        r@ == "relay "@ + decimal(n as nat),
{
    let mut s = string_of("relay ");
    push_decimal(&mut s, n as u64);
    s
}

} // verus!
