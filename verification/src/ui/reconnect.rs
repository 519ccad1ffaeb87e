use vstd::prelude::*;

use crate::domain::profile::{profile_key, profile_name, ConnectionProfile};
use crate::session::commands::Command;
use crate::text::{decimal, push_decimal, push_str, string_of};

verus! {

/// Seconds to wait before reconnect attempt `attempt` (1-based): 3, 10, 30,
/// then 60 for every later attempt.
pub open spec fn backoff_secs_spec(attempt: u32) -> u64 {
    if attempt <= 1 {
        3
    } else if attempt == 2 {
        10
    } else if attempt == 3 {
        30
    } else {
        60
    }
}

/// Seconds to wait before reconnect attempt `attempt`.
pub fn backoff_secs(attempt: u32) -> (r: u64)
    ensures
        r == backoff_secs_spec(attempt),
{
    if attempt <= 1 {
        3
    } else if attempt == 2 {
        10
    } else if attempt == 3 {
        30
    } else {
        60
    }
}

/// Automatic reconnection after a lost link. Times are readings of a
/// monotonic clock in milliseconds.
#[derive(Debug)]
pub struct ReconnectUi {
    /// The profile to reconnect to: set by every connection the user starts,
    /// cleared when the user stops the loop.
    pub profile: Option<ConnectionProfile>,
    /// Key of the profile to save as the last one used.
    pub last_active: Option<String>,
    /// 0 while connected or idle; n while the n-th retry is pending.
    pub attempt: u32,
    /// When the next attempt is due.
    pub next_at_ms: Option<u64>,
    /// The last link ended because the user asked for it.
    pub intentional_disconnect: bool,
}

impl Default for ReconnectUi {
    fn default() -> (r: Self)
        ensures
            r.profile is None,
            r.last_active is None,
            r.attempt == 0,
            r.next_at_ms is None,
            !r.intentional_disconnect,
    {
        ReconnectUi {
            profile: None,
            last_active: None,
            attempt: 0,
            next_at_ms: None,
            intentional_disconnect: false,
        }
    }
}

impl ReconnectUi {
    /// Arms a first attempt, due at once, for the profile used last time.
    pub fn arm_from_startup(&mut self, profile: ConnectionProfile, now_ms: u64)
        ensures
            final(self).profile == Some(profile),
            final(self).last_active matches Some(k) && k@ == profile_key(profile),
            final(self).attempt == 0,
            final(self).next_at_ms == Some(now_ms),
            !final(self).intentional_disconnect,
    {
        self.last_active = Some(profile.key());
        self.profile = Some(profile);
        self.attempt = 0;
        self.next_at_ms = Some(now_ms);
        self.intentional_disconnect = false;
    }

    /// The user started a connection with `profile`.
    pub fn mark_user_connect(&mut self, profile: &ConnectionProfile)
        ensures
            final(self).profile == Some(*profile),
            final(self).last_active matches Some(k) && k@ == profile_key(*profile),
            final(self).attempt == 0,
            final(self).next_at_ms is None,
            !final(self).intentional_disconnect,
    {
        self.profile = Some(profile.clone());
        self.last_active = Some(profile.key());
        self.attempt = 0;
        self.next_at_ms = None;
        self.intentional_disconnect = false;
    }

    /// The user disconnected (or cancelled a connection in progress): the
    /// profile to return to is forgotten and no retry stays pending.
    pub fn mark_user_disconnect(&mut self)
        ensures
            *final(self) == (ReconnectUi {
                profile: None,
                intentional_disconnect: true,
                next_at_ms: None,
                attempt: 0,
                ..*old(self)
            }),
    {
        self.profile = None;
        self.intentional_disconnect = true;
        self.next_at_ms = None;
        self.attempt = 0;
    }

    /// The link came up: the retry count starts over.
    pub fn on_connected(&mut self)
        ensures
            *final(self) == (ReconnectUi {
                attempt: 0,
                next_at_ms: None,
                intentional_disconnect: false,
                ..*old(self)
            }),
    {
        self.attempt = 0;
        self.next_at_ms = None;
        self.intentional_disconnect = false;
    }

    /// The link went down at `now_ms`: see `disconnected_step`.
    pub fn on_disconnected(&mut self, now_ms: u64)
        ensures
            *final(self) == disconnected_step(*old(self), now_ms),
    {
        if self.intentional_disconnect {
            self.intentional_disconnect = false;
            return;
        }
        if self.profile.is_none() {
            return;
        }
        self.attempt = self.attempt.saturating_add(1);
        let wait = backoff_secs(self.attempt) * 1000;
        self.next_at_ms = now_ms.checked_add(wait);
    }

    /// The user stopped the reconnect loop.
    pub fn cancel(&mut self)
        ensures
            *final(self) == (ReconnectUi {
                profile: None,
                next_at_ms: None,
                attempt: 0,
                intentional_disconnect: true,
                ..*old(self)
            }),
    {
        self.profile = None;
        self.next_at_ms = None;
        self.attempt = 0;
        self.intentional_disconnect = true;
    }

    /// At `now_ms`, takes a scheduled attempt that has come due and gives the
    /// profile to connect to: see `pop_due_step`.
    pub fn pop_due(&mut self, now_ms: u64) -> (r: Option<ConnectionProfile>)
        ensures
            (*final(self), r) == pop_due_step(*old(self), now_ms),
    {
        let due = match self.next_at_ms {
            Some(d) => d,
            None => {
                return None;
            },
        };
        if now_ms < due {
            return None;
        }
        self.next_at_ms = None;
        match &self.profile {
            Some(p) => Some(p.clone()),
            None => None,
        }
    }
}

/// What the link going down at `now_ms` does to `s`. After a disconnect the
/// user asked for, nothing is scheduled (and the flag is consumed); without
/// a profile nothing happens; otherwise the attempt count goes up (saturating)
/// and the next attempt is scheduled after the back-off for its number (no
/// time when the clock would overflow).
pub open spec fn disconnected_step(s: ReconnectUi, now_ms: u64) -> ReconnectUi {
    if s.intentional_disconnect {
        ReconnectUi { intentional_disconnect: false, ..s }
    } else if s.profile is None {
        s
    } else {
        let a = if s.attempt == u32::MAX {
            u32::MAX
        } else {
            (s.attempt + 1) as u32
        };
        let wait = backoff_secs_spec(a) * 1000;
        ReconnectUi {
            attempt: a,
            next_at_ms: if now_ms + wait <= u64::MAX {
                Some((now_ms + wait) as u64)
            } else {
                None
            },
            ..s
        }
    }
}

/// What asking for a due attempt at `now_ms` does to `s`, and the profile it
/// gives: nothing before the scheduled time; at or after it, the schedule is
/// cleared and the profile handed out.
pub open spec fn pop_due_step(s: ReconnectUi, now_ms: u64) -> (ReconnectUi, Option<ConnectionProfile>) {
    match s.next_at_ms {
        Some(due) => if now_ms < due {
            (s, None)
        } else {
            (ReconnectUi { next_at_ms: None, ..s }, s.profile)
        },
        None => (s, None),
    }
}

/// An attempt is handed out at most once: once a due attempt has been taken,
/// nothing is due any more, whatever the time.
pub proof fn lemma_pop_due_once(s: ReconnectUi, now_ms: u64, later_ms: u64)
    requires
        s.next_at_ms matches Some(due) && due <= now_ms,
    ensures
        pop_due_step(s, now_ms).1 == s.profile,
        pop_due_step(pop_due_step(s, now_ms).0, later_ms).1 is None,
{
}

/// A disconnect the user asked for is never retried automatically: when the
/// link then goes down, no attempt is scheduled.
pub proof fn lemma_user_disconnect_not_retried(s: ReconnectUi, now_ms: u64)
    ensures
        disconnected_step(
            ReconnectUi { profile: None, intentional_disconnect: true, next_at_ms: None, attempt: 0, ..s },
            now_ms,
        ).next_at_ms is None,
{
}

/// A lost link with a profile to return to always gets a new attempt
/// scheduled (unless the clock would overflow), after at least 3 and at
/// most 60 seconds.
pub proof fn lemma_lost_link_retried(s: ReconnectUi, now_ms: u64)
    requires
        !s.intentional_disconnect,
        s.profile is Some,
        now_ms + 60_000 <= u64::MAX,
    ensures
        disconnected_step(s, now_ms).next_at_ms matches Some(t) && now_ms + 3000 <= t <= now_ms
            + 60_000,
{
}

/// The retry schedule only lengthens: a later attempt never waits less.
pub proof fn lemma_backoff_monotone(a: u32, b: u32)
    requires
        a <= b,
    ensures
        backoff_secs_spec(a) <= backoff_secs_spec(b),
        backoff_secs_spec(b) <= 60,
{
}

/// While the link is down (`disconnected`), takes an attempt that has come
/// due at `now_ms` and gives the command that starts it.
pub fn tick(state: &mut ReconnectUi, disconnected: bool, now_ms: u64) -> (r: Option<Command>)
    ensures
        !disconnected ==> r is None && *final(state) == *old(state),
        disconnected ==> *final(state) == pop_due_step(*old(state), now_ms).0 && match pop_due_step(
            *old(state),
            now_ms,
        ).1 {
            Some(p) => r == Some(Command::Connect(p)),
            None => r is None,
        },
{
    if !disconnected {
        return None;
    }
    match state.pop_due(now_ms) {
        Some(p) => Some(Command::Connect(p)),
        None => None,
    }
}

/// The text of the reconnect banner, if one shows: only with a profile to
/// return to, while the link is down or coming up, and not before the first
/// automatic attempt. While connecting it names the attempt (at least 1);
/// while waiting, the seconds left (rounded down) and the next attempt's
/// number.
pub open spec fn banner_text_spec(
    s: ReconnectUi,
    disconnected: bool,
    connecting: bool,
    now_ms: u64,
) -> Option<Seq<char>> {
    match s.profile {
        None => None,
        Some(p) => if !disconnected && !connecting {
            None
        } else if s.attempt == 0 && !connecting {
            None
        } else if connecting {
            Some(
                "Reconnecting to "@ + profile_name(p) + " \u{2014} attempt "@ + decimal(
                    (if s.attempt == 0 {
                        1
                    } else {
                        s.attempt
                    }) as nat,
                ) + "\u{2026}"@,
            )
        } else {
            match s.next_at_ms {
                Some(next) => Some(
                    "Link lost. Retrying "@ + profile_name(p) + " in "@ + decimal(
                        (if next > now_ms {
                            (next - now_ms) / 1000
                        } else {
                            0
                        }) as nat,
                    ) + "s (attempt "@ + decimal(
                        (if s.attempt == u32::MAX {
                            u32::MAX as nat
                        } else {
                            (s.attempt + 1) as nat
                        }),
                    ) + ")."@,
                ),
                None => None,
            }
        },
    }
}

/// The text of the reconnect banner, if one shows.
pub fn banner_text(s: &ReconnectUi, disconnected: bool, connecting: bool, now_ms: u64) -> (r: Option<String>)
    ensures
        match (r, banner_text_spec(*s, disconnected, connecting, now_ms)) {
            (Some(t), Some(x)) => t@ == x,
            (None, None) => true,
            _ => false,
        },
{
    let p = match &s.profile {
        Some(p) => p,
        None => {
            return None;
        },
    };
    if !disconnected && !connecting {
        return None;
    }
    if s.attempt == 0 && !connecting {
        return None;
    }
    if connecting {
        let mut t = string_of("Reconnecting to ");
        push_str(&mut t, p.name());
        push_str(&mut t, " \u{2014} attempt ");
        let shown: u32 = if s.attempt == 0 { 1 } else { s.attempt };
        push_decimal(&mut t, shown as u64);
        push_str(&mut t, "\u{2026}");
        return Some(t);
    }
    match s.next_at_ms {
        Some(next) => {
            let remain: u64 = if next > now_ms { (next - now_ms) / 1000 } else { 0 };
            let mut t = string_of("Link lost. Retrying ");
            push_str(&mut t, p.name());
            push_str(&mut t, " in ");
            push_decimal(&mut t, remain);
            push_str(&mut t, "s (attempt ");
            push_decimal(&mut t, s.attempt.saturating_add(1) as u64);
            push_str(&mut t, ").");
            Some(t)
        },
        None => None,
    }
}

} // verus!
