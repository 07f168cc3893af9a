//! The transient notification shown in the footer: one message at a time,
//! dropped once its time has passed. Times are milliseconds on a clock the
//! caller reads.
use vstd::prelude::*;

verus! {

#[derive(Clone, Debug, Default, PartialEq, Eq)]
pub struct ActiveNotification {
    pub message: String,
    pub expires_at_ms: u64,
}

#[derive(Clone, Debug, Default, PartialEq, Eq)]
pub struct NotificationSlot {
    pub active: Option<ActiveNotification>,
}

impl NotificationSlot {
    /// Shows `message` until `ttl_ms` after `now_ms` (the latest time the
    /// clock can hold, when that is later), replacing any earlier one.
    pub fn notify(&mut self, message: String, now_ms: u64, ttl_ms: u64)
        ensures
            final(self).active == Some(
                ActiveNotification {
                    message,
                    expires_at_ms: if now_ms + ttl_ms <= u64::MAX {
                        (now_ms + ttl_ms) as u64
                    } else {
                        u64::MAX
                    },
                },
            ),
    {
        self.active = Some(
            ActiveNotification { message, expires_at_ms: now_ms.saturating_add(ttl_ms) },
        );
    }

    /// The message shown at `now_ms`, if one has not expired; an expired one
    /// is dropped.
    pub fn current_notification(&mut self, now_ms: u64) -> (m: Option<String>)
        ensures
            m == shown_at(*old(self), now_ms),
            m is Some ==> *final(self) == *old(self),
            m is None ==> final(self).active is None,
    {
        match &self.active {
            Some(n) => {
                if n.expires_at_ms > now_ms {
                    Some(n.message.clone())
                } else {
                    self.active = None;
                    None
                }
            },
            None => None,
        }
    }
}

/// The message a slot shows at `now_ms`: the active one until it expires.
pub open spec fn shown_at(s: NotificationSlot, now_ms: u64) -> Option<String> {
    match s.active {
        Some(n) => if n.expires_at_ms > now_ms {
            Some(n.message)
        } else {
            None
        },
        None => None,
    }
}

/// Law: a notification shown at `now_ms` with a time to live of `ttl_ms` is
/// current exactly at the times before `now_ms + ttl_ms`.
pub proof fn lemma_notification_lifetime(
    s: NotificationSlot,
    message: String,
    now_ms: u64,
    ttl_ms: u64,
    later_ms: u64,
)
    requires
        now_ms + ttl_ms <= u64::MAX,
        s.active == Some(ActiveNotification { message, expires_at_ms: (now_ms + ttl_ms) as u64 }),
    ensures
        shown_at(s, later_ms) == if later_ms < now_ms + ttl_ms {
            Some(message)
        } else {
            None::<String>
        },
{
}

/// Law: once reading the notification at `now_ms` gave nothing, every later
/// read gives nothing until the next `notify`: `s1` is the slot that read
/// left, as its contract states it.
pub proof fn lemma_expired_notification_stays_gone(
    s0: NotificationSlot,
    now_ms: u64,
    s1: NotificationSlot,
    later_ms: u64,
)
    requires
        shown_at(s0, now_ms) is None,
        s1.active is None,
    ensures
        shown_at(s1, later_ms) is None,
{
}

} // verus!
