//! Notifications shown to the user for a limited time.
//!
//! Time is the caller's monotonic clock, read in nanoseconds.

use std::collections::HashMap;
use vstd::prelude::*;
use vstd::std_specs::hash::group_hash_axioms;

verus! {

broadcast use group_hash_axioms;

/// Nanoseconds an informational notification is shown for.
pub const INFO_DEFAULT_DURATION: u64 = 7_000_000_000;

/// Nanoseconds an error notification is shown for.
pub const ERROR_DEFAULT_DURATION: u64 = 10_000_000_000;

/// Nanoseconds a success notification is shown for.
pub const SUCCESS_DEFAULT_DURATION: u64 = 5_000_000_000;

/// The kinds of notification.
#[derive(Debug, Clone, Copy, PartialEq, Eq, Structural)]
pub enum NotificationKind {
    Info,
    Error,
    Success,
}

/// One notification.
#[derive(Debug)]
pub struct Notification {
    pub id: u64,
    pub message: String,
    pub kind: NotificationKind,
    /// When it was made.
    pub created_at: u64,
    /// How long it is shown for.
    pub duration: u64,
}

/// Nanoseconds a notification of `kind` is shown for.
pub open spec fn default_duration(kind: NotificationKind) -> u64 {
    match kind {
        NotificationKind::Info => INFO_DEFAULT_DURATION,
        NotificationKind::Error => ERROR_DEFAULT_DURATION,
        NotificationKind::Success => SUCCESS_DEFAULT_DURATION,
    }
}

/// Time passed from `earlier` to `now`; none if `earlier` is not earlier.
pub open spec fn elapsed(now: u64, earlier: u64) -> nat {
    if now >= earlier {
        (now - earlier) as nat
    } else {
        0
    }
}

impl Clone for Notification {
    fn clone(&self) -> (copy: Self)
        ensures
            copy == *self,
    {
        Notification {
            id: self.id,
            message: self.message.clone(),
            kind: self.kind,
            created_at: self.created_at,
            duration: self.duration,
        }
    }
}

impl Notification {
    /// The notification has been shown for longer than it is meant to be.
    pub open spec fn spec_expired(&self, now: u64) -> bool {
        elapsed(now, self.created_at) > self.duration
    }

    /// A notification of `kind` made at `now`, shown for as long as its kind
    /// is by default.
    pub fn new(id: u64, message: String, kind: NotificationKind, now: u64) -> (n: Notification)
        ensures
            n == (Notification {
                id,
                message,
                kind,
                created_at: now,
                duration: default_duration(kind),
            }),
    {
        Notification {
            id,
            message,
            kind,
            created_at: now,
            duration: match kind {
                NotificationKind::Info => INFO_DEFAULT_DURATION,
                NotificationKind::Error => ERROR_DEFAULT_DURATION,
                NotificationKind::Success => SUCCESS_DEFAULT_DURATION,
            },
        }
    }

    /// Whether, at `now`, the notification has been shown for longer than
    /// it is meant to be.
    pub fn expired(&self, now: u64) -> (b: bool)
        ensures
            b == self.spec_expired(now),
    {
        if now >= self.created_at {
            now - self.created_at > self.duration
        } else {
            false
        }
    }

    /// Whether, at `now`, the notification is still to be shown.
    pub fn on_show(&self, now: u64) -> (b: bool)
        ensures
            b == !self.spec_expired(now),
    {
        !self.expired(now)
    }
}

/// The notifications of `shown` that have not expired at `now`.
pub open spec fn unexpired(shown: Map<u64, Notification>, now: u64) -> Map<u64, Notification> {
    shown.restrict(Set::new(|id: u64| !shown[id].spec_expired(now)))
}

/// The identifier after `id`; after the largest comes zero.
pub open spec fn following(id: u64) -> u64 {
    if id == u64::MAX {
        0
    } else {
        (id + 1) as u64
    }
}

/// Taken on trust of `HashMap::retain` with [`Notification::on_show`] at
/// `now` as the test: the entries that pass stay, the others are removed.
#[verifier::external_body]
fn retain_unexpired(shown: &mut HashMap<u64, Notification>, now: u64)
    ensures
        final(shown)@ == unexpired(old(shown)@, now),
{
    shown.retain(|_id, n| n.on_show(now))
}

/// The notifications that are on show, by identifier.
pub struct NotificationProvider {
    notifications: HashMap<u64, Notification>,
    next_id: u64,
}

impl NotificationProvider {
    /// The notifications on show.
    pub closed spec fn shown(&self) -> Map<u64, Notification> {
        self.notifications@
    }

    /// The identifier the next notification gets.
    pub closed spec fn spec_next_id(&self) -> u64 {
        self.next_id
    }

    /// The provider after a notification of `kind` saying `message` was
    /// added at `now`.
    pub open spec fn added(
        &self,
        after: &NotificationProvider,
        message: String,
        kind: NotificationKind,
        now: u64,
    ) -> bool {
        &&& after.shown() == self.shown().insert(
            self.spec_next_id(),
            Notification {
                id: self.spec_next_id(),
                message,
                kind,
                created_at: now,
                duration: default_duration(kind),
            },
        )
        &&& after.spec_next_id() == following(self.spec_next_id())
    }

    /// Every notification on show is kept under its own identifier, and
    /// every identifier on show was handed out before the next one.
    pub open spec fn wf(&self) -> bool {
        forall|id: u64| #[trigger]
            self.shown().contains_key(id) ==> id < self.spec_next_id() && self.shown()[id].id
                == id
    }

    /// The provider after a notification of `kind` saying `message` was
    /// added at `now` under an identifier that was not on show: the count
    /// has grown by one and every notification that was on show is as it
    /// was.
    pub open spec fn added_anew(
        &self,
        after: &NotificationProvider,
        message: String,
        kind: NotificationKind,
        now: u64,
    ) -> bool {
        &&& self.added(after, message, kind, now)
        &&& after.wf()
        &&& !self.shown().contains_key(self.spec_next_id())
        &&& after.shown().len() == self.shown().len() + 1
        &&& forall|id: u64| #[trigger]
            self.shown().contains_key(id) ==> after.shown().contains_key(id) && after.shown()[id]
                == self.shown()[id]
    }

    /// A provider with nothing on show.
    pub fn new() -> (provider: NotificationProvider)
        ensures
            provider.wf(),
            provider.shown() == Map::<u64, Notification>::empty(),
            provider.spec_next_id() == 0,
    {
        NotificationProvider { notifications: HashMap::new(), next_id: 0 }
    }

    fn add(&mut self, message: String, kind: NotificationKind, now: u64)
        ensures
            old(self).added(final(self), message, kind, now),
            old(self).wf() && old(self).spec_next_id() < u64::MAX ==> old(self).added_anew(
                final(self),
                message,
                kind,
                now,
            ),
    {
        let id = self.next_id;
        self.next_id = if id == u64::MAX {
            0
        } else {
            id + 1
        };
        self.notifications.insert(id, Notification::new(id, message, kind, now));
    }

    /// Shows an error.
    pub fn error(&mut self, message: String, now: u64)
        ensures
            old(self).added(final(self), message, NotificationKind::Error, now),
            old(self).wf() && old(self).spec_next_id() < u64::MAX ==> old(self).added_anew(
                final(self),
                message,
                NotificationKind::Error,
                now,
            ),
    {
        self.add(message, NotificationKind::Error, now);
    }

    /// Shows a piece of information.
    pub fn info(&mut self, message: String, now: u64)
        ensures
            old(self).added(final(self), message, NotificationKind::Info, now),
            old(self).wf() && old(self).spec_next_id() < u64::MAX ==> old(self).added_anew(
                final(self),
                message,
                NotificationKind::Info,
                now,
            ),
    {
        self.add(message, NotificationKind::Info, now);
    }

    /// Shows a success.
    pub fn success(&mut self, message: String, now: u64)
        ensures
            old(self).added(final(self), message, NotificationKind::Success, now),
            old(self).wf() && old(self).spec_next_id() < u64::MAX ==> old(self).added_anew(
                final(self),
                message,
                NotificationKind::Success,
                now,
            ),
    {
        self.add(message, NotificationKind::Success, now);
    }

    /// Takes the notification `id` off show, if it is on.
    pub fn dismiss(&mut self, id: u64)
        ensures
            final(self).shown() == old(self).shown().remove(id),
            final(self).spec_next_id() == old(self).spec_next_id(),
            old(self).wf() ==> final(self).wf(),
    {
        self.notifications.remove(&id);
    }

    /// Takes every notification off show that has expired at `now`.
    pub fn dismiss_expired(&mut self, now: u64)
        ensures
            final(self).shown() == unexpired(old(self).shown(), now),
            final(self).spec_next_id() == old(self).spec_next_id(),
            old(self).wf() ==> final(self).wf(),
    {
        retain_unexpired(&mut self.notifications, now);
    }

    /// Number of notifications on show.
    pub fn len(&self) -> (n: usize)
        ensures
            n == self.shown().len(),
    {
        self.notifications.len()
    }

    /// The notification `id`, if it is on show.
    pub fn get(&self, id: u64) -> (n: Option<&Notification>)
        ensures
            n is Some <==> self.shown().contains_key(id),
            n is Some ==> *n->0 == self.shown()[id],
    {
        self.notifications.get(&id)
    }
}

} // verus!
