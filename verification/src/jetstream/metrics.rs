//! Counters of the messages the subscriber processed.
use vstd::prelude::*;

verus! {

/// Counters of processed messages, queued records and errors. Each counter
/// wraps around at `u64::MAX`, as an atomic counter does.
pub struct Metrics {
    pub messages_processed: u64,
    pub posts_created: u64,
    pub posts_deleted: u64,
    pub reposts_created: u64,
    pub reposts_deleted: u64,
    pub likes_created: u64,
    pub likes_deleted: u64,
    pub follows_created: u64,
    pub follows_deleted: u64,
    pub errors: u64,
}

/// The counters at one moment, with the subscriber's uptime in seconds.
#[derive(Clone, Copy, Debug, PartialEq, Eq, Structural)]
pub struct MetricsSnapshot {
    pub messages_processed: u64,
    pub posts_created: u64,
    pub posts_deleted: u64,
    pub reposts_created: u64,
    pub reposts_deleted: u64,
    pub likes_created: u64,
    pub likes_deleted: u64,
    pub follows_created: u64,
    pub follows_deleted: u64,
    pub errors: u64,
    pub uptime_seconds: u64,
}

/// One more, wrapping around at `u64::MAX`.
pub open spec fn spec_bump(n: u64) -> u64 {
    if n == u64::MAX { 0 } else { (n + 1) as u64 }
}

/// One more, wrapping around at `u64::MAX`.
fn bump(n: u64) -> (r: u64)
    ensures
        r == spec_bump(n),
{
    if n == u64::MAX { 0 } else { n + 1 }
}

/// The counter that a queued record increments.
#[derive(Clone, Copy, Debug, PartialEq, Eq, Structural)]
pub enum Counter {
    PostsCreated,
    PostsDeleted,
    RepostsCreated,
    RepostsDeleted,
    LikesCreated,
    LikesDeleted,
    FollowsCreated,
    FollowsDeleted,
}

impl Metrics {
    /// All counters at zero.
    pub fn new() -> (m: Metrics)
        ensures
            m.messages_processed == 0 && m.errors == 0,
            m.posts_created == 0 && m.posts_deleted == 0,
            m.reposts_created == 0 && m.reposts_deleted == 0,
            m.likes_created == 0 && m.likes_deleted == 0,
            m.follows_created == 0 && m.follows_deleted == 0,
    {
        Metrics {
            messages_processed: 0,
            posts_created: 0,
            posts_deleted: 0,
            reposts_created: 0,
            reposts_deleted: 0,
            likes_created: 0,
            likes_deleted: 0,
            follows_created: 0,
            follows_deleted: 0,
            errors: 0,
        }
    }

    /// The counters as they stand, with the given uptime.
    pub fn snapshot(&self, uptime_seconds: u64) -> (s: MetricsSnapshot)
        ensures
            s.messages_processed == self.messages_processed,
            s.posts_created == self.posts_created,
            s.posts_deleted == self.posts_deleted,
            s.reposts_created == self.reposts_created,
            s.reposts_deleted == self.reposts_deleted,
            s.likes_created == self.likes_created,
            s.likes_deleted == self.likes_deleted,
            s.follows_created == self.follows_created,
            s.follows_deleted == self.follows_deleted,
            s.errors == self.errors,
            s.uptime_seconds == uptime_seconds,
    {
        MetricsSnapshot {
            messages_processed: self.messages_processed,
            posts_created: self.posts_created,
            posts_deleted: self.posts_deleted,
            reposts_created: self.reposts_created,
            reposts_deleted: self.reposts_deleted,
            likes_created: self.likes_created,
            likes_deleted: self.likes_deleted,
            follows_created: self.follows_created,
            follows_deleted: self.follows_deleted,
            errors: self.errors,
            uptime_seconds,
        }
    }

    /// The counters after one more of `c`.
    pub open spec fn spec_counted(self, c: Counter) -> Metrics {
        match c {
            Counter::PostsCreated => Metrics { posts_created: spec_bump(self.posts_created), ..self },
            Counter::PostsDeleted => Metrics { posts_deleted: spec_bump(self.posts_deleted), ..self },
            Counter::RepostsCreated => Metrics { reposts_created: spec_bump(self.reposts_created), ..self },
            Counter::RepostsDeleted => Metrics { reposts_deleted: spec_bump(self.reposts_deleted), ..self },
            Counter::LikesCreated => Metrics { likes_created: spec_bump(self.likes_created), ..self },
            Counter::LikesDeleted => Metrics { likes_deleted: spec_bump(self.likes_deleted), ..self },
            Counter::FollowsCreated => Metrics { follows_created: spec_bump(self.follows_created), ..self },
            Counter::FollowsDeleted => Metrics { follows_deleted: spec_bump(self.follows_deleted), ..self },
        }
    }

    /// Counts one more of `c`.
    pub fn count(&mut self, c: Counter)
        ensures
            *final(self) == old(self).spec_counted(c),
    {
        match c {
            Counter::PostsCreated => self.posts_created = bump(self.posts_created),
            Counter::PostsDeleted => self.posts_deleted = bump(self.posts_deleted),
            Counter::RepostsCreated => self.reposts_created = bump(self.reposts_created),
            Counter::RepostsDeleted => self.reposts_deleted = bump(self.reposts_deleted),
            Counter::LikesCreated => self.likes_created = bump(self.likes_created),
            Counter::LikesDeleted => self.likes_deleted = bump(self.likes_deleted),
            Counter::FollowsCreated => self.follows_created = bump(self.follows_created),
            Counter::FollowsDeleted => self.follows_deleted = bump(self.follows_deleted),
        }
    }

    /// Counts a message received.
    pub fn count_message(&mut self)
        ensures
            *final(self) == (Metrics { messages_processed: spec_bump(old(self).messages_processed), ..*old(self) }),
    {
        self.messages_processed = bump(self.messages_processed);
    }

    /// Counts a message that could not be read.
    pub fn count_error(&mut self)
        ensures
            *final(self) == (Metrics { errors: spec_bump(old(self).errors), ..*old(self) }),
    {
        self.errors = bump(self.errors);
    }
}

} // verus!
