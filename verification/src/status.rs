//! The status message: one advisory text that is shown for a few seconds.

use vstd::prelude::*;

verus! {

/// A point in time of the monotonic clock.
#[verifier::external_type_specification]
#[verifier::external_body]
pub struct ExInstant(std::time::Instant);

/// How long a message stays visible, in nanoseconds: five seconds.
pub const MESSAGE_LIFETIME_NANOS: u128 = 5_000_000_000;

/// `std::time::Instant::now`: the present moment. Nothing is claimed of it.
#[verifier::external_body]
fn now() -> (t: std::time::Instant) {
    std::time::Instant::now()
}

/// `std::time::Instant::elapsed`, in whole nanoseconds: the time that has
/// passed since `t`. Nothing is claimed of it.
#[verifier::external_body]
fn elapsed_nanos(t: &std::time::Instant) -> (nanos: u128) {
    t.elapsed().as_nanos()
}

/// A text and the moment at which it was set; both or neither.
pub struct StatusMessage {
    message: Option<String>,
    set_time: Option<std::time::Instant>,
}

impl StatusMessage {
    #[verifier::type_invariant]
    spec fn stamped(self) -> bool {
        self.message is Some <==> self.set_time is Some
    }

    /// The text that is stored, whether or not its time has run out.
    pub closed spec fn text(&self) -> Option<Seq<char>> {
        match self.message {
            Some(m) => Some(m@),
            None => None,
        }
    }

    /// The moment at which the stored text was set.
    pub closed spec fn stamp(&self) -> Option<std::time::Instant> {
        self.set_time
    }

    /// What a read after `elapsed_nanos` leaves stored: nothing if the
    /// message has been there for longer than its lifetime.
    pub open spec fn text_after(text: Option<Seq<char>>, elapsed_nanos: u128) -> Option<Seq<char>> {
        if elapsed_nanos > MESSAGE_LIFETIME_NANOS {
            None
        } else {
            text
        }
    }

    /// A message set at the moment `at`.
    pub fn new_at(initial_message: &str, at: std::time::Instant) -> (status: Self)
        ensures
            status.text() == Some(initial_message@),
            status.stamp() == Some(at),
    {
        Self { message: Some(initial_message.to_owned()), set_time: Some(at) }
    }

    /// A message set now: stamped with what the clock gives.
    pub fn new(initial_message: &str) -> (status: Self)
        ensures
            status.text() == Some(initial_message@),
            status.stamp() is Some,
    {
        Self::new_at(initial_message, now())
    }

    /// Stores `message` and stamps it with the moment `at`, whatever was
    /// stored before.
    pub fn set_message_at(&mut self, message: String, at: std::time::Instant)
        ensures
            final(self).text() == Some(message@),
            final(self).stamp() == Some(at),
    {
        *self = Self { message: Some(message), set_time: Some(at) };
    }

    /// Stores `message` and stamps it with the present moment, as the
    /// clock gives it.
    pub fn set_message(&mut self, message: String)
        ensures
            final(self).text() == Some(message@),
            final(self).stamp() is Some,
    {
        self.set_message_at(message, now());
    }

    /// Reads the message `elapsed_nanos` after it was set: a message older
    /// than its lifetime is dropped, with its time stamp, and the read sees
    /// nothing; otherwise the read sees the text and changes nothing.
    pub fn message_after(&mut self, elapsed_nanos: u128) -> (m: Option<&String>)
        ensures
            final(self).text() == Self::text_after(old(self).text(), elapsed_nanos),
            final(self).text() == old(self).text() ==> *final(self) == *old(self),
            final(self).stamp() == (if final(self).text() is Some {
                old(self).stamp()
            } else {
                None
            }),
            final(self).text() is Some ==> final(self).stamp() is Some,
            match m {
                Some(s) => final(self).text() == Some(s@),
                None => final(self).text() is None,
            },
    {
        proof {
            use_type_invariant(&*self);
        }
        if self.set_time.is_some() && elapsed_nanos > MESSAGE_LIFETIME_NANOS {
            *self = Self { message: None, set_time: None };
            None
        } else {
            self.message.as_ref()
        }
    }

    /// Reads the message. A message that was set more than five seconds ago
    /// is dropped, with its stamp, and the read sees nothing; otherwise the
    /// read sees the text and changes nothing. Which of the two happens to
    /// a stored message depends on the clock alone: on the time that it
    /// says has passed since the stamp.
    pub fn message(&mut self) -> (m: Option<&String>)
        ensures
            final(self).text() is None || *final(self) == *old(self),
            final(self).text() is None ==> final(self).stamp() is None,
            match m {
                Some(s) => final(self).text() == Some(s@),
                None => final(self).text() is None,
            },
    {
        let elapsed = match &self.set_time {
            Some(time) => elapsed_nanos(time),
            None => 0,
        };
        self.message_after(elapsed)
    }
}

} // verus!
