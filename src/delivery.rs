//! Notification delivery through a channel that rejects payloads over an
//! undisclosed size: a state machine that, on each size rejection, halves the
//! number of body-text characters it sends, and finally sends no text at all.
//!
//! The caller performs each send and hands the outcome back.

use vstd::prelude::*;
use vstd::string::*;
use crate::text::{views, take_chars};
use crate::domain::{Notification, message_of, compose_message};
use crate::errors::FeederError;

verus! {

/// The first `max_chars` characters of `s` (all of it when it is shorter);
/// a multi-byte character is never split.
pub fn truncate_to_char_boundary(s: &str, max_chars: usize) -> (r: String)
    ensures
        r@ == take_chars(s@, max_chars as nat),
{
    let n = s.unicode_len();
    let k = if max_chars < n { max_chars } else { n };
    String::from_str(s.substring_char(0, k))
}

/// What the channel answered to one send.
#[derive(Debug, Clone)]
pub enum SendOutcome {
    Sent,
    TooLarge,
    Failed(String),
}

/// How much body text an attempt carries.
#[derive(Debug, Clone, Copy, PartialEq, Eq, Structural)]
pub enum Attempt {
    /// The whole text.
    Full,
    /// Half of `high` characters, after a rejection at `high`.
    Halved { high: usize },
    /// No text.
    Bare,
}

/// The body-text length, in characters, that `attempt` sends of a text of `full` characters.
pub open spec fn attempt_len(attempt: Attempt, full: nat) -> nat {
    match attempt {
        Attempt::Full => full,
        Attempt::Halved { high } => (high / 2) as nat,
        Attempt::Bare => 0,
    }
}

/// The attempt that follows a size rejection of `attempt`; none after a bare one.
pub open spec fn after_rejection(attempt: Attempt, full: nat) -> Option<Attempt> {
    match attempt {
        Attempt::Full => if full > 0 {
            Some(Attempt::Halved { high: full as usize })
        } else {
            Some(Attempt::Bare)
        },
        Attempt::Halved { high } => if high / 2 > 0 {
            Some(Attempt::Halved { high: (high / 2) as usize })
        } else {
            Some(Attempt::Bare)
        },
        Attempt::Bare => None,
    }
}

/// What the caller does next.
#[derive(Debug, Clone)]
pub enum DeliveryStep {
    /// Send this message text and report the outcome.
    Send(String),
    /// The channel accepted a message: delivery is done.
    Delivered,
    /// Delivery failed for good.
    Failed(FeederError),
}

/// One notification on its way through the channel.
pub struct Delivery {
    pub notification: Notification,
    pub text_len: usize,
    pub attempt: Attempt,
    pub finished: bool,
}

impl Delivery {
    pub open spec fn wf(&self) -> bool {
        &&& self.text_len == self.notification.text@.len()
        &&& self.attempt matches Attempt::Halved { high } ==> high <= self.text_len
    }

    /// The message text of an attempt of this notification.
    pub open spec fn message_for(&self, attempt: Attempt) -> Seq<char> {
        message_of(
            self.notification.feed_title@,
            self.notification.article_title@,
            take_chars(self.notification.text@, attempt_len(attempt, self.text_len as nat)),
            views(self.notification.links@),
        )
    }

    /// Starts delivery: the first message carries the whole text.
    pub fn new(notification: Notification) -> (r: (Delivery, String))
        ensures
            r.0.wf(),
            r.0.notification == notification,
            r.0.attempt == Attempt::Full,
            !r.0.finished,
            r.1@ == notification.message(),
            r.1@ == r.0.message_for(Attempt::Full),
    {
        let text_len = notification.text.unicode_len();
        let message = notification.format();
        let d = Delivery { notification, text_len, attempt: Attempt::Full, finished: false };
        assert(take_chars(d.notification.text@, text_len as nat) =~= d.notification.text@);
        (d, message)
    }

    /// Takes the channel's answer to the last message and says what to do next.
    ///
    /// Accepted: delivered. A failure other than a size rejection: failed, with
    /// the channel's message. A size rejection: the next attempt of
    /// [`after_rejection`], or failure when the bare message was rejected.
    pub fn on_outcome(&mut self, outcome: SendOutcome) -> (step: DeliveryStep)
        requires
            old(self).wf(),
            !old(self).finished,
        ensures
            final(self).wf(),
            final(self).notification == old(self).notification,
            final(self).text_len == old(self).text_len,
            match outcome {
                SendOutcome::Sent => final(self).finished && step is Delivered,
                SendOutcome::Failed(e) => final(self).finished
                    && (step matches DeliveryStep::Failed(FeederError::Channel(m)) && m@ == e@),
                SendOutcome::TooLarge => match after_rejection(old(self).attempt, old(self).text_len as nat) {
                    Some(next) => !final(self).finished && final(self).attempt == next
                        && (step matches DeliveryStep::Send(m) && m@ == old(self).message_for(next)),
                    None => final(self).finished
                        && (step matches DeliveryStep::Failed(FeederError::Channel(m))
                        && m@ == "Payload too large"@),
                },
            },
    {
        match outcome {
            SendOutcome::Sent => {
                self.finished = true;
                DeliveryStep::Delivered
            },
            SendOutcome::Failed(e) => {
                self.finished = true;
                DeliveryStep::Failed(FeederError::Channel(e))
            },
            SendOutcome::TooLarge => {
                let next = match self.attempt {
                    Attempt::Full => if self.text_len > 0 {
                        Attempt::Halved { high: self.text_len }
                    } else {
                        Attempt::Bare
                    },
                    Attempt::Halved { high } => if high / 2 > 0 {
                        Attempt::Halved { high: high / 2 }
                    } else {
                        Attempt::Bare
                    },
                    Attempt::Bare => {
                        self.finished = true;
                        return DeliveryStep::Failed(FeederError::Channel(String::from_str("Payload too large")));
                    },
                };
                let keep = match next {
                    Attempt::Halved { high } => high / 2,
                    _ => 0,
                };
                self.attempt = next;
                let text = truncate_to_char_boundary(self.notification.text.as_str(), keep);
                let message = compose_message(
                    self.notification.feed_title.as_str(),
                    self.notification.article_title.as_str(),
                    text.as_str(),
                    &self.notification.links,
                );
                DeliveryStep::Send(message)
            },
        }
    }
}

/// `floor(log2(n))`, and 0 for 0.
pub open spec fn ilog2(n: nat) -> nat
    decreases n,
{
    if n <= 1 { 0 } else { 1 + ilog2(n / 2) }
}

pub open spec fn attempt_rank(attempt: Attempt, full: nat) -> nat {
    match attempt {
        Attempt::Full => full + 2,
        Attempt::Halved { high } => high as nat + 1,
        Attempt::Bare => 0,
    }
}

/// Against a channel that accepts exactly the messages whose body text has at
/// most `limit` characters: the text length that is finally delivered from
/// `attempt` on, and the number of sends it takes.
pub open spec fn settle(attempt: Attempt, full: nat, limit: nat) -> (nat, nat)
    decreases attempt_rank(attempt, full),
{
    if attempt_len(attempt, full) <= limit {
        (attempt_len(attempt, full), 1)
    } else {
        match after_rejection(attempt, full) {
            Some(next) => {
                let (l, t) = settle(next, full, limit);
                (l, t + 1)
            },
            None => (0, 1),
        }
    }
}

proof fn lemma_settle_halved(high: usize, full: nat, limit: nat)
    ensures
        settle(Attempt::Halved { high }, full, limit).0 <= limit,
        settle(Attempt::Halved { high }, full, limit).1 <= ilog2(high as nat) + 1,
    decreases high,
{
    let a = Attempt::Halved { high };
    if attempt_len(a, full) <= limit {
    } else {
        assert(high / 2 > 0);
        let h2 = (high / 2) as usize;
        lemma_settle_halved(h2, full, limit);
        assert(ilog2(high as nat) == 1 + ilog2((high / 2) as nat));
    }
}

/// Shrinking converges: against a channel that accepts a message exactly when
/// its body text has at most `limit` characters, delivery of a text of `full`
/// characters ends with a delivered text of at most `limit` characters, after
/// at most `log2(full) + 2` sends.
pub proof fn lemma_truncation_converges(full: usize, limit: nat)
    ensures
        settle(Attempt::Full, full as nat, limit).0 <= limit,
        settle(Attempt::Full, full as nat, limit).1 <= ilog2(full as nat) + 2,
{
    if full as nat <= limit {
    } else {
        lemma_settle_halved(full, full as nat, limit);
    }
}

} // verus!
