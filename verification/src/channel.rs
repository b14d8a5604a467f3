//! Command channel: submitted command lines queued for the shell, behind a
//! readiness gate.
//!
//! Until the shell has printed its first prompt the producer slot is empty
//! and an enqueue is a silent no-op; once ready, every enqueued line is
//! retained in order and consumed exactly once.

use vstd::prelude::*;

verus! {

/// The one-time readiness gate: command injection is permitted only once the
/// shell has shown itself interactive.
#[derive(PartialEq, Eq, Structural, Clone, Copy, Debug)]
pub enum Readiness {
    NotReady,
    Ready,
}

/// The channel carrying command lines into the shell.
pub struct CommandChannel {
    gate: Readiness,
    queue: Vec<String>,
}

impl View for CommandChannel {
    type V = Seq<Seq<char>>;

    closed spec fn view(&self) -> Seq<Seq<char>> {
        Seq::new(self.queue@.len(), |i: int| self.queue@[i]@)
    }
}

impl CommandChannel {
    /// Is the producer slot installed?
    pub closed spec fn is_ready(&self) -> bool {
        self.gate is Ready
    }

    /// A fresh channel: not ready, nothing queued.
    pub fn new() -> (c: CommandChannel)
        ensures
            !c.is_ready(),
            c@ =~= Seq::<Seq<char>>::empty(),
    {
        CommandChannel { gate: Readiness::NotReady, queue: Vec::new() }
    }

    /// Install the producer slot. Idempotent: a second installation changes
    /// nothing.
    pub fn mark_ready(&mut self)
        ensures
            final(self).is_ready(),
            final(self)@ =~= old(self)@,
    {
        self.gate = Readiness::Ready;
    }

    /// Whether the shell is ready for input.
    pub fn ready(&self) -> (b: bool)
        ensures
            b == self.is_ready(),
    {
        self.gate == Readiness::Ready
    }

    /// How many lines wait to be consumed.
    pub fn pending(&self) -> (n: usize)
        ensures
            n == self@.len(),
    {
        self.queue.len()
    }

    /// Best-effort enqueue: before readiness the line is silently dropped;
    /// after readiness it is queued behind everything already waiting.
    pub fn enqueue(&mut self, line: String) -> (accepted: bool)
        ensures
            accepted == old(self).is_ready(),
            old(self).is_ready() ==> final(self)@ =~= old(self)@.push(line@),
            !old(self).is_ready() ==> final(self)@ =~= old(self)@,
            final(self).is_ready() == old(self).is_ready(),
    {
        if self.ready() {
            self.queue.push(line);
            true
        } else {
            false
        }
    }

    /// Take the oldest queued line, if any.
    pub fn pop(&mut self) -> (r: Option<String>)
        ensures
            final(self).is_ready() == old(self).is_ready(),
            old(self)@.len() == 0 ==> r is None && final(self)@ =~= old(self)@,
            old(self)@.len() > 0 ==> match r {
                Some(line) => line@ == old(self)@.first() && final(self)@ =~= old(
                    self,
                )@.drop_first(),
                None => false,
            },
    {
        if self.queue.len() == 0 {
            None
        } else {
            let line = self.queue.remove(0);
            proof {
                assert(self@ =~= old(self)@.drop_first());
            }
            Some(line)
        }
    }
}

} // verus!
