//! The shared session: one shell, one poll buffer, one broadcast hub, one
//! command channel, the working-directory fact and the command history.
//!
//! The capture loop feeds every chunk it reads through `ingest_chunk`; the
//! command drain loop takes framed writes from `consume_command`; pull
//! clients drain through `drain_output`.

use vstd::prelude::*;
use crate::buffer::PollBuffer;
use crate::buffer::concat_chunks;
use crate::channel::CommandChannel;
use crate::history::HistoryRing;
use crate::history::ring_push;
use crate::hub::Hub;
use crate::hub::hub_publish;
use crate::prompt::chunk_contains;
use crate::prompt::contains_char;
use crate::prompt::has_prompt;
use crate::prompt::is_first_match;
use crate::prompt::prompt_group;
use crate::prompt::update_dir;
use crate::textops::trim_of;

verus! {

/// The aggregate state of the one bridged shell.
pub struct Session {
    buffer: PollBuffer,
    hub: Hub,
    channel: CommandChannel,
    dir: String,
    history: HistoryRing,
}

impl Session {
    /// The chunks waiting for the next poll drain.
    pub closed spec fn buffer_view(&self) -> Seq<Seq<char>> {
        self.buffer@
    }

    /// The active subscribers and their pending messages.
    pub closed spec fn hub_view(&self) -> Seq<(u64, Seq<Seq<char>>)> {
        self.hub@
    }

    /// The command lines waiting to be written to the shell.
    pub closed spec fn queue_view(&self) -> Seq<Seq<char>> {
        self.channel@
    }

    /// The best known working directory.
    pub closed spec fn dir_view(&self) -> Seq<char> {
        self.dir@
    }

    /// The retained command history, oldest first.
    pub closed spec fn history_view(&self) -> Seq<Seq<char>> {
        self.history@
    }

    /// Has the shell shown its first prompt, so that commands may flow?
    pub closed spec fn is_ready(&self) -> bool {
        self.channel.is_ready()
    }

    /// The hub still has room for a fresh subscriber id.
    pub closed spec fn can_subscribe(&self) -> bool {
        self.hub.can_subscribe()
    }

    /// Internal bounds: the history is bounded, subscriber ids unique.
    pub closed spec fn wf(&self) -> bool {
        &&& self.history.wf()
        &&& self.hub.wf()
    }

    /// A fresh session: nothing buffered, nobody subscribed, nothing queued,
    /// the directory fact at the home sentinel, no history, not ready.
    pub fn new() -> (s: Session)
        ensures
            s.wf(),
            s.buffer_view() =~= Seq::<Seq<char>>::empty(),
            s.hub_view() =~= Seq::<(u64, Seq<Seq<char>>)>::empty(),
            s.queue_view() =~= Seq::<Seq<char>>::empty(),
            s.history_view() =~= Seq::<Seq<char>>::empty(),
            s.dir_view() == "~"@,
            !s.is_ready(),
            s.can_subscribe(),
    {
        Session {
            buffer: PollBuffer::new(),
            hub: Hub::new(),
            channel: CommandChannel::new(),
            dir: String::from_str("~"),
            history: HistoryRing::new(),
        }
    }

    /// Feed one decoded chunk of shell output through every sink: queue it
    /// for polling, publish it to every subscriber, infer the working
    /// directory from it, and open the readiness gate on the first hash.
    pub fn ingest_chunk(&mut self, chunk: String)
        requires
            old(self).wf(),
        ensures
            final(self).wf(),
            final(self).can_subscribe() == old(self).can_subscribe(),
            final(self).buffer_view() =~= old(self).buffer_view().push(chunk@),
            final(self).hub_view() == hub_publish(old(self).hub_view(), chunk@),
            has_prompt(chunk@) ==> exists|i: int|
                #[trigger] is_first_match(chunk@, i) && final(self).dir_view() == trim_of(
                    prompt_group(chunk@, i),
                ),
            !has_prompt(chunk@) ==> final(self).dir_view() == old(self).dir_view(),
            final(self).is_ready() == (old(self).is_ready() || contains_char(chunk@, '#')),
            final(self).history_view() == old(self).history_view(),
            final(self).queue_view() == old(self).queue_view(),
    {
        self.buffer.append(chunk.clone());
        self.hub.publish(&chunk);
        update_dir(&mut self.dir, chunk.as_str());
        if !self.channel.ready() && chunk_contains(chunk.as_str(), '#') {
            self.channel.mark_ready();
        }
    }

    /// Queue a fatal diagnostic for pull clients; nothing else moves. Used
    /// when the shell could not be started and will produce no output.
    pub fn report_fatal(&mut self, msg: String)
        requires
            old(self).wf(),
        ensures
            final(self).wf(),
            final(self).can_subscribe() == old(self).can_subscribe(),
            final(self).buffer_view() =~= old(self).buffer_view().push(msg@),
            final(self).hub_view() == old(self).hub_view(),
            final(self).dir_view() == old(self).dir_view(),
            final(self).is_ready() == old(self).is_ready(),
            final(self).history_view() == old(self).history_view(),
            final(self).queue_view() == old(self).queue_view(),
    {
        self.buffer.append(msg);
    }

    /// Hand every buffered chunk to a poll client, in order, and empty the
    /// buffer: a second drain with no new output returns the empty string.
    pub fn drain_output(&mut self) -> (out: String)
        requires
            old(self).wf(),
        ensures
            final(self).wf(),
            final(self).can_subscribe() == old(self).can_subscribe(),
            out@ == concat_chunks(old(self).buffer_view()),
            final(self).buffer_view() =~= Seq::<Seq<char>>::empty(),
            final(self).hub_view() == old(self).hub_view(),
            final(self).dir_view() == old(self).dir_view(),
            final(self).is_ready() == old(self).is_ready(),
            final(self).history_view() == old(self).history_view(),
            final(self).queue_view() == old(self).queue_view(),
    {
        self.buffer.drain()
    }

    /// Best-effort submission of a command line: silently dropped while the
    /// shell is not ready, queued in order once it is.
    pub fn submit_command(&mut self, line: String) -> (accepted: bool)
        requires
            old(self).wf(),
        ensures
            final(self).wf(),
            final(self).can_subscribe() == old(self).can_subscribe(),
            accepted == old(self).is_ready(),
            old(self).is_ready() ==> final(self).queue_view() =~= old(self).queue_view().push(
                line@,
            ),
            !old(self).is_ready() ==> final(self).queue_view() =~= old(self).queue_view(),
            final(self).is_ready() == old(self).is_ready(),
            final(self).buffer_view() == old(self).buffer_view(),
            final(self).hub_view() == old(self).hub_view(),
            final(self).dir_view() == old(self).dir_view(),
            final(self).history_view() == old(self).history_view(),
    {
        self.channel.enqueue(line)
    }

    /// Take the oldest queued command: record it in the history and hand back
    /// exactly the bytes owed to the shell, the line plus one newline.
    pub fn consume_command(&mut self) -> (w: Option<String>)
        requires
            old(self).wf(),
        ensures
            final(self).wf(),
            final(self).can_subscribe() == old(self).can_subscribe(),
            old(self).queue_view().len() == 0 ==> w is None && final(self).queue_view() =~= old(
                self,
            ).queue_view() && final(self).history_view() == old(self).history_view(),
            old(self).queue_view().len() > 0 ==> match w {
                Some(bytes) => {
                    &&& bytes@ == old(self).queue_view().first() + "\n"@
                    &&& final(self).queue_view() =~= old(self).queue_view().drop_first()
                    &&& final(self).history_view() =~= ring_push(
                        old(self).history_view(),
                        old(self).queue_view().first(),
                    )
                },
                None => false,
            },
            final(self).is_ready() == old(self).is_ready(),
            final(self).buffer_view() == old(self).buffer_view(),
            final(self).hub_view() == old(self).hub_view(),
            final(self).dir_view() == old(self).dir_view(),
    {
        match self.channel.pop() {
            None => None,
            Some(line) => {
                self.history.push(line.clone());
                let mut bytes = line;
                bytes.append("\n");
                Some(bytes)
            },
        }
    }

    /// The current working-directory fact, advisory only.
    pub fn current_dir(&self) -> (d: String)
        ensures
            d@ == self.dir_view(),
    {
        self.dir.clone()
    }

    /// Whether command injection is open.
    pub fn ready(&self) -> (b: bool)
        ensures
            b == self.is_ready(),
    {
        self.channel.ready()
    }

    /// The most recent history lines, newest first, at most three.
    pub fn recent_history(&self) -> (r: Vec<String>)
        ensures
            r@.len() == if self.history_view().len() < 3 {
                self.history_view().len()
            } else {
                3
            },
            forall|i: int|
                0 <= i < r@.len() ==> r@[i]@ == self.history_view()[self.history_view().len() - 1
                    - i],
    {
        self.history.recent3()
    }

    /// The numbered rendering of the recent history handed to the assistant.
    pub fn render_recent_history(&self) -> (out: String)
        ensures
            out@ == crate::assist::render_recent(crate::assist::recent3_spec(self.history_view())),
    {
        crate::assist::render_history(&self.history)
    }

    /// Open a streaming subscription on the hub, seeded from the current
    /// publish point.
    pub fn subscribe_stream(&mut self) -> (r: Option<u64>)
        requires
            old(self).wf(),
        ensures
            final(self).wf(),
            (r is Some) <==> old(self).can_subscribe(),
            match r {
                Some(id) => final(self).hub_view() == crate::hub::hub_subscribe(
                    old(self).hub_view(),
                    id,
                ) && !crate::hub::has_sub(old(self).hub_view(), id),
                None => final(self).hub_view() == old(self).hub_view(),
            },
            final(self).buffer_view() == old(self).buffer_view(),
            final(self).dir_view() == old(self).dir_view(),
            final(self).is_ready() == old(self).is_ready(),
            final(self).history_view() == old(self).history_view(),
            final(self).queue_view() == old(self).queue_view(),
    {
        self.hub.subscribe()
    }

    /// Tear down one streaming subscription; later publishes are unharmed.
    pub fn unsubscribe_stream(&mut self, id: u64)
        requires
            old(self).wf(),
        ensures
            final(self).wf(),
            final(self).can_subscribe() == old(self).can_subscribe(),
            !crate::hub::has_sub(old(self).hub_view(), id) ==> final(self).hub_view() == old(
                self,
            ).hub_view(),
            crate::hub::has_sub(old(self).hub_view(), id) ==> final(self).hub_view() == old(
                self,
            ).hub_view().remove(crate::hub::idx_of(old(self).hub_view(), id)),
            final(self).buffer_view() == old(self).buffer_view(),
            final(self).dir_view() == old(self).dir_view(),
            final(self).is_ready() == old(self).is_ready(),
            final(self).history_view() == old(self).history_view(),
            final(self).queue_view() == old(self).queue_view(),
    {
        self.hub.unsubscribe(id)
    }

    /// Relay the oldest message still pending for one subscriber.
    pub fn receive_stream(&mut self, id: u64) -> (r: Option<String>)
        requires
            old(self).wf(),
        ensures
            final(self).wf(),
            final(self).can_subscribe() == old(self).can_subscribe(),
            !crate::hub::has_sub(old(self).hub_view(), id) ==> r is None && final(self).hub_view()
                == old(self).hub_view(),
            crate::hub::has_sub(old(self).hub_view(), id) ==> {
                let at = crate::hub::idx_of(old(self).hub_view(), id);
                if old(self).hub_view()[at].1.len() == 0 {
                    r is None && final(self).hub_view() == old(self).hub_view()
                } else {
                    match r {
                        Some(m) => {
                            &&& m@ == old(self).hub_view()[at].1.first()
                            &&& final(self).hub_view() == old(self).hub_view().update(
                                at,
                                (id, old(self).hub_view()[at].1.drop_first()),
                            )
                        },
                        None => false,
                    }
                }
            },
            final(self).buffer_view() == old(self).buffer_view(),
            final(self).dir_view() == old(self).dir_view(),
            final(self).is_ready() == old(self).is_ready(),
            final(self).history_view() == old(self).history_view(),
            final(self).queue_view() == old(self).queue_view(),
    {
        self.hub.receive(id)
    }
}

} // verus!
