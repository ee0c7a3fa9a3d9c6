//! The per-guild session manager: it owns the mapping from guild to live
//! voice session, serves join/leave/pause/resume, runs the idle monitor's
//! periodic observation, and dispatches the track-completion fan-out. The
//! caller performs the transport work (connect, disconnect, the queue
//! operation, the report submissions) and hands the outcome in as a plain
//! value; every decision about state is made and proved here.
use crate::idle::{tick_step, IdleMonitor, IDLE_LIMIT};
use crate::queue::{Queue, TrackMetadata};
use crate::reporting::{plan_reports, plan_spec, views_of, Report, ReportView};
use crate::settings::SettingsStore;
use crate::table::Table;
use vstd::prelude::*;

verus! {

/// Errors raised by a join request.
#[derive(Clone, Copy, PartialEq, Eq, Structural, Debug)]
pub enum JoinError {
    /// A live session exists for this guild in a different channel.
    AlreadyConnectedElsewhere,
    /// The voice transport failed to establish the connection.
    TransportFailure,
}

/// What a leave request found: one teardown, or nothing to tear down.
/// Leaving an unconnected guild is a no-op, never an error.
#[derive(Clone, Copy, PartialEq, Eq, Structural, Debug)]
pub enum LeaveOutcome {
    TornDown,
    NotConnected,
}

/// Errors raised by a pause or resume request.
#[derive(Clone, Copy, PartialEq, Eq, Structural, Debug)]
pub enum QueueError {
    /// The guild has no session or its queue is empty.
    NothingPlaying,
    /// The underlying queue operation reported failure.
    OperationFailed,
}

/// What one idle-monitor tick did.
#[derive(Clone, Copy, PartialEq, Eq, Structural, Debug)]
pub enum TickOutcome {
    /// The guild has no session; nothing observes it any more.
    NotConnected,
    /// The monitor counted (or reset) and the session stays.
    Counting,
    /// The idle limit was reached: the session was torn down.
    AutoLeft,
}

/// One guild's live voice connection: the channel joined, the playback
/// queue, and the idle monitor attached on join.
pub struct VoiceSession {
    pub channel_id: u64,
    pub queue: Queue,
    pub monitor: IdleMonitor,
}

impl VoiceSession {
    /// A live session's monitor is counting, never past its limit: a
    /// triggered monitor tears the session down in the same step.
    pub open spec fn wf(self) -> bool {
        &&& self.monitor.wf()
        &&& !self.monitor.is_triggered()
    }
}

/// The top-level coordinator: at most one live session per guild.
pub struct SessionManager {
    sessions: Table<VoiceSession>,
}

/// What a leave does, whatever it finds: afterwards the guild has no
/// session, no other guild's session moves, and a teardown is reported
/// exactly when there was a session to tear down.
pub open spec fn leave_post(
    pre: SessionManager,
    post: SessionManager,
    guild_id: u64,
    r: LeaveOutcome,
) -> bool {
    &&& post.session(guild_id) is None
    &&& forall|g: u64| g != guild_id ==> post.session(g) == pre.session(g)
    &&& (r == LeaveOutcome::TornDown <==> pre.session(guild_id) is Some)
    &&& (r == LeaveOutcome::NotConnected <==> pre.session(guild_id) is None)
}

impl SessionManager {
    /// Every stored session is well formed.
    pub closed spec fn wf(self) -> bool {
        &&& self.sessions.wf()
        &&& forall|g: u64| #[trigger] self.sessions.spec_get(g) matches Some(s) ==> s.wf()
    }

    /// The live session of `guild_id`, if one exists.
    pub closed spec fn session(self, guild_id: u64) -> Option<VoiceSession> {
        self.sessions.spec_get(guild_id)
    }

    /// The guilds holding a live session, in table order.
    pub closed spec fn session_guilds(self) -> Seq<u64> {
        self.sessions.key_seq()
    }

    /// The guild has a session whose queue holds at least one track.
    pub open spec fn has_playable(self, guild_id: u64) -> bool {
        match self.session(guild_id) {
            Some(s) => s.queue.tracks@.len() > 0,
            None => false,
        }
    }

    /// At most one voice session exists per guild, at any instant: two
    /// positions of the session table carrying the same guild are one and
    /// the same position.
    pub proof fn lemma_at_most_one_session(self, i: int, j: int)
        requires
            self.wf(),
            0 <= i < self.session_guilds().len(),
            0 <= j < self.session_guilds().len(),
            self.session_guilds()[i] == self.session_guilds()[j],
        ensures
            i == j,
    {
        self.sessions.lemma_keys_distinct(i, j);
    }

    /// A guild appears among the session guilds exactly when it has a
    /// session.
    pub proof fn lemma_session_iff_listed(self, guild_id: u64)
        ensures
            self.session(guild_id) is Some <==> self.session_guilds().contains(guild_id),
    {
        self.sessions.lemma_contains_iff_key(guild_id);
    }

    /// A manager with no sessions.
    pub fn new() -> (m: SessionManager)
        ensures
            m.wf(),
            forall|g: u64| m.session(g) is None,
    {
        SessionManager { sessions: Table::new() }
    }

    /// The channel the guild's session is connected to, if any.
    pub fn current_channel(&self, guild_id: u64) -> (r: Option<u64>)
        requires
            self.wf(),
        ensures
            match self.session(guild_id) {
                Some(s) => r == Some(s.channel_id),
                None => r is None,
            },
    {
        match self.sessions.get(guild_id) {
            Some(s) => Some(s.channel_id),
            None => None,
        }
    }

    /// Joins `channel_id` for `guild_id`. A live session in a different
    /// channel refuses the join and stays untouched; a failed transport
    /// connection (`connect_ok` false) changes nothing; otherwise the guild
    /// gets a session for that channel with a fresh idle monitor, keeping
    /// the queue of a re-joined session.
    pub fn join(&mut self, guild_id: u64, channel_id: u64, connect_ok: bool) -> (r: Result<
        (),
        JoinError,
    >)
        requires
            old(self).wf(),
        ensures
            final(self).wf(),
            ({
                let blocked = match old(self).session(guild_id) {
                    Some(s) => s.channel_id != channel_id,
                    None => false,
                };
                &&& (r == Err::<(), JoinError>(JoinError::AlreadyConnectedElsewhere) <==> blocked)
                &&& (r == Err::<(), JoinError>(JoinError::TransportFailure) <==> (!blocked
                    && !connect_ok))
                &&& (r == Ok::<(), JoinError>(()) <==> (!blocked && connect_ok))
            }),
            r is Err ==> *final(self) == *old(self),
            r is Ok ==> ({
                &&& final(self).session(guild_id) matches Some(s2)
                &&& s2.channel_id == channel_id
                &&& s2.monitor == IdleMonitor::spec_fresh(IDLE_LIMIT)
                &&& s2.queue.tracks@ == (match old(self).session(guild_id) {
                    Some(s) => s.queue.tracks@,
                    None => Seq::<TrackMetadata>::empty(),
                })
                &&& s2.queue.paused == (match old(self).session(guild_id) {
                    Some(s) => s.queue.paused,
                    None => false,
                })
                &&& forall|g: u64| g != guild_id ==> final(self).session(g) == old(self).session(g)
            }),
    {
        let blocked = match self.sessions.get(guild_id) {
            Some(s) => s.channel_id != channel_id,
            None => false,
        };
        if blocked {
            return Err(JoinError::AlreadyConnectedElsewhere);
        }
        if !connect_ok {
            return Err(JoinError::TransportFailure);
        }
        let queue = match self.sessions.take(guild_id) {
            Some(s) => s.queue,
            None => Queue::new(),
        };
        let session = VoiceSession { channel_id, queue, monitor: IdleMonitor::fresh(IDLE_LIMIT) };
        self.sessions.insert(guild_id, session);
        Ok(())
    }

    /// Tears down the guild's session if it has one. Idempotent: with no
    /// session this is a no-op reporting `NotConnected`, never an error.
    pub fn leave(&mut self, guild_id: u64) -> (r: LeaveOutcome)
        requires
            old(self).wf(),
        ensures
            final(self).wf(),
            leave_post(*old(self), *final(self), guild_id, r),
    {
        match self.sessions.take(guild_id) {
            Some(_) => LeaveOutcome::TornDown,
            None => LeaveOutcome::NotConnected,
        }
    }

    /// Pauses playback. Fails with `NothingPlaying` when the guild has no
    /// session or nothing queued; otherwise succeeds exactly when the
    /// underlying queue operation (`transport_ok`) did, and only then marks
    /// the queue paused.
    pub fn pause(&mut self, guild_id: u64, transport_ok: bool) -> (r: Result<(), QueueError>)
        requires
            old(self).wf(),
        ensures
            final(self).wf(),
            (r == Err::<(), QueueError>(QueueError::NothingPlaying) <==> !old(self).has_playable(
                guild_id,
            )),
            (r == Err::<(), QueueError>(QueueError::OperationFailed) <==> (old(self).has_playable(
                guild_id,
            ) && !transport_ok)),
            (r == Ok::<(), QueueError>(()) <==> (old(self).has_playable(guild_id) && transport_ok)),
            r is Err ==> *final(self) == *old(self),
            r is Ok ==> ({
                &&& old(self).session(guild_id) matches Some(s)
                &&& final(self).session(guild_id) matches Some(s2)
                &&& s2.channel_id == s.channel_id
                &&& s2.monitor == s.monitor
                &&& s2.queue.tracks@ == s.queue.tracks@
                &&& s2.queue.paused == true
                &&& forall|g: u64| g != guild_id ==> final(self).session(g) == old(self).session(g)
            }),
    {
        let playable = match self.sessions.get(guild_id) {
            Some(s) => s.queue.tracks.len() > 0,
            None => false,
        };
        if !playable {
            return Err(QueueError::NothingPlaying);
        }
        if !transport_ok {
            return Err(QueueError::OperationFailed);
        }
        let mut s = self.sessions.take(guild_id).unwrap();
        s.queue.paused = true;
        self.sessions.insert(guild_id, s);
        Ok(())
    }

    /// Resumes playback: the same contract as `pause`, with the queue
    /// marked unpaused on success.
    pub fn resume(&mut self, guild_id: u64, transport_ok: bool) -> (r: Result<(), QueueError>)
        requires
            old(self).wf(),
        ensures
            final(self).wf(),
            (r == Err::<(), QueueError>(QueueError::NothingPlaying) <==> !old(self).has_playable(
                guild_id,
            )),
            (r == Err::<(), QueueError>(QueueError::OperationFailed) <==> (old(self).has_playable(
                guild_id,
            ) && !transport_ok)),
            (r == Ok::<(), QueueError>(()) <==> (old(self).has_playable(guild_id) && transport_ok)),
            r is Err ==> *final(self) == *old(self),
            r is Ok ==> ({
                &&& old(self).session(guild_id) matches Some(s)
                &&& final(self).session(guild_id) matches Some(s2)
                &&& s2.channel_id == s.channel_id
                &&& s2.monitor == s.monitor
                &&& s2.queue.tracks@ == s.queue.tracks@
                &&& s2.queue.paused == false
                &&& forall|g: u64| g != guild_id ==> final(self).session(g) == old(self).session(g)
            }),
    {
        let playable = match self.sessions.get(guild_id) {
            Some(s) => s.queue.tracks.len() > 0,
            None => false,
        };
        if !playable {
            return Err(QueueError::NothingPlaying);
        }
        if !transport_ok {
            return Err(QueueError::OperationFailed);
        }
        let mut s = self.sessions.take(guild_id).unwrap();
        s.queue.paused = false;
        self.sessions.insert(guild_id, s);
        Ok(())
    }

    /// Appends a track to the guild's queue, if the guild has a session.
    pub fn enqueue_track(&mut self, guild_id: u64, track: TrackMetadata) -> (r: bool)
        requires
            old(self).wf(),
        ensures
            final(self).wf(),
            r == (old(self).session(guild_id) is Some),
            !r ==> *final(self) == *old(self),
            r ==> ({
                &&& old(self).session(guild_id) matches Some(s)
                &&& final(self).session(guild_id) matches Some(s2)
                &&& s2.channel_id == s.channel_id
                &&& s2.monitor == s.monitor
                &&& s2.queue.paused == s.queue.paused
                &&& s2.queue.tracks@ == s.queue.tracks@.push(track)
                &&& forall|g: u64| g != guild_id ==> final(self).session(g) == old(self).session(g)
            }),
    {
        if !self.sessions.contains_key(guild_id) {
            return false;
        }
        let mut s = self.sessions.take(guild_id).unwrap();
        s.queue.enqueue(track);
        self.sessions.insert(guild_id, s);
        true
    }

    /// One periodic idle observation for `guild_id`: an empty queue raises
    /// the monitor's counter and reaching the limit tears the session down
    /// in the same step (the monitor detaches with it); a non-empty queue
    /// resets the counter; a guild without a session is left alone.
    pub fn idle_tick(&mut self, guild_id: u64) -> (r: TickOutcome)
        requires
            old(self).wf(),
        ensures
            final(self).wf(),
            forall|g: u64| g != guild_id ==> final(self).session(g) == old(self).session(g),
            old(self).session(guild_id) is None ==> (r == TickOutcome::NotConnected && *final(self)
                == *old(self)),
            old(self).session(guild_id) matches Some(s) ==> ({
                let stepped = tick_step(s.monitor, s.queue.tracks@.len() == 0);
                &&& (stepped.is_triggered() ==> r == TickOutcome::AutoLeft && final(self).session(
                    guild_id,
                ) is None)
                &&& (!stepped.is_triggered() ==> ({
                    &&& r == TickOutcome::Counting
                    &&& final(self).session(guild_id) matches Some(s2)
                    &&& s2.channel_id == s.channel_id
                    &&& s2.queue == s.queue
                    &&& s2.monitor == stepped
                }))
            }),
    {
        if !self.sessions.contains_key(guild_id) {
            return TickOutcome::NotConnected;
        }
        let mut s = self.sessions.take(guild_id).unwrap();
        let queue_empty = s.queue.is_empty();
        let fired = s.monitor.tick(queue_empty);
        if fired {
            TickOutcome::AutoLeft
        } else {
            self.sessions.insert(guild_id, s);
            TickOutcome::Counting
        }
    }

    /// One track-completion firing for `guild_id`: with a session and a
    /// non-empty queue it plans the reporting fan-out for the finished
    /// (front) track against the present users and the guild's stored
    /// tokens, and advances the queue to the next track; fired against an
    /// empty queue (a race with a concurrent clear) or a missing session it
    /// plans nothing and changes nothing.
    pub fn track_end(
        &mut self,
        guild_id: u64,
        present: &Vec<u64>,
        store: &SettingsStore,
    ) -> (reports: Vec<Report>)
        requires
            old(self).wf(),
            store.wf(),
        ensures
            final(self).wf(),
            forall|g: u64| g != guild_id ==> final(self).session(g) == old(self).session(g),
            !old(self).has_playable(guild_id) ==> (reports@.len() == 0 && *final(self) == *old(
                self,
            )),
            old(self).has_playable(guild_id) ==> ({
                let s = old(self).session(guild_id)->Some_0;
                &&& views_of(reports@) == (match store.settings_of(guild_id) {
                    Some(st) => plan_spec(
                        s.queue.tracks@[0].artist@,
                        s.queue.tracks@[0].title@,
                        present@,
                        st,
                    ),
                    None => Seq::<ReportView>::empty(),
                })
                &&& final(self).session(guild_id) matches Some(s2)
                &&& s2.channel_id == s.channel_id
                &&& s2.monitor == s.monitor
                &&& s2.queue.paused == s.queue.paused
                &&& s2.queue.tracks@ == s.queue.tracks@.drop_first()
            }),
    {
        let playable = match self.sessions.get(guild_id) {
            Some(s) => s.queue.tracks.len() > 0,
            None => false,
        };
        if !playable {
            return Vec::new();
        }
        let mut s = self.sessions.take(guild_id).unwrap();
        let reports = match store.get(guild_id) {
            Some(settings) => plan_reports(
                &s.queue.tracks[0].artist,
                &s.queue.tracks[0].title,
                present,
                settings,
            ),
            None => Vec::new(),
        };
        let _ = s.queue.tracks.remove(0);
        self.sessions.insert(guild_id, s);
        proof {
            assert(old(self).session(guild_id)->Some_0.queue.tracks@.drop_first()
                =~= old(self).session(guild_id)->Some_0.queue.tracks@.remove(0));
        }
        reports
    }
}

/// Leaving is idempotent: after any leave, a second leave for the same
/// guild finds nothing, tears nothing down, reports `NotConnected` (no
/// error), and moves no session at all.
pub proof fn lemma_leave_idempotent(
    s0: SessionManager,
    s1: SessionManager,
    s2: SessionManager,
    guild_id: u64,
    r1: LeaveOutcome,
    r2: LeaveOutcome,
)
    requires
        leave_post(s0, s1, guild_id, r1),
        leave_post(s1, s2, guild_id, r2),
    ensures
        r2 == LeaveOutcome::NotConnected,
        forall|g: u64| s2.session(g) == s1.session(g),
{
    assert forall|g: u64| s2.session(g) == s1.session(g) by {
        if g != guild_id {
        }
    }
}

} // verus!
