//! Lifecycle state machine of the discovery protocol.
//!
//! `PubSubPeerDiscovery` owns the start/stop lifecycle. The network work that
//! a transition needs (subscribing, unsubscribing, publishing, spawning the
//! scheduler task) is performed by the embedding application: before `start`
//! or `stop` it attempts the subscription change when one is due and reports
//! the outcome, and afterwards it carries out the effect the call returns.
//! Every transition is specified by `spec_start` and `spec_stop`.

use vstd::prelude::*;

use crate::codec::encode;
use crate::codec::spec_encode;
use crate::codec::Announcement;
use crate::codec::AnnouncementView;
use crate::codec::announcement_wf;
use crate::identity::bytes_eq;

verus! {

/// Errors that prevent a lifecycle transition; they are surfaced to the
/// caller, never swallowed.
#[derive(Clone, Copy, Debug, PartialEq, Eq, Structural)]
pub enum DiscoveryError {
    /// The pub/sub collaborator rejected the subscription during `start`.
    Subscription,
    /// The pub/sub collaborator rejected the unsubscription during `stop`.
    Unsubscription,
}

/// What a successful `start` asks the embedding application to do next.
#[derive(Clone, Copy, Debug, PartialEq, Eq, Structural)]
pub enum StartEffect {
    /// Discovery was already running: nothing to do.
    AlreadyStarted,
    /// Listen-only mode: the subscription stands, nothing is ever published.
    Listening,
    /// Publish one immediate self-announcement (`broadcast` computes the
    /// payload) and run the periodic scheduler bound to a fresh stop signal.
    Broadcasting,
}

/// What a successful `stop` asks the embedding application to do next.
#[derive(Clone, Copy, Debug, PartialEq, Eq, Structural)]
pub enum StopEffect {
    /// Discovery was not running: nothing to do.
    AlreadyStopped,
    /// The subscription is gone; set the shared stop signal so the scheduler
    /// terminates at its next tick.
    Stopped,
}

/// The mathematical state of the discovery component.
pub struct DiscoveryView {
    /// Broadcast interval in the embedding application's time units.
    pub interval: u64,
    /// Listen-only mode: consume announcements, never publish.
    pub listen_only: bool,
    /// The discovery topic's name, matched byte for byte.
    pub topic: Seq<u8>,
    /// This node's own announcement: its identity and reachable addresses.
    pub local: AnnouncementView,
    /// The lifecycle flag: set by `start`, cleared by `stop`.
    pub started: bool,
    /// The cancellation flag shared with the scheduler task; fresh each
    /// `start`, set by `stop`.
    pub stop_signal: bool,
}

impl DiscoveryView {
    /// Validity: the node's own announcement fits the wire format.
    pub open spec fn wf(self) -> bool {
        announcement_wf(self.local)
    }
}

/// The `start` transition: a no-op when already started; otherwise it needs
/// an accepted subscription, sets `started`, resets the stop signal, and asks
/// for an immediate broadcast plus the scheduler unless in listen-only mode.
pub open spec fn spec_start(pre: DiscoveryView, subscribed: bool) -> (DiscoveryView, Result<
    StartEffect,
    DiscoveryError,
>) {
    if pre.started {
        (pre, Ok(StartEffect::AlreadyStarted))
    } else if !subscribed {
        (pre, Err(DiscoveryError::Subscription))
    } else {
        let post = DiscoveryView {
            interval: pre.interval,
            listen_only: pre.listen_only,
            topic: pre.topic,
            local: pre.local,
            started: true,
            stop_signal: false,
        };
        if pre.listen_only {
            (post, Ok(StartEffect::Listening))
        } else {
            (post, Ok(StartEffect::Broadcasting))
        }
    }
}

/// The `stop` transition: a no-op when not started; otherwise it needs an
/// accepted unsubscription, clears `started`, and sets the stop signal so the
/// scheduler terminates.
pub open spec fn spec_stop(pre: DiscoveryView, unsubscribed: bool) -> (DiscoveryView, Result<
    StopEffect,
    DiscoveryError,
>) {
    if !pre.started {
        (pre, Ok(StopEffect::AlreadyStopped))
    } else if !unsubscribed {
        (pre, Err(DiscoveryError::Unsubscription))
    } else {
        let post = DiscoveryView {
            interval: pre.interval,
            listen_only: pre.listen_only,
            topic: pre.topic,
            local: pre.local,
            started: false,
            stop_signal: true,
        };
        (post, Ok(StopEffect::Stopped))
    }
}

/// Discovers peers by announcing the local identity on a pub/sub topic and
/// listening for the announcements of others.
pub struct PubSubPeerDiscovery {
    interval: u64,
    listen_only: bool,
    topic: Vec<u8>,
    local: Announcement,
    started: bool,
    stop_signal: bool,
}

impl View for PubSubPeerDiscovery {
    type V = DiscoveryView;

    closed spec fn view(&self) -> DiscoveryView {
        DiscoveryView {
            interval: self.interval,
            listen_only: self.listen_only,
            topic: self.topic@,
            local: self.local@,
            started: self.started,
            stop_signal: self.stop_signal,
        }
    }
}

impl PubSubPeerDiscovery {
    /// Validity: the node's own announcement fits the wire format.
    pub open spec fn wf(&self) -> bool {
        self@.wf()
    }

    /// Builds a stopped discovery component for one topic.
    pub fn new(interval: u64, listen_only: bool, local: Announcement, topic: Vec<u8>) -> (r:
        PubSubPeerDiscovery)
        requires
            local.wf(),
        ensures
            r@ == (DiscoveryView {
                interval,
                listen_only,
                topic: topic@,
                local: local@,
                started: false,
                stop_signal: false,
            }),
            r.wf(),
    {
        PubSubPeerDiscovery { interval, listen_only, topic, local, started: false, stop_signal: false }
    }

    /// Whether discovery is currently started. Pure read, no side effects.
    pub fn is_started(&self) -> (r: bool)
        ensures
            r == self@.started,
    {
        self.started
    }

    /// Whether the current cycle's stop signal has been set.
    pub fn stop_requested(&self) -> (r: bool)
        ensures
            r == self@.stop_signal,
    {
        self.stop_signal
    }

    /// Whether `topic` is the configured discovery topic, byte for byte.
    pub fn topic_matches(&self, topic: &Vec<u8>) -> (r: bool)
        ensures
            r == (topic@ == self@.topic),
    {
        bytes_eq(topic, &self.topic)
    }

    /// The byte encoding of the node's own identity, as announced.
    pub fn local_identity_bytes(&self) -> (r: &Vec<u8>)
        ensures
            r@ == self@.local.originator,
    {
        self.local.originator().as_bytes()
    }

    /// Starts discovery. The caller first attempts the topic subscription
    /// when `is_started()` is false and passes whether the pub/sub
    /// collaborator accepted it; a rejected subscription is surfaced as
    /// `Subscription` and changes nothing. On success the caller performs the
    /// returned effect.
    pub fn start(&mut self, subscribed: bool) -> (r: Result<StartEffect, DiscoveryError>)
        ensures
            final(self)@ == spec_start(old(self)@, subscribed).0,
            r == spec_start(old(self)@, subscribed).1,
            old(self).wf() ==> final(self).wf(),
    {
        if self.started {
            return Ok(StartEffect::AlreadyStarted);
        }
        if !subscribed {
            return Err(DiscoveryError::Subscription);
        }
        self.started = true;
        self.stop_signal = false;
        if self.listen_only {
            Ok(StartEffect::Listening)
        } else {
            Ok(StartEffect::Broadcasting)
        }
    }

    /// Stops discovery. The caller first attempts the unsubscription when
    /// `is_started()` is true and passes whether the pub/sub collaborator
    /// accepted it; a rejected unsubscription is surfaced as `Unsubscription`
    /// and changes nothing. On success the caller sets the shared stop signal
    /// (the `Stopped` effect), so broadcasting ceases at the scheduler's next
    /// tick.
    pub fn stop(&mut self, unsubscribed: bool) -> (r: Result<StopEffect, DiscoveryError>)
        ensures
            final(self)@ == spec_stop(old(self)@, unsubscribed).0,
            r == spec_stop(old(self)@, unsubscribed).1,
            old(self).wf() ==> final(self).wf(),
    {
        if !self.started {
            return Ok(StopEffect::AlreadyStopped);
        }
        if !unsubscribed {
            return Err(DiscoveryError::Unsubscription);
        }
        self.started = false;
        self.stop_signal = true;
        Ok(StopEffect::Stopped)
    }
}

/// Computes the payload of one self-announcement broadcast: the wire encoding
/// of the local identity and addresses. The embedding application publishes
/// it on the discovery topic; a failed publish is non-fatal and never stops
/// the scheduler.
pub fn broadcast(discovery: &PubSubPeerDiscovery) -> (payload: Vec<u8>)
    requires
        discovery.wf(),
    ensures
        payload@ == spec_encode(discovery@.local),
{
    encode(&discovery.local)
}

/// Starting is idempotent: a first successful `start` sets `started`, and a
/// second `start` right after changes nothing and asks for no broadcast and
/// no scheduler, so at most one broadcaster is ever scheduled.
pub proof fn lemma_start_idempotent(pre: DiscoveryView, first: bool, second: bool)
    requires
        !pre.started,
        first,
    ensures
        spec_start(pre, first).0.started,
        spec_start(spec_start(pre, first).0, second).0 == spec_start(pre, first).0,
        spec_start(spec_start(pre, first).0, second).1 == Ok::<StartEffect, DiscoveryError>(
            StartEffect::AlreadyStarted,
        ),
{
}

/// Stopping before any start is a no-op and returns success.
pub proof fn lemma_stop_before_start(pre: DiscoveryView, unsubscribed: bool)
    requires
        !pre.started,
    ensures
        spec_stop(pre, unsubscribed).0 == pre,
        spec_stop(pre, unsubscribed).1 == Ok::<StopEffect, DiscoveryError>(
            StopEffect::AlreadyStopped,
        ),
{
}

/// In listen-only mode `start` subscribes but never publishes: no transition
/// ever yields the `Broadcasting` effect, the only one that publishes or
/// schedules a broadcaster.
pub proof fn lemma_listen_only_never_broadcasts(pre: DiscoveryView, subscribed: bool)
    requires
        pre.listen_only,
    ensures
        spec_start(pre, subscribed).1 != Ok::<StartEffect, DiscoveryError>(
            StartEffect::Broadcasting,
        ),
{
}

} // verus!
