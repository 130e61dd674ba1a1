//! The inbound-announcement handler.
//!
//! The embedding application feeds every inbound network event through
//! `handle`, together with the identities it currently holds sessions to, and
//! performs the returned action: nothing, a malformed-announcement report, or
//! one connection attempt. The handler never mutates discovery state, so one
//! bad peer cannot disrupt discovery for others.

use vstd::prelude::*;

use crate::codec::decode;
use crate::codec::spec_decode;
use crate::codec::Announcement;
use crate::codec::AnnouncementView;
use crate::discovery::DiscoveryView;
use crate::discovery::PubSubPeerDiscovery;
use crate::identity::bytes_eq;
use crate::identity::Identity;

verus! {

/// An inbound event from the transport layer, as the closed set of variants
/// the discovery component can observe.
pub enum NetworkEvent {
    /// A pub/sub message delivery, tagged with its declared source identity,
    /// its topic, and its raw payload.
    Message { source: Identity, topic: Vec<u8>, payload: Vec<u8> },
    /// A direct connection to a peer was established.
    ConnectionEstablished { peer: Identity },
    /// A direct connection to a peer was lost.
    ConnectionClosed { peer: Identity },
}

/// The mathematical value of an inbound event.
pub enum NetworkEventView {
    Message { source: Seq<u8>, topic: Seq<u8>, payload: Seq<u8> },
    ConnectionEstablished { peer: Seq<u8> },
    ConnectionClosed { peer: Seq<u8> },
}

impl View for NetworkEvent {
    type V = NetworkEventView;

    open spec fn view(&self) -> NetworkEventView {
        match self {
            NetworkEvent::Message { source, topic, payload } => NetworkEventView::Message {
                source: source@,
                topic: topic@,
                payload: payload@,
            },
            NetworkEvent::ConnectionEstablished { peer } => NetworkEventView::ConnectionEstablished {
                peer: peer@,
            },
            NetworkEvent::ConnectionClosed { peer } => NetworkEventView::ConnectionClosed {
                peer: peer@,
            },
        }
    }
}

/// What the handler asks the embedding application to do for one event.
pub enum HandleAction {
    /// Do nothing.
    Ignore,
    /// Report one malformed announcement; the message is dropped.
    ReportMalformed,
    /// Request one connection attempt to the announced peer at its announced
    /// addresses.
    Dial { announcement: Announcement },
}

/// The mathematical value of a handler action.
pub enum HandleActionView {
    Ignore,
    ReportMalformed,
    Dial { announcement: AnnouncementView },
}

impl View for HandleAction {
    type V = HandleActionView;

    open spec fn view(&self) -> HandleActionView {
        match self {
            HandleAction::Ignore => HandleActionView::Ignore,
            HandleAction::ReportMalformed => HandleActionView::ReportMalformed,
            HandleAction::Dial { announcement } => HandleActionView::Dial {
                announcement: announcement@,
            },
        }
    }
}

/// The handler's decision rule. In order: ignore everything when not started;
/// ignore non-message events; ignore foreign topics; ignore the node's own
/// announcements; report a payload that does not decode; ignore peers a
/// session already exists to; otherwise dial the announced peer.
pub open spec fn spec_handle(
    v: DiscoveryView,
    event: NetworkEventView,
    connected: Seq<Seq<u8>>,
) -> HandleActionView {
    if !v.started {
        HandleActionView::Ignore
    } else {
        match event {
            NetworkEventView::Message { source, topic, payload } => {
                if topic != v.topic {
                    HandleActionView::Ignore
                } else if source == v.local.originator {
                    HandleActionView::Ignore
                } else {
                    match spec_decode(payload) {
                        None => HandleActionView::ReportMalformed,
                        Some(ann) => {
                            if connected.contains(ann.originator) {
                                HandleActionView::Ignore
                            } else {
                                HandleActionView::Dial { announcement: ann }
                            }
                        },
                    }
                }
            },
            _ => HandleActionView::Ignore,
        }
    }
}

/// Whether `id` is among the identities in `list`, compared by bytes.
fn contains_identity(list: &Vec<Identity>, id: &Identity) -> (r: bool)
    ensures
        r == list@.map_values(|i: Identity| i@).contains(id@),
{
    let ghost views = list@.map_values(|i: Identity| i@);
    let n = list.len();
    let mut j: usize = 0;
    while j < n
        invariant
            n == list@.len(),
            j <= n,
            views == list@.map_values(|i: Identity| i@),
            forall|m: int| 0 <= m < j ==> views[m] != id@,
        decreases n - j,
    {
        if bytes_eq(list[j].as_bytes(), id.as_bytes()) {
            proof {
                assert(views[j as int] == id@);
            }
            return true;
        }
        proof {
            assert(views[j as int] == list@[j as int]@);
        }
        j = j + 1;
    }
    proof {
        assert forall|m: int| 0 <= m < views.len() implies views[m] != id@ by {}
        assert(!views.contains(id@));
    }
    false
}

impl PubSubPeerDiscovery {
    /// Handles one inbound network event, deciding per `spec_handle`; the
    /// caller performs the returned action. Takes `&self`: no event, well
    /// formed or malformed, changes discovery state. `connected` lists the
    /// identities a session already exists to, so dialing stays idempotent.
    pub fn handle(&self, event: &NetworkEvent, connected: &Vec<Identity>) -> (r: HandleAction)
        ensures
            r@ == spec_handle(self@, event@, connected@.map_values(|i: Identity| i@)),
    {
        if !self.is_started() {
            return HandleAction::Ignore;
        }
        match event {
            NetworkEvent::Message { source, topic, payload } => {
                if !self.topic_matches(topic) {
                    return HandleAction::Ignore;
                }
                if bytes_eq(source.as_bytes(), self.local_identity_bytes()) {
                    return HandleAction::Ignore;
                }
                match decode(payload) {
                    Err(_) => HandleAction::ReportMalformed,
                    Ok(ann) => {
                        if contains_identity(connected, ann.originator()) {
                            HandleAction::Ignore
                        } else {
                            HandleAction::Dial { announcement: ann }
                        }
                    },
                }
            },
            _ => HandleAction::Ignore,
        }
    }
}

/// A message whose declared source is the node's own identity never triggers
/// a dial: self-announcement suppression, whatever the topic, payload, or
/// session set.
pub proof fn lemma_own_message_never_dials(
    v: DiscoveryView,
    topic: Seq<u8>,
    payload: Seq<u8>,
    connected: Seq<Seq<u8>>,
)
    ensures
        spec_handle(
            v,
            NetworkEventView::Message { source: v.local.originator, topic, payload },
            connected,
        ) is Ignore,
{
}

/// A message on any topic other than the configured discovery topic never
/// triggers a dial, whatever its source, payload, or the session set.
pub proof fn lemma_foreign_topic_never_dials(
    v: DiscoveryView,
    source: Seq<u8>,
    topic: Seq<u8>,
    payload: Seq<u8>,
    connected: Seq<Seq<u8>>,
)
    requires
        topic != v.topic,
    ensures
        spec_handle(v, NetworkEventView::Message { source, topic, payload }, connected) is Ignore,
{
}

/// A malformed payload on the discovery topic from another peer produces
/// exactly one malformed-announcement report — never a dial — and, `handle`
/// being a read-only operation, leaves discovery state unchanged.
pub proof fn lemma_malformed_reported_once(
    v: DiscoveryView,
    source: Seq<u8>,
    topic: Seq<u8>,
    payload: Seq<u8>,
    connected: Seq<Seq<u8>>,
)
    requires
        v.started,
        topic == v.topic,
        source != v.local.originator,
        spec_decode(payload) is None,
    ensures
        spec_handle(
            v,
            NetworkEventView::Message { source, topic, payload },
            connected,
        ) is ReportMalformed,
{
}

} // verus!
