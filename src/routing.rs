//! The routing decision: whether an inbound message is taken, refused, or
//! taken and passed on, and to whom.

use crate::config::Config;
use crate::envelope::{is_session_message, MessageType};
use crate::text::texts;
use vstd::prelude::*;

verus! {

/// What to do with an inbound message.
#[derive(Clone, Debug)]
pub enum RoutingDecision {
    /// Store locally, do not forward.
    Accept,
    /// Refuse the message.
    Reject { reason: String },
    /// Store locally and forward to these peers.
    AcceptAndForward { peer_ids: Vec<String> },
}

/// A routing decision with its texts as character sequences.
pub ghost enum DecisionView {
    Accept,
    Reject(Seq<char>),
    AcceptAndForward(Seq<Seq<char>>),
}

impl View for RoutingDecision {
    type V = DecisionView;

    open spec fn view(&self) -> DecisionView {
        match self {
            RoutingDecision::Accept => DecisionView::Accept,
            RoutingDecision::Reject { reason } => DecisionView::Reject(reason@),
            RoutingDecision::AcceptAndForward { peer_ids } => DecisionView::AcceptAndForward(
                texts(peer_ids@),
            ),
        }
    }
}

/// The known peers other than the message's source, in their given order.
pub open spec fn forward_candidates(peers: Seq<Seq<char>>, source: Seq<char>) -> Seq<Seq<char>> {
    peers.filter(|p: Seq<char>| p != source)
}

/// The routing rules, applied in order: a node's own message is refused; a
/// message past the hop limit is refused; a message with no TTL left is
/// accepted without forwarding; session messages are accepted without
/// forwarding; any other message goes on to every known peer but its source,
/// or is simply accepted when there is none.
pub open spec fn routing_rule(
    node_id: Seq<char>,
    max_hop_count: u32,
    message_type: MessageType,
    source: Seq<char>,
    hop_count: u32,
    ttl: u32,
    peers: Seq<Seq<char>>,
) -> DecisionView {
    if source == node_id {
        DecisionView::Reject("Own message"@)
    } else if hop_count > max_hop_count {
        DecisionView::Reject("Max hop count exceeded"@)
    } else if ttl == 0 {
        DecisionView::Accept
    } else if is_session_message(message_type) {
        DecisionView::Accept
    } else if forward_candidates(peers, source).len() == 0 {
        DecisionView::Accept
    } else {
        DecisionView::AcceptAndForward(forward_candidates(peers, source))
    }
}

/// Whether a peer with the given acceptance flags receives a message type:
/// each gossiped category follows its own flag, and session messages go to
/// no one.
pub open spec fn peer_accepts(
    message_type: MessageType,
    accept_cdm: bool,
    accept_object_state: bool,
    accept_maneuver: bool,
) -> bool {
    match message_type {
        MessageType::CdmAnnounce | MessageType::CdmWithdraw => accept_cdm,
        MessageType::ObjectStateAnnounce | MessageType::ObjectStateWithdraw => accept_object_state,
        MessageType::ManeuverIntent | MessageType::ManeuverStatus => accept_maneuver,
        _ => false,
    }
}

/// The decision engine of one node.
pub struct RoutingEngine {
    pub node_id: String,
    pub max_hop_count: u32,
}

impl RoutingEngine {
    /// An engine for the node and hop limit of a configuration.
    pub fn new(config: Config) -> (r: RoutingEngine)
        ensures
            r.node_id == config.node.id,
            r.max_hop_count == config.protocol.max_hop_count,
    {
        RoutingEngine { node_id: config.node.id, max_hop_count: config.protocol.max_hop_count }
    }

    /// Decides what to do with a message of the given type, source and loop
    /// counters, given the ids of the peers this node knows.
    pub fn decide(
        &self,
        message_type: &MessageType,
        source_node_id: &str,
        hop_count: u32,
        ttl: u32,
        peer_ids: &[String],
    ) -> (r: RoutingDecision)
        ensures
            r@ == routing_rule(
                self.node_id@,
                self.max_hop_count,
                *message_type,
                source_node_id@,
                hop_count,
                ttl,
                texts(peer_ids@),
            ),
            source_node_id@ == self.node_id@ ==> r is Reject,
            is_session_message(*message_type) ==> !(r is AcceptAndForward),
    {
        let source = String::from_str(source_node_id);
        if source == self.node_id {
            return RoutingDecision::Reject { reason: String::from_str("Own message") };
        }
        if hop_count > self.max_hop_count {
            return RoutingDecision::Reject { reason: String::from_str("Max hop count exceeded") };
        }
        if ttl == 0 {
            return RoutingDecision::Accept;
        }
        match message_type {
            MessageType::Hello | MessageType::Heartbeat | MessageType::Error => {
                return RoutingDecision::Accept;
            },
            _ => {},
        }
        let forward_to = others_than(peer_ids, &source);
        if forward_to.len() == 0 {
            RoutingDecision::Accept
        } else {
            RoutingDecision::AcceptAndForward { peer_ids: forward_to }
        }
    }

    /// Whether a peer with the given acceptance flags should receive a
    /// message of this type.
    pub fn should_forward_to_peer(
        &self,
        message_type: &MessageType,
        accept_cdm: bool,
        accept_object_state: bool,
        accept_maneuver: bool,
    ) -> (r: bool)
        ensures
            r == peer_accepts(*message_type, accept_cdm, accept_object_state, accept_maneuver),
    {
        match message_type {
            MessageType::CdmAnnounce | MessageType::CdmWithdraw => accept_cdm,
            MessageType::ObjectStateAnnounce | MessageType::ObjectStateWithdraw => accept_object_state,
            MessageType::ManeuverIntent | MessageType::ManeuverStatus => accept_maneuver,
            _ => false,
        }
    }
}

/// The ids other than `source`, in their given order.
fn others_than(ids: &[String], source: &String) -> (r: Vec<String>)
    ensures
        texts(r@) == forward_candidates(texts(ids@), source@),
{
    let mut out: Vec<String> = Vec::new();
    let mut i: usize = 0;
    while i < ids.len()
        invariant
            i <= ids@.len(),
            texts(out@) == forward_candidates(texts(ids@.take(i as int)), source@),
        decreases ids@.len() - i,
    {
        let ghost before = ids@.take(i as int);
        proof {
            assert(ids@.take(i as int + 1) == before.push(ids@[i as int]));
            assert(texts(before.push(ids@[i as int])) == texts(before).push(ids@[i as int]@));
            assert(texts(before).push(ids@[i as int]@).drop_last() == texts(before));
            reveal(Seq::filter);
        }
        if ids[i] != *source {
            out.push(ids[i].clone());
            assert(texts(out@) == texts(out@.drop_last()).push(ids@[i as int]@));
        }
        i = i + 1;
    }
    assert(ids@.take(ids@.len() as int) == ids@);
    out
}

} // verus!
