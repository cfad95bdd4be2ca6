//! What a node does with inbound traffic: the duplicate gate in front of the
//! routing decision, the per-peer policy filter on forward targets, and the
//! ingestion of a CDM.

use crate::cdm::{cdm_valid, cdm_violation, validate_cdm, CdmRecord};
use crate::envelope::{Envelope, MessageType};
use crate::error::Error;
use crate::peer::{has_id, is_connected, peer_ids_of, position, PeerInfo, PeerManager};
use crate::routing::{peer_accepts, routing_rule, DecisionView, RoutingDecision, RoutingEngine};
use crate::storage::{stored, KeyedTable, SeenMessages};
use crate::time::Timestamp;
use vstd::prelude::*;

verus! {

/// The registry knows this peer and its policy takes messages of this type.
pub open spec fn admits(peers: Seq<PeerInfo>, message_type: MessageType, id: Seq<char>) -> bool {
    &&& has_id(peers, id)
    &&& peer_accepts(
        message_type,
        peers[position(peers, id)].policies.accept_cdm,
        peers[position(peers, id)].policies.accept_object_state,
        peers[position(peers, id)].policies.accept_maneuver,
    )
}

/// The candidates whose peer policy takes this message type, in order.
pub open spec fn admitted(
    peers: Seq<PeerInfo>,
    message_type: MessageType,
    candidates: Seq<Seq<char>>,
) -> Seq<Seq<char>> {
    candidates.filter(|id: Seq<char>| admits(peers, message_type, id))
}

/// The decision for an inbound envelope: a message id already processed is
/// refused as a duplicate; otherwise the routing rules decide, and forward
/// targets are narrowed to the peers whose policy takes the message.
pub open spec fn inbound_rule(
    seen: Set<Seq<char>>,
    node_id: Seq<char>,
    max_hop_count: u32,
    peers: Seq<PeerInfo>,
    e: Envelope,
) -> DecisionView {
    if seen.contains(e.message_id@) {
        DecisionView::Reject("Duplicate message"@)
    } else {
        match routing_rule(
            node_id,
            max_hop_count,
            e.message_type,
            e.source_node_id@,
            e.hop_count,
            e.ttl,
            peer_ids_of(peers),
        ) {
            DecisionView::AcceptAndForward(t) => {
                let f = admitted(peers, e.message_type, t);
                if f.len() == 0 {
                    DecisionView::Accept
                } else {
                    DecisionView::AcceptAndForward(f)
                }
            },
            other => other,
        }
    }
}

/// A message is taken at most once: once an envelope has been accepted, and
/// its id recorded as seen, any later delivery of an envelope with the same
/// id is refused as a duplicate, whatever its other fields.
pub proof fn lemma_redelivery_is_duplicate(
    seen: Set<Seq<char>>,
    node_id: Seq<char>,
    max_hop_count: u32,
    peers: Seq<PeerInfo>,
    first: Envelope,
    again: Envelope,
)
    requires
        !(inbound_rule(seen, node_id, max_hop_count, peers, first) is Reject),
        again.message_id@ == first.message_id@,
    ensures
        inbound_rule(seen.insert(first.message_id@), node_id, max_hop_count, peers, again)
            == DecisionView::Reject("Duplicate message"@),
{
}

/// Keeps the targets whose peer is known and whose policy takes messages of
/// this type.
pub fn filter_by_policy(
    engine: &RoutingEngine,
    message_type: MessageType,
    targets: &[String],
    peers: &PeerManager,
) -> (r: Vec<String>)
    requires
        peers.wf(),
    ensures
        r@.map_values(|s: String| s@) == admitted(
            peers@,
            message_type,
            targets@.map_values(|s: String| s@),
        ),
{
    let mut out: Vec<String> = Vec::new();
    let mut i: usize = 0;
    while i < targets.len()
        invariant
            i <= targets@.len(),
            peers.wf(),
            out@.map_values(|s: String| s@) == admitted(
                peers@,
                message_type,
                targets@.take(i as int).map_values(|s: String| s@),
            ),
        decreases targets@.len() - i,
    {
        let ghost before = out@;
        let ghost prefix = targets@.take(i as int).map_values(|s: String| s@);
        proof {
            assert(targets@.take(i as int + 1).map_values(|s: String| s@) =~= prefix.push(
                targets@[i as int]@,
            ));
            assert(prefix.push(targets@[i as int]@).drop_last() == prefix);
            reveal(Seq::filter);
        }
        let keep = match peers.get_peer(targets[i].as_str()) {
            Some(p) => engine.should_forward_to_peer(
                &message_type,
                p.policies.accept_cdm,
                p.policies.accept_object_state,
                p.policies.accept_maneuver,
            ),
            None => false,
        };
        if keep {
            out.push(targets[i].clone());
            assert(out@.map_values(|s: String| s@) =~= before.map_values(|s: String| s@).push(
                targets@[i as int]@,
            ));
        }
        i = i + 1;
    }
    assert(targets@.take(i as int) == targets@);
    out
}

/// Handles the routing of an inbound envelope: refuses a duplicate, applies
/// the routing rules, narrows forward targets by peer policy, and records the
/// message id as seen unless the message was refused.
pub fn process_inbound(
    seen: &mut SeenMessages,
    engine: &RoutingEngine,
    peers: &PeerManager,
    envelope: &Envelope,
) -> (r: RoutingDecision)
    requires
        peers.wf(),
    ensures
        r@ == inbound_rule(old(seen)@, engine.node_id@, engine.max_hop_count, peers@, *envelope),
        r is Reject ==> final(seen)@ == old(seen)@,
        !(r is Reject) ==> final(seen)@ == old(seen)@.insert(envelope.message_id@),
{
    if seen.contains(envelope.message_id.as_str()) {
        return RoutingDecision::Reject { reason: String::from_str("Duplicate message") };
    }
    let ids = peers.peer_ids();
    let decision = engine.decide(
        &envelope.message_type,
        envelope.source_node_id.as_str(),
        envelope.hop_count,
        envelope.ttl,
        ids.as_slice(),
    );
    match decision {
        RoutingDecision::Reject { reason } => RoutingDecision::Reject { reason },
        RoutingDecision::Accept => {
            seen.insert(envelope.message_id.as_str(), Timestamp::now());
            RoutingDecision::Accept
        },
        RoutingDecision::AcceptAndForward { peer_ids } => {
            seen.insert(envelope.message_id.as_str(), Timestamp::now());
            let kept = filter_by_policy(
                engine,
                envelope.message_type,
                peer_ids.as_slice(),
                peers,
            );
            if kept.len() == 0 {
                RoutingDecision::Accept
            } else {
                RoutingDecision::AcceptAndForward { peer_ids: kept }
            }
        },
    }
}

/// What a node reports after taking in a CDM.
#[derive(Clone, Debug)]
pub struct IngestReceipt {
    pub cdm_id: String,
    /// The connected peers the CDM is meant to reach.
    pub propagated_to: Vec<String>,
}

/// Takes in a decoded CDM: validates it, stores it, and names the connected
/// peers it is meant to reach. A CDM that breaks a rule is refused with the
/// validation error and nothing is stored.
pub fn ingest_cdm(cdms: &mut KeyedTable<CdmRecord>, peers: &PeerManager, cdm: CdmRecord) -> (r:
    Result<IngestReceipt, Error>)
    requires
        old(cdms).wf(),
    ensures
        final(cdms).wf(),
        r is Ok <==> cdm_valid(cdm),
        r matches Ok(receipt) ==> {
            &&& receipt.cdm_id@ == cdm.cdm_id@
            &&& receipt.propagated_to@.map_values(|s: String| s@) == peer_ids_of(
                peers@.filter(|p: PeerInfo| is_connected(p)),
            )
            &&& final(cdms)@ == stored(old(cdms)@, cdm)
        },
        r is Err ==> final(cdms)@ == old(cdms)@,
        r matches Err(e) ==> cdm_violation(cdm) matches Some(m) && e matches Error::CdmValidation(
            s,
        ) && s@ == m,
{
    match validate_cdm(&cdm) {
        Err(e) => Err(e),
        Ok(()) => {
            let cdm_id = cdm.cdm_id.clone();
            cdms.store(cdm);
            let propagated_to = peers.connected_peer_ids();
            Ok(IngestReceipt { cdm_id, propagated_to })
        },
    }
}

} // verus!
