//! The relay router: consumes one inbound message or disconnect at a time,
//! updates the presence directory, and says which endpoints the message is
//! forwarded to, verbatim.
//!
//! Broadcast-class messages (announce, leave, heartbeat, chat) fan out to
//! every known endpoint. Targeted-class messages (whisper, file chunk) go to
//! exactly the endpoint bound to their addressee, or nowhere at all: a
//! whisper to an unknown user is silently dropped, with no delivery and no
//! error to the sender.

use vstd::prelude::*;

use crate::directory::OnlineDb;
use crate::message::{MessageView, NetMessage};

verus! {

/// All targets lie in the directory: routing never addresses an endpoint
/// the directory does not know.
pub open spec fn targets_in_directory(targets: Seq<u64>, db: OnlineDb) -> bool {
    forall|i: int| 0 <= i < targets.len() ==> db.endpoint_map().dom().contains(targets[i])
}

/// The fan-out set of a broadcast: exactly the bound endpoints, each once.
pub open spec fn is_broadcast_fanout(targets: Seq<u64>, db: OnlineDb) -> bool {
    &&& forall|e: u64| targets.contains(e) <==> db.endpoint_map().dom().contains(e)
    &&& targets.no_duplicates()
}

/// The target set of a targeted-class message: the addressee's endpoint
/// alone, or empty when the addressee is unknown.
pub open spec fn is_targeted_delivery(targets: Seq<u64>, db: OnlineDb, to: Seq<char>) -> bool {
    if db.user_map().dom().contains(to) {
        targets =~= seq![db.user_map()[to]]
    } else {
        targets =~= Seq::<u64>::empty()
    }
}

/// Routes one inbound message from `endpoint`: updates the directory
/// (announce binds the user, last writer wins; leave unbinds the sender's
/// endpoint) and returns the endpoints the message is forwarded to,
/// verbatim and in directory order.
pub fn handle_message(db: &mut OnlineDb, msg: &NetMessage, endpoint: u64) -> (targets: Vec<u64>)
    requires
        old(db).wf(),
    ensures
        final(db).wf(),
        match msg@ {
            MessageView::Hi(user) => {
                &&& final(db).user_map() == (if old(db).endpoint_map().dom().contains(endpoint) {
                    old(db).user_map().remove(old(db).endpoint_map()[endpoint])
                } else {
                    old(db).user_map()
                }).insert(user, endpoint)
                &&& final(db).endpoint_map() == (if old(db).user_map().dom().contains(user) {
                    old(db).endpoint_map().remove(old(db).user_map()[user])
                } else {
                    old(db).endpoint_map()
                }).insert(endpoint, user)
                &&& is_broadcast_fanout(targets@, *final(db))
            },
            MessageView::Bye(_) => {
                &&& (if old(db).endpoint_map().dom().contains(endpoint) {
                    final(db).user_map() == old(db).user_map().remove(
                        old(db).endpoint_map()[endpoint],
                    ) && final(db).endpoint_map() == old(db).endpoint_map().remove(endpoint)
                } else {
                    *final(db) == *old(db)
                })
                &&& is_broadcast_fanout(targets@, *final(db))
            },
            MessageView::BBB(_) => *final(db) == *old(db) && is_broadcast_fanout(
                targets@,
                *final(db),
            ),
            MessageView::UserMessage(_, _) => *final(db) == *old(db) && is_broadcast_fanout(
                targets@,
                *final(db),
            ),
            MessageView::WhisperMessage(_, to, _) => *final(db) == *old(db)
                && is_targeted_delivery(targets@, *final(db), to),
            MessageView::UserData(_, to, _, _) => *final(db) == *old(db) && is_targeted_delivery(
                targets@,
                *final(db),
                to,
            ),
        },
        targets_in_directory(targets@, *final(db)),
{
    let targets = match msg {
        NetMessage::Hi(user) => {
            db.logon(user.clone(), endpoint);
            db.all_endpoints()
        },
        NetMessage::Bye(_) => {
            let _ = db.logoff(endpoint);
            db.all_endpoints()
        },
        NetMessage::BBB(_) => db.all_endpoints(),
        NetMessage::UserMessage(_, _) => db.all_endpoints(),
        NetMessage::WhisperMessage(_, to, _) => route_to_user(db, to),
        NetMessage::UserData(_, to, _, _) => route_to_user(db, to),
    };
    proof {
        let dbf = *db;
        assert forall|i: int| 0 <= i < targets@.len() implies dbf.endpoint_map().dom().contains(
            targets@[i],
        ) by {
            assert(targets@.contains(targets@[i]));
        }
    }
    targets
}

/// The delivery set for a targeted-class message addressed to `to`.
fn route_to_user(db: &OnlineDb, to: &String) -> (targets: Vec<u64>)
    requires
        db.wf(),
    ensures
        is_targeted_delivery(targets@, *db, to@),
        forall|e: u64| targets@.contains(e) ==> db.endpoint_map().dom().contains(e),
{
    match db.get_endpoint_by_user(to) {
        Some(e) => {
            let mut v: Vec<u64> = Vec::new();
            v.push(e);
            proof {
                db.lemma_maps_mutually_consistent();
                assert(v@ =~= seq![db.user_map()[to@]]);
                assert forall|x: u64| v@.contains(x) implies db.endpoint_map().dom().contains(
                    x,
                ) by {
                    assert(db.endpoint_map().contains_pair(e, to@));
                }
            }
            v
        },
        None => {
            let v: Vec<u64> = Vec::new();
            proof {
                assert(v@ =~= Seq::<u64>::empty());
            }
            v
        },
    }
}

/// Reacts to a transport disconnect: unbinds the endpoint; if a user was
/// bound to it, a `Bye` for that user is synthesized, to be broadcast to
/// every remaining peer.
pub fn handle_disconnect(db: &mut OnlineDb, endpoint: u64) -> (r: Option<(NetMessage, Vec<u64>)>)
    requires
        old(db).wf(),
    ensures
        final(db).wf(),
        match r {
            Some((m, targets)) => {
                &&& old(db).endpoint_map().dom().contains(endpoint)
                &&& m@ == MessageView::Bye(old(db).endpoint_map()[endpoint])
                &&& final(db).user_map() == old(db).user_map().remove(
                    old(db).endpoint_map()[endpoint],
                )
                &&& final(db).endpoint_map() == old(db).endpoint_map().remove(endpoint)
                &&& is_broadcast_fanout(targets@, *final(db))
                &&& targets_in_directory(targets@, *final(db))
            },
            None => {
                &&& !old(db).endpoint_map().dom().contains(endpoint)
                &&& *final(db) == *old(db)
            },
        },
{
    match db.logoff(endpoint) {
        Some(user) => {
            let targets = db.all_endpoints();
            proof {
                let dbf = *db;
                assert forall|i: int| 0 <= i < targets@.len() implies dbf.endpoint_map().dom().contains(
                    targets@[i],
                ) by {
                    assert(targets@.contains(targets@[i]));
                }
            }
            Some((NetMessage::Bye(user), targets))
        },
        None => None,
    }
}

} // verus!
