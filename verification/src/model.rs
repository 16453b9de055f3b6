//! The mathematical model of the ledger: its abstract state and the effect of
//! each mutating operation on it.

use vstd::prelude::*;
use crate::address::Address;
use crate::u256::u256_modulus;

verus! {

/// One record of the append-only event log: a successful paid registration of
/// `follower` on behalf of `owner`.
#[derive(Clone, Copy, PartialEq, Eq, Structural, Debug)]
pub struct FollowerSet {
    pub owner: Address,
    pub follower: Address,
}

/// The abstract ledger state: the counter value, the two registries as total
/// maps (absent keys read as zero), and the event log in emission order.
#[verifier::ext_equal]
pub ghost struct StateModel {
    pub number: nat,
    pub followers: Map<Address, nat>,
    pub fees: Map<Address, nat>,
    pub events: Seq<FollowerSet>,
}

/// A mutating operation of the callable surface, with the call context a
/// payable operation receives from the host.
pub ghost enum Op {
    SetNumber { value: nat },
    Increment,
    SetFollowers { owner: Address, sender: Address, payment: nat },
}

/// The state after one operation.  A registration whose payment is below the
/// owner's threshold changes nothing; a sufficient payment raises the owner's
/// follower count by one (wrapping) and appends exactly one event.
pub open spec fn apply_op(s: StateModel, op: Op) -> StateModel {
    match op {
        Op::SetNumber { value } => (StateModel { number: value, ..s }),
        Op::Increment => (StateModel { number: (s.number + 1) % u256_modulus(), ..s }),
        Op::SetFollowers { owner, sender, payment } => {
            if payment < s.fees[owner] {
                s
            } else {
                (StateModel {
                    followers: s.followers.insert(
                        owner,
                        (s.followers[owner] + 1) % u256_modulus(),
                    ),
                    events: s.events.push(FollowerSet { owner, follower: sender }),
                    ..s
                })
            }
        },
    }
}

/// The state after a sequence of operations, applied first to last.
pub open spec fn run_ops(s: StateModel, ops: Seq<Op>) -> StateModel
    decreases ops.len(),
{
    if ops.len() == 0 {
        s
    } else {
        run_ops(apply_op(s, ops[0]), ops.drop_first())
    }
}

} // verus!
