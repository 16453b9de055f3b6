//! The ledger's callable surface: a counter slot, the two keyed registries,
//! the payment guard and the event log, owned by one state value that the
//! host passes into every operation.

use vstd::prelude::*;
use vstd::arithmetic::div_mod::lemma_add_mod_noop;
use vstd::arithmetic::div_mod::lemma_small_mod;
use crate::address::Address;
use crate::model::FollowerSet;
use crate::model::Op;
use crate::model::StateModel;
use crate::model::apply_op;
use crate::registry::Registry;
use crate::u256::U256;
use crate::u256::lemma_view_bound;
use crate::u256::sum_values;
use crate::u256::u256_modulus;

verus! {

/// The context of one payable call, supplied by the host: the identity that
/// invoked the call and the payment attached to it.
#[derive(Clone, Copy)]
pub struct MsgContext {
    pub sender: Address,
    pub value: U256,
}

/// The one domain failure: an attached payment below the owner's threshold.
#[derive(Clone, Copy, PartialEq, Eq, Structural, Debug)]
pub enum ContractError {
    WrongAmount,
}

/// The version tag that leads every encoded error payload.
pub const ERROR_ENCODING_VERSION: u8 = 1;

/// The payload tag of `WrongAmount`.
pub const WRONG_AMOUNT_TAG: u8 = 1;

/// The fixed byte payload that reports a failure to the caller: the encoding
/// version followed by the tag of the failure kind.
pub open spec fn spec_encode_error(e: ContractError) -> Seq<u8> {
    match e {
        ContractError::WrongAmount => seq![ERROR_ENCODING_VERSION, WRONG_AMOUNT_TAG],
    }
}

impl ContractError {
    /// Encodes the failure as its fixed, versioned byte payload.
    pub fn encode(&self) -> (r: Vec<u8>)
        ensures
            r@ == spec_encode_error(*self),
    {
        let mut out: Vec<u8> = Vec::new();
        out.push(ERROR_ENCODING_VERSION);
        out.push(WRONG_AMOUNT_TAG);
        proof {
            assert(out@ =~= spec_encode_error(*self));
        }
        out
    }
}

/// The persistent ledger state: the counter slot, the follower-count and
/// fee-threshold registries, and the append-only event log.
///
/// The fee-threshold registry is populated by the integrator through
/// [`Registry::set`]; no operation of the callable surface writes it.
pub struct Counter {
    pub number: U256,
    pub followers: Registry,
    pub fees: Registry,
    pub events: Vec<FollowerSet>,
}

impl View for Counter {
    type V = StateModel;

    open spec fn view(&self) -> StateModel {
        StateModel {
            number: self.number@,
            followers: Map::total(|a: Address| self.followers.spec_value(a)),
            fees: Map::total(|a: Address| self.fees.spec_value(a)),
            events: self.events@,
        }
    }
}

impl Counter {
    /// A freshly deployed ledger: counter zero, every registry entry zero,
    /// no events.
    pub fn new() -> (r: Counter)
        ensures
            r@.number == 0,
            forall|a: Address| r@.followers[a] == 0,
            forall|a: Address| r@.fees[a] == 0,
            r@.events == Seq::<FollowerSet>::empty(),
    {
        let c = Counter {
            number: U256::from_u64(0),
            followers: Registry::new(),
            fees: Registry::new(),
            events: Vec::new(),
        };
        proof {
            assert(c@.events =~= Seq::<FollowerSet>::empty());
        }
        c
    }

    /// Reads the counter; a pure read that always succeeds.
    pub fn number(&self) -> (r: Result<U256, Vec<u8>>)
        ensures
            r matches Ok(n) && n@ == self@.number,
    {
        Ok(self.number)
    }

    /// Overwrites the counter unconditionally; always succeeds.  Any caller
    /// may set it: the surface has no authorization check.
    pub fn set_number(&mut self, new_number: U256) -> (r: Result<(), Vec<u8>>)
        ensures
            r is Ok,
            final(self)@ == apply_op(old(self)@, Op::SetNumber { value: new_number@ }),
    {
        self.number = new_number;
        proof {
            assert(self@ =~~= apply_op(old(self)@, Op::SetNumber { value: new_number@ }));
        }
        Ok(())
    }

    /// Adds one to the counter, wrapping modulo 2^256; always succeeds.
    pub fn increment(&mut self) -> (r: Result<(), Vec<u8>>)
        ensures
            r is Ok,
            final(self)@ == apply_op(old(self)@, Op::Increment),
    {
        let next = self.number.wrapping_add(U256::from_u64(1));
        self.number = next;
        proof {
            assert(self@ =~~= apply_op(old(self)@, Op::Increment));
        }
        Ok(())
    }

    /// Reads the follower count of `owner`; zero for an identity never
    /// registered.  A pure read that always succeeds.
    pub fn get_followers(&self, owner: Address) -> (r: Result<U256, Vec<u8>>)
        ensures
            r matches Ok(n) && n@ == self@.followers[owner],
    {
        Ok(self.followers.get(owner))
    }

    /// Registers one follower for `owner`, guarded by the owner's fee
    /// threshold.
    ///
    /// A payment below the threshold fails with `WrongAmount` and changes
    /// nothing.  Otherwise the owner's follower count rises by exactly one
    /// (wrapping modulo 2^256), exactly one event recording the invoking
    /// identity is appended, and the new count is returned.  Anyone may pay
    /// to register a follower for any owner.
    pub fn set_followers(&mut self, owner: Address, msg: MsgContext) -> (r: Result<
        U256,
        ContractError,
    >)
        ensures
            final(self)@ == apply_op(
                old(self)@,
                Op::SetFollowers { owner, sender: msg.sender, payment: msg.value@ },
            ),
            msg.value@ < old(self)@.fees[owner] <==> r == Err::<U256, ContractError>(
                ContractError::WrongAmount,
            ),
            msg.value@ < old(self)@.fees[owner] ==> *final(self) == *old(self),
            msg.value@ >= old(self)@.fees[owner] ==> (r matches Ok(n) && n@ == (old(
                self,
            )@.followers[owner] + 1) % u256_modulus()),
    {
        let threshold = self.fees.get(owner);
        if msg.value.lt(&threshold) {
            return Err(ContractError::WrongAmount);
        }
        let current = self.followers.get(owner);
        let updated = current.wrapping_add(U256::from_u64(1));
        self.followers.set(owner, updated);
        self.events.push(FollowerSet { owner, follower: msg.sender });
        proof {
            assert(self@.followers =~~= old(self)@.followers.insert(
                owner,
                (old(self)@.followers[owner] + 1) % u256_modulus(),
            ));
            assert(self@ =~~= apply_op(
                old(self)@,
                Op::SetFollowers { owner, sender: msg.sender, payment: msg.value@ },
            ));
        }
        Ok(updated)
    }

    /// Sums a caller-supplied sequence, wrapping modulo 2^256; zero for an
    /// empty sequence.  Pure and stateless: it never touches stored state
    /// and never fails.
    pub fn add_values(&self, values: Vec<U256>) -> (r: Result<U256, Vec<u8>>)
        ensures
            r matches Ok(n) && n@ == sum_values(values@) % u256_modulus(),
    {
        let mut total = U256::from_u64(0);
        let mut i: usize = 0;
        proof {
            assert(values@.take(0) =~= Seq::<U256>::empty());
        }
        while i < values.len()
            invariant
                i <= values.len(),
                total@ == sum_values(values@.take(i as int)) % u256_modulus(),
            decreases values.len() - i,
        {
            let v = values[i];
            proof {
                assert(values@.take(i + 1).drop_last() =~= values@.take(i as int));
                lemma_view_bound(v);
                lemma_small_mod(v@, u256_modulus());
                lemma_add_mod_noop(
                    sum_values(values@.take(i as int)) as int,
                    v@ as int,
                    u256_modulus() as int,
                );
            }
            total = total.wrapping_add(v);
            i += 1;
        }
        proof {
            assert(values@.take(values.len() as int) =~= values@);
        }
        Ok(total)
    }
}

} // verus!
