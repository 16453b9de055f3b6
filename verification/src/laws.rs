//! Laws of the ledger that relate several operations, proved over the
//! abstract state model.

use vstd::prelude::*;
use vstd::arithmetic::div_mod::lemma_add_mod_noop_right;
use vstd::arithmetic::div_mod::lemma_small_mod;
use crate::address::Address;
use crate::model::Op;
use crate::model::StateModel;
use crate::model::apply_op;
use crate::model::run_ops;
use crate::u256::U256;
use crate::u256::sum_values;
use crate::u256::u256_modulus;

verus! {

/// A sequence of `n` increment operations.
pub open spec fn increments(n: nat) -> Seq<Op> {
    Seq::new(n, |i: int| Op::Increment)
}

/// Law: a run of `n` increments starting from counter value `v` leaves the
/// counter at `(v + n) mod 2^256` and touches nothing else.
pub proof fn lemma_increment_sequence(s: StateModel, n: nat)
    requires
        s.number < u256_modulus(),
    ensures
        run_ops(s, increments(n)).number == (s.number + n) % u256_modulus(),
        run_ops(s, increments(n)).followers == s.followers,
        run_ops(s, increments(n)).fees == s.fees,
        run_ops(s, increments(n)).events == s.events,
    decreases n,
{
    if n == 0 {
        lemma_small_mod(s.number, u256_modulus());
    } else {
        let stepped = apply_op(s, Op::Increment);
        assert(increments(n).drop_first() =~= increments((n - 1) as nat));
        lemma_increment_sequence(stepped, (n - 1) as nat);
        lemma_add_mod_noop_right(
            n - 1,
            s.number as int + 1,
            u256_modulus() as int,
        );
    }
}

/// Law: setting the counter to `x` and reading it immediately afterwards
/// yields `x`.
pub proof fn lemma_set_number_then_read(s: StateModel, x: nat)
    ensures
        apply_op(s, Op::SetNumber { value: x }).number == x,
{
}

/// Whether an operation is a registration aimed at `id`.
pub open spec fn op_registers(op: Op, id: Address) -> bool {
    op matches Op::SetFollowers { owner, .. } && owner == id
}

/// Law: the follower count of an identity that no operation of a run ever
/// targets stays zero.
pub proof fn lemma_untargeted_followers_stay_zero(s: StateModel, ops: Seq<Op>, id: Address)
    requires
        s.followers[id] == 0,
        forall|i: int| 0 <= i < ops.len() ==> !op_registers(ops[i], id),
    ensures
        run_ops(s, ops).followers[id] == 0,
    decreases ops.len(),
{
    if ops.len() > 0 {
        let stepped = apply_op(s, ops[0]);
        assert(!op_registers(ops[0], id));
        assert(stepped.followers[id] == 0);
        assert(forall|i: int|
            0 <= i < ops.drop_first().len() ==> !op_registers(#[trigger] ops.drop_first()[i], id));
        lemma_untargeted_followers_stay_zero(stepped, ops.drop_first(), id);
    }
}

/// Law: the sum of an empty sequence is zero, and the sum of three values is
/// their plain arithmetic sum.
pub proof fn lemma_sum_three(a: U256, b: U256, c: U256)
    ensures
        sum_values(Seq::<U256>::empty()) == 0,
        sum_values(seq![a, b, c]) == a@ + b@ + c@,
{
    let s = seq![a, b, c];
    assert(sum_values(Seq::<U256>::empty()) == 0);
    assert(seq![a].drop_last() =~= Seq::<U256>::empty());
    assert(sum_values(seq![a]) == a@);
    assert(seq![a, b].drop_last() =~= seq![a]);
    assert(sum_values(seq![a, b]) == a@ + b@);
    assert(s.drop_last() =~= seq![a, b]);
    assert(sum_values(s) == a@ + b@ + c@);
}

} // verus!
