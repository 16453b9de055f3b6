use counter_ledger::address::Address;
use counter_ledger::contract::Counter;
use counter_ledger::contract::ContractError;
use counter_ledger::contract::MsgContext;
use counter_ledger::contract::ERROR_ENCODING_VERSION;
use counter_ledger::contract::WRONG_AMOUNT_TAG;
use counter_ledger::model::FollowerSet;
use counter_ledger::registry::Registry;
use counter_ledger::u256::U256;

fn u256_max() -> U256 {
    U256 { limb0: u64::MAX, limb1: u64::MAX, limb2: u64::MAX, limb3: u64::MAX }
}

#[test]
fn counter_starts_at_zero() {
    let c = Counter::new();
    assert_eq!(c.number(), Ok(U256::from_u64(0)));
}

#[test]
fn set_number_then_get_returns_it() {
    let mut c = Counter::new();
    assert_eq!(c.set_number(U256::from_u64(42)), Ok(()));
    assert_eq!(c.number(), Ok(U256::from_u64(42)));
    assert_eq!(c.set_number(u256_max()), Ok(()));
    assert_eq!(c.number(), Ok(u256_max()));
}

#[test]
fn increment_adds_one_per_call() {
    let mut c = Counter::new();
    c.set_number(U256::from_u64(5)).unwrap();
    c.increment().unwrap();
    c.increment().unwrap();
    c.increment().unwrap();
    assert_eq!(c.number(), Ok(U256::from_u64(8)));
}

#[test]
fn increment_wraps_at_the_top() {
    let mut c = Counter::new();
    c.set_number(u256_max()).unwrap();
    c.increment().unwrap();
    assert_eq!(c.number(), Ok(U256::from_u64(0)));
}

#[test]
fn followers_default_to_zero() {
    let c = Counter::new();
    assert_eq!(c.get_followers(Address::new(7, 7)), Ok(U256::from_u64(0)));
}

#[test]
fn underpayment_fails_and_mutates_nothing() {
    let mut c = Counter::new();
    let owner = Address::new(1, 10);
    c.fees.set(owner, U256::from_u64(100));
    let msg = MsgContext { sender: Address::new(2, 20), value: U256::from_u64(50) };
    assert_eq!(c.set_followers(owner, msg), Err(ContractError::WrongAmount));
    assert_eq!(c.get_followers(owner), Ok(U256::from_u64(0)));
    assert!(c.events.is_empty());
}

#[test]
fn sufficient_payment_registers_one_follower() {
    let mut c = Counter::new();
    let owner = Address::new(1, 10);
    let caller = Address::new(2, 20);
    c.fees.set(owner, U256::from_u64(100));
    let msg = MsgContext { sender: caller, value: U256::from_u64(150) };
    assert_eq!(c.set_followers(owner, msg), Ok(U256::from_u64(1)));
    assert_eq!(c.get_followers(owner), Ok(U256::from_u64(1)));
    assert_eq!(c.events, vec![FollowerSet { owner, follower: caller }]);
}

#[test]
fn paid_registration_scenario() {
    let mut c = Counter::new();
    let owner = Address::new(0xa, 0xaaaa);
    let caller = Address::new(0xc, 0xcccc);
    c.fees.set(owner, U256::from_u64(100));

    let low = MsgContext { sender: caller, value: U256::from_u64(50) };
    assert_eq!(c.set_followers(owner, low), Err(ContractError::WrongAmount));
    assert_eq!(c.get_followers(owner), Ok(U256::from_u64(0)));

    let high = MsgContext { sender: caller, value: U256::from_u64(150) };
    assert_eq!(c.set_followers(owner, high), Ok(U256::from_u64(1)));
    assert_eq!(c.get_followers(owner), Ok(U256::from_u64(1)));
    assert_eq!(c.events, vec![FollowerSet { owner, follower: caller }]);
}

#[test]
fn exact_threshold_payment_succeeds() {
    let mut c = Counter::new();
    let owner = Address::new(1, 1);
    c.fees.set(owner, U256::from_u64(100));
    let msg = MsgContext { sender: Address::new(2, 2), value: U256::from_u64(100) };
    assert_eq!(c.set_followers(owner, msg), Ok(U256::from_u64(1)));
}

#[test]
fn absent_threshold_means_zero_payment_suffices() {
    let mut c = Counter::new();
    let owner = Address::new(1, 1);
    let msg = MsgContext { sender: Address::new(2, 2), value: U256::from_u64(0) };
    assert_eq!(c.set_followers(owner, msg), Ok(U256::from_u64(1)));
}

#[test]
fn repeated_registration_counts_up_by_one() {
    let mut c = Counter::new();
    let owner = Address::new(1, 1);
    let msg = MsgContext { sender: Address::new(2, 2), value: U256::from_u64(0) };
    assert_eq!(c.set_followers(owner, msg), Ok(U256::from_u64(1)));
    assert_eq!(c.set_followers(owner, msg), Ok(U256::from_u64(2)));
    assert_eq!(c.get_followers(owner), Ok(U256::from_u64(2)));
    assert_eq!(c.events.len(), 2);
}

#[test]
fn owners_are_counted_independently() {
    let mut c = Counter::new();
    let first = Address::new(1, 1);
    let second = Address::new(2, 2);
    let msg = MsgContext { sender: Address::new(3, 3), value: U256::from_u64(0) };
    c.set_followers(first, msg).unwrap();
    assert_eq!(c.get_followers(first), Ok(U256::from_u64(1)));
    assert_eq!(c.get_followers(second), Ok(U256::from_u64(0)));
}

#[test]
fn sum_of_empty_sequence_is_zero() {
    let c = Counter::new();
    assert_eq!(c.add_values(Vec::new()), Ok(U256::from_u64(0)));
}

#[test]
fn sum_of_three_values() {
    let c = Counter::new();
    let values = vec![U256::from_u64(1), U256::from_u64(2), U256::from_u64(3)];
    assert_eq!(c.add_values(values), Ok(U256::from_u64(6)));
}

#[test]
fn sum_wraps_like_increment() {
    let c = Counter::new();
    assert_eq!(c.add_values(vec![u256_max(), U256::from_u64(1)]), Ok(U256::from_u64(0)));
    assert_eq!(c.add_values(vec![u256_max(), U256::from_u64(2)]), Ok(U256::from_u64(1)));
}

#[test]
fn sum_leaves_state_alone() {
    let mut c = Counter::new();
    c.set_number(U256::from_u64(9)).unwrap();
    c.add_values(vec![U256::from_u64(4), U256::from_u64(5)]).unwrap();
    assert_eq!(c.number(), Ok(U256::from_u64(9)));
}

#[test]
fn wrong_amount_encodes_to_its_fixed_payload() {
    let e = ContractError::WrongAmount;
    assert_eq!(e.encode(), vec![ERROR_ENCODING_VERSION, WRONG_AMOUNT_TAG]);
    assert_eq!(e.encode(), vec![1u8, 1u8]);
}

#[test]
fn registry_reads_back_what_was_set() {
    let mut r = Registry::new();
    let key = Address::new(5, 5);
    let other = Address::new(6, 6);
    assert_eq!(r.get(key), U256::from_u64(0));
    r.set(key, U256::from_u64(77));
    assert_eq!(r.get(key), U256::from_u64(77));
    assert_eq!(r.get(other), U256::from_u64(0));
    r.set(key, U256::from_u64(88));
    assert_eq!(r.get(key), U256::from_u64(88));
}

#[test]
fn wrapping_add_carries_between_limbs() {
    let r = U256::from_u64(u64::MAX).wrapping_add(U256::from_u64(1));
    assert_eq!(r, U256 { limb0: 0, limb1: 1, limb2: 0, limb3: 0 });
    assert_eq!(u256_max().wrapping_add(U256::from_u64(1)), U256::from_u64(0));
}

#[test]
fn lt_compares_mathematical_values() {
    let small = U256::from_u64(3);
    let big = U256 { limb0: 0, limb1: 0, limb2: 0, limb3: 1 };
    assert!(small.lt(&big));
    assert!(!big.lt(&small));
    assert!(!small.lt(&small));
    assert!(U256::from_u64(2).lt(&U256::from_u64(3)));
}
