use smart_cache::{CallContext, MyCacheableContract, Uint256};

fn w(x: u64) -> Uint256 {
    Uint256::from_u64(x)
}

fn max_word() -> Uint256 {
    Uint256::from_limbs([u64::MAX; 4])
}

fn holding(x: u64) -> MyCacheableContract {
    MyCacheableContract::from_value(w(x))
}

fn ctx(amount: u64) -> CallContext {
    CallContext { contract_address: [0xab; 20], value: w(amount) }
}

#[test]
fn deploy_increment_add_multiply_set_credit() {
    let mut c = MyCacheableContract::new();
    assert_eq!(c.read(), w(0));
    c.increment();
    assert_eq!(c.read(), w(1));
    c.add(w(3));
    assert_eq!(c.read(), w(4));
    c.multiply(w(2));
    assert_eq!(c.read(), w(8));
    c.set(w(100));
    assert_eq!(c.read(), w(100));
    c.add_from_external_credit(&ctx(2));
    assert_eq!(c.read(), w(102));
}

#[test]
fn set_then_read_returns_the_value_set() {
    let mut c = holding(55);
    for n in [w(0), w(1), w(u64::MAX), Uint256::from_limbs([1, 2, 3, 4]), max_word()] {
        c.set(n);
        assert_eq!(c.read(), n);
    }
}

#[test]
fn decrement_positive_and_zero() {
    let mut c = holding(5);
    c.decrement();
    assert_eq!(c.read(), w(4));
    let mut z = MyCacheableContract::new();
    z.decrement();
    assert_eq!(z.read(), w(0));
    let mut carry = MyCacheableContract::from_value(Uint256::from_limbs([0, 1, 0, 0]));
    carry.decrement();
    assert_eq!(carry.read(), w(u64::MAX));
}

#[test]
fn subtract_guarded_by_value() {
    let mut c = holding(10);
    c.subtract(w(11));
    assert_eq!(c.read(), w(10));
    c.subtract(w(4));
    assert_eq!(c.read(), w(6));
    c.subtract(w(6));
    assert_eq!(c.read(), w(0));
    let mut big = MyCacheableContract::from_value(Uint256::from_limbs([0, 0, 0, 1]));
    big.subtract(w(1));
    assert_eq!(big.read(), Uint256::from_limbs([u64::MAX, u64::MAX, u64::MAX, 0]));
}

#[test]
fn divide_floors_and_skips_zero() {
    let mut c = holding(17);
    c.divide(w(0));
    assert_eq!(c.read(), w(17));
    c.divide(w(5));
    assert_eq!(c.read(), w(3));
    let mut big = MyCacheableContract::from_value(Uint256::from_limbs([0, 1, 0, 0]));
    big.divide(w(2));
    assert_eq!(big.read(), w(1 << 63));
}

#[test]
fn modulo_returns_zero_for_zero_divisor() {
    let c = holding(17);
    assert_eq!(c.modulo(w(0)), w(0));
    assert_eq!(c.modulo(w(5)), w(2));
    assert_eq!(c.modulo(w(17)), w(0));
    assert_eq!(c.modulo(w(100)), w(17));
    assert_eq!(c.read(), w(17));
}

#[test]
fn swap_three_times_restores() {
    let mut c = holding(9);
    let r1 = c.swap(w(20));
    assert_eq!(r1, w(9));
    assert_eq!(c.read(), w(20));
    let r2 = c.swap(w(30));
    assert_eq!(r2, w(20));
    let r3 = c.swap(r1);
    assert_eq!(r3, w(30));
    assert_eq!(c.read(), w(9));
}

#[test]
fn even_and_odd_are_complementary() {
    let values = [
        w(0),
        w(1),
        w(2),
        w(u64::MAX),
        Uint256::from_limbs([0, 1, 0, 0]),
        Uint256::from_limbs([3, 0, 0, 7]),
        max_word(),
    ];
    for v in values {
        let c = MyCacheableContract::from_value(v);
        assert_ne!(c.is_even(), c.is_odd());
    }
    assert!(holding(4).is_even());
    assert!(holding(7).is_odd());
    assert!(max_word_counter().is_odd());
}

fn max_word_counter() -> MyCacheableContract {
    MyCacheableContract::from_value(max_word())
}

#[test]
fn reset_yields_zero() {
    for v in [w(0), w(12), max_word()] {
        let mut c = MyCacheableContract::from_value(v);
        c.reset();
        assert_eq!(c.read(), w(0));
        assert!(c.is_zero());
    }
}

#[test]
fn add_carries_and_wraps() {
    let mut c = holding(u64::MAX);
    c.add(w(1));
    assert_eq!(c.read(), Uint256::from_limbs([0, 1, 0, 0]));
    let mut m = max_word_counter();
    m.add(w(2));
    assert_eq!(m.read(), w(1));
}

#[test]
fn increment_wraps_at_maximum() {
    let mut m = max_word_counter();
    m.increment();
    assert_eq!(m.read(), w(0));
}

#[test]
fn multiply_and_square_wrap() {
    let mut c = holding(6);
    c.multiply(w(7));
    assert_eq!(c.read(), w(42));
    let mut m = max_word_counter();
    m.multiply(max_word());
    assert_eq!(m.read(), w(1));
    let mut s = holding(12);
    s.square();
    assert_eq!(s.read(), w(144));
    let mut t = MyCacheableContract::from_value(Uint256::from_limbs([0, 0, 1, 0]));
    t.square();
    assert_eq!(t.read(), w(0));
}

#[test]
fn power_exact_and_wrapping() {
    let mut c = holding(3);
    c.power(w(5));
    assert_eq!(c.read(), w(243));
    let mut two = holding(2);
    two.power(w(256));
    assert_eq!(two.read(), w(0));
    let mut two_high = holding(2);
    two_high.power(w(255));
    assert_eq!(two_high.read(), Uint256::from_limbs([0, 0, 0, 1 << 63]));
    let mut zero = MyCacheableContract::new();
    zero.power(w(0));
    assert_eq!(zero.read(), w(1));
}

#[test]
fn set_maximum_and_minimum() {
    let mut c = holding(10);
    c.set_maximum(w(5));
    assert_eq!(c.read(), w(10));
    c.set_maximum(w(10));
    assert_eq!(c.read(), w(10));
    c.set_maximum(w(15));
    assert_eq!(c.read(), w(15));
    c.set_minimum(w(20));
    assert_eq!(c.read(), w(15));
    c.set_minimum(w(3));
    assert_eq!(c.read(), w(3));
    let mut limb = holding(u64::MAX);
    limb.set_maximum(Uint256::from_limbs([0, 1, 0, 0]));
    assert_eq!(limb.read(), Uint256::from_limbs([0, 1, 0, 0]));
    limb.set_minimum(w(u64::MAX));
    assert_eq!(limb.read(), w(u64::MAX));
}

#[test]
fn increment_by_matches_add() {
    let mut a = holding(40);
    a.increment_by(w(2));
    assert_eq!(a.read(), w(42));
    let mut m = max_word_counter();
    m.increment_by(w(1));
    assert_eq!(m.read(), w(0));
}

#[test]
fn external_credit_adds_transferred_amount() {
    let mut c = holding(1);
    c.add_from_external_credit(&ctx(0));
    assert_eq!(c.read(), w(1));
    c.add_from_external_credit(&ctx(41));
    assert_eq!(c.read(), w(42));
}

#[test]
fn double_and_triple_leave_value() {
    let c = holding(21);
    assert_eq!(c.double(), w(42));
    assert_eq!(c.triple(), w(63));
    assert_eq!(c.read(), w(21));
    let m = max_word_counter();
    assert_eq!(m.double(), Uint256::from_limbs([u64::MAX - 1, u64::MAX, u64::MAX, u64::MAX]));
    assert_eq!(m.triple(), Uint256::from_limbs([u64::MAX - 2, u64::MAX, u64::MAX, u64::MAX]));
}

#[test]
fn is_zero_predicate() {
    assert!(MyCacheableContract::new().is_zero());
    assert!(!holding(1).is_zero());
    assert!(!MyCacheableContract::from_value(Uint256::from_limbs([0, 0, 0, 1])).is_zero());
}

#[test]
fn increment_counter_returns_new_value() {
    let mut c = holding(41);
    assert_eq!(c.increment_counter(), w(42));
    assert_eq!(c.read(), w(42));
    let mut m = max_word_counter();
    assert_eq!(m.increment_counter(), w(0));
}

#[test]
fn opt_in_event_names_contract_address() {
    let c = MyCacheableContract::new();
    let e = c.opt_in_to_cache(&ctx(0));
    assert_eq!(e.contract_addr, [0xab; 20]);
}

#[test]
fn expensive_logic_exact_values() {
    let c = MyCacheableContract::new();
    assert_eq!(c.expensive_logic(0), 17207790505667156024);
    assert_eq!(c.expensive_logic(1), 10807364072627499673);
    assert_eq!(c.expensive_logic(42), 6644297349935311906);
}

#[test]
fn ping_answers_pong() {
    assert_eq!(MyCacheableContract::new().ping(), "pong");
}

#[test]
fn word_limbs_round_trip() {
    let limbs = [1, 2, 3, 4];
    assert_eq!(Uint256::from_limbs(limbs).to_limbs(), limbs);
    assert_eq!(Uint256::zero().to_limbs(), [0; 4]);
    assert_eq!(w(9).to_limbs(), [9, 0, 0, 0]);
}
