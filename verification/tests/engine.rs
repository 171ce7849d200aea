use diet_mac_and_cheese::backend::{
    from_bytes_le, DietMacAndCheeseProver, DietMacAndCheeseVerifier, Monitor, TICK_TIMER,
};
use diet_mac_and_cheese::channel::Channel;
use diet_mac_and_cheese::error::Error;
use diet_mac_and_cheese::f40b::F40b;
use diet_mac_and_cheese::f61p::F61p;
use diet_mac_and_cheese::field::FiniteField;
use diet_mac_and_cheese::gf128::Gf128;

fn pair<FE: FiniteField>(
    no_batching: bool,
) -> (Channel, DietMacAndCheeseProver<FE>, DietMacAndCheeseVerifier<FE>) {
    let mut ch = Channel::new();
    let v = DietMacAndCheeseVerifier::<FE>::init(&mut ch, no_batching).unwrap();
    let p = DietMacAndCheeseProver::<FE>::init(&mut ch, no_batching).unwrap();
    (ch, p, v)
}

// The circuit:
//   one1        = public(1)
//   one2        = public(1)
//   two_pub     = add(one1, one2)
//   three_pub   = addc(two_pub, 1)
//   two_priv    = priv(2)
//   six         = mul(two_priv, three_pub)
//   twelve_priv = mulc(six, 2)
//   n24_priv    = mul(twelve_priv, two_priv)
//   r_zero_priv = addc(n24_priv, -24)
//   assert_zero(r_zero_priv)   -- accepted
//   assert_zero(n24_priv)      -- rejected
fn run_test_circuit(no_batching: bool) {
    let (mut ch, mut p, mut v) = pair::<F61p>(no_batching);

    let one = F61p(1);
    let two = one.add(one);
    let three = two.add(one);

    let one1_p = p.input_public(one);
    let one1_v = v.input_public(one);
    let one2_p = p.input_public(one);
    let one2_v = v.input_public(one);
    let two_pub_p = p.add(&one1_p, &one2_p).unwrap();
    let two_pub_v = v.add(&one1_v, &one2_v).unwrap();
    assert_eq!(two_pub_p, p.input_public(two));
    let three_pub_p = p.addc(&two_pub_p, one).unwrap();
    let three_pub_v = v.addc(&two_pub_v, one).unwrap();
    assert_eq!(three_pub_p, p.input_public(three));
    let two_priv_p = p.input_private(one.add(one)).unwrap();
    let two_priv_v = v.input_private().unwrap();
    let six_p = p.mul(&two_priv_p, &three_pub_p).unwrap();
    let six_v = v.mul(&two_priv_v, &three_pub_v).unwrap();
    let twelve_p = p.mulc(&six_p, two).unwrap();
    let twelve_v = v.mulc(&six_v, two).unwrap();
    assert_eq!(twelve_p.value(), three.mul(two).mul(two));
    let n24_p = p.mul(&twelve_p, &two_priv_p).unwrap();
    let n24_v = v.mul(&twelve_v, &two_priv_v).unwrap();
    let c24 = three.mul(two).mul(two).mul(two);
    let r_zero_p = p.addc(&n24_p, c24.neg()).unwrap();
    let r_zero_v = v.addc(&n24_v, c24.neg()).unwrap();
    p.assert_zero(&mut ch, &r_zero_p).unwrap();
    v.assert_zero(&mut ch, &r_zero_v).unwrap();
    p.finalize(&mut ch).unwrap();
    v.finalize(&mut ch).unwrap();

    if no_batching {
        // In immediate mode the failing assertion itself is rejected, and
        // the evaluators are poisoned from then on.
        assert!(matches!(p.assert_zero(&mut ch, &n24_p), Err(Error::ProtocolError)));
        assert!(matches!(v.assert_zero(&mut ch, &n24_v), Err(Error::ProtocolError)));
        assert!(matches!(p.finalize(&mut ch), Err(Error::StateError)));
        assert!(matches!(v.finalize(&mut ch), Err(Error::StateError)));
    } else {
        // In batched mode the assertion is merely queued; the following
        // finalize is what fails, on both sides.
        p.assert_zero(&mut ch, &n24_p).unwrap();
        v.assert_zero(&mut ch, &n24_v).unwrap();
        assert!(matches!(p.finalize(&mut ch), Err(Error::ProtocolError)));
        assert!(matches!(v.finalize(&mut ch), Err(Error::ProtocolError)));
    }
    // After the failure every further operation reports a state error.
    assert!(matches!(p.add(&one1_p, &one2_p), Err(Error::StateError)));
    assert!(matches!(v.add(&one1_v, &one2_v), Err(Error::StateError)));
    assert!(matches!(p.input_private(one), Err(Error::StateError)));
    assert!(matches!(v.input_private(), Err(Error::StateError)));
}

fn run_test_challenge<FE: FiniteField>() {
    let (mut ch, mut p, mut v) = pair::<FE>(false);
    let cp = p.challenge().unwrap();
    let cv = v.challenge().unwrap();
    p.finalize(&mut ch).unwrap();
    v.finalize(&mut ch).unwrap();
    assert!(cp.mac().eq_el(cv.mac()));
}

#[test]
fn test_f61p() {
    run_test_circuit(false);
    run_test_challenge::<F61p>();
}

#[test]
fn test_f40b() {
    run_test_challenge::<F40b>();
}

#[test]
fn test_challenge_tags_bit_identical() {
    let (mut ch, mut p, mut v) = pair::<F61p>(false);
    let cp = p.challenge().unwrap();
    let cv = v.challenge().unwrap();
    p.finalize(&mut ch).unwrap();
    v.finalize(&mut ch).unwrap();
    assert_eq!(cp.mac(), cv.mac());
    assert_eq!(cp.value(), F61p(0));
}

#[test]
fn test_batching_equivalence() {
    // The same gate sequence, once deferred and once immediate: identical
    // success/failure outcomes.
    run_test_circuit(false);
    run_test_circuit(true);
}

#[test]
fn test_mult_check_count() {
    let (mut ch, mut p, mut v) = pair::<F61p>(false);
    let two = F61p(2);
    let a_p = p.input_private(two).unwrap();
    let a_v = v.input_private().unwrap();
    let b_p = p.mul(&a_p, &a_p).unwrap();
    let b_v = v.mul(&a_v, &a_v).unwrap();
    let _c_p = p.mul(&b_p, &a_p).unwrap();
    let _c_v = v.mul(&b_v, &a_v).unwrap();
    assert_eq!(p.monitor.monitor_mul, 2);
    assert_eq!(v.monitor.monitor_mul, 2);
    let np = p.do_mult_check(&mut ch).unwrap();
    let nv = v.do_mult_check(&mut ch).unwrap();
    assert_eq!(np, 2);
    assert_eq!(nv, 2);
    // A fresh epoch starts at zero.
    let np2 = p.do_mult_check(&mut ch).unwrap();
    let nv2 = v.do_mult_check(&mut ch).unwrap();
    assert_eq!(np2, 0);
    assert_eq!(nv2, 0);
}

#[test]
fn test_reset_clears_poison_and_accumulator() {
    let (mut ch, mut p, mut v) = pair::<F61p>(false);
    let one = F61p(1);
    let m_p = p.input_private(one).unwrap();
    let m_v = v.input_private().unwrap();
    p.assert_zero(&mut ch, &m_p).unwrap();
    v.assert_zero(&mut ch, &m_v).unwrap();
    assert!(p.finalize(&mut ch).is_err());
    assert!(v.finalize(&mut ch).is_err());
    assert!(matches!(p.input_private(one), Err(Error::StateError)));
    p.reset();
    v.reset();
    // After a reset both roles work again on the shared context.
    let n_p = p.input_private(one).unwrap();
    let n_v = v.input_private().unwrap();
    assert_eq!(n_p.mac(), {
        // tag = key + value * delta holds over the shared stream
        n_v.mac().add(one.mul(v.verifier.get_delta()))
    });
}

#[test]
fn test_prover_init_needs_seed() {
    let mut ch = Channel::new();
    let r = DietMacAndCheeseProver::<F61p>::init(&mut ch, false);
    assert!(matches!(r, Err(Error::ProtocolError)));
}

#[test]
fn test_rejection_error_is_protocol_error() {
    let (mut ch, mut p, mut v) = pair::<F61p>(false);
    let one = F61p(1);
    let m_p = p.input_private(one).unwrap();
    let m_v = v.input_private().unwrap();
    p.assert_zero(&mut ch, &m_p).unwrap();
    v.assert_zero(&mut ch, &m_v).unwrap();
    assert!(matches!(p.finalize(&mut ch), Err(Error::ProtocolError)));
    assert!(matches!(v.finalize(&mut ch), Err(Error::ProtocolError)));
}

#[test]
fn test_finalize_is_idempotent_when_empty() {
    let (mut ch, mut p, mut v) = pair::<F61p>(false);
    p.finalize(&mut ch).unwrap();
    v.finalize(&mut ch).unwrap();
    p.finalize(&mut ch).unwrap();
    v.finalize(&mut ch).unwrap();
}

#[test]
fn test_padded_decode_f61p() {
    assert_eq!(from_bytes_le::<F61p>(&[7]), Ok(F61p(7)));
    assert_eq!(from_bytes_le::<F61p>(&[7, 0, 0, 0, 0, 0, 0, 0, 0, 0, 0, 0]), Ok(F61p(7)));
    assert_eq!(from_bytes_le::<F61p>(&[]), Ok(F61p(0)));
    assert_eq!(from_bytes_le::<F61p>(&[0, 0, 0, 0]), Ok(F61p(0)));
    assert_eq!(
        from_bytes_le::<F61p>(&[0x34, 0x12, 0, 0, 0, 0, 0, 0, 0, 0]),
        Ok(F61p(0x1234))
    );
    // Nine significant bytes exceed the canonical length of eight.
    assert_eq!(
        from_bytes_le::<F61p>(&[1, 1, 1, 1, 1, 1, 1, 1, 1]),
        Err(Error::EncodingError)
    );
    // Eight bytes of 0xff denote a value outside the field.
    assert_eq!(
        from_bytes_le::<F61p>(&[0xff; 8]),
        Err(Error::EncodingError)
    );
}

#[test]
fn test_padded_decode_gf128() {
    assert_eq!(from_bytes_le::<Gf128>(&[9, 0, 0, 0]), Ok(Gf128(9)));
    let mut long = vec![9u8];
    long.extend(std::iter::repeat(0u8).take(30));
    assert_eq!(from_bytes_le::<Gf128>(&long), Ok(Gf128(9)));
    let mut over = vec![1u8; 17];
    over[16] = 1;
    assert_eq!(from_bytes_le::<Gf128>(&over), Err(Error::EncodingError));
}

#[test]
fn test_gf128_arithmetic() {
    // x * x = x^2
    assert_eq!(Gf128(2).mul(Gf128(2)), Gf128(4));
    // (x^127)^2 folds through x^128 = x^7 + x^2 + x + 1
    assert_eq!(Gf128(1u128 << 127).mul(Gf128(2)), Gf128(0x87));
    assert_eq!(Gf128(5).add(Gf128(3)), Gf128(6));
    assert_eq!(Gf128(7).mul(Gf128(1)), Gf128(7));
    assert_eq!(Gf128(7).mul(Gf128(0)), Gf128(0));
}

#[test]
fn test_f40b_arithmetic() {
    assert_eq!(F40b(2).mul(F40b(2)), F40b(4));
    // (x^39)^2 folds through x^40 = x^5 + x^4 + x^3 + 1
    assert_eq!(F40b(1u64 << 39).mul(F40b(2)), F40b(0x39));
    assert_eq!(F40b(1).mul(F40b(1)), F40b(1));
    assert_eq!(F40b(5).add(F40b(3)), F40b(6));
}

#[test]
fn test_generator() {
    let n = Gf128::multiplicative_group_order();
    let prime_factors: Vec<u128> = vec![67280421310721, 274177, 6700417, 641, 65537, 257, 17, 5, 3];
    let x = Gf128::generator();
    for p in prime_factors.iter() {
        let p = *p;
        assert_ne!(Gf128(1), x.pow(n / p));
    }
}

#[test]
fn test_monitor_counters() {
    let mut m = Monitor::default();
    m.incr_monitor_add();
    m.incr_monitor_add();
    m.incr_monitor_mul();
    m.incr_zk_mult_check(5);
    assert_eq!(m.monitor_add, 2);
    assert_eq!(m.monitor_mul, 1);
    assert_eq!(m.monitor_zk_mult_check, 5);
    assert_eq!(m.tick, 3);
    m.tick = TICK_TIMER - 1;
    m.tick();
    assert_eq!(m.tick, 0);
    // The wrap makes exactly one progress summary due.
    assert_eq!(m.summaries_due, 1);
    let summary = m.take_summary();
    assert!(summary.is_some());
    assert_eq!(summary.unwrap(), m.log_monitor());
    assert!(m.take_summary().is_none());
    // The final summary warns exactly when the multiplication-gate count
    // and the checked-triple count diverge.
    assert!(m.log_final_monitor().contains("warning"));
    m.incr_zk_mult_check(usize::MAX);
    assert_eq!(m.monitor_zk_mult_check, usize::MAX);
    assert!(!m.log_monitor().is_empty());
}

#[test]
fn test_f61p_field_ops() {
    let p_minus_1 = F61p(2305843009213693950);
    assert_eq!(p_minus_1.add(F61p(1)), F61p(0));
    assert_eq!(p_minus_1.mul(p_minus_1), F61p(1));
    assert_eq!(F61p(0).neg(), F61p(0));
    assert_eq!(F61p(5).neg().add(F61p(5)), F61p(0));
    assert_eq!(F61p(3).mul(F61p(4)), F61p(12));
}
