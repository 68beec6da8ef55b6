use mt19937::Prng;

/// The double in [0, 1) that the 53-bit integer stands for.
fn res53(p: &mut Prng) -> f64 {
    (p.genrand_int53() as f64) * (1.0 / 9007199254740992.0)
}

#[test]
fn it_works() {
    let mut state = Prng::new_init_by_array(&[0]);
    assert_eq!(&res53(&mut state).to_string()[..7], "0.84442");
    assert_eq!(&res53(&mut state).to_string()[..7], "0.75795");
    assert_eq!(&res53(&mut state).to_string()[..7], "0.42057");
    state.init_genrand(69);
    assert_eq!(&res53(&mut state).to_string()[..7], "0.29624");
    assert_eq!(state.genrand_uint32(), 3474919369);
}

#[test]
fn scalar_seed_5489_first_words() {
    let mut p = Prng::new_init_genrand(5489);
    assert_eq!(p.genrand_uint32(), 3499211612);
    assert_eq!(p.genrand_uint32(), 581869302);
    assert_eq!(p.genrand_uint32(), 3890346734);
}

#[test]
fn scalar_seed_5489_ten_thousandth_word() {
    let mut p = Prng::new_init_genrand(5489);
    let mut last: u32 = 0;
    for _ in 0..10000 {
        last = p.genrand_uint32();
    }
    assert_eq!(last, 4123659995);
}

#[test]
fn array_seed_reference_words() {
    let mut p = Prng::new_init_by_array(&[0x123, 0x234, 0x345, 0x456]);
    assert_eq!(p.genrand_uint32(), 1067595299);
    assert_eq!(p.genrand_uint32(), 955945823);
    assert_eq!(p.genrand_uint32(), 477289528);
    assert_eq!(p.genrand_uint32(), 4107218783);
    assert_eq!(p.genrand_uint32(), 4228976476);
}

#[test]
fn same_scalar_seed_same_sequence() {
    let mut a = Prng::new_init_genrand(12345);
    let mut b = Prng::new_init_genrand(12345);
    for _ in 0..2000 {
        assert_eq!(a.genrand_uint32(), b.genrand_uint32());
        assert_eq!(a.genrand_int53(), b.genrand_int53());
    }
}

#[test]
fn same_array_seed_same_sequence() {
    let key: Vec<u32> = (0..700).collect();
    let mut a = Prng::new_init_by_array(&key);
    let mut b = Prng::new_init_by_array(&key);
    for _ in 0..2000 {
        assert_eq!(a.genrand_uint32(), b.genrand_uint32());
    }
}

#[test]
fn different_seeds_differ() {
    let mut a = Prng::new_init_genrand(1);
    let mut b = Prng::new_init_genrand(2);
    let xs: Vec<u32> = (0..10).map(|_| a.genrand_uint32()).collect();
    let ys: Vec<u32> = (0..10).map(|_| b.genrand_uint32()).collect();
    assert_ne!(xs, ys);
}

#[test]
fn zero_seeds_give_nonzero_words() {
    let mut a = Prng::new_init_genrand(0);
    let mut b = Prng::new_init_by_array(&[0]);
    assert!((0..624).any(|_| a.genrand_uint32() != 0));
    assert!((0..624).any(|_| b.genrand_uint32() != 0));
}

#[test]
fn reseed_restarts_sequence() {
    let mut used = Prng::new_init_genrand(7);
    for _ in 0..1000 {
        used.genrand_uint32();
    }
    used.init_genrand(42);
    let mut fresh = Prng::new_init_genrand(42);
    for _ in 0..1300 {
        assert_eq!(used.genrand_uint32(), fresh.genrand_uint32());
    }
}

#[test]
fn reseed_by_array_restarts_sequence() {
    let mut used = Prng::new_init_by_array(&[9, 8, 7]);
    for _ in 0..625 {
        used.genrand_uint32();
    }
    used.init_by_array(&[0x123, 0x234, 0x345, 0x456]);
    assert_eq!(used.genrand_uint32(), 1067595299);
    assert_eq!(used.genrand_uint32(), 955945823);
}

#[test]
fn boundary_draws_match_fresh_stream() {
    let mut a = Prng::new_init_genrand(5489);
    let words: Vec<u32> = (0..1250).map(|_| a.genrand_uint32()).collect();
    let mut b = Prng::new_init_genrand(5489);
    for _ in 0..624 {
        b.genrand_uint32();
    }
    assert_eq!(b.genrand_uint32(), words[624]);
    assert_eq!(b.genrand_uint32(), words[625]);
    assert_ne!(words[623], words[624]);
}

#[test]
fn int53_combines_two_words() {
    let mut a = Prng::new_init_genrand(5489);
    let v = a.genrand_int53();
    let expected = ((3499211612u64 >> 5) << 26) + (581869302u64 >> 6);
    assert_eq!(v, expected);
    assert!(v < (1u64 << 53));
    assert_eq!(a.genrand_uint32(), 3890346734);
}

#[test]
fn empty_key_is_refused() {
    assert!(Prng::try_new_init_by_array(&[]).is_none());
    let mut p = Prng::try_new_init_by_array(&[0x123, 0x234, 0x345, 0x456]).unwrap();
    assert_eq!(p.genrand_uint32(), 1067595299);
}
