use hexodsp::rng::{next_xoroshiro128, RandGen, SplitMix64};

#[test]
fn xoroshiro_step_from_seed() {
    let mut state: [u64; 2] = [0x193a6754a8a7d469, 0x97830e05113ba7bb];
    let r = next_xoroshiro128(&mut state);
    assert_eq!(r, 0xb0bd7559b9e37c24);
    assert_eq!(state, [0xe0619a050f3ca038, 0x99c73d28eb96951b]);
}

#[test]
fn randgen_stream_is_deterministic() {
    let mut g = RandGen::new();
    assert_eq!(g.next(), 0xb0bd7559b9e37c24);
    assert_eq!(g.next(), 0x7a28d72dfad33553);
    assert_eq!(g.next(), 0x16c1410205cfde51);
    let mut h = RandGen::new();
    h.next();
    h.next();
    h.next();
    assert_eq!(g, h);
}

#[test]
fn splitmix_from_zero() {
    let mut g = SplitMix64::new(0);
    assert_eq!(g.next_u64(), 0xe220a8397b1dcdaf);
    assert_eq!(g.0, 0x9e3779b97f4a7c15);
    assert_eq!(g.next_u64(), 0x6e789e6aa1b965f4);
    assert_eq!(g.next_i64(), 487617019471545679);
}

#[test]
fn splitmix_signed_output_and_seed() {
    let mut g = SplitMix64::new(0);
    assert_eq!(g.next_i64(), -2152535657050944081);
    let mut h = SplitMix64::new_from_i64(-1);
    assert_eq!(h.0, u64::MAX);
    assert_eq!(h.next_u64(), 0xe4d971771b652c20);
    assert_eq!(h.0, 0x9e3779b97f4a7c14);
}
