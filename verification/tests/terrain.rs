use canon_3d::terrain::{MapSize, Rng};

#[test]
fn a_seed_reproduces_its_draws() {
    let mut a = Rng::new(0);
    assert_eq!(a.next_bits(), 14819496);
    assert_eq!(a.next_bits(), 7239838);
    assert_eq!(a.next_bits(), 443485);
    let mut b = Rng::new(77);
    let mut c = b.clone();
    for _ in 0..100 {
        let x = b.next_bits();
        assert_eq!(x, c.next_bits());
        assert!(x < 1 << 24);
    }
    assert_ne!(Rng::new(1).next_bits(), Rng::new(2).next_bits());
}

#[test]
fn map_sizes_are_named_and_read_back() {
    assert_eq!(MapSize::Small.label(), "Small");
    assert_eq!(MapSize::Medium.label(), "Medium");
    assert_eq!(MapSize::Large.label(), "Large");
    assert_eq!(MapSize::parse("small"), Some(MapSize::Small));
    assert_eq!(MapSize::parse("MEDIUM"), Some(MapSize::Medium));
    assert_eq!(MapSize::parse("LaRgE"), Some(MapSize::Large));
    assert_eq!(MapSize::parse("huge"), None);
    assert_eq!(MapSize::parse(" small"), None);
    assert_eq!(MapSize::parse(""), None);
}
