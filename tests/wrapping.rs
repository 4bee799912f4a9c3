use value_types::wrapping::WrappingU32;

#[test]
fn add_without_overflow() {
    assert_eq!(WrappingU32::new(2) + WrappingU32::new(3), WrappingU32::new(5));
}

#[test]
fn add_wraps_past_zero() {
    assert_eq!(
        WrappingU32::new(4294967295) + WrappingU32::new(10),
        WrappingU32::new(9)
    );
}

#[test]
fn max_plus_one_is_zero() {
    assert_eq!(WrappingU32::new(u32::MAX) + WrappingU32::new(1), WrappingU32::new(0));
}

#[test]
fn max_plus_max() {
    assert_eq!(
        WrappingU32::new(u32::MAX) + WrappingU32::new(u32::MAX),
        WrappingU32::new(u32::MAX - 1)
    );
}

#[test]
fn add_matches_modular_sum() {
    let samples: [u32; 6] = [0, 1, 7, 1 << 31, u32::MAX - 5, u32::MAX];
    for &x in samples.iter() {
        for &y in samples.iter() {
            let expected = ((x as u64 + y as u64) % (1u64 << 32)) as u32;
            assert_eq!(WrappingU32::new(x) + WrappingU32::new(y), WrappingU32::new(expected));
        }
    }
}

#[test]
fn copies_are_independent() {
    let mut source: u32 = 41;
    let mut a = WrappingU32::new(source);
    let b = a;
    let c = a.clone();
    source += 1;
    a = WrappingU32::new(source);
    assert_eq!(b, WrappingU32::new(41));
    assert_eq!(c, WrappingU32::new(41));
    assert_eq!(a, WrappingU32::new(42));
    assert_ne!(a, b);
}

#[test]
fn equality_is_an_equivalence() {
    let a = WrappingU32::new(17);
    let b = WrappingU32::new(17);
    let c = WrappingU32::new(17);
    let d = WrappingU32::new(18);
    assert_eq!(a, a);
    assert_eq!(a, b);
    assert_eq!(b, a);
    assert_eq!(b, c);
    assert_eq!(a, c);
    assert_ne!(a, d);
    assert_ne!(d, a);
}
