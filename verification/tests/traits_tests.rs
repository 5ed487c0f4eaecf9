use std_reset::prelude::{AsPrim, FromPrim, Of, To, ToPrim, TryTo};

#[derive(Debug, PartialEq)]
struct Rubles(u32);

#[derive(Debug, PartialEq)]
struct Dollars(u32);

impl Of<Rubles> for Dollars {
    // outside verified code the conversion relation is a plain function
    fn of_spec(_: Rubles, _: Dollars) -> bool {
        true
    }

    fn of(value: Rubles) -> Dollars {
        Dollars(value.0 / 2)
    }
}

#[test]
fn of_and_to_agree() {
    assert_eq!(Dollars::of(Rubles(10)), Dollars(5));
    assert_eq!(Rubles(10).to::<Dollars>(), Dollars(5));
}

#[test]
fn of_maps_vectors() {
    let rubles = vec![Rubles(2), Rubles(4), Rubles(6)];
    let dollars: Vec<Dollars> = rubles.to();
    assert_eq!(dollars, vec![Dollars(1), Dollars(2), Dollars(3)]);
}

#[derive(Debug, PartialEq, Clone)]
struct Euros(u32);

impl Of<Euros> for Dollars {
    fn of_spec(_: Euros, _: Dollars) -> bool {
        true
    }

    fn of(value: Euros) -> Dollars {
        Dollars(value.0 + 1)
    }
}

#[test]
fn of_maps_borrowed_vectors() {
    let euros = vec![Euros(1), Euros(2)];
    let dollars: Vec<Dollars> = (&euros).to();
    assert_eq!(dollars, vec![Dollars(2), Dollars(3)]);
    // the source is still usable
    assert_eq!(euros.len(), 2);
}

#[test]
fn try_to_converts_a_vector_to_an_array() {
    let arr: [u8; 3] = vec![1u8, 2, 3].try_to().unwrap();
    assert_eq!(arr, [1, 2, 3]);
}

#[test]
fn try_to_checks_the_range() {
    assert_eq!(5u64.try_to::<u8>(), Ok(5u8));
    assert!(300u64.try_to::<u8>().is_err());
}

#[test]
fn to_prim_casts() {
    assert_eq!(2i32.to_u64(), 2u64);
    assert_eq!((-1i8).to_u8(), 255u8);
    assert_eq!(300u64.to_u8(), 44u8);
    assert_eq!(255u8.to_i8(), -1i8);
    assert_eq!(7usize.to_i128(), 7i128);
}

#[test]
fn as_from_and_as_() {
    assert_eq!(u64::as_from(10i32), 10u64);
    assert_eq!(f_as_u8(514u32), 2u8);
    assert_eq!(2i64.as_::<u8>(), 2u8);
    let all: Vec<u32> = vec![2u8.as_(), 3i16.as_(), 4isize.as_()];
    assert_eq!(all, vec![2u32, 3, 4]);
}

fn f_as_u8<F: ToPrim>(value: F) -> u8 {
    value.as_()
}
