use hdf5_core::gen::{
    gen_ascii, gen_ascii_bytes, gen_shape, gen_unicode_text, gen_vec, Enum, Gen, TupleStruct, VarLenStruct,
    ASCII_MAX, DISCRIMINANT_X, DISCRIMINANT_Y, EXTENT_END, VARLEN_MAX,
};
use hdf5_core::space::Dimension;
use hdf5_core::types::{FixedAscii, FixedUnicode, VarLenArray, VarLenAscii, VarLenUnicode};
use rand::rngs::StdRng;
use rand::SeedableRng;

fn source(seed: u64) -> StdRng {
    StdRng::seed_from_u64(seed)
}

#[test]
fn fixed_ascii_of_capacity_three_stays_within_three_bytes() {
    let mut rng = source(42);
    for _ in 0..1000 {
        let value = FixedAscii::<3>::gen(&mut rng);
        assert!(value.len() <= 3);
        assert!(value.as_bytes().iter().all(|b| *b <= 127));
    }
}

#[test]
fn fixed_ascii_lengths_cover_the_whole_range() {
    let mut rng = source(1);
    let mut seen = [false; 4];
    for _ in 0..1000 {
        seen[FixedAscii::<3>::gen(&mut rng).len()] = true;
    }
    assert_eq!(seen, [true; 4]);
}

#[test]
fn fixed_ascii_of_capacity_zero_is_empty() {
    let mut rng = source(2);
    for _ in 0..100 {
        assert_eq!(FixedAscii::<0>::gen(&mut rng).len(), 0);
    }
}

#[test]
fn ascii_bytes_vary_and_stay_seven_bit() {
    let mut rng = source(3);
    let mut low = false;
    let mut high = false;
    for _ in 0..1000 {
        let bytes = gen_ascii_bytes(&mut rng, 16);
        assert!(bytes.len() <= 16);
        for b in bytes {
            assert!(b <= ASCII_MAX);
            low = low || b < 64;
            high = high || b >= 64;
        }
    }
    assert!(low && high);
    assert_eq!(ASCII_MAX, 127);
}

#[test]
fn fixed_unicode_stays_within_its_byte_budget() {
    let mut rng = source(4);
    let mut longest = 0;
    let mut nonempty = 0;
    for _ in 0..1000 {
        let value = FixedUnicode::<11>::gen(&mut rng);
        assert!(value.as_str().len() <= 11);
        assert!(!value.as_str().contains('\0'));
        assert!(value.as_str().chars().count() <= 11);
        longest = longest.max(value.as_str().len());
        if !value.as_str().is_empty() {
            nonempty += 1;
        }
    }
    assert!(nonempty > 0);
    assert!(longest > 4);
}

#[test]
fn unicode_text_of_no_budget_is_empty() {
    let mut rng = source(5);
    for _ in 0..100 {
        assert_eq!(gen_unicode_text(&mut rng, 0), "");
    }
}

#[test]
fn unicode_text_varies() {
    let mut rng = source(6);
    let first = gen_unicode_text(&mut rng, 64);
    let mut differs = false;
    for _ in 0..100 {
        let next = gen_unicode_text(&mut rng, 64);
        assert!(next.len() <= 64);
        differs = differs || next != first;
    }
    assert!(differs);
}

#[test]
fn varlen_ascii_is_at_most_eight_bytes() {
    let mut rng = source(7);
    let mut seen = [false; 9];
    for _ in 0..1000 {
        let value = VarLenAscii::gen(&mut rng);
        assert!(value.len() <= 8);
        assert!(value.as_bytes().iter().all(|b| *b <= 127));
        seen[value.len()] = true;
    }
    assert_eq!(seen, [true; 9]);
    assert_eq!(VARLEN_MAX, 8);
}

#[test]
fn varlen_unicode_is_at_most_eight_bytes() {
    let mut rng = source(8);
    for _ in 0..1000 {
        let value = VarLenUnicode::gen(&mut rng);
        assert!(value.as_str().len() <= 8);
        assert!(value.as_str().chars().count() <= 8);
        assert!(!value.as_str().contains('\0'));
    }
}

#[test]
fn varlen_array_is_at_most_eight_items() {
    let mut rng = source(9);
    let mut seen = [false; 9];
    for _ in 0..1000 {
        let value = VarLenArray::<Enum>::gen(&mut rng);
        assert!(value.len() <= 8);
        seen[value.len()] = true;
    }
    assert_eq!(seen, [true; 9]);
}

#[test]
fn enum_values_are_declared_and_both_occur() {
    let mut rng = source(10);
    let mut x = 0;
    let mut y = 0;
    for _ in 0..1000 {
        match Enum::gen(&mut rng) {
            Enum::X => x += 1,
            Enum::Y => y += 1,
        }
    }
    assert!(x > 0 && y > 0);
    assert_eq!(x + y, 1000);
}

#[test]
fn enum_discriminants_are_minus_two_and_three() {
    assert_eq!(Enum::X.discriminant(), -2);
    assert_eq!(Enum::Y.discriminant(), 3);
    assert_eq!(DISCRIMINANT_X, -2);
    assert_eq!(DISCRIMINANT_Y, 3);
    assert_eq!(Enum::from_discriminant(-2), Some(Enum::X));
    assert_eq!(Enum::from_discriminant(3), Some(Enum::Y));
    assert_eq!(Enum::from_discriminant(0), None);
    assert_eq!(Enum::from_discriminant(2), None);
}

#[test]
fn generated_enum_has_a_declared_discriminant() {
    let mut rng = source(11);
    for _ in 0..200 {
        let d = Enum::gen(&mut rng).discriminant();
        assert!(d == -2 || d == 3);
        assert!(Enum::from_discriminant(d).is_some());
    }
}

#[test]
fn tuple_struct_fields_vary_on_their_own() {
    let mut rng = source(12);
    let mut seen = [false; 4];
    for _ in 0..1000 {
        let TupleStruct(flag, choice) = TupleStruct::gen(&mut rng);
        let slot = (flag as usize) * 2 + (choice == Enum::Y) as usize;
        seen[slot] = true;
    }
    assert_eq!(seen, [true; 4]);
}

#[test]
fn varlen_struct_fields_are_each_within_bounds() {
    let mut rng = source(13);
    for _ in 0..500 {
        let value = VarLenStruct::gen(&mut rng);
        assert!(value.va.len() <= 8);
        assert!(value.vu.as_str().len() <= 8);
        assert!(value.vla.len() <= 8);
        assert_eq!(value.clone(), value);
    }
}

#[test]
fn primitives_vary() {
    let mut rng = source(14);
    let first = <u64 as Gen>::gen(&mut rng);
    let second = <u64 as Gen>::gen(&mut rng);
    assert_ne!(first, second);
    let mut negative = false;
    let mut positive = false;
    let mut yes = false;
    let mut no = false;
    for _ in 0..1000 {
        let small = <i8 as Gen>::gen(&mut rng);
        negative = negative || small < 0;
        positive = positive || small > 0;
        let flag = <bool as Gen>::gen(&mut rng);
        yes = yes || flag;
        no = no || !flag;
    }
    assert!(negative && positive && yes && no);
}

#[test]
fn shapes_have_the_rank_asked_for_and_small_extents() {
    let mut rng = source(15);
    let mut seen = [false; 11];
    for ndim in 0..20 {
        for _ in 0..20 {
            let shape = gen_shape(&mut rng, ndim);
            assert_eq!(shape.len(), ndim);
            assert_eq!(shape.ndim(), ndim);
            for extent in shape {
                assert!(extent < EXTENT_END);
                seen[extent] = true;
            }
        }
    }
    assert_eq!(seen, [true; 11]);
    assert_eq!(EXTENT_END, 11);
}

#[test]
fn ascii_text_is_letters_and_digits_of_the_length_asked_for() {
    let mut rng = source(18);
    let mut letter = false;
    let mut digit = false;
    for len in 0..40 {
        let text = gen_ascii(&mut rng, len);
        assert_eq!(text.len(), len);
        assert_eq!(text.chars().count(), len);
        for c in text.chars() {
            assert!(c.is_ascii_alphanumeric());
            letter = letter || c.is_ascii_alphabetic();
            digit = digit || c.is_ascii_digit();
        }
    }
    assert!(letter && digit);
}

#[test]
fn vectors_have_the_size_asked_for() {
    let mut rng = source(16);
    let flags: Vec<bool> = gen_vec(&mut rng, 50);
    assert_eq!(flags.len(), 50);
    assert!(flags.iter().any(|f| *f) && flags.iter().any(|f| !*f));
    let none: Vec<Enum> = gen_vec(&mut rng, 0);
    assert!(none.is_empty());
    let texts: Vec<FixedAscii<3>> = gen_vec(&mut rng, 10);
    assert!(texts.iter().all(|t| t.len() <= 3));
}

#[test]
fn the_same_seed_gives_the_same_values() {
    let mut a = source(17);
    let mut b = source(17);
    for _ in 0..50 {
        assert_eq!(VarLenStruct::gen(&mut a), VarLenStruct::gen(&mut b));
    }
}
