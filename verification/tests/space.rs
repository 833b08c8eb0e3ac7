use gymnarium_agents_random::{
    ActionSpace, DeterministicStream, DimensionBoundaries, EnvironmentState, FloatBits, Seed,
};
use rand::{Rng, SeedableRng};
use rand_chacha::ChaCha20Rng;

fn bits(value: f64) -> FloatBits {
    FloatBits(value.to_bits())
}

#[test]
fn bit_patterns_are_ordered_as_their_numbers() {
    let samples = [
        f64::NEG_INFINITY,
        f64::MIN,
        -1.0e300,
        -2.5,
        -1.0,
        -f64::MIN_POSITIVE,
        -5e-324,
        -0.0,
        0.0,
        5e-324,
        f64::MIN_POSITIVE,
        0.1,
        1.0,
        1.0000000000000002,
        2.0,
        1.0e300,
        f64::MAX,
        f64::INFINITY,
        f64::NAN,
        -f64::NAN,
    ];
    for a in samples {
        for b in samples {
            assert_eq!(bits(a).le(bits(b)), a <= b, "{} <= {}", a, b);
        }
    }
}

#[test]
fn the_two_zeros_are_one_number_with_two_patterns() {
    assert!(bits(0.0).le(bits(-0.0)));
    assert!(bits(-0.0).le(bits(0.0)));
    assert_ne!(bits(0.0), bits(-0.0));
}

#[test]
fn nothing_is_at_most_what_is_not_a_number() {
    let nan = FloatBits(0x7ff8_0000_0000_0001);
    assert!(!nan.le(nan));
    assert!(!nan.le(bits(1.0)));
    assert!(!bits(1.0).le(nan));
    assert!(!FloatBits(0xfff0_0000_0000_0001).le(bits(0.0)));
}

#[test]
fn boundaries_are_well_formed_where_minimum_is_at_most_maximum() {
    let discrete = |minimum, maximum| DimensionBoundaries::Discrete { minimum, maximum };
    let continuous =
        |minimum: f64, maximum: f64| DimensionBoundaries::Continuous { minimum: bits(minimum), maximum: bits(maximum) };
    assert!(discrete(1, 2).is_well_formed());
    assert!(discrete(2, 2).is_well_formed());
    assert!(discrete(i64::MIN, i64::MAX).is_well_formed());
    assert!(!discrete(3, 2).is_well_formed());
    assert!(continuous(2.0, 2.0).is_well_formed());
    assert!(continuous(-1.0, 1.0).is_well_formed());
    assert!(continuous(-0.0, 0.0).is_well_formed());
    assert!(continuous(0.0, -0.0).is_well_formed());
    assert!(!continuous(1.0, -1.0).is_well_formed());
    assert!(!continuous(f64::NAN, 1.0).is_well_formed());
    assert!(!continuous(0.0, f64::NAN).is_well_formed());
}

#[test]
fn a_space_keeps_its_dimensions_in_order() {
    let boundaries = vec![
        DimensionBoundaries::Discrete { minimum: 1, maximum: 2 },
        DimensionBoundaries::Continuous { minimum: bits(2.0), maximum: bits(2.0) },
        DimensionBoundaries::Discrete { minimum: -4, maximum: 4 },
    ];
    let space = ActionSpace::simple(boundaries.clone()).unwrap();
    assert_eq!(space.len(), 3);
    for (index, expected) in boundaries.iter().enumerate() {
        assert_eq!(space.boundary(index), *expected);
    }
    assert_eq!(ActionSpace::simple(vec![]).unwrap().len(), 0);
}

#[test]
fn a_space_with_a_malformed_dimension_is_refused() {
    assert!(ActionSpace::simple(vec![
        DimensionBoundaries::Discrete { minimum: 1, maximum: 2 },
        DimensionBoundaries::Discrete { minimum: 2, maximum: 1 },
    ])
    .is_none());
    assert!(ActionSpace::simple(vec![DimensionBoundaries::Continuous {
        minimum: bits(1.0),
        maximum: bits(0.5),
    }])
    .is_none());
    assert!(ActionSpace::simple(vec![DimensionBoundaries::Continuous {
        minimum: bits(f64::NAN),
        maximum: bits(f64::NAN),
    }])
    .is_none());
}

#[test]
fn the_default_state_is_empty() {
    assert!(EnvironmentState::default().values.is_empty());
}

#[test]
fn a_seed_of_an_integer_holds_its_bytes_lowest_first() {
    let seed = Seed::from_u64(0x0102_0304_0506_0708);
    let mut expected = [0u8; 32];
    expected[..8].copy_from_slice(&[8, 7, 6, 5, 4, 3, 2, 1]);
    assert_eq!(seed.bytes(), expected);
    assert_eq!(Seed::from(0x0102_0304_0506_0708), seed);
    assert_eq!(Seed::from_u64(0).bytes(), [0u8; 32]);
    assert_eq!(Seed::from_u64(u64::MAX).bytes()[..8], [0xffu8; 8]);
    assert_eq!(Seed::from_u64(u64::MAX).bytes()[8..], [0u8; 24]);
}

#[test]
fn a_seed_of_bytes_holds_those_bytes() {
    let mut bytes = [0u8; 32];
    for (index, byte) in bytes.iter_mut().enumerate() {
        *byte = (index * 7) as u8;
    }
    assert_eq!(Seed::from_bytes(bytes).bytes(), bytes);
    assert_eq!(Seed::from_bytes(bytes), Seed::from_bytes(bytes));
    assert_ne!(Seed::from_bytes(bytes), Seed::from_bytes([0u8; 32]));
}

#[test]
fn random_seeds_differ() {
    assert_ne!(Seed::new_random(), Seed::new_random());
}

#[test]
fn a_stream_starts_at_zero_and_moves_with_each_draw() {
    let seed = Seed::from_u64(0);
    let mut stream = DeterministicStream::construct(seed);
    assert_eq!(stream.cursor(), 0);
    assert_eq!(stream.seed(), seed);
    assert_eq!(stream.draw_uniform_integer(1, 2), 2);
    assert_eq!(stream.cursor(), 2);
    assert_eq!(stream.draw_uniform_integer(0, 9), 1);
    assert_eq!(stream.cursor(), 4);
    assert_eq!(stream.seed(), seed);
}

#[test]
fn a_stream_moved_to_a_cursor_draws_what_it_drew_there() {
    let mut stream = DeterministicStream::construct(Seed::from_u64(7));
    let mut drawn = Vec::new();
    let mut cursors = Vec::new();
    for _ in 0..40 {
        cursors.push(stream.cursor());
        drawn.push(stream.draw_uniform_integer(-1000, 1000));
    }
    for index in (0..40).rev() {
        stream.advance_to(cursors[index]);
        assert_eq!(stream.cursor(), cursors[index]);
        assert_eq!(stream.draw_uniform_integer(-1000, 1000), drawn[index]);
    }
    let mut other = DeterministicStream::construct(Seed::from_u64(7));
    other.advance_to(cursors[33] + (5u128 << 68));
    assert_eq!(other.cursor(), cursors[33]);
    assert_eq!(other.draw_uniform_integer(-1000, 1000), drawn[33]);
}

#[test]
fn a_stream_draws_what_one_generator_draws_in_a_row() {
    let ranges = [(1i64, 2i64), (0, 9), (-1000, 1000), (i64::MIN, i64::MAX), (5, 5), (0, i64::MAX)];
    for seed in [Seed::from_u64(0), Seed::from_u64(99), Seed::from_bytes([0xabu8; 32])] {
        let mut stream = DeterministicStream::construct(seed);
        let mut rng = ChaCha20Rng::from_seed(seed.bytes());
        assert_eq!(stream.cursor(), rng.get_word_pos());
        for round in 0..2000 {
            let (minimum, maximum) = ranges[round % ranges.len()];
            assert_eq!(stream.draw_uniform_integer(minimum, maximum), rng.gen_range(minimum..=maximum));
            assert_eq!(stream.cursor(), rng.get_word_pos());
        }
    }
}

#[test]
fn a_stream_is_moved_as_the_generator_is() {
    let seed = Seed::from_u64(5);
    for position in [0u128, 1, 15, 16, 63, 64, 65, 1 << 40, (1 << 68) - 64, (1 << 68) - 1, 1 << 68, (1 << 68) + 62, u128::MAX] {
        let mut stream = DeterministicStream::construct(seed);
        let mut rng = ChaCha20Rng::from_seed(seed.bytes());
        stream.advance_to(position);
        rng.set_word_pos(position);
        assert_eq!(stream.cursor(), rng.get_word_pos());
        assert_eq!(stream.cursor(), position % (1u128 << 68));
        for _ in 0..100 {
            assert_eq!(stream.draw_uniform_integer(-7, 7), rng.gen_range(-7i64..=7));
            assert_eq!(stream.cursor(), rng.get_word_pos());
        }
    }
}
