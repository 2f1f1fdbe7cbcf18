use render_core::instance::{generate_instances, InstanceUniform};
use render_core::rng::RandomSource;

#[test]
fn same_seed_gives_identical_arrays() {
    // Two sources built from the same seed yield element-for-element
    // identical instance arrays (here at aspect ratio 1).
    let mut a_source = RandomSource::from_seed(42);
    let mut b_source = RandomSource::from_seed(42);
    let a = generate_instances(100, 600, 600, &mut a_source);
    let b = generate_instances(100, 600, 600, &mut b_source);
    assert_eq!(a.len(), 100);
    assert_eq!(b.len(), 100);
    for (x, y) in a.iter().zip(b.iter()) {
        assert_eq!(x, y);
    }
}

#[test]
fn different_seeds_differ() {
    let mut a_source = RandomSource::from_seed(42);
    let mut b_source = RandomSource::from_seed(7);
    let a = generate_instances(100, 800, 600, &mut a_source);
    let b = generate_instances(100, 800, 600, &mut b_source);
    assert!(a.iter().zip(b.iter()).any(|(x, y)| x != y));
}

#[test]
fn first_instances_for_seed_42() {
    let mut source = RandomSource::from_seed(42);
    let instances = generate_instances(2, 800, 600, &mut source);
    assert_eq!(
        instances[0],
        InstanceUniform {
            color_r: 749_988,
            color_g: 154_674,
            color_b: 544_698,
            color_a: 1_000_000,
            scale_x: 356_559,
            scale_y: 356_559,
            offset_x: -556_973,
            offset_y: 340_229,
        }
    );
    assert_eq!(
        instances[1],
        InstanceUniform {
            color_r: 217_957,
            color_g: 875_008,
            color_b: 685_693,
            color_a: 1_000_000,
            scale_x: 168_693,
            scale_y: 168_693,
            offset_x: 421_122,
            offset_y: -365_474,
        }
    );
}

#[test]
fn instance_values_stay_in_range() {
    // For an 800x600 viewport the scale unit in [0.2, 0.5) becomes
    // [0.15, 0.375) after the aspect division; colors stay in [0, 1] and
    // offsets in [-0.9, 0.9], all in millionths.
    let mut source = RandomSource::from_seed(12345);
    let instances = generate_instances(200, 800, 600, &mut source);
    for i in instances.iter() {
        assert!(i.color_r <= 1_000_000);
        assert!(i.color_g <= 1_000_000);
        assert!(i.color_b <= 1_000_000);
        assert_eq!(i.color_a, 1_000_000);
        assert!(i.scale_x >= 150_000 && i.scale_x < 375_000);
        assert_eq!(i.scale_x, i.scale_y);
        assert!(i.offset_x >= -900_000 && i.offset_x <= 900_000);
        assert!(i.offset_y >= -900_000 && i.offset_y <= 900_000);
    }
}

#[test]
fn empty_generation() {
    let mut source = RandomSource::from_seed(0);
    let instances = generate_instances(0, 640, 480, &mut source);
    assert!(instances.is_empty());
}
