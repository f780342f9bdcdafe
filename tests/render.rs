use raytracer::config::{ConfigError, RenderConfig};
use raytracer::nearest::{keep_nearest, nearest_hit, Nearest};
use raytracer::path::{next_step, Step, Surface};
use raytracer::scan::pixel_at;

#[test]
fn config_accepts_usable_settings() {
    let c = RenderConfig::new(400, 225, 100, 50).unwrap();
    assert_eq!(
        c,
        RenderConfig { image_width: 400, image_height: 225, samples_per_pixel: 100, max_depth: 50 }
    );
    assert_eq!(c.pixel_count(), 90000);
    assert!(RenderConfig::new(1, 1, 1, 0).is_ok());
}

#[test]
fn config_errors() {
    assert_eq!(RenderConfig::new(0, 0, 0, 1), Err(ConfigError::ZeroWidth));
    assert_eq!(RenderConfig::new(10, 0, 0, 1), Err(ConfigError::ZeroHeight));
    assert_eq!(RenderConfig::new(10, 10, 0, 1), Err(ConfigError::ZeroSamples));
}

#[test]
fn largest_pixel_count() {
    let c = RenderConfig::new(u32::MAX, u32::MAX, 1, 1).unwrap();
    assert_eq!(c.pixel_count(), (u32::MAX as u64) * (u32::MAX as u64));
}

#[test]
fn scan_starts_top_left_and_ends_bottom_right() {
    assert_eq!(pixel_at(3, 2, 0), (0, 1));
    assert_eq!(pixel_at(3, 2, 2), (2, 1));
    assert_eq!(pixel_at(3, 2, 3), (0, 0));
    assert_eq!(pixel_at(3, 2, 5), (2, 0));
}

#[test]
fn scan_single_column() {
    assert_eq!(pixel_at(1, 4, 0), (0, 3));
    assert_eq!(pixel_at(1, 4, 3), (0, 0));
}

#[test]
fn nearest_of_two_overlapping_spheres() {
    // Distances at which one ray meets two overlapping spheres.
    let far = 4.5f32;
    let near = 4.0f32;
    let c = vec![Some(far.to_bits()), Some(near.to_bits())];
    let r = nearest_hit(&c).unwrap();
    assert_eq!(r.index, 1);
    assert_eq!(f32::from_bits(r.key), near);
    let c = vec![Some(near.to_bits()), None, Some(far.to_bits())];
    assert_eq!(nearest_hit(&c).unwrap().index, 0);
}

#[test]
fn nearest_of_equal_hits_is_the_last() {
    let c = vec![Some(9), Some(5), None, Some(5), Some(7)];
    assert_eq!(nearest_hit(&c), Some(Nearest { index: 3, key: 5 }));
}

#[test]
fn nearest_when_everything_is_missed() {
    assert_eq!(nearest_hit(&vec![None, None]), None);
    assert_eq!(nearest_hit(&Vec::new()), None);
}

#[test]
fn keep_nearest_steps() {
    let kept = Some(Nearest { index: 0, key: 10 });
    assert_eq!(keep_nearest(kept, 1, None), kept);
    assert_eq!(keep_nearest(kept, 1, Some(11)), kept);
    assert_eq!(keep_nearest(kept, 1, Some(10)), Some(Nearest { index: 1, key: 10 }));
    assert_eq!(keep_nearest(kept, 2, Some(3)), Some(Nearest { index: 2, key: 3 }));
    assert_eq!(keep_nearest(None, 4, Some(u32::MAX)), Some(Nearest { index: 4, key: u32::MAX }));
}

#[test]
fn exhausted_budget_is_black_whatever_the_scene() {
    for s in [Surface::Missed, Surface::Absorbed, Surface::Scattered] {
        assert_eq!(next_step(0, s), Step::Black);
    }
}

#[test]
fn steps_with_budget_left() {
    assert_eq!(next_step(50, Surface::Missed), Step::Sky);
    assert_eq!(next_step(50, Surface::Absorbed), Step::Black);
    assert_eq!(next_step(50, Surface::Scattered), Step::Bounce { depth: 49 });
    assert_eq!(next_step(1, Surface::Scattered), Step::Bounce { depth: 0 });
}
