use simdnoise::NoiseBuilder;
use volume_view::density::{quantize_sample, DensityGrid, GRID_DEPTH, GRID_HEIGHT, GRID_WIDTH, MAX_DENSITY};

#[test]
fn quantize_keeps_low_and_zeroes_high() {
    assert_eq!(quantize_sample(0), 0);
    assert_eq!(quantize_sample(100), 100);
    assert_eq!(quantize_sample(127), 127);
    assert_eq!(quantize_sample(128), 0);
    assert_eq!(quantize_sample(255), 0);
}

#[test]
fn grid_from_samples() {
    let g = DensityGrid::from_samples(2, 1, 2, &vec![5, 200, 127, 128]).unwrap();
    assert_eq!((g.width(), g.height(), g.depth()), (2, 1, 2));
    assert_eq!(g.cells(), &vec![5, 0, 127, 0]);
}

#[test]
fn grid_rejects_wrong_sample_count() {
    assert!(DensityGrid::from_samples(2, 2, 2, &vec![1; 7]).is_none());
    assert!(DensityGrid::from_samples(2, 2, 2, &vec![1; 9]).is_none());
    assert!(DensityGrid::from_samples(0, 5, 5, &vec![]).is_some());
}

fn noise_samples() -> Vec<u8> {
    let noise = NoiseBuilder::ridge_3d(GRID_WIDTH as usize, GRID_HEIGHT as usize, GRID_DEPTH as usize)
        .with_freq(1.0)
        .with_octaves(5)
        .with_gain(2.0)
        .with_seed(1337)
        .with_lacunarity(0.5)
        .generate_scaled(0.0, 255.0);
    noise.iter().map(|&e| e as u8).collect()
}

#[test]
fn generation_is_deterministic() {
    let a = DensityGrid::from_samples(GRID_WIDTH, GRID_HEIGHT, GRID_DEPTH, &noise_samples()).unwrap();
    let b = DensityGrid::from_samples(GRID_WIDTH, GRID_HEIGHT, GRID_DEPTH, &noise_samples()).unwrap();
    assert_eq!(a.cells(), b.cells());
    assert_eq!(a.cells().len(), 25 * 25 * 25);
    assert!(a.cells().iter().all(|&c| c <= MAX_DENSITY));
}
