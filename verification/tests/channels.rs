use ironpress::op::flip::{flip_green, flip_green_bytes};
use ironpress::op::pack::channel_pack;
use ironpress::raster::Raster;

#[test]
fn raster_needs_a_sample_for_every_channel_of_every_pixel() {
    assert!(Raster::new(2, 3, 4, vec![0u8; 24]).is_some());
    assert!(Raster::new(2, 3, 4, vec![0u8; 23]).is_none());
    assert!(Raster::new(2, 3, 4, vec![0u8; 25]).is_none());
    assert!(Raster::new(0, 3, 4, Vec::<u8>::new()).is_some());
    assert!(Raster::new(u32::MAX, u32::MAX, 4, vec![0u8; 4]).is_none());
}

#[test]
fn raster_reads_samples_row_by_row() {
    let samples: Vec<u16> = (0..24).collect();
    let raster = Raster::new(4, 2, 3, samples.clone()).unwrap();
    assert_eq!(raster.width(), 4);
    assert_eq!(raster.height(), 2);
    assert_eq!(raster.channels(), 3);
    assert_eq!(raster.get(0, 0, 0), 0);
    assert_eq!(raster.get(1, 0, 2), 5);
    assert_eq!(raster.get(3, 0, 0), 9);
    assert_eq!(raster.get(0, 1, 0), 12);
    assert_eq!(raster.get(3, 1, 2), 23);
    assert_eq!(raster.samples(), &samples);
    assert_eq!(raster.into_samples(), samples);
}

#[test]
fn flip_green_inverts_green_only() {
    let texture = Raster::new(2, 1, 3, vec![1u16, 20000, 3, 65535, 0, 65535]).unwrap();
    let flipped = flip_green(texture);
    assert_eq!(flipped.width(), 2);
    assert_eq!(flipped.height(), 1);
    assert_eq!(flipped.channels(), 3);
    assert_eq!(flipped.samples(), &vec![1u16, 45535, 3, 65535, 65535, 65535]);
}

#[test]
fn flip_green_of_an_empty_image_is_empty() {
    let texture = Raster::new(0, 0, 3, Vec::<u16>::new()).unwrap();
    assert!(flip_green(texture).into_samples().is_empty());
}

#[test]
fn flip_green_twice_restores_every_sample() {
    let mut samples: Vec<u16> = Vec::new();
    let mut value: u32 = 12345;
    for _ in 0..(7 * 5 * 3) {
        value = value.wrapping_mul(1103515245).wrapping_add(12345);
        samples.push((value >> 8) as u16);
    }
    samples[1] = 0;
    samples[4] = 65535;
    samples[7] = 32767;
    samples[10] = 32768;
    let texture = Raster::new(7, 5, 3, samples.clone()).unwrap();
    let once = flip_green(texture);
    assert_ne!(once.samples(), &samples);
    let twice = flip_green(once);
    assert_eq!(twice.into_samples(), samples);
}

#[test]
fn flip_green_bytes_complements_the_green_bytes() {
    let bytes = [1u8, 2, 3, 4, 5, 6, 0, 0, 0, 255, 0, 0];
    assert_eq!(
        flip_green_bytes(&bytes),
        vec![1u8, 2, 252, 251, 5, 6, 0, 0, 255, 0, 0, 0]
    );
    assert_eq!(flip_green_bytes(&[]), Vec::<u8>::new());
    assert_eq!(flip_green_bytes(&[9, 9, 9]), vec![9u8, 9, 246]);
}

#[test]
fn flip_green_bytes_agrees_with_flip_green_in_both_byte_orders() {
    let samples: Vec<u16> = vec![10, 20000, 30, 40000, 0, 65535, 7, 258, 513];
    let flipped = flip_green(Raster::new(3, 1, 3, samples.clone()).unwrap()).into_samples();
    let little: Vec<u8> = samples.iter().flat_map(|s| s.to_le_bytes()).collect();
    let big: Vec<u8> = samples.iter().flat_map(|s| s.to_be_bytes()).collect();
    let little_flipped: Vec<u8> = flipped.iter().flat_map(|s| s.to_le_bytes()).collect();
    let big_flipped: Vec<u8> = flipped.iter().flat_map(|s| s.to_be_bytes()).collect();
    assert_eq!(flip_green_bytes(&little), little_flipped);
    assert_eq!(flip_green_bytes(&big), big_flipped);
}

#[test]
fn flip_green_bytes_twice_restores_the_bytes() {
    let bytes: Vec<u8> = (0..=255).collect();
    assert_eq!(flip_green_bytes(&flip_green_bytes(&bytes)), bytes);
}

fn numbered(width: u32, height: u32, base: u32) -> Raster<u32> {
    let mut samples = Vec::new();
    for y in 0..height {
        for x in 0..width {
            for c in 0..4 {
                samples.push(base + (y * width + x) * 10 + c);
            }
        }
    }
    Raster::new(width, height, 4, samples).unwrap()
}

#[test]
fn pack_takes_one_channel_from_each_source() {
    let sources = vec![
        numbered(2, 2, 1000),
        numbered(2, 2, 2000),
        numbered(2, 2, 3000),
        numbered(2, 2, 4000),
    ];
    let packed = channel_pack(&sources, true, 9, 2, 2);
    assert_eq!(packed.width(), 2);
    assert_eq!(packed.height(), 2);
    assert_eq!(packed.channels(), 4);
    assert_eq!(
        packed.into_samples(),
        vec![
            1000, 2001, 3002, 4003, 1010, 2011, 3012, 4013, 1020, 2021, 3022, 4023, 1030, 2031,
            3032, 4033
        ]
    );
}

#[test]
fn pack_without_alpha_is_opaque() {
    let sources = vec![
        numbered(1, 2, 100),
        numbered(1, 2, 200),
        numbered(1, 2, 300),
        numbered(1, 2, 400),
    ];
    let packed = channel_pack(&sources, false, 255, 1, 2);
    assert_eq!(packed.into_samples(), vec![100, 201, 302, 255, 110, 211, 312, 255]);
}

#[test]
fn pack_reads_the_top_left_area_of_larger_sources() {
    let sources = vec![
        numbered(3, 2, 1000),
        numbered(2, 3, 2000),
        numbered(4, 4, 3000),
        numbered(2, 2, 4000),
    ];
    let packed = channel_pack(&sources, true, 0, 2, 2);
    assert_eq!(
        packed.into_samples(),
        vec![
            1000, 2001, 3002, 4003, 1010, 2011, 3012, 4013, 1030, 2021, 3042, 4023, 1040, 2031,
            3052, 4033
        ]
    );
}

#[test]
fn pack_of_an_empty_area_is_empty() {
    let sources = vec![
        numbered(2, 2, 0),
        numbered(2, 2, 0),
        numbered(2, 2, 0),
        numbered(2, 2, 0),
    ];
    let packed = channel_pack(&sources, false, 1, 0, 2);
    assert_eq!(packed.width(), 0);
    assert_eq!(packed.height(), 2);
    assert!(packed.into_samples().is_empty());
}

#[test]
fn pack_carries_floating_point_samples_unchanged() {
    let make = |v: f32| Raster::new(1, 1, 4, vec![v, v + 0.125, v + 0.25, v + 0.5]).unwrap();
    let sources = vec![make(0.0), make(1.0), make(2.0), make(3.0)];
    assert_eq!(
        channel_pack(&sources, true, 255.0, 1, 1).into_samples(),
        vec![0.0f32, 1.125, 2.25, 3.5]
    );
    assert_eq!(
        channel_pack(&sources, false, 255.0, 1, 1).into_samples(),
        vec![0.0f32, 1.125, 2.25, 255.0]
    );
}
