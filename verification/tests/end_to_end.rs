use image::{ColorType, DynamicImage, GenericImageView, ImageBuffer, ImageOutputFormat, Luma, Rgb};
use ironpress::pipeline::from_file;
use ironpress::task::{ConversionTask, Plan};
use std::collections::BTreeMap;
use std::io::Cursor;

const CLOVER: &str = r#"{
    "input": "in",
    "output": "out",
    "flip_normals": true,
    "materials": {
        "mat_fur": {"max_dimension": 16, "channels": ["mask"]},
        "mat_daisy": {"max_dimension": 32, "channels": ["basecolor", "arm", "normal"]},
        "mat_body": {"max_dimension": 32, "alpha": true, "channels": ["basecolor", "arm", "normal"]},
        "mat_sunhat": {"max_dimension": 16, "channels": ["basecolor", "arm", "normal", "mask"]},
        "mat_shears": {"max_dimension": 8, "channels": ["basecolor", "arm", "normal"]},
        "mat_eye": {"max_dimension": 8, "channels": ["basecolor", "normal", "emissive"]}
    }
}"#;

fn png(image: DynamicImage) -> Vec<u8> {
    let mut file = Cursor::new(Vec::new());
    image.write_to(&mut file, ImageOutputFormat::Png).unwrap();
    file.into_inner()
}

fn color(size: u32) -> Vec<u8> {
    png(DynamicImage::ImageRgb8(ImageBuffer::from_pixel(size, size, Rgb([90u8, 60, 30]))))
}

fn gray(width: u32, height: u32, value: u8) -> Vec<u8> {
    png(DynamicImage::ImageLuma8(ImageBuffer::from_pixel(width, height, Luma([value]))))
}

fn sources() -> BTreeMap<String, Vec<u8>> {
    let mut files = BTreeMap::new();
    let mut put = |name: &str, file: Vec<u8>| {
        files.insert(format!("test/clover/in/{}.png", name), file);
    };
    put("mat_fur_mask", gray(64, 64, 255));
    for material in ["mat_daisy", "mat_body", "mat_sunhat", "mat_shears", "mat_eye"] {
        put(&format!("{}_basecolor", material), color(64));
        put(&format!("{}_normal", material), color(48));
    }
    put("mat_sunhat_mask", gray(20, 10, 0));
    // One material brings a finished ARM texture, one all three parts, one
    // lacks the metallic part and one has parts of different sizes.
    put("mat_daisy_arm", color(40));
    put("mat_body_ao", gray(64, 64, 200));
    put("mat_body_roughness", gray(64, 64, 100));
    put("mat_body_metallic", gray(64, 64, 50));
    put("mat_sunhat_ao", gray(64, 64, 200));
    put("mat_sunhat_roughness", gray(64, 64, 100));
    put("mat_shears_ao", gray(64, 32, 255));
    put("mat_shears_metallic", gray(32, 64, 255));
    files
}

/// Runs one task against files held in memory, as a run does against a disk.
fn run(task: &ConversionTask, files: &BTreeMap<String, Vec<u8>>) -> Option<Vec<u8>> {
    let read = |path: String| files.get(&path).map(|file| file.as_slice());
    match task.plan(files.contains_key(&task.source_path())) {
        Plan::Skip => None,
        Plan::Direct => Some(task.convert(read(task.source_path()).unwrap()).unwrap()),
        Plan::Synthesize => Some(
            task.synthesize(
                read(task.part_path("ao")),
                read(task.part_path("roughness")),
                read(task.part_path("metallic")),
            )
            .unwrap(),
        ),
    }
}

#[test]
fn validate_pipeline() {
    let files = sources();
    let pipeline = from_file("test/clover", CLOVER).unwrap();
    assert_eq!(pipeline.input_dir, "test/clover/in");
    assert_eq!(pipeline.output_dir, "test/clover/out");
    assert_eq!(pipeline.num_materials, 6);
    assert_eq!(pipeline.num_maps, 17);

    let mut outputs: BTreeMap<String, Vec<u8>> = BTreeMap::new();
    for task in pipeline.tasks.iter() {
        if let Some(file) = run(task, &files) {
            outputs.insert(task.output_path(), file);
        }
    }

    // For each output file...
    let textures = vec![
        "test/clover/out/mat_fur_mask.png",
        "test/clover/out/mat_daisy_basecolor.png",
        "test/clover/out/mat_daisy_arm.png",
        "test/clover/out/mat_daisy_normal.png",
        "test/clover/out/mat_body_basecolor.png",
        "test/clover/out/mat_body_arm.png",
        "test/clover/out/mat_body_normal.png",
        "test/clover/out/mat_sunhat_basecolor.png",
        "test/clover/out/mat_sunhat_arm.png",
        "test/clover/out/mat_sunhat_normal.png",
        "test/clover/out/mat_sunhat_mask.png",
        "test/clover/out/mat_shears_basecolor.png",
        "test/clover/out/mat_shears_arm.png",
        "test/clover/out/mat_shears_normal.png",
        "test/clover/out/mat_eye_basecolor.png",
        "test/clover/out/mat_eye_normal.png",
    ];

    // ...verify that it outputted...
    for path_texture in textures.iter() {
        assert!(
            outputs.contains_key(*path_texture),
            "Failed to find output texture {0}",
            path_texture
        );
    }
    // ...and that nothing else was: the channel without a source is skipped.
    assert_eq!(outputs.len(), textures.len());
    assert!(!outputs.contains_key("test/clover/out/mat_eye_emissive.png"));

    // Bit depth, resolution and channel values.
    let open = |name: &str| {
        image::load_from_memory(&outputs[&format!("test/clover/out/{}.png", name)]).unwrap()
    };
    let expected = [
        ("mat_fur_mask", ColorType::L8, (16, 16)),
        ("mat_daisy_basecolor", ColorType::Rgb8, (32, 32)),
        ("mat_daisy_arm", ColorType::Rgb8, (32, 32)),
        ("mat_daisy_normal", ColorType::Rgb16, (32, 32)),
        ("mat_body_basecolor", ColorType::Rgba8, (32, 32)),
        ("mat_body_arm", ColorType::Rgb8, (32, 32)),
        ("mat_body_normal", ColorType::Rgb16, (32, 32)),
        ("mat_sunhat_basecolor", ColorType::Rgb8, (16, 16)),
        ("mat_sunhat_arm", ColorType::Rgb8, (16, 16)),
        ("mat_sunhat_normal", ColorType::Rgb16, (16, 16)),
        ("mat_sunhat_mask", ColorType::L8, (16, 8)),
        ("mat_shears_basecolor", ColorType::Rgb8, (8, 8)),
        ("mat_shears_arm", ColorType::Rgb8, (4, 4)),
        ("mat_shears_normal", ColorType::Rgb16, (8, 8)),
        ("mat_eye_basecolor", ColorType::Rgb8, (8, 8)),
        ("mat_eye_normal", ColorType::Rgb16, (8, 8)),
    ];
    for (name, color, size) in expected {
        let texture = open(name);
        assert_eq!(texture.color(), color, "{}", name);
        assert_eq!(texture.dimensions(), size, "{}", name);
    }
    assert_eq!(open("mat_daisy_arm").as_rgb8().unwrap().get_pixel(3, 3), &Rgb([90, 60, 30]));
    assert_eq!(open("mat_body_arm").as_rgb8().unwrap().get_pixel(3, 3), &Rgb([200, 100, 50]));
    assert_eq!(open("mat_sunhat_arm").as_rgb8().unwrap().get_pixel(3, 3), &Rgb([200, 100, 0]));
    assert_eq!(open("mat_shears_arm").as_rgb8().unwrap().get_pixel(3, 3), &Rgb([255, 0, 255]));
    // 90 * 257, 65535 - 60 * 257, 30 * 257
    assert_eq!(
        open("mat_eye_normal").as_rgb16().unwrap().get_pixel(0, 0),
        &Rgb([23130, 50115, 7710])
    );
}
