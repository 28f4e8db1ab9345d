use ironpress::manifest::{manifest_from_json, parse_manifest, Manifest, ManifestError, Material};

const CLOVER: &str = r#"{
    "input": "./input/",
    "output": "./output/",
    "flip_normals": true,
    "materials": {
        "mat_daisy": {
            "max_dimension": 512,
            "channels": ["basecolor", "arm", "normal"]
        },
        "mat_fur": {
            "max_dimension": 256,
            "alpha": false,
            "channels": ["mask"]
        }
    }
}"#;

fn material(name: &str, max_dimension: u32, has_alpha: bool, channels: &[&str]) -> Material {
    Material {
        name: name.to_string(),
        max_dimension,
        has_alpha,
        channels: channels.iter().map(|c| c.to_string()).collect(),
    }
}

#[test]
fn manifest_is_read_in_order() {
    let expected = Manifest {
        input: "./input/".to_string(),
        output: "./output/".to_string(),
        flip_normals: true,
        materials: vec![
            material("mat_daisy", 512, false, &["basecolor", "arm", "normal"]),
            material("mat_fur", 256, true, &["mask"]),
        ],
    };
    assert_eq!(parse_manifest(CLOVER), Ok(expected));
}

#[test]
fn manifest_from_a_parsed_value_is_the_same() {
    let value = json::parse(CLOVER).unwrap();
    assert_eq!(manifest_from_json(&value), parse_manifest(CLOVER));
}

#[test]
fn flip_normals_defaults_to_false() {
    let text = r#"{"input": "i", "output": "o", "materials": {}}"#;
    let manifest = parse_manifest(text).unwrap();
    assert!(!manifest.flip_normals);
    assert!(manifest.materials.is_empty());
    assert_eq!(manifest.input, "i");
    assert_eq!(manifest.output, "o");
}

#[test]
fn flip_normals_false_is_false() {
    let text = r#"{"input": "i", "output": "o", "flip_normals": false, "materials": {}}"#;
    assert!(!parse_manifest(text).unwrap().flip_normals);
}

#[test]
fn alpha_counts_by_being_there() {
    for value in ["true", "false", "null", "0", "\"no\""] {
        let text = format!(
            r#"{{"input": "i", "output": "o", "materials": {{"m": {{"max_dimension": 8, "alpha": {}, "channels": ["basecolor"]}}}}}}"#,
            value
        );
        assert!(parse_manifest(&text).unwrap().materials[0].has_alpha, "{}", value);
    }
    let text = r#"{"input": "i", "output": "o", "materials": {"m": {"max_dimension": 8, "channels": ["basecolor"]}}}"#;
    assert!(!parse_manifest(text).unwrap().materials[0].has_alpha);
}

#[test]
fn repeated_channels_are_kept() {
    let text = r#"{"input": "i", "output": "o", "materials": {"m": {"max_dimension": 8, "channels": ["basecolor", "basecolor"]}}}"#;
    assert_eq!(
        parse_manifest(text).unwrap().materials,
        vec![material("m", 8, false, &["basecolor", "basecolor"])]
    );
}

#[test]
fn text_that_is_no_json_is_a_syntax_error() {
    for text in ["", "{", "{\"input\": }", "[1, 2", "nul"] {
        assert!(
            matches!(parse_manifest(text), Err(ManifestError::Syntax { .. })),
            "{:?}",
            text
        );
    }
    match parse_manifest("{") {
        Err(ManifestError::Syntax { message }) => assert!(!message.is_empty()),
        other => panic!("{:?}", other),
    }
}

#[test]
fn output_must_be_a_string() {
    for text in [
        r#"{"input": "i", "materials": {}}"#,
        r#"{"input": "i", "output": 3, "materials": {}}"#,
        r#"{"input": "i", "output": null, "materials": {}}"#,
        r#"[]"#,
        r#"7"#,
        r#"{}"#,
    ] {
        assert_eq!(parse_manifest(text), Err(ManifestError::MissingOutput), "{}", text);
    }
}

#[test]
fn input_must_be_a_string() {
    for text in [
        r#"{"output": "o", "materials": {}}"#,
        r#"{"output": "o", "input": ["i"], "materials": {}}"#,
    ] {
        assert_eq!(parse_manifest(text), Err(ManifestError::MissingInput), "{}", text);
    }
}

#[test]
fn materials_must_be_an_object() {
    for text in [
        r#"{"input": "i", "output": "o"}"#,
        r#"{"input": "i", "output": "o", "materials": []}"#,
        r#"{"input": "i", "output": "o", "materials": "m"}"#,
        r#"{"input": "i", "output": "o", "materials": null, "flip_normals": 1}"#,
    ] {
        assert_eq!(parse_manifest(text), Err(ManifestError::MissingMaterials), "{}", text);
    }
}

#[test]
fn flip_normals_must_be_a_boolean() {
    for value in ["1", "\"true\"", "null", "[]"] {
        let text = format!(
            r#"{{"input": "i", "output": "o", "flip_normals": {}, "materials": {{}}}}"#,
            value
        );
        assert_eq!(parse_manifest(&text), Err(ManifestError::BadFlipNormals), "{}", value);
    }
}

fn with_material(body: &str) -> String {
    format!(
        r#"{{"input": "i", "output": "o", "materials": {{"good": {{"max_dimension": 4, "channels": ["ao"]}}, "m": {}}}}}"#,
        body
    )
}

#[test]
fn max_dimension_must_be_a_positive_integer() {
    for body in [
        r#"{"channels": ["ao"]}"#,
        r#"{"max_dimension": 0, "channels": ["ao"]}"#,
        r#"{"max_dimension": -4, "channels": ["ao"]}"#,
        r#"{"max_dimension": 4.5, "channels": ["ao"]}"#,
        r#"{"max_dimension": "512", "channels": ["ao"]}"#,
        r#"{"max_dimension": 4294967296, "channels": ["ao"]}"#,
        r#"{"max_dimension": null}"#,
        r#"[]"#,
        r#"12"#,
    ] {
        assert_eq!(
            parse_manifest(&with_material(body)),
            Err(ManifestError::BadMaxDimension { material: "m".to_string() }),
            "{}",
            body
        );
    }
}

#[test]
fn max_dimension_may_be_as_large_as_32_bits() {
    let manifest =
        parse_manifest(&with_material(r#"{"max_dimension": 4294967295, "channels": ["ao"]}"#))
            .unwrap();
    assert_eq!(manifest.materials[1].max_dimension, u32::MAX);
    assert_eq!(manifest.materials[0], material("good", 4, false, &["ao"]));
}

#[test]
fn channels_must_be_a_non_empty_array() {
    for body in [
        r#"{"max_dimension": 4}"#,
        r#"{"max_dimension": 4, "channels": []}"#,
        r#"{"max_dimension": 4, "channels": "ao"}"#,
        r#"{"max_dimension": 4, "channels": {"ao": 1}}"#,
    ] {
        assert_eq!(
            parse_manifest(&with_material(body)),
            Err(ManifestError::BadChannels { material: "m".to_string() }),
            "{}",
            body
        );
    }
}

#[test]
fn channel_entries_must_be_strings() {
    assert_eq!(
        parse_manifest(&with_material(r#"{"max_dimension": 4, "channels": ["ao", 3, null]}"#)),
        Err(ManifestError::BadChannel { material: "m".to_string(), index: 1 })
    );
    assert_eq!(
        parse_manifest(&with_material(r#"{"max_dimension": 4, "channels": [["ao"]]}"#)),
        Err(ManifestError::BadChannel { material: "m".to_string(), index: 0 })
    );
}

#[test]
fn first_fault_is_reported() {
    let text = r#"{"materials": {"a": {"channels": []}, "b": {}}, "flip_normals": 3}"#;
    assert_eq!(parse_manifest(text), Err(ManifestError::MissingOutput));
    let text = r#"{"output": "o", "materials": {"a": {"channels": []}}, "flip_normals": 3}"#;
    assert_eq!(parse_manifest(text), Err(ManifestError::MissingInput));
    let text = r#"{"output": "o", "input": "i", "materials": {"a": {"channels": []}}, "flip_normals": 3}"#;
    assert_eq!(parse_manifest(text), Err(ManifestError::BadFlipNormals));
    let text = r#"{"output": "o", "input": "i", "materials": {"a": {"channels": []}, "b": {}}}"#;
    assert_eq!(
        parse_manifest(text),
        Err(ManifestError::BadMaxDimension { material: "a".to_string() })
    );
    let text = r#"{"output": "o", "input": "i", "materials": {"a": {"max_dimension": 1, "channels": [1]}, "b": {}}}"#;
    assert_eq!(
        parse_manifest(text),
        Err(ManifestError::BadChannel { material: "a".to_string(), index: 0 })
    );
    let text = r#"{"output": "o", "input": "i", "materials": {"a": {"max_dimension": 1, "channels": ["x"]}, "b": {"max_dimension": 1}}}"#;
    assert_eq!(
        parse_manifest(text),
        Err(ManifestError::BadChannels { material: "b".to_string() })
    );
}

#[test]
fn repeated_material_keeps_its_place_and_its_last_description() {
    let text = r#"{"output": "o", "input": "i", "materials": {
        "a": {"max_dimension": 1, "channels": ["x"]},
        "b": {"max_dimension": 2, "channels": ["y"]},
        "a": {"max_dimension": 3, "channels": ["z"]}}}"#;
    assert_eq!(
        parse_manifest(text).unwrap().materials,
        vec![material("a", 3, false, &["z"]), material("b", 2, false, &["y"])]
    );
}
