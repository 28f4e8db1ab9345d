use ironpress::util::{begins_with, join_path, path_material_map, same_text};
use std::path::Path;

#[test]
fn path_joins_directory_and_file_name() {
    assert_eq!(
        path_material_map("out", "clover", "basecolor", "png"),
        "out/clover_basecolor.png"
    );
}

#[test]
fn path_keeps_a_trailing_separator() {
    assert_eq!(
        path_material_map("./input/", "mat_fur", "mask", "png"),
        "./input/mat_fur_mask.png"
    );
}

#[test]
fn path_in_an_empty_directory_is_the_file_name() {
    assert_eq!(path_material_map("", "m", "arm", "png"), "m_arm.png");
}

#[test]
fn path_of_an_absolute_file_name_stands_alone() {
    assert_eq!(path_material_map("out", "/m", "ao", "png"), "/m_ao.png");
}

#[test]
fn path_keeps_names_that_are_not_ascii() {
    assert_eq!(
        path_material_map("sortie/é", "blé", "normal", "png"),
        "sortie/é/blé_normal.png"
    );
}

#[test]
fn join_resolves_relative_against_the_directory() {
    assert_eq!(join_path("/project/cfg", "./output/"), "/project/cfg/./output/");
    assert_eq!(join_path("/project/cfg/", "input"), "/project/cfg/input");
}

#[test]
fn join_uses_an_absolute_path_verbatim() {
    assert_eq!(join_path("/project/cfg", "/srv/textures"), "/srv/textures");
}

#[test]
fn join_of_an_empty_file_ends_in_a_separator() {
    assert_eq!(join_path("dir", ""), "dir/");
    assert_eq!(join_path("", ""), "");
}

#[test]
fn join_agrees_with_the_platform_on_unix() {
    let cases = [
        ("out", "a_b.png"),
        ("out/", "a_b.png"),
        ("", "a_b.png"),
        ("/abs/dir", "rel/file"),
        ("rel", "/abs/file"),
        ("/", "x"),
        ("dir", ""),
    ];
    if std::path::MAIN_SEPARATOR == '/' {
        for (directory, file) in cases {
            let expected = Path::new(directory).join(file);
            assert_eq!(Path::new(&join_path(directory, file)), expected.as_path());
            assert_eq!(join_path(directory, file), expected.to_str().unwrap());
        }
    }
}

#[test]
fn same_text_compares_contents() {
    assert!(same_text("arm", "arm"));
    assert!(!same_text("arm", "ARM"));
    assert!(!same_text("arm", "arm "));
    assert!(same_text("", ""));
}

#[test]
fn begins_with_compares_the_leading_characters() {
    assert!(begins_with("mask", "mask"));
    assert!(begins_with("mask2", "mask"));
    assert!(begins_with("anything", ""));
    assert!(begins_with("", ""));
    assert!(!begins_with("mas", "mask"));
    assert!(!begins_with("", "mask"));
    assert!(!begins_with("mark2", "mask"));
    assert!(!begins_with("amask", "mask"));
    assert!(begins_with("été chaud", "été"));
    assert!(!begins_with("ete chaud", "été"));
}
