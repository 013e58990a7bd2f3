use ash::vk::ShaderStageFlags;
use ash_shader_creator::{infer_stage, is_shader_file, shader_files, StageKind};

fn strings(items: &[&str]) -> Vec<String> {
    items.iter().map(|s| s.to_string()).collect()
}

#[test]
fn a_path_with_a_binary_marker_is_a_shader_file() {
    assert!(is_shader_file("shaders/triangle.vert.spv"));
    assert!(is_shader_file("shaders/triangle.spv"));
    assert!(is_shader_file("shaders/triangle.vs"));
    assert!(is_shader_file("shaders/triangle.fs"));
}

#[test]
fn a_path_without_a_marker_is_no_shader_file() {
    assert!(!is_shader_file("shaders/triangle.vert"));
    assert!(!is_shader_file("shaders/readme.txt"));
    assert!(!is_shader_file("shaders/spv"));
    assert!(!is_shader_file(""));
}

#[test]
fn a_marker_counts_anywhere_in_the_path() {
    assert!(is_shader_file("build.spv/readme.txt"));
    assert!(is_shader_file("triangle.fs.bak"));
    assert_eq!(infer_stage("c.vs/readme.txt"), Some(StageKind::Vertex));
}

#[test]
fn vertex_markers_name_the_vertex_stage() {
    assert_eq!(infer_stage("shaders/triangle.vert.spv"), Some(StageKind::Vertex));
    assert_eq!(infer_stage("shaders/triangle.vs"), Some(StageKind::Vertex));
    assert_eq!(infer_stage("shaders/triangle.vs.spv"), Some(StageKind::Vertex));
}

#[test]
fn fragment_markers_name_the_fragment_stage() {
    assert_eq!(infer_stage("shaders/triangle.frag.spv"), Some(StageKind::Fragment));
    assert_eq!(infer_stage("shaders/triangle.fs"), Some(StageKind::Fragment));
    assert_eq!(infer_stage("shaders/triangle.fs.spv"), Some(StageKind::Fragment));
}

#[test]
fn a_path_without_a_stage_marker_names_no_stage() {
    assert_eq!(infer_stage("shaders/triangle.spv"), None);
    assert_eq!(infer_stage("shaders/triangle.comp.spv"), None);
    assert_eq!(infer_stage("shaders/readme.txt"), None);
    assert_eq!(infer_stage(""), None);
}

#[test]
fn a_stage_marker_starts_with_its_dot() {
    assert_eq!(infer_stage("shaders/trianglevert.spv"), None);
    assert_eq!(infer_stage("shaders/trianglefrag.spv"), None);
    assert_eq!(infer_stage("shaders/vs"), None);
}

#[test]
fn the_vertex_stage_wins_over_the_fragment_stage() {
    assert_eq!(infer_stage("a.frag.spv.vs"), Some(StageKind::Vertex));
    assert_eq!(infer_stage("a.fs/b.vert.spv"), Some(StageKind::Vertex));
    assert_eq!(infer_stage("a.vs.fs"), Some(StageKind::Vertex));
}

#[test]
fn every_path_that_names_a_stage_is_a_shader_file() {
    let paths = ["a.vert.spv", "a.frag.spv", "a.vs", "a.fs", "x/.vs/y", "a.spv", "a.txt", ""];
    for path in paths {
        if infer_stage(path).is_some() {
            assert!(is_shader_file(path));
        }
    }
}

#[test]
fn stage_bits_are_those_of_the_binding() {
    assert_eq!(StageKind::Vertex.flag_bits(), 0x1);
    assert_eq!(StageKind::Fragment.flag_bits(), 0x10);
    assert_eq!(StageKind::Vertex.flag_bits(), ShaderStageFlags::VERTEX.as_raw());
    assert_eq!(StageKind::Fragment.flag_bits(), ShaderStageFlags::FRAGMENT.as_raw());
}

#[test]
fn shader_files_keeps_the_binaries_in_their_order() {
    let entries = strings(&[
        "s/b.frag.spv",
        "s/notes.txt",
        "s/a.vert.spv",
        "s/c.vs",
        "s/Makefile",
        "s/d.fs",
        "s/e.spv",
    ]);
    let expected = strings(&["s/b.frag.spv", "s/a.vert.spv", "s/c.vs", "s/d.fs", "s/e.spv"]);
    assert_eq!(shader_files(&entries), expected);
}

#[test]
fn shader_files_keeps_a_path_as_often_as_it_is_listed() {
    let entries = strings(&["a.vs", "a.vs", "x", "a.vs"]);
    assert_eq!(shader_files(&entries), strings(&["a.vs", "a.vs", "a.vs"]));
}

#[test]
fn shader_files_of_nothing_is_nothing() {
    assert_eq!(shader_files(&Vec::new()), Vec::<String>::new());
    assert_eq!(shader_files(&strings(&["a.txt", "b"])), Vec::<String>::new());
}

#[test]
fn shader_files_picks_nothing_more_from_its_own_result() {
    let entries = strings(&["a.vs", "b.txt", "c.frag.spv", "d"]);
    let once = shader_files(&entries);
    assert_eq!(shader_files(&once), once);
}
