use pathfinder_hal::gpu_types::ShaderKind;
use pathfinder_hal::shaders::{
    load_shader_include, shader_include_path, shader_includes, shader_path, texture_path,
};

#[test]
fn vertex_and_fragment_shader_paths() {
    assert_eq!(shader_path("fill", ShaderKind::Vertex), "shaders/fill.vs.glsl");
    assert_eq!(shader_path("tile_alpha_monochrome", ShaderKind::Fragment), "shaders/tile_alpha_monochrome.fs.glsl");
}

#[test]
fn include_and_texture_paths() {
    assert_eq!(shader_include_path("post_convolve"), "shaders/post_convolve.inc.glsl");
    assert_eq!(texture_path("area-lut"), "textures/area-lut.png");
}

#[test]
fn six_includes_keyed_by_name() {
    let includes = shader_includes();
    assert_eq!(includes.len(), 6);
    assert_eq!(includes[0], ("include_tile_alpha_vertex", "tile_alpha_vertex"));
    assert_eq!(includes[5], ("include_post_gamma_correct", "post_gamma_correct"));
    for (key, name) in includes {
        assert_eq!(key, format!("include_{}", name));
    }
}

#[test]
fn ascii_include_is_read_as_is() {
    assert_eq!(load_shader_include(b"vec4 c = vec4(1.0);"), "vec4 c = vec4(1.0);");
}

#[test]
fn invalid_bytes_are_replaced() {
    assert_eq!(load_shader_include(&[0x66, 0xff, 0x67]), "f\u{FFFD}g");
}

#[test]
fn utf8_include_is_decoded() {
    assert_eq!(load_shader_include("// é".as_bytes()), "// é");
}
