//! Where the renderer's shaders and textures are found among its resources,
//! which shader fragments a shader template may include, and how a
//! fragment's bytes become text.
use crate::gpu_types::ShaderKind;
use vstd::prelude::*;

verus! {

/// The resource path of a shader's source: `shaders/<name>.vs.glsl` for a
/// vertex shader, `shaders/<name>.fs.glsl` for a fragment shader.
pub open spec fn shader_path_of(name: Seq<char>, kind: ShaderKind) -> Seq<char> {
    "shaders/"@ + name + match kind {
        ShaderKind::Vertex => ".vs.glsl"@,
        ShaderKind::Fragment => ".fs.glsl"@,
    }
}

/// The resource path of a shader fragment: `shaders/<name>.inc.glsl`.
pub open spec fn include_path_of(name: Seq<char>) -> Seq<char> {
    "shaders/"@ + name + ".inc.glsl"@
}

/// The resource path of a texture: `textures/<name>.png`.
pub open spec fn texture_path_of(name: Seq<char>) -> Seq<char> {
    "textures/"@ + name + ".png"@
}

/// The resource path of the source of shader `name` of the given kind.
pub fn shader_path(name: &str, kind: ShaderKind) -> (path: String)
    ensures
        path@ == shader_path_of(name@, kind),
{
    let mut path = String::from_str("shaders/");
    path.append(name);
    match kind {
        ShaderKind::Vertex => path.append(".vs.glsl"),
        ShaderKind::Fragment => path.append(".fs.glsl"),
    }
    path
}

/// The resource path of the shader fragment `include_name`.
pub fn shader_include_path(include_name: &str) -> (path: String)
    ensures
        path@ == include_path_of(include_name@),
{
    let mut path = String::from_str("shaders/");
    path.append(include_name);
    path.append(".inc.glsl");
    path
}

/// The resource path of the texture `name`.
pub fn texture_path(name: &str) -> (path: String)
    ensures
        path@ == texture_path_of(name@),
{
    let mut path = String::from_str("textures/");
    path.append(name);
    path.append(".png");
    path
}

/// The fragments a shader template may include, each with the template
/// key that includes it: the key is `include_` followed by the fragment's
/// name.
pub fn shader_includes() -> (includes: Vec<(&'static str, &'static str)>)
    ensures
        includes.len() == 6,
        forall|i: int|
            0 <= i < includes.len() ==> (#[trigger] includes[i]).0@ == "include_"@ + includes[i].1@,
        includes[0].1@ == "tile_alpha_vertex"@,
        includes[1].1@ == "tile_monochrome"@,
        includes[2].1@ == "tile_multicolor"@,
        includes[3].1@ == "tile_solid_vertex"@,
        includes[4].1@ == "post_convolve"@,
        includes[5].1@ == "post_gamma_correct"@,
{
    let includes = vec![
        ("include_tile_alpha_vertex", "tile_alpha_vertex"),
        ("include_tile_monochrome", "tile_monochrome"),
        ("include_tile_multicolor", "tile_multicolor"),
        ("include_tile_solid_vertex", "tile_solid_vertex"),
        ("include_post_convolve", "post_convolve"),
        ("include_post_gamma_correct", "post_gamma_correct"),
    ];
    proof {
        reveal_strlit("include_");
        reveal_strlit("include_tile_alpha_vertex");
        reveal_strlit("tile_alpha_vertex");
        reveal_strlit("include_tile_monochrome");
        reveal_strlit("tile_monochrome");
        reveal_strlit("include_tile_multicolor");
        reveal_strlit("tile_multicolor");
        reveal_strlit("include_tile_solid_vertex");
        reveal_strlit("tile_solid_vertex");
        reveal_strlit("include_post_convolve");
        reveal_strlit("post_convolve");
        reveal_strlit("include_post_gamma_correct");
        reveal_strlit("post_gamma_correct");
        assert("include_tile_alpha_vertex"@ =~= "include_"@ + "tile_alpha_vertex"@);
        assert("include_tile_monochrome"@ =~= "include_"@ + "tile_monochrome"@);
        assert("include_tile_multicolor"@ =~= "include_"@ + "tile_multicolor"@);
        assert("include_tile_solid_vertex"@ =~= "include_"@ + "tile_solid_vertex"@);
        assert("include_post_convolve"@ =~= "include_"@ + "post_convolve"@);
        assert("include_post_gamma_correct"@ =~= "include_"@ + "post_gamma_correct"@);
    }
    includes
}

/// The text `String::from_utf8_lossy` decodes from `bytes`.
pub uninterp spec fn utf8_lossy(bytes: Seq<u8>) -> Seq<char>;

/// Whether every byte is an ASCII character.
pub open spec fn all_ascii(bytes: Seq<u8>) -> bool {
    forall|i: int| 0 <= i < bytes.len() ==> #[trigger] bytes[i] < 128
}

/// Decodes bytes with std's `String::from_utf8_lossy`, which decodes UTF-8
/// and puts U+FFFD in place of each invalid sequence. The contract names
/// the result, and states only the case of ASCII bytes, which are valid
/// UTF-8 of one character each: the text is those characters.
#[verifier::external_body]
fn decode_utf8_lossy(bytes: &[u8]) -> (text: String)
    ensures
        text@ == utf8_lossy(bytes@),
        all_ascii(bytes@) ==> text@ == bytes@.map_values(|b: u8| b as char),
{
    String::from_utf8_lossy(bytes).to_string()
}

/// The text of a shader fragment read from the resources, decoded as UTF-8
/// with invalid sequences replaced.
pub fn load_shader_include(resource: &[u8]) -> (text: String)
    ensures
        text@ == utf8_lossy(resource@),
        all_ascii(resource@) ==> text@ == resource@.map_values(|b: u8| b as char),
{
    decode_utf8_lossy(resource)
}

} // verus!
