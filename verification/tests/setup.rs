use glow_painter::error::PainterError;
use glow_painter::shader_version::ShaderVersion;
use glow_painter::setup::{
    check_gl_version, ends_with, fragment_shader_source, max_texture_side, supports_srgb_framebuffer,
    vertex_attributes, vertex_shader_source, AttributeLocations, BufferInfo, VertexLayout,
};

#[test]
fn old_contexts_are_refused() {
    assert!(check_gl_version(0).is_err());
    let error = check_gl_version(1).unwrap_err();
    assert_eq!(error.0, "egui_glow requires opengl 2.0+. ");
    assert_eq!(error.message(), "OpenGL: egui_glow requires opengl 2.0+. ");
    assert!(check_gl_version(2).is_ok());
    assert!(check_gl_version(3).is_ok());
    assert!(check_gl_version(4).is_ok());
}

#[test]
fn error_says_where_it_comes_from() {
    let error = PainterError::from(String::from("link failed"));
    assert_eq!(error.0, "link failed");
    assert_eq!(error.message(), "OpenGL: link failed");
    assert_eq!(PainterError(String::new()).message(), "OpenGL: ");
}

#[test]
fn max_texture_side_is_taken_as_answered() {
    assert_eq!(max_texture_side(16384), 16384);
    assert_eq!(max_texture_side(0), 0);
    assert_eq!(max_texture_side(-1), usize::MAX);
}

#[test]
fn suffixes_are_found() {
    assert!(ends_with("GL_ARB_framebuffer_sRGB", "ARB_framebuffer_sRGB"));
    assert!(ends_with("ARB_framebuffer_sRGB", "ARB_framebuffer_sRGB"));
    assert!(ends_with("anything", ""));
    assert!(ends_with("", ""));
    assert!(!ends_with("", "a"));
    assert!(!ends_with("RB_framebuffer_sRGB", "ARB_framebuffer_sRGB"));
    assert!(!ends_with("GL_ARB_framebuffer_sRGB ", "ARB_framebuffer_sRGB"));
    assert!(!ends_with("GL_ARB_framebuffer_srgb", "ARB_framebuffer_sRGB"));
    assert!(ends_with("größe", "öße"));
    assert!(!ends_with("große", "öße"));
}

#[test]
fn srgb_framebuffer_is_detected_under_any_prefix() {
    let list = |names: &[&str]| names.iter().map(|n| n.to_string()).collect::<Vec<String>>();
    assert!(!supports_srgb_framebuffer(&list(&[])));
    assert!(!supports_srgb_framebuffer(&list(&["GL_EXT_texture_sRGB", "GL_ARB_multisample"])));
    assert!(supports_srgb_framebuffer(&list(&["GL_ARB_multisample", "GL_ARB_framebuffer_sRGB"])));
    assert!(supports_srgb_framebuffer(&list(&["GLX_ARB_framebuffer_sRGB", "GL_ARB_multisample"])));
    assert!(supports_srgb_framebuffer(&list(&["WGL_ARB_framebuffer_sRGB"])));
    assert!(!supports_srgb_framebuffer(&list(&["GL_EXT_framebuffer_sRGB"])));
    assert!(!supports_srgb_framebuffer(&list(&["GL_ARB_framebuffer_sRGB_extra"])));
}

#[test]
fn vertex_source_is_assembled_line_by_line() {
    assert_eq!(
        vertex_shader_source(ShaderVersion::Gl140, "#define X\n", "void main() {}"),
        "#version 140\n\n#define NEW_SHADER_INTERFACE 1\n#define X\n\nvoid main() {}"
    );
    assert_eq!(
        vertex_shader_source(ShaderVersion::Es100, "", "body"),
        "#version 100\n\n#define NEW_SHADER_INTERFACE 0\n\nbody"
    );
}

#[test]
fn fragment_source_carries_the_dithering_switch() {
    assert_eq!(
        fragment_shader_source(ShaderVersion::Es300, false, "#define X\n", "void main() {}"),
        "#version 300 es\n\n#define NEW_SHADER_INTERFACE 1\n#define DITHERING 0\n#define X\n\nvoid main() {}"
    );
    assert_eq!(
        fragment_shader_source(ShaderVersion::Gl120, true, "", "body"),
        "#version 120\n\n#define NEW_SHADER_INTERFACE 0\n#define DITHERING 1\n\nbody"
    );
}

#[test]
fn vertex_attributes_follow_the_layout() {
    let infos = vertex_attributes(
        AttributeLocations { a_pos: 7, a_tc: 8, a_srgba: 9 },
        VertexLayout { stride: 20, pos_offset: 0, uv_offset: 8, color_offset: 16 },
    );
    assert_eq!(
        infos,
        vec![
            BufferInfo { location: 7, vector_size: 2, data_type: glow::FLOAT, normalized: false, stride: 20, offset: 0 },
            BufferInfo { location: 8, vector_size: 2, data_type: glow::FLOAT, normalized: false, stride: 20, offset: 8 },
            BufferInfo {
                location: 9,
                vector_size: 4,
                data_type: glow::UNSIGNED_BYTE,
                normalized: false,
                stride: 20,
                offset: 16,
            },
        ]
    );
}

#[test]
fn dialect_follows_profile_and_version() {
    assert_eq!(ShaderVersion::for_context(2, 0, false), ShaderVersion::Gl120);
    assert_eq!(ShaderVersion::for_context(2, 1, false), ShaderVersion::Gl120);
    assert_eq!(ShaderVersion::for_context(3, 0, false), ShaderVersion::Gl120);
    assert_eq!(ShaderVersion::for_context(3, 1, false), ShaderVersion::Gl140);
    assert_eq!(ShaderVersion::for_context(3, 3, false), ShaderVersion::Gl140);
    assert_eq!(ShaderVersion::for_context(4, 0, false), ShaderVersion::Gl140);
    assert_eq!(ShaderVersion::for_context(4, 6, false), ShaderVersion::Gl140);
    assert_eq!(ShaderVersion::for_context(2, 0, true), ShaderVersion::Es100);
    assert_eq!(ShaderVersion::for_context(2, 9, true), ShaderVersion::Es100);
    assert_eq!(ShaderVersion::for_context(3, 0, true), ShaderVersion::Es300);
    assert_eq!(ShaderVersion::for_context(3, 2, true), ShaderVersion::Es300);
}

#[test]
fn each_dialect_has_its_version_line() {
    assert_eq!(ShaderVersion::Gl120.version_declaration(), "#version 120\n");
    assert_eq!(ShaderVersion::Gl140.version_declaration(), "#version 140\n");
    assert_eq!(ShaderVersion::Es100.version_declaration(), "#version 100\n");
    assert_eq!(ShaderVersion::Es300.version_declaration(), "#version 300 es\n");
}

#[test]
fn newer_dialects_have_the_new_interface() {
    assert!(!ShaderVersion::Gl120.is_new_shader_interface());
    assert!(ShaderVersion::Gl140.is_new_shader_interface());
    assert!(!ShaderVersion::Es100.is_new_shader_interface());
    assert!(ShaderVersion::Es300.is_new_shader_interface());
}
