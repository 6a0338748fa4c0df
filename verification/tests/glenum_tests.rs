// The named enumerant values must be the ones the real bindings carry.

use wiener::glenum;

#[test]
fn constants_match_the_gl_bindings() {
    assert_eq!(glenum::TRIANGLES, gl::TRIANGLES);
    assert_eq!(glenum::STATIC_DRAW, gl::STATIC_DRAW);
    assert_eq!(glenum::FLOAT, gl::FLOAT);
    assert_eq!(glenum::UNSIGNED_BYTE, gl::UNSIGNED_BYTE);
    assert_eq!(glenum::UNSIGNED_SHORT, gl::UNSIGNED_SHORT);
    assert_eq!(glenum::UNSIGNED_INT, gl::UNSIGNED_INT);
    assert_eq!(glenum::RGB, gl::RGB);
    assert_eq!(glenum::RGBA, gl::RGBA);
    assert_eq!(glenum::DEPTH_COMPONENT, gl::DEPTH_COMPONENT);
    assert_eq!(glenum::REPEAT, gl::REPEAT);
    assert_eq!(glenum::LINEAR, gl::LINEAR);
    assert_eq!(glenum::TEXTURE_2D, gl::TEXTURE_2D);
    assert_eq!(glenum::TEXTURE_2D_MULTISAMPLE, gl::TEXTURE_2D_MULTISAMPLE);
    assert_eq!(glenum::RENDERBUFFER, gl::RENDERBUFFER);
    assert_eq!(glenum::COLOR_ATTACHMENT0, gl::COLOR_ATTACHMENT0);
    assert_eq!(glenum::DEPTH_ATTACHMENT, gl::DEPTH_ATTACHMENT);
    assert_eq!(glenum::DEPTH_STENCIL_ATTACHMENT, gl::DEPTH_STENCIL_ATTACHMENT);
    assert_eq!(glenum::VERTEX_SHADER, gl::VERTEX_SHADER);
    assert_eq!(glenum::FRAGMENT_SHADER, gl::FRAGMENT_SHADER);
    assert_eq!(glenum::GEOMETRY_SHADER, gl::GEOMETRY_SHADER);
    assert_eq!(glenum::TESS_CONTROL_SHADER, gl::TESS_CONTROL_SHADER);
    assert_eq!(glenum::TESS_EVALUATION_SHADER, gl::TESS_EVALUATION_SHADER);
    assert_eq!(glenum::COMPUTE_SHADER, gl::COMPUTE_SHADER);
}
