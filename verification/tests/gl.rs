use kapp::gl_common::{GLContextBuilder, SetWindowError, VSync, WebGLVersion};
use kapp::nsgl::{
    pixel_format_attributes, NSOpenGLContextParameter, NSOpenGLPFAOpenGLProfiles,
    NSOpenGLPixelFormatAttribute,
};
use kapp::wgl;

#[test]
fn native_builder_defaults() {
    let b = GLContextBuilder::new_native();
    let a = &b.gl_attributes;
    assert_eq!((a.version_major, a.version_minor), (3, 3));
    assert_eq!((a.color_bits, a.alpha_bits, a.depth_bits, a.stencil_bits), (24, 8, 24, 8));
    assert_eq!(a.msaa_samples, 1);
    assert_eq!(a.webgl_version, WebGLVersion::Disabled);
}

#[test]
fn samples_changes_only_samples() {
    let mut b = GLContextBuilder::new_native();
    b.samples(4).samples(8);
    assert_eq!(b.gl_attributes.msaa_samples, 8);
    assert_eq!(b.gl_attributes.color_bits, 24);
    assert_eq!(b.host_message(), Err(()));
    assert_eq!(b.context_type(), Err(()));
    assert_eq!(b.fallback_context_type(), None);
}

#[test]
fn webgl_versions() {
    let mut b = GLContextBuilder::new_web();
    assert_eq!(b.gl_attributes.webgl_version, WebGLVersion::One);
    assert_eq!(b.host_message(), Ok(0));
    assert_eq!(b.context_type(), Ok("webgl"));
    assert_eq!(b.fallback_context_type(), None);
    b.webgl2();
    assert_eq!(b.host_message(), Ok(1));
    assert_eq!(b.context_type(), Ok("webgl2"));
    assert_eq!(b.fallback_context_type(), Some("webgl"));
    b.webgl1().samples(2);
    assert_eq!(b.gl_attributes.webgl_version, WebGLVersion::One);
    assert_eq!(b.gl_attributes.msaa_samples, 2);
}

#[test]
fn macos_pixel_format() {
    let mut b = GLContextBuilder::new_native();
    b.samples(4);
    assert_eq!(
        pixel_format_attributes(&b.gl_attributes),
        vec![99, 0x4100, 8, 24, 11, 8, 12, 24, 13, 8, 73, 5, 55, 1, 56, 4, 0]
    );
    assert_eq!(NSOpenGLContextParameter::NSOpenGLCPSwapInterval.code(), 222);
    assert_eq!(NSOpenGLPixelFormatAttribute::NSOpenGLPFASamples.code(), 56);
    assert_eq!(NSOpenGLPFAOpenGLProfiles::NSOpenGLProfileVersion4_1Core.code(), 0x4100);
}

#[test]
fn windows_builder_and_attributes() {
    let mut b = wgl::GLContextBuilder::new();
    assert_eq!(b.samples, 1);
    b.samples(4);
    assert_eq!(b.samples, 4);
    assert_eq!(b.color_bits, 24);
    assert_eq!(
        b.pixel_attributes(),
        vec![
            0x2001, 1, 0x2010, 1, 0x2011, 1, 0x2013, 0x202B, 0x2003, 0x2027, 0x2014, 24, 0x201B, 8,
            0x2022, 24, 0x2023, 8, 0x2041, 1, 0x2042, 4, 0x20A9, 0, 0
        ]
    );
    assert_eq!(wgl::pixel_attributes(32, 0, 16, 0, 2, true)[23], 1);
    assert_eq!(wgl::context_attributes(), vec![0x2091, 4, 0x2092, 5, 0x9126, 1, 0]);
}

#[test]
fn windows_window_binding() {
    let mut w = wgl::WindowBinding::new();
    assert_eq!(w.held_device_context(), None);
    assert_eq!(w.make_current_target(1, 2), None);
    w.bind(10, 20);
    assert_eq!(w.held_device_context(), Some((10, 20)));
    assert_eq!(w.make_current_target(1, 2), Some(20));
    assert_eq!(w.make_current_target(2, 2), None);
    assert_eq!(w.swap_target(), Some(20));
}

#[test]
fn misc_types() {
    assert_ne!(VSync::On, VSync::Other(2));
    assert_eq!(SetWindowError::MismatchedPixelFormat, SetWindowError::MismatchedPixelFormat);
}
