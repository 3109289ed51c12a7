use vstd::prelude::*;

use crate::gl_common::GLContextAttributes;

verus! {

/// `NSOpenGLContextParameter`.
#[derive(Clone, Copy, Debug, PartialEq, Eq, Structural)]
pub enum NSOpenGLContextParameter {
    NSOpenGLCPSwapInterval,
}

impl NSOpenGLContextParameter {
    /// The value AppKit knows the parameter by.
    pub fn code(&self) -> (c: u64)
        ensures
            c == 222,
    {
        match self {
            NSOpenGLContextParameter::NSOpenGLCPSwapInterval => 222,
        }
    }
}

/// `NSOpenGLPixelFormatAttribute`.
#[derive(Clone, Copy, Debug, PartialEq, Eq, Structural)]
pub enum NSOpenGLPixelFormatAttribute {
    NSOpenGLPFADoubleBuffer,
    NSOpenGLPFAColorSize,
    NSOpenGLPFAAlphaSize,
    NSOpenGLPFADepthSize,
    NSOpenGLPFAStencilSize,
    NSOpenGLPFASampleBuffers,
    NSOpenGLPFASamples,
    NSOpenGLPFAAccelerated,
    NSOpenGLPFAOpenGLProfile,
}

/// The value AppKit knows a pixel format attribute by.
pub open spec fn attribute_code(a: NSOpenGLPixelFormatAttribute) -> u64 {
    match a {
        NSOpenGLPixelFormatAttribute::NSOpenGLPFADoubleBuffer => 5,
        NSOpenGLPixelFormatAttribute::NSOpenGLPFAColorSize => 8,
        NSOpenGLPixelFormatAttribute::NSOpenGLPFAAlphaSize => 11,
        NSOpenGLPixelFormatAttribute::NSOpenGLPFADepthSize => 12,
        NSOpenGLPixelFormatAttribute::NSOpenGLPFAStencilSize => 13,
        NSOpenGLPixelFormatAttribute::NSOpenGLPFASampleBuffers => 55,
        NSOpenGLPixelFormatAttribute::NSOpenGLPFASamples => 56,
        NSOpenGLPixelFormatAttribute::NSOpenGLPFAAccelerated => 73,
        NSOpenGLPixelFormatAttribute::NSOpenGLPFAOpenGLProfile => 99,
    }
}

impl NSOpenGLPixelFormatAttribute {
    /// The value AppKit knows the attribute by.
    pub fn code(&self) -> (c: u64)
        ensures
            c == attribute_code(*self),
    {
        match self {
            NSOpenGLPixelFormatAttribute::NSOpenGLPFADoubleBuffer => 5,
            NSOpenGLPixelFormatAttribute::NSOpenGLPFAColorSize => 8,
            NSOpenGLPixelFormatAttribute::NSOpenGLPFAAlphaSize => 11,
            NSOpenGLPixelFormatAttribute::NSOpenGLPFADepthSize => 12,
            NSOpenGLPixelFormatAttribute::NSOpenGLPFAStencilSize => 13,
            NSOpenGLPixelFormatAttribute::NSOpenGLPFASampleBuffers => 55,
            NSOpenGLPixelFormatAttribute::NSOpenGLPFASamples => 56,
            NSOpenGLPixelFormatAttribute::NSOpenGLPFAAccelerated => 73,
            NSOpenGLPixelFormatAttribute::NSOpenGLPFAOpenGLProfile => 99,
        }
    }
}

/// `NSOpenGLPFAOpenGLProfiles`.
#[allow(non_camel_case_types)]
#[derive(Clone, Copy, Debug, PartialEq, Eq, Structural)]
pub enum NSOpenGLPFAOpenGLProfiles {
    NSOpenGLProfileVersion4_1Core,
}

impl NSOpenGLPFAOpenGLProfiles {
    /// The value AppKit knows the profile by.
    pub fn code(&self) -> (c: u64)
        ensures
            c == 0x4100,
    {
        match self {
            NSOpenGLPFAOpenGLProfiles::NSOpenGLProfileVersion4_1Core => 0x4100,
        }
    }
}

/// The zero-terminated attribute list an `NSOpenGLPixelFormat` is created
/// with: an OpenGL 4.1 core profile, the requested color, alpha, depth and
/// stencil sizes, hardware acceleration, double buffering, and one sample
/// buffer with the requested number of samples.
pub open spec fn pixel_format_attribute_list(a: GLContextAttributes) -> Seq<u32> {
    seq![
        99u32, 0x4100u32,
        8u32, a.color_bits as u32,
        11u32, a.alpha_bits as u32,
        12u32, a.depth_bits as u32,
        13u32, a.stencil_bits as u32,
        73u32,
        5u32,
        55u32, 1u32,
        56u32, a.msaa_samples as u32,
        0u32,
    ]
}

/// The attribute list for the pixel format of a MacOS GL context.
pub fn pixel_format_attributes(gl_attributes: &GLContextAttributes) -> (attrs: Vec<u32>)
    ensures
        attrs@ == pixel_format_attribute_list(*gl_attributes),
{
    let attrs: Vec<u32> = vec![
        NSOpenGLPixelFormatAttribute::NSOpenGLPFAOpenGLProfile.code() as u32,
        NSOpenGLPFAOpenGLProfiles::NSOpenGLProfileVersion4_1Core.code() as u32,
        NSOpenGLPixelFormatAttribute::NSOpenGLPFAColorSize.code() as u32,
        gl_attributes.color_bits as u32,
        NSOpenGLPixelFormatAttribute::NSOpenGLPFAAlphaSize.code() as u32,
        gl_attributes.alpha_bits as u32,
        NSOpenGLPixelFormatAttribute::NSOpenGLPFADepthSize.code() as u32,
        gl_attributes.depth_bits as u32,
        NSOpenGLPixelFormatAttribute::NSOpenGLPFAStencilSize.code() as u32,
        gl_attributes.stencil_bits as u32,
        NSOpenGLPixelFormatAttribute::NSOpenGLPFAAccelerated.code() as u32,
        NSOpenGLPixelFormatAttribute::NSOpenGLPFADoubleBuffer.code() as u32,
        NSOpenGLPixelFormatAttribute::NSOpenGLPFASampleBuffers.code() as u32,
        1,
        NSOpenGLPixelFormatAttribute::NSOpenGLPFASamples.code() as u32,
        gl_attributes.msaa_samples as u32,
        0,
    ];
    assert(attrs@ =~= pixel_format_attribute_list(*gl_attributes));
    attrs
}

/// The attributes that stand alone in a pixel format attribute list:
/// hardware acceleration (73) and double buffering (5). Every other
/// attribute is followed by its value.
pub open spec fn is_flag_attribute(attr: u32) -> bool {
    attr == 73 || attr == 5
}

/// Reads a zero-terminated attribute list from position `i`: the value
/// given for `attr` (1 for a flag attribute that is present), or `None`
/// when the list does not give it.
pub open spec fn attribute_value_from(list: Seq<u32>, attr: u32, i: int) -> Option<u32>
    decreases list.len() - i,
{
    if i < 0 || i >= list.len() || list[i] == 0 {
        None
    } else if is_flag_attribute(list[i]) {
        if list[i] == attr {
            Some(1)
        } else {
            attribute_value_from(list, attr, i + 1)
        }
    } else if i + 1 >= list.len() {
        None
    } else if list[i] == attr {
        Some(list[i + 1])
    } else {
        attribute_value_from(list, attr, i + 2)
    }
}

/// The value a zero-terminated attribute list gives for `attr`.
pub open spec fn attribute_value(list: Seq<u32>, attr: u32) -> Option<u32> {
    attribute_value_from(list, attr, 0)
}

/// The attribute list passes every requested setting through unchanged:
/// read as AppKit reads it, it asks for the 4.1 core profile (99 gives
/// 0x4100), the builder's color (8), alpha (11), depth (12) and stencil (13)
/// sizes, one sample buffer (55) with the builder's number of samples (56),
/// acceleration (73) and double buffering (5), and ends with 0.
pub proof fn law_pixel_format_keeps_settings(a: GLContextAttributes)
    ensures
        ({
            let l = pixel_format_attribute_list(a);
            &&& attribute_value(l, 99) == Some(0x4100u32)
            &&& attribute_value(l, 8) == Some(a.color_bits as u32)
            &&& attribute_value(l, 11) == Some(a.alpha_bits as u32)
            &&& attribute_value(l, 12) == Some(a.depth_bits as u32)
            &&& attribute_value(l, 13) == Some(a.stencil_bits as u32)
            &&& attribute_value(l, 55) == Some(1u32)
            &&& attribute_value(l, 56) == Some(a.msaa_samples as u32)
            &&& attribute_value(l, 73) == Some(1u32)
            &&& attribute_value(l, 5) == Some(1u32)
            &&& l.last() == 0
        }),
{
    let l = pixel_format_attribute_list(a);
    reveal_with_fuel(attribute_value_from, 11);
    assert(l.len() == 17);
    assert(l[0] == 99 && l[2] == 8 && l[4] == 11 && l[6] == 12 && l[8] == 13 && l[10] == 73
        && l[11] == 5 && l[12] == 55 && l[14] == 56 && l[16] == 0);
}

} // verus!
