use vstd::prelude::*;

verus! {

pub const WGL_DRAW_TO_WINDOW_ARB: i32 = 0x2001;
pub const WGL_ACCELERATION_ARB: i32 = 0x2003;
pub const WGL_SUPPORT_OPENGL_ARB: i32 = 0x2010;
pub const WGL_DOUBLE_BUFFER_ARB: i32 = 0x2011;
pub const WGL_PIXEL_TYPE_ARB: i32 = 0x2013;
pub const WGL_COLOR_BITS_ARB: i32 = 0x2014;
pub const WGL_ALPHA_BITS_ARB: i32 = 0x201B;
pub const WGL_DEPTH_BITS_ARB: i32 = 0x2022;
pub const WGL_STENCIL_BITS_ARB: i32 = 0x2023;
pub const WGL_FULL_ACCELERATION_ARB: i32 = 0x2027;
pub const WGL_TYPE_RGBA_ARB: i32 = 0x202B;
pub const WGL_SAMPLE_BUFFERS_ARB: i32 = 0x2041;
pub const WGL_SAMPLES_ARB: i32 = 0x2042;
pub const WGL_CONTEXT_MAJOR_VERSION_ARB: i32 = 0x2091;
pub const WGL_CONTEXT_MINOR_VERSION_ARB: i32 = 0x2092;
pub const WGL_CONTEXT_PROFILE_MASK_ARB: i32 = 0x9126;
pub const WGL_CONTEXT_CORE_PROFILE_BIT_ARB: i32 = 0x00000001;
pub const WGL_FRAMEBUFFER_SRGB_CAPABLE_ARB: i32 = 0x20A9;
pub const TRUE: i32 = 1;
pub const FALSE: i32 = 0;
/// The lowest OpenGL version a Windows context is created with: 4.5.
pub const MAJOR_VERSION_MINIMUM: i32 = 4;
pub const MINOR_VERSION_MINIMUM: i32 = 5;

/// Builds a Windows OpenGL context.
pub struct GLContextBuilder {
    pub samples: u8,
    pub color_bits: u8,
    pub alpha_bits: u8,
    pub depth_bits: u8,
    pub stencil_bits: u8,
    pub srgb: bool,
}

impl GLContextBuilder {
    /// The builder `GLContext::new` starts with: one sample, 24 color bits,
    /// 8 alpha bits, 24 depth bits, 8 stencil bits, no sRGB.
    pub fn new() -> (b: GLContextBuilder)
        ensures
            b == (GLContextBuilder {
                samples: 1,
                color_bits: 24,
                alpha_bits: 8,
                depth_bits: 24,
                stencil_bits: 8,
                srgb: false,
            }),
    {
        GLContextBuilder {
            samples: 1,
            color_bits: 24,
            alpha_bits: 8,
            depth_bits: 24,
            stencil_bits: 8,
            srgb: false,
        }
    }

    /// Sets the number of multisampling samples; every other setting is kept.
    pub fn samples(&mut self, samples: u8) -> (r: &mut Self)
        ensures
            *r == (GLContextBuilder { samples, ..*old(self) }),
            *final(self) == *final(r),
    {
        self.samples = samples;
        self
    }

    /// The pixel format attributes this builder's context is created with.
    pub fn pixel_attributes(&self) -> (attrs: Vec<i32>)
        ensures
            attrs@ == pixel_attribute_list(
                self.color_bits,
                self.alpha_bits,
                self.depth_bits,
                self.stencil_bits,
                self.samples,
                self.srgb,
            ),
    {
        pixel_attributes(
            self.color_bits,
            self.alpha_bits,
            self.depth_bits,
            self.stencil_bits,
            self.samples,
            self.srgb,
        )
    }
}

/// The zero-terminated attribute list `wglChoosePixelFormatARB` is asked
/// for: a double-buffered, fully accelerated RGBA window format with the
/// requested bit depths, one sample buffer with the requested samples, and
/// sRGB capability on request.
pub open spec fn pixel_attribute_list(
    color_bits: u8,
    alpha_bits: u8,
    depth_bits: u8,
    stencil_bits: u8,
    msaa_samples: u8,
    srgb: bool,
) -> Seq<i32> {
    seq![
        WGL_DRAW_TO_WINDOW_ARB, TRUE,
        WGL_SUPPORT_OPENGL_ARB, TRUE,
        WGL_DOUBLE_BUFFER_ARB, TRUE,
        WGL_PIXEL_TYPE_ARB, WGL_TYPE_RGBA_ARB,
        WGL_ACCELERATION_ARB, WGL_FULL_ACCELERATION_ARB,
        WGL_COLOR_BITS_ARB, color_bits as i32,
        WGL_ALPHA_BITS_ARB, alpha_bits as i32,
        WGL_DEPTH_BITS_ARB, depth_bits as i32,
        WGL_STENCIL_BITS_ARB, stencil_bits as i32,
        WGL_SAMPLE_BUFFERS_ARB, 1i32,
        WGL_SAMPLES_ARB, msaa_samples as i32,
        WGL_FRAMEBUFFER_SRGB_CAPABLE_ARB, if srgb { TRUE } else { FALSE },
        0i32,
    ]
}

/// The pixel format attributes of `new_opengl_context`.
pub fn pixel_attributes(
    color_bits: u8,
    alpha_bits: u8,
    depth_bits: u8,
    stencil_bits: u8,
    msaa_samples: u8,
    srgb: bool,
) -> (attrs: Vec<i32>)
    ensures
        attrs@ == pixel_attribute_list(
            color_bits,
            alpha_bits,
            depth_bits,
            stencil_bits,
            msaa_samples,
            srgb,
        ),
{
    let attrs: Vec<i32> = vec![
        WGL_DRAW_TO_WINDOW_ARB,
        TRUE,
        WGL_SUPPORT_OPENGL_ARB,
        TRUE,
        WGL_DOUBLE_BUFFER_ARB,
        TRUE,
        WGL_PIXEL_TYPE_ARB,
        WGL_TYPE_RGBA_ARB,
        WGL_ACCELERATION_ARB,
        WGL_FULL_ACCELERATION_ARB,
        WGL_COLOR_BITS_ARB,
        color_bits as i32,
        WGL_ALPHA_BITS_ARB,
        alpha_bits as i32,
        WGL_DEPTH_BITS_ARB,
        depth_bits as i32,
        WGL_STENCIL_BITS_ARB,
        stencil_bits as i32,
        WGL_SAMPLE_BUFFERS_ARB,
        1,
        WGL_SAMPLES_ARB,
        msaa_samples as i32,
        WGL_FRAMEBUFFER_SRGB_CAPABLE_ARB,
        if srgb { TRUE } else { FALSE },
        0,
    ];
    assert(attrs@ =~= pixel_attribute_list(
        color_bits,
        alpha_bits,
        depth_bits,
        stencil_bits,
        msaa_samples,
        srgb,
    ));
    attrs
}

/// The attribute list of the final context: at least OpenGL 4.5, core
/// profile, zero-terminated.
pub fn context_attributes() -> (attrs: Vec<i32>)
    ensures
        attrs@ == seq![
            WGL_CONTEXT_MAJOR_VERSION_ARB, MAJOR_VERSION_MINIMUM,
            WGL_CONTEXT_MINOR_VERSION_ARB, MINOR_VERSION_MINIMUM,
            WGL_CONTEXT_PROFILE_MASK_ARB, WGL_CONTEXT_CORE_PROFILE_BIT_ARB,
            0i32,
        ],
{
    let attrs: Vec<i32> = vec![
        WGL_CONTEXT_MAJOR_VERSION_ARB,
        MAJOR_VERSION_MINIMUM,
        WGL_CONTEXT_MINOR_VERSION_ARB,
        MINOR_VERSION_MINIMUM,
        WGL_CONTEXT_PROFILE_MASK_ARB,
        WGL_CONTEXT_CORE_PROFILE_BIT_ARB,
        0,
    ];
    assert(attrs@ =~= seq![
        WGL_CONTEXT_MAJOR_VERSION_ARB, MAJOR_VERSION_MINIMUM,
        WGL_CONTEXT_MINOR_VERSION_ARB, MINOR_VERSION_MINIMUM,
        WGL_CONTEXT_PROFILE_MASK_ARB, WGL_CONTEXT_CORE_PROFILE_BIT_ARB,
        0i32,
    ]);
    attrs
}


/// The window a Windows GL context draws to, and the device context it
/// holds for that window. A device context is only ever held together with
/// its window.
pub struct WindowBinding {
    current_window: Option<usize>,
    window_device_context: Option<usize>,
}

impl WindowBinding {
    /// A device context is held only while a window is set.
    pub closed spec fn wf(&self) -> bool {
        self.window_device_context is Some ==> self.current_window is Some
    }

    pub closed spec fn window(&self) -> Option<usize> {
        self.current_window
    }

    pub closed spec fn device_context(&self) -> Option<usize> {
        self.window_device_context
    }

    /// No window and no device context.
    pub fn new() -> (b: WindowBinding)
        ensures
            b.wf(),
            b.window() is None,
            b.device_context() is None,
    {
        WindowBinding { current_window: None, window_device_context: None }
    }

    /// The device context to release, with its window, before a new window
    /// is set.
    pub fn held_device_context(&self) -> (r: Option<(usize, usize)>)
        requires
            self.wf(),
        ensures
            self.device_context() matches Some(dc) ==> r == Some((self.window()->0, dc)),
            self.device_context() is None ==> r is None,
    {
        match self.window_device_context {
            Some(dc) => match self.current_window {
                Some(w) => Some((w, dc)),
                None => None,
            },
            None => None,
        }
    }

    /// The window and device context are now `window` and `dc`.
    pub fn bind(&mut self, window: usize, dc: usize)
        ensures
            final(self).wf(),
            final(self).window() == Some(window),
            final(self).device_context() == Some(dc),
    {
        self.window_device_context = Some(dc);
        self.current_window = Some(window);
    }

    /// `make_current`: the device context to make the context current on,
    /// when one is held and the thread's current context is another one.
    pub fn make_current_target(&self, current_context: usize, context: usize) -> (r: Option<usize>)
        ensures
            self.device_context() is Some && current_context != context ==> r == self.device_context(),
            self.device_context() is None || current_context == context ==> r is None,
    {
        match self.window_device_context {
            Some(dc) => if current_context != context {
                Some(dc)
            } else {
                None
            },
            None => None,
        }
    }

    /// `swap_buffers`: the device context to swap, when one is held.
    pub fn swap_target(&self) -> (r: Option<usize>)
        ensures
            r == self.device_context(),
    {
        self.window_device_context
    }
}

/// Reads a zero-terminated list of attribute and value pairs from
/// position `i`: the value given for `attr`, or `None` when the list does
/// not give it.
pub open spec fn wgl_value_from(list: Seq<i32>, attr: i32, i: int) -> Option<i32>
    decreases list.len() - i,
{
    if i < 0 || i + 1 >= list.len() || list[i] == 0 {
        None
    } else if list[i] == attr {
        Some(list[i + 1])
    } else {
        wgl_value_from(list, attr, i + 2)
    }
}

/// The value a zero-terminated attribute list gives for `attr`.
pub open spec fn wgl_value(list: Seq<i32>, attr: i32) -> Option<i32> {
    wgl_value_from(list, attr, 0)
}

/// The pixel format request passes every setting through unchanged: read
/// as `wglChoosePixelFormatARB` reads it, it asks for a window format
/// (0x2001) with OpenGL (0x2010), double buffering (0x2011), RGBA pixels
/// (0x2013 gives 0x202B) and full acceleration (0x2003 gives 0x2027); the
/// given color (0x2014), alpha (0x201B), depth (0x2022) and stencil
/// (0x2023) bits; one sample buffer (0x2041) with the given samples
/// (0x2042); sRGB capability (0x20A9) as asked; and it ends with 0.
pub proof fn law_pixel_request_keeps_settings(
    color_bits: u8,
    alpha_bits: u8,
    depth_bits: u8,
    stencil_bits: u8,
    msaa_samples: u8,
    srgb: bool,
)
    ensures
        ({
            let l = pixel_attribute_list(
                color_bits,
                alpha_bits,
                depth_bits,
                stencil_bits,
                msaa_samples,
                srgb,
            );
            &&& wgl_value(l, 0x2001) == Some(1i32)
            &&& wgl_value(l, 0x2010) == Some(1i32)
            &&& wgl_value(l, 0x2011) == Some(1i32)
            &&& wgl_value(l, 0x2013) == Some(0x202Bi32)
            &&& wgl_value(l, 0x2003) == Some(0x2027i32)
            &&& wgl_value(l, 0x2014) == Some(color_bits as i32)
            &&& wgl_value(l, 0x201B) == Some(alpha_bits as i32)
            &&& wgl_value(l, 0x2022) == Some(depth_bits as i32)
            &&& wgl_value(l, 0x2023) == Some(stencil_bits as i32)
            &&& wgl_value(l, 0x2041) == Some(1i32)
            &&& wgl_value(l, 0x2042) == Some(msaa_samples as i32)
            &&& wgl_value(l, 0x20A9) == Some(if srgb { 1i32 } else { 0i32 })
            &&& l.last() == 0
        }),
{
    let l = pixel_attribute_list(color_bits, alpha_bits, depth_bits, stencil_bits, msaa_samples, srgb);
    reveal_with_fuel(wgl_value_from, 13);
    assert(l.len() == 25);
    assert(l[0] == 0x2001 && l[2] == 0x2010 && l[4] == 0x2011 && l[6] == 0x2013 && l[8] == 0x2003
        && l[10] == 0x2014 && l[12] == 0x201B && l[14] == 0x2022 && l[16] == 0x2023 && l[18]
        == 0x2041 && l[20] == 0x2042 && l[22] == 0x20A9 && l[24] == 0);
}

} // verus!
