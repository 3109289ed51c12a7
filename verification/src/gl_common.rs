use vstd::prelude::*;

verus! {

/// Which WebGL API a web context is created with.
#[derive(Clone, Copy, PartialEq, Eq, Structural, Debug)]
pub enum WebGLVersion {
    One,
    Two,
    Disabled,
}

/// The pixel format and context attributes requested for a GL context.
pub struct GLContextAttributes {
    pub version_major: u8,
    pub version_minor: u8,
    pub color_bits: u8,
    pub alpha_bits: u8,
    pub depth_bits: u8,
    pub stencil_bits: u8,
    /// msaa_samples should be a multiple of 2
    pub msaa_samples: u8,
    pub webgl_version: WebGLVersion,
    pub high_dpi_framebuffer: bool,
}

/// How a context's buffer swaps wait for the display.
#[derive(Copy, Clone, Debug, PartialEq, Eq, Structural)]
pub enum VSync {
    On,
    Off,
    Adaptive,
    /// How many frames to wait before displaying: `Other(2)` renders at
    /// half the display's frame rate.
    Other(i32),
}

#[derive(Copy, Clone, Debug, PartialEq, Eq, Structural)]
pub enum SetWindowError {
    /// The pixel format of the window does not match the context's
    MismatchedPixelFormat,
}

/// The attributes every platform's builder starts from: OpenGL 3.3, one
/// sample, 24 color bits, 8 alpha bits, 24 depth bits and 8 stencil bits.
pub open spec fn default_attributes(webgl_version: WebGLVersion) -> GLContextAttributes {
    GLContextAttributes {
        version_major: 3,
        version_minor: 3,
        color_bits: 24,
        alpha_bits: 8,
        depth_bits: 24,
        stencil_bits: 8,
        msaa_samples: 1,
        webgl_version,
        high_dpi_framebuffer: false,
    }
}

/// Builds a GL context from the requested attributes.
pub struct GLContextBuilder {
    pub gl_attributes: GLContextAttributes,
}

impl GLContextBuilder {
    /// The builder `GLContext::new` starts with on MacOS.
    pub fn new_native() -> (b: GLContextBuilder)
        ensures
            b.gl_attributes == default_attributes(WebGLVersion::Disabled),
    {
        GLContextBuilder { gl_attributes: Self::attributes(WebGLVersion::Disabled) }
    }

    /// The builder `GLContext::new` starts with on the web; only the WebGL
    /// version is used there.
    pub fn new_web() -> (b: GLContextBuilder)
        ensures
            b.gl_attributes == default_attributes(WebGLVersion::One),
    {
        GLContextBuilder { gl_attributes: Self::attributes(WebGLVersion::One) }
    }

    fn attributes(webgl_version: WebGLVersion) -> (a: GLContextAttributes)
        ensures
            a == default_attributes(webgl_version),
    {
        GLContextAttributes {
            version_major: 3,
            version_minor: 3,
            color_bits: 24,
            alpha_bits: 8,
            depth_bits: 24,
            stencil_bits: 8,
            msaa_samples: 1,
            webgl_version,
            high_dpi_framebuffer: false,
        }
    }

    /// Sets the number of multisampling samples; every other attribute is kept.
    pub fn samples(&mut self, samples: u8) -> (r: &mut Self)
        ensures
            *r == (GLContextBuilder {
                gl_attributes: GLContextAttributes { msaa_samples: samples, ..old(self).gl_attributes },
            }),
            *final(self) == *final(r),
    {
        self.gl_attributes.msaa_samples = samples;
        self
    }

    /// Requests a WebGL 1 context; every other attribute is kept.
    pub fn webgl1(&mut self) -> (r: &mut Self)
        ensures
            *r == (GLContextBuilder {
                gl_attributes: GLContextAttributes {
                    webgl_version: WebGLVersion::One,
                    ..old(self).gl_attributes
                },
            }),
            *final(self) == *final(r),
    {
        self.gl_attributes.webgl_version = WebGLVersion::One;
        self
    }

    /// Requests a WebGL 2 context, falling back to WebGL 1 where WebGL 2 is
    /// not available (see `fallback_context_type`); every other attribute is
    /// kept.
    pub fn webgl2(&mut self) -> (r: &mut Self)
        ensures
            *r == (GLContextBuilder {
                gl_attributes: GLContextAttributes {
                    webgl_version: WebGLVersion::Two,
                    ..old(self).gl_attributes
                },
            }),
            *final(self) == *final(r),
    {
        self.gl_attributes.webgl_version = WebGLVersion::Two;
        self
    }

    /// The message that asks the web host for a context: 0 creates a WebGL 1
    /// context and 1 a WebGL 2 context; without a WebGL version no context
    /// can be built.
    pub fn host_message(&self) -> (r: Result<u32, ()>)
        ensures
            self.gl_attributes.webgl_version == WebGLVersion::One ==> r == Ok::<u32, ()>(0),
            self.gl_attributes.webgl_version == WebGLVersion::Two ==> r == Ok::<u32, ()>(1),
            self.gl_attributes.webgl_version == WebGLVersion::Disabled ==> r == Err::<u32, ()>(()),
    {
        match self.gl_attributes.webgl_version {
            WebGLVersion::One => Ok(0),
            WebGLVersion::Two => Ok(1),
            WebGLVersion::Disabled => Err(()),
        }
    }

    /// The canvas context type to ask for: "webgl" or "webgl2"; without a
    /// WebGL version no context can be built.
    pub fn context_type(&self) -> (r: Result<&'static str, ()>)
        ensures
            self.gl_attributes.webgl_version == WebGLVersion::One ==> (r matches Ok(t) && t@
                == "webgl"@),
            self.gl_attributes.webgl_version == WebGLVersion::Two ==> (r matches Ok(t) && t@
                == "webgl2"@),
            self.gl_attributes.webgl_version == WebGLVersion::Disabled ==> r is Err,
    {
        proof {
            reveal_strlit("webgl");
            reveal_strlit("webgl2");
        }
        match self.gl_attributes.webgl_version {
            WebGLVersion::One => Ok("webgl"),
            WebGLVersion::Two => Ok("webgl2"),
            WebGLVersion::Disabled => Err(()),
        }
    }

    /// The canvas context type to ask for when the one `context_type` names
    /// cannot be had: a WebGL 2 request falls back to "webgl"; a WebGL 1
    /// request has nothing to fall back to.
    pub fn fallback_context_type(&self) -> (r: Option<&'static str>)
        ensures
            self.gl_attributes.webgl_version == WebGLVersion::Two ==> (r matches Some(t) && t@
                == "webgl"@),
            self.gl_attributes.webgl_version != WebGLVersion::Two ==> r is None,
    {
        proof {
            reveal_strlit("webgl");
        }
        match self.gl_attributes.webgl_version {
            WebGLVersion::Two => Some("webgl"),
            _ => None,
        }
    }
}

} // verus!
