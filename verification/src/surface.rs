//! The surface manager: the live surface configuration (size, pixel format,
//! presentation mode, usage), the startup format probe, and reconfiguration
//! on resize.

use vstd::prelude::*;

verus! {

/// The pixel formats the format probe distinguishes.
#[derive(Clone, Copy, Debug, PartialEq, Eq, Structural)]
pub enum TextureFormat {
    Bgra8UnormSrgb,
    Bgra8Unorm,
    Rgba8UnormSrgb,
    Rgba8Unorm,
}

/// How acquired images are presented. The core fixes this to `Fifo`:
/// vertical-sync locked.
#[derive(Clone, Copy, Debug, PartialEq, Eq, Structural)]
pub enum PresentMode {
    Fifo,
    Immediate,
    Mailbox,
}

/// A fatal startup failure: there is no fallback rendering path, so the
/// embedder must abort before the loop starts.
#[derive(Clone, Copy, Debug, PartialEq, Eq, Structural)]
pub enum StartupError {
    /// The surface supports no sRGB-encoded 8-bit-per-channel format.
    NoSupportedFormat,
}

/// Probe the set of formats the surface supports and select the preferred
/// sRGB-encoded 8-bit-per-channel format. Succeeds exactly when the surface
/// supports it; otherwise the startup must fail fatally, since no fallback
/// rendering path exists.
pub fn select_format(supported: &Vec<TextureFormat>) -> (r: Result<TextureFormat, StartupError>)
    ensures
        match r {
            Ok(f) => f == TextureFormat::Bgra8UnormSrgb && exists|i: int|
                0 <= i < supported@.len() && supported@[i] == TextureFormat::Bgra8UnormSrgb,
            Err(e) => e == StartupError::NoSupportedFormat && forall|i: int|
                0 <= i < supported@.len() ==> supported@[i] != TextureFormat::Bgra8UnormSrgb,
        },
{
    let mut idx: usize = 0;
    while idx < supported.len()
        invariant
            idx <= supported@.len(),
            forall|i: int| 0 <= i < idx ==> supported@[i] != TextureFormat::Bgra8UnormSrgb,
        decreases supported@.len() - idx,
    {
        if supported[idx] == TextureFormat::Bgra8UnormSrgb {
            return Ok(TextureFormat::Bgra8UnormSrgb);
        }
        idx += 1;
    }
    Err(StartupError::NoSupportedFormat)
}

/// The live surface configuration. Exactly one is live at a time; it is
/// rebuilt on every resize and otherwise never mutated.
#[derive(Clone, Copy, Debug, PartialEq, Eq, Structural)]
pub struct SurfaceConfig {
    pub width: u32,
    pub height: u32,
    pub format: TextureFormat,
    pub present_mode: PresentMode,
    /// Surface images are used only as render-pass targets.
    pub render_attachment_usage: bool,
}

/// A configuration is well formed when it keeps the fixed startup choices:
/// vsync-locked presentation and render-attachment-only usage.
pub open spec fn config_wf(c: SurfaceConfig) -> bool {
    c.present_mode == PresentMode::Fifo && c.render_attachment_usage
}

/// Owns the surface configuration; the loop's thread alone mutates it, and
/// only in response to a resize event.
#[derive(Clone, Copy, Debug, PartialEq, Eq, Structural)]
pub struct SurfaceManager {
    pub config: SurfaceConfig,
}

impl SurfaceManager {
    pub open spec fn wf(self) -> bool {
        config_wf(self.config)
    }

    /// Build the initial configuration from the startup-selected format and
    /// the window's initial inner size.
    pub fn new(format: TextureFormat, width: u32, height: u32) -> (m: Self)
        ensures
            m.wf(),
            m.config == (SurfaceConfig {
                width,
                height,
                format,
                present_mode: PresentMode::Fifo,
                render_attachment_usage: true,
            }),
    {
        SurfaceManager {
            config: SurfaceConfig {
                width,
                height,
                format,
                present_mode: PresentMode::Fifo,
                render_attachment_usage: true,
            },
        }
    }

    /// Rebuild the configuration for a resized surface: the dimensions
    /// change; the format, presentation mode and usage are kept. The
    /// embedder applies it to the live surface, which may stall briefly
    /// while outstanding presented images drain — a cost bounded to resize
    /// events only.
    pub fn configure(&mut self, width: u32, height: u32)
        ensures
            final(self).config == (SurfaceConfig { width, height, ..old(self).config }),
            old(self).wf() ==> final(self).wf(),
    {
        self.config.width = width;
        self.config.height = height;
    }
}

} // verus!
