//! The presentable surface and its configuration.

use crate::backend::Action;
use crate::context::GraphicsContext;
use vstd::prelude::*;

verus! {

/// Texel formats that a surface or a render target may have.
#[derive(Clone, Copy, Debug, PartialEq, Eq, Structural)]
pub enum TextureFormat {
    Bgra8UnormSrgb,
    Bgra8Unorm,
    Rgba8UnormSrgb,
    Rgba8Unorm,
    Rgba16Float,
    Rgb10a2Unorm,
    Depth32Float,
}

/// How finished frames are handed to the display.
#[derive(Clone, Copy, Debug, PartialEq, Eq, Structural)]
pub enum PresentMode {
    Fifo,
    FifoRelaxed,
    Mailbox,
    Immediate,
}

/// What a surface is configured with. A configuration that a
/// [`SurfaceManager`] holds always has `width >= 1` and `height >= 1`.
#[derive(Clone, Copy, Debug, PartialEq, Eq, Structural)]
pub struct SurfaceConfig {
    pub format: TextureFormat,
    pub width: u32,
    pub height: u32,
    pub present_mode: PresentMode,
}

impl SurfaceConfig {
    /// Neither dimension is zero.
    pub open spec fn wf(&self) -> bool {
        self.width >= 1 && self.height >= 1
    }
}

/// The extent that a surface takes for a requested extent: the same,
/// but never less than one.
pub open spec fn clamped(requested: u32) -> u32 {
    if requested == 0 {
        1
    } else {
        requested
    }
}

/// The configuration after a resize to the requested size: the size,
/// clamped; format and present mode as before.
pub open spec fn resized_config(config: SurfaceConfig, width: u32, height: u32) -> SurfaceConfig {
    SurfaceConfig { width: clamped(width), height: clamped(height), ..config }
}

/// Clamps one requested dimension to at least one texel.
pub fn clamp_extent(requested: u32) -> (extent: u32)
    ensures
        extent == clamped(requested),
{
    if requested == 0 {
        1
    } else {
        requested
    }
}

/// The first configuration of the surface of a window of this size,
/// on the device of `context`: the format and the present mode are the
/// first that the adapter supports for the surface.
pub open spec fn first_config(context: GraphicsContext, width: u32, height: u32) -> SurfaceConfig {
    SurfaceConfig {
        format: context.spec_format(),
        width: clamped(width),
        height: clamped(height),
        present_mode: context.spec_present_mode(),
    }
}

/// Owns the configuration of the one surface of the window. Nothing
/// else changes it, and no dimension of it is ever zero.
#[derive(Clone, Copy, Debug, PartialEq, Eq)]
pub struct SurfaceManager {
    config: SurfaceConfig,
}

impl SurfaceManager {
    #[verifier::type_invariant]
    spec fn never_empty(self) -> bool {
        self.config.wf()
    }

    /// The configuration in force.
    pub closed spec fn spec_config(&self) -> SurfaceConfig {
        self.config
    }

    /// Configures the surface for the first time, for a window of the
    /// size given, and asks the backend to apply the configuration.
    pub fn configure(
        context: &GraphicsContext,
        width: u32,
        height: u32,
        calls: &mut Vec<Action>,
    ) -> (manager: SurfaceManager)
        ensures
            manager.spec_config() == first_config(*context, width, height),
            manager.spec_config().wf(),
            final(calls)@ == old(calls)@.push(
                Action::ConfigureSurface { config: first_config(*context, width, height) },
            ),
    {
        let config = SurfaceConfig {
            format: context.format(),
            width: clamp_extent(width),
            height: clamp_extent(height),
            present_mode: context.present_mode(),
        };
        calls.push(Action::ConfigureSurface { config });
        SurfaceManager { config }
    }

    /// Takes a new size, clamped, and asks the backend to apply the
    /// configuration; format and present mode stay. It may be called
    /// on every resize, with the size in force too. Any target sized
    /// to the surface is stale afterwards: who keeps one makes it anew.
    pub fn reconfigure(&mut self, width: u32, height: u32, calls: &mut Vec<Action>)
        ensures
            final(self).spec_config() == resized_config(old(self).spec_config(), width, height),
            final(self).spec_config().wf(),
            final(calls)@ == old(calls)@.push(
                Action::ConfigureSurface {
                    config: resized_config(old(self).spec_config(), width, height),
                },
            ),
    {
        let config = SurfaceConfig {
            format: self.config.format,
            width: clamp_extent(width),
            height: clamp_extent(height),
            present_mode: self.config.present_mode,
        };
        self.config = config;
        calls.push(Action::ConfigureSurface { config });
    }

    /// The configuration in force. Neither of its dimensions is zero.
    pub fn config(&self) -> (config: SurfaceConfig)
        ensures
            config == self.spec_config(),
            config.wf(),
    {
        proof {
            use_type_invariant(self);
        }
        self.config
    }
}

/// Reconfiguring twice with one size leaves what reconfiguring once
/// leaves, and reconfiguring with the size in force changes nothing.
pub proof fn reconfigure_is_idempotent(config: SurfaceConfig, width: u32, height: u32)
    ensures
        resized_config(resized_config(config, width, height), width, height) == resized_config(
            config,
            width,
            height,
        ),
        config.wf() ==> resized_config(config, config.width, config.height) == config,
{
}

/// Whatever size is requested, no dimension of the configuration is
/// zero afterwards: one that was requested as zero is one, any other
/// is as requested.
pub proof fn resize_clamps_to_one(config: SurfaceConfig, width: u32, height: u32)
    ensures
        resized_config(config, width, height).wf(),
        width == 0 ==> resized_config(config, width, height).width == 1,
        height == 0 ==> resized_config(config, width, height).height == 1,
        width != 0 ==> resized_config(config, width, height).width == width,
        height != 0 ==> resized_config(config, width, height).height == height,
{
}

/// A requested extent of zero is configured as one; any other is kept.
pub proof fn zero_extent_clamps_to_one(requested: u32)
    ensures
        requested == 0 ==> clamped(requested) == 1,
        requested != 0 ==> clamped(requested) == requested,
        clamped(requested) >= 1,
        clamped(clamped(requested)) == clamped(requested),
{
}

} // verus!
