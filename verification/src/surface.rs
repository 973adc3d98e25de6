//! The presentable surface: its configuration and the rule by which a resize
//! changes it.

use vstd::prelude::*;

verus! {

/// Pixel format of a texture: `wgpu::TextureFormat`, carried through unread.
/// The library takes a format from the list that the surface offers and hands
/// it on to the surface configuration and to the pipeline's colour target; it
/// never looks inside one.
#[verifier::external_type_specification]
#[verifier::external_body]
pub struct ExTextureFormat(wgpu::TextureFormat);

/// When a rendered frame becomes visible, relative to the display's refresh.
#[derive(Clone, Copy, Debug, PartialEq, Eq, Structural)]
pub enum PresentMode {
    AutoVsync,
    AutoNoVsync,
    /// Frames queue up and one is shown per vertical blank: no tearing.
    Fifo,
    FifoRelaxed,
    Immediate,
    Mailbox,
}

/// What the textures of a surface are used for.
#[derive(Clone, Copy, Debug, PartialEq, Eq, Structural)]
pub enum TextureUsage {
    CopySrc,
    CopyDst,
    TextureBinding,
    StorageBinding,
    /// Output of a render pass.
    RenderAttachment,
}

/// A size in physical pixels.
#[derive(Clone, Copy, Debug, PartialEq, Eq, Structural)]
pub struct PhysicalSize {
    pub width: u32,
    pub height: u32,
}

impl PhysicalSize {
    /// Neither dimension is zero.
    pub open spec fn has_area(self) -> bool {
        self.width > 0 && self.height > 0
    }

    /// Tells whether neither dimension is zero.
    pub fn is_presentable(&self) -> (b: bool)
        ensures
            b == self.has_area(),
    {
        self.width > 0 && self.height > 0
    }
}

/// How a surface is set up for presentation.
#[derive(Clone, Copy, Debug, PartialEq, Eq)]
pub struct SurfaceConfig {
    pub usage: TextureUsage,
    pub format: wgpu::TextureFormat,
    pub width: u32,
    pub height: u32,
    pub present_mode: PresentMode,
}

impl SurfaceConfig {
    /// The first configuration of a surface: a render attachment in the given
    /// format and size, presented in step with the display's refresh.
    pub open spec fn initial(format: wgpu::TextureFormat, size: PhysicalSize) -> SurfaceConfig {
        SurfaceConfig {
            usage: TextureUsage::RenderAttachment,
            format,
            width: size.width,
            height: size.height,
            present_mode: PresentMode::Fifo,
        }
    }

    /// The size that the configuration holds.
    pub open spec fn size(self) -> PhysicalSize {
        PhysicalSize { width: self.width, height: self.height }
    }

    /// Neither dimension is zero.
    pub open spec fn has_area(self) -> bool {
        self.width > 0 && self.height > 0
    }

    /// The configuration after a resize to `size`: the new dimensions where
    /// both are positive, the old configuration otherwise. Format, usage and
    /// present mode never change.
    pub open spec fn resized(self, size: PhysicalSize) -> SurfaceConfig {
        if size.has_area() {
            SurfaceConfig { width: size.width, height: size.height, ..self }
        } else {
            self
        }
    }

    /// The configuration after the resizes of `sizes`, applied in order.
    pub open spec fn after_resizes(self, sizes: Seq<PhysicalSize>) -> SurfaceConfig
        decreases sizes.len(),
    {
        if sizes.len() == 0 {
            self
        } else {
            self.after_resizes(sizes.drop_last()).resized(sizes.last())
        }
    }
}

/// Owner of the surface's configuration.
///
/// A manager always holds a configuration with a positive width and height,
/// presented in `Fifo` mode.
pub struct SurfaceManager {
    config: SurfaceConfig,
}

impl View for SurfaceManager {
    type V = SurfaceConfig;

    /// The configuration that the surface currently has.
    closed spec fn view(&self) -> SurfaceConfig {
        self.config
    }
}

impl SurfaceManager {
    #[verifier::type_invariant]
    closed spec fn holds_presentable_config(self) -> bool {
        self.config.has_area() && self.config.present_mode == PresentMode::Fifo
            && self.config.usage == TextureUsage::RenderAttachment
    }

    /// Chooses the configuration for a surface of the given size: the first
    /// of the formats that the surface offers, in step with the display's
    /// refresh.
    pub fn configure(supported_formats: &Vec<wgpu::TextureFormat>, size: PhysicalSize) -> (manager:
        SurfaceManager)
        requires
            supported_formats@.len() > 0,
            size.has_area(),
        ensures
            manager@ == SurfaceConfig::initial(supported_formats@[0], size),
    {
        SurfaceManager {
            config: SurfaceConfig {
                usage: TextureUsage::RenderAttachment,
                format: supported_formats[0],
                width: size.width,
                height: size.height,
                present_mode: PresentMode::Fifo,
            },
        }
    }

    /// Takes a new window size. Where both dimensions are positive the
    /// configuration gets them and is returned, to be applied to the surface;
    /// a size with a zero dimension changes nothing and returns `None`.
    pub fn resize(&mut self, new_size: PhysicalSize) -> (applied: Option<SurfaceConfig>)
        ensures
            final(self)@ == old(self)@.resized(new_size),
            applied == if new_size.has_area() {
                Some(final(self)@)
            } else {
                None
            },
            final(self)@.has_area(),
            final(self)@.present_mode == PresentMode::Fifo,
            final(self)@.usage == TextureUsage::RenderAttachment,
        no_unwind
    {
        proof {
            use_type_invariant(&*self);
        }
        if new_size.width > 0 && new_size.height > 0 {
            let config = SurfaceConfig { width: new_size.width, height: new_size.height, ..self.config };
            self.config = config;
            Some(config)
        } else {
            None
        }
    }

    /// The current configuration.
    pub fn config(&self) -> (config: SurfaceConfig)
        ensures
            config == self@,
            config.has_area(),
            config.present_mode == PresentMode::Fifo,
            config.usage == TextureUsage::RenderAttachment,
    {
        proof {
            use_type_invariant(self);
        }
        self.config
    }

    /// The size that the surface is configured for.
    pub fn size(&self) -> (size: PhysicalSize)
        ensures
            size == self@.size(),
            size.has_area(),
    {
        proof {
            use_type_invariant(self);
        }
        PhysicalSize { width: self.config.width, height: self.config.height }
    }
}

/// After a run of resizes that all have a positive width and height, the
/// configuration holds the dimensions of the last one.
pub proof fn lemma_valid_resizes_end_at_last(config: SurfaceConfig, sizes: Seq<PhysicalSize>)
    requires
        sizes.len() > 0,
        forall|i: int| 0 <= i < sizes.len() ==> (#[trigger] sizes[i]).has_area(),
    ensures
        config.after_resizes(sizes).size() == sizes.last(),
{
}

/// After any run of resizes, degenerate ones included, a configuration that
/// had a positive width and height still has: no zero-sized configuration is
/// ever produced. Format, usage and present mode stay as they were.
pub proof fn lemma_resizes_keep_area(config: SurfaceConfig, sizes: Seq<PhysicalSize>)
    requires
        config.has_area(),
    ensures
        config.after_resizes(sizes).has_area(),
        config.after_resizes(sizes).format == config.format,
        config.after_resizes(sizes).usage == config.usage,
        config.after_resizes(sizes).present_mode == config.present_mode,
    decreases sizes.len(),
{
    if sizes.len() > 0 {
        lemma_resizes_keep_area(config, sizes.drop_last());
    }
}

/// After any run of resizes the configuration holds the dimensions of the
/// last resize in the run that had a positive width and height, or its own
/// where there was none.
pub proof fn lemma_resizes_end_at_last_valid(config: SurfaceConfig, sizes: Seq<PhysicalSize>)
    ensures
        config.after_resizes(sizes).size() == last_valid(config.size(), sizes),
    decreases sizes.len(),
{
    if sizes.len() > 0 {
        lemma_resizes_end_at_last_valid(config, sizes.drop_last());
    }
}

/// The last size in `sizes` with a positive width and height, or `fallback`
/// where there is none.
pub open spec fn last_valid(fallback: PhysicalSize, sizes: Seq<PhysicalSize>) -> PhysicalSize
    decreases sizes.len(),
{
    if sizes.len() == 0 {
        fallback
    } else if sizes.last().has_area() {
        sizes.last()
    } else {
        last_valid(fallback, sizes.drop_last())
    }
}

/// A resize with a zero width or height changes nothing, however often it is
/// applied.
pub proof fn lemma_degenerate_resize_is_noop(config: SurfaceConfig, size: PhysicalSize)
    requires
        size.width == 0 || size.height == 0,
    ensures
        config.resized(size) == config,
        config.resized(size).resized(size) == config,
{
}

} // verus!
