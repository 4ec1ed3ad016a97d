//! Surface sizing, surface format choice and size-keyed render targets.

use vstd::prelude::*;

verus! {

/// Smallest edge, in pixels, that a window surface is configured with.
pub const MIN_SURFACE_EDGE: u32 = 1;

/// Largest edge, in pixels, that a window surface is configured with.
pub const MAX_SURFACE_EDGE: u32 = 2048;

/// The edge nearest to `edge` within the supported range.
pub open spec fn clamped_edge(edge: u32) -> u32 {
    if edge < MIN_SURFACE_EDGE {
        MIN_SURFACE_EDGE
    } else if edge > MAX_SURFACE_EDGE {
        MAX_SURFACE_EDGE
    } else {
        edge
    }
}

/// Brings one requested edge into the supported range.
pub fn clamp_edge(edge: u32) -> (clamped: u32)
    ensures
        clamped == clamped_edge(edge),
        MIN_SURFACE_EDGE <= clamped <= MAX_SURFACE_EDGE,
        MIN_SURFACE_EDGE <= edge <= MAX_SURFACE_EDGE ==> clamped == edge,
{
    if edge < MIN_SURFACE_EDGE {
        MIN_SURFACE_EDGE
    } else if edge > MAX_SURFACE_EDGE {
        MAX_SURFACE_EDGE
    } else {
        edge
    }
}

/// Clamping keeps an edge that is in range, changes nothing when it is done
/// twice, and keeps the order of edges: a window that grows never gets a
/// smaller surface.
pub proof fn lemma_clamped_edge(a: u32, b: u32)
    ensures
        MIN_SURFACE_EDGE <= clamped_edge(a) <= MAX_SURFACE_EDGE,
        MIN_SURFACE_EDGE <= a <= MAX_SURFACE_EDGE ==> clamped_edge(a) == a,
        clamped_edge(clamped_edge(a)) == clamped_edge(a),
        a <= b ==> clamped_edge(a) <= clamped_edge(b),
{
}

/// Brings a requested surface size into the supported range, each edge on
/// its own.
pub fn clamp_surface_size(width: u32, height: u32) -> (size: (u32, u32))
    ensures
        size.0 == clamped_edge(width),
        size.1 == clamped_edge(height),
{
    (clamp_edge(width), clamp_edge(height))
}

/// A texture format of the GPU library. The library only carries such a
/// value; what it says about one it asks the GPU library.
#[verifier::external_type_specification]
#[verifier::external_body]
pub struct ExTextureFormat(wgpu::TextureFormat);

/// `wgpu::TextureFormat::is_srgb`: whether the format stores colour in the
/// sRGB encoding. Nothing is claimed of the answer.
#[verifier::external_body]
fn format_is_srgb(format: &wgpu::TextureFormat) -> (srgb: bool) {
    format.is_srgb()
}

/// Says of each texture format, in the order given, whether it is an sRGB
/// format.
pub fn surface_format_flags(formats: &Vec<wgpu::TextureFormat>) -> (srgb: Vec<bool>)
    ensures
        srgb.len() == formats.len(),
{
    let mut srgb: Vec<bool> = Vec::new();
    let mut i: usize = 0;
    while i < formats.len()
        invariant
            i <= formats.len(),
            srgb.len() == i,
        decreases formats.len() - i,
    {
        srgb.push(format_is_srgb(&formats[i]));
        i += 1;
    }
    srgb
}

/// Picks the surface format to render to, given for each format that the
/// surface offers, in the surface's order of preference, whether it is an
/// sRGB format. The GUI wants a format that is not: the first such format is
/// picked, and the first format of all when every one is sRGB.
pub fn choose_surface_format(srgb: &Vec<bool>) -> (chosen: usize)
    requires
        srgb.len() > 0,
    ensures
        chosen < srgb.len(),
        forall|i: int| 0 <= i < chosen ==> srgb[i],
        !srgb[chosen as int] || (chosen == 0 && forall|i: int| 0 <= i < srgb.len() ==> srgb[i]),
{
    let mut i: usize = 0;
    while i < srgb.len()
        invariant
            i <= srgb.len(),
            forall|j: int| 0 <= j < i ==> srgb[j],
        decreases srgb.len() - i,
    {
        if !srgb[i] {
            return i;
        }
        i += 1;
    }
    0
}

/// The part of the GPU context that decisions read: the extent that the
/// surface is configured with and the format that was picked for it.
#[derive(Clone, Copy, Debug, PartialEq, Eq, Structural)]
pub struct Gpu {
    /// The configured width of the surface, in pixels.
    pub surface_width: u32,
    /// The configured height of the surface, in pixels.
    pub surface_height: u32,
    /// The picked format, as an index into the formats that the surface
    /// offers.
    pub surface_format: usize,
}

/// The extent of a texture: width, height, and depth or array layers.
#[derive(Clone, Copy, Debug, PartialEq, Eq, Structural)]
pub struct Extent {
    pub width: u32,
    pub height: u32,
    pub layers: u32,
}

impl Gpu {
    /// The aspect ratio of the surface as a fraction. A surface without
    /// height counts as one pixel high, so the denominator is never 0.
    pub open spec fn aspect(self) -> (u32, u32) {
        (
            self.surface_width,
            if self.surface_height == 0 {
                1
            } else {
                self.surface_height
            },
        )
    }

    /// Picks the surface format and takes down the first configuration.
    /// `srgb` says of each offered format whether it is an sRGB format.
    pub fn new_async(srgb: &Vec<bool>, width: u32, height: u32) -> (gpu: Gpu)
        requires
            srgb.len() > 0,
        ensures
            gpu.surface_width == width,
            gpu.surface_height == height,
            gpu.surface_format < srgb.len(),
            forall|i: int| 0 <= i < gpu.surface_format ==> srgb[i],
            !srgb[gpu.surface_format as int] || (gpu.surface_format == 0 && forall|i: int|
                0 <= i < srgb.len() ==> srgb[i]),
    {
        Gpu {
            surface_width: width,
            surface_height: height,
            surface_format: choose_surface_format(srgb),
        }
    }

    /// The aspect ratio of the surface: numerator and denominator.
    pub fn aspect_ratio(&self) -> (ratio: (u32, u32))
        ensures
            ratio == self.aspect(),
            ratio.1 >= 1,
    {
        if self.surface_height == 0 {
            (self.surface_width, 1)
        } else {
            (self.surface_width, self.surface_height)
        }
    }

    /// Takes down a new extent for the surface; the format stays.
    pub fn resize(&mut self, width: u32, height: u32)
        ensures
            *final(self) == (Gpu {
                surface_width: width,
                surface_height: height,
                ..*old(self)
            }),
    {
        self.surface_width = width;
        self.surface_height = height;
    }

    /// The extent of a depth texture for a target of the given size: one
    /// layer of that width and height.
    pub fn create_depth_texture(&self, width: u32, height: u32) -> (extent: Extent)
        ensures
            extent == (Extent { width, height, layers: 1 }),
    {
        Extent { width, height, layers: 1 }
    }
}

/// The renderer of the window path, as far as sizes go: the surface and
/// the depth target that is attached beside it. A render pass takes both,
/// so they must agree in size at every moment.
pub struct Renderer {
    gpu: Gpu,
    depth: Extent,
}

impl Renderer {
    #[verifier::type_invariant]
    spec fn attachments_agree(self) -> bool {
        self.depth == (Extent {
            width: self.gpu.surface_width,
            height: self.gpu.surface_height,
            layers: 1,
        })
    }

    /// The GPU context of this renderer.
    pub closed spec fn gpu(self) -> Gpu {
        self.gpu
    }

    /// The extent of the depth target.
    pub closed spec fn depth(self) -> Extent {
        self.depth
    }

    /// Sets the renderer up for a surface of the given size; the depth
    /// target is made in the same size.
    pub fn new(srgb: &Vec<bool>, width: u32, height: u32) -> (renderer: Renderer)
        requires
            srgb.len() > 0,
        ensures
            renderer.gpu().surface_width == width,
            renderer.gpu().surface_height == height,
            renderer.gpu().surface_format < srgb.len(),
            forall|i: int| 0 <= i < renderer.gpu().surface_format ==> srgb[i],
            !srgb[renderer.gpu().surface_format as int] || (renderer.gpu().surface_format == 0
                && forall|i: int| 0 <= i < srgb.len() ==> srgb[i]),
            renderer.depth() == (Extent { width, height, layers: 1 }),
    {
        Renderer::from_gpu(Gpu::new_async(srgb, width, height))
    }

    /// Sets the renderer up around a GPU context that exists; the depth
    /// target is made in the size of its surface.
    pub fn from_gpu(gpu: Gpu) -> (renderer: Renderer)
        ensures
            renderer.gpu() == gpu,
            renderer.depth() == (Extent {
                width: gpu.surface_width,
                height: gpu.surface_height,
                layers: 1,
            }),
    {
        let depth: Extent = gpu.create_depth_texture(gpu.surface_width, gpu.surface_height);
        Renderer { gpu, depth }
    }

    /// Resizes the surface and replaces the depth target by one of the new
    /// size.
    pub fn resize(&mut self, width: u32, height: u32)
        ensures
            final(self).gpu() == (Gpu {
                surface_width: width,
                surface_height: height,
                ..old(self).gpu()
            }),
            final(self).depth() == (Extent { width, height, layers: 1 }),
    {
        let mut gpu: Gpu = self.gpu;
        gpu.resize(width, height);
        let depth: Extent = gpu.create_depth_texture(width, height);
        *self = Renderer { gpu, depth };
    }

    /// The GPU context of this renderer.
    pub fn context(&self) -> (gpu: Gpu)
        ensures
            gpu == self.gpu(),
    {
        self.gpu
    }

    /// The extent of the depth target, which is that of the surface.
    pub fn depth_extent(&self) -> (extent: Extent)
        ensures
            extent == self.depth(),
            extent.width == self.gpu().surface_width,
            extent.height == self.gpu().surface_height,
            extent.layers == 1,
    {
        proof {
            use_type_invariant(self);
        }
        self.depth
    }
}

/// A render target that is kept from frame to frame and made anew only
/// when another size is asked for. It remembers the size it was made in.
#[derive(Clone, Copy, Debug, PartialEq, Eq)]
pub struct TargetCache {
    /// The size of the target that exists, if one does.
    pub size: Option<(u32, u32)>,
}

impl TargetCache {
    /// Whether a request for this size finds no target to reuse.
    pub open spec fn misses(self, width: u32, height: u32) -> bool {
        self.size != Some((width, height))
    }

    /// The cache after a request for this size.
    pub open spec fn requested(self, width: u32, height: u32) -> TargetCache {
        TargetCache { size: Some((width, height)) }
    }

    /// A cache without a target.
    pub fn new() -> (cache: TargetCache)
        ensures
            cache.size is None,
    {
        TargetCache { size: None }
    }

    /// Asks for a target of the given size and says whether it has to be
    /// made: that is so when no target exists or the one that does has
    /// another size. The new target replaces the old one.
    pub fn request(&mut self, width: u32, height: u32) -> (rebuild: bool)
        ensures
            rebuild == old(self).misses(width, height),
            *final(self) == old(self).requested(width, height),
    {
        let rebuild: bool = match self.size {
            Some((w, h)) => w != width || h != height,
            None => true,
        };
        self.size = Some((width, height));
        rebuild
    }
}

/// The cache is keyed by size and holds one target. Right after a request
/// the same size is found and every other size is not, whatever the cache
/// held before; and of two requests in a row only the later one counts.
pub proof fn lemma_cache_keyed_by_size(
    cache: TargetCache,
    width: u32,
    height: u32,
    next_width: u32,
    next_height: u32,
)
    ensures
        cache.requested(width, height).misses(next_width, next_height) <==> (next_width != width
            || next_height != height),
        !cache.requested(width, height).misses(width, height),
        cache.requested(width, height).requested(next_width, next_height) == cache.requested(
            next_width,
            next_height,
        ),
        (TargetCache { size: None }).misses(width, height),
{
}

} // verus!
