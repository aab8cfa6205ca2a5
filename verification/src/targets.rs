//! What depends on the size of the surface: the intermediate image and the
//! two binding sets that refer to it.
//!
//! The image is known by its generation, a number that changes whenever the
//! image is made anew. The binding sets are not kept beside the image; they
//! are read off the current generation, so that no binding can refer to an
//! image that is gone.

use vstd::prelude::*;

verus! {

/// The side of the square of pixels that one workgroup of the kernel covers.
pub const TILE: u32 = 4;

/// What a binding can refer to.
#[derive(Clone, Copy, Debug, PartialEq, Eq, Structural)]
pub enum Resource {
    /// The uniform buffer of the frame parameters.
    Params,
    /// The intermediate image of the given generation.
    Image { generation: u64 },
    /// The sphere buffer.
    Spheres,
    /// The vertex buffer.
    Vertices,
    /// The mesh buffer.
    Meshes,
    /// The sampler that takes the nearest texel and clamps at the edges.
    Sampler,
}

/// How a program reads a binding.
#[derive(Clone, Copy, Debug, PartialEq, Eq, Structural)]
pub enum BindingKind {
    /// A uniform buffer.
    Uniform,
    /// A storage image of four 8-bit normalized channels, read and written.
    StorageImage,
    /// A storage buffer that is only read.
    ReadOnlyStorage,
    /// A texture that is sampled.
    SampledTexture,
    /// A sampler that does not filter.
    Sampler,
}

/// What is done about a new size of the surface.
#[derive(Clone, Copy, Debug, PartialEq, Eq, Structural)]
pub enum ResizeAction {
    /// Nothing: the size has no area.
    Ignore,
    /// Configure the surface to the size, make the image of the given
    /// generation at that size, and bind both binding sets anew.
    Rebuild { width: u32, height: u32, generation: u64 },
}

/// The size of the intermediate image and its generation. The image always
/// has an area.
#[derive(Clone, Copy, Debug, PartialEq, Eq)]
pub struct RenderTargets {
    width: u32,
    height: u32,
    generation: u64,
}

/// The kinds of the bindings of the ray tracing kernel, by binding number.
pub open spec fn trace_layout() -> Seq<BindingKind> {
    seq![
        BindingKind::Uniform,
        BindingKind::StorageImage,
        BindingKind::ReadOnlyStorage,
        BindingKind::ReadOnlyStorage,
        BindingKind::ReadOnlyStorage,
    ]
}

/// The kinds of the bindings of the copy program, by binding number.
pub open spec fn copy_layout() -> Seq<BindingKind> {
    seq![BindingKind::SampledTexture, BindingKind::Sampler]
}

/// What the bindings of the ray tracing kernel refer to while the image has
/// the given generation, by binding number.
pub open spec fn trace_set(generation: u64) -> Seq<Resource> {
    seq![
        Resource::Params,
        Resource::Image { generation },
        Resource::Spheres,
        Resource::Vertices,
        Resource::Meshes,
    ]
}

/// What the bindings of the copy program refer to while the image has the
/// given generation, by binding number.
pub open spec fn copy_set(generation: u64) -> Seq<Resource> {
    seq![Resource::Image { generation }, Resource::Sampler]
}

/// Whether a binding of the kind can refer to the resource.
pub open spec fn accepts(kind: BindingKind, resource: Resource) -> bool {
    match kind {
        BindingKind::Uniform => resource == Resource::Params,
        BindingKind::StorageImage => resource is Image,
        BindingKind::ReadOnlyStorage => resource == Resource::Spheres || resource
            == Resource::Vertices || resource == Resource::Meshes,
        BindingKind::SampledTexture => resource is Image,
        BindingKind::Sampler => resource == Resource::Sampler,
    }
}

/// Whether each binding of the set that refers to an image refers to the
/// image of the given generation.
pub open spec fn refers_only_to(set: Seq<Resource>, generation: u64) -> bool {
    forall|i: int|
        0 <= i < set.len() ==> ((#[trigger] set[i]) is Image ==> set[i] == Resource::Image {
            generation,
        })
}

/// The generation after the given one.
pub open spec fn next_generation(generation: u64) -> u64 {
    if generation == u64::MAX {
        0
    } else {
        (generation + 1) as u64
    }
}

/// The number of tiles that cover `extent` pixels: `extent / TILE`, rounded
/// up.
pub open spec fn tiles(extent: u32) -> int {
    (extent + TILE - 1) / (TILE as int)
}

/// The number of tiles that cover `extent` pixels.
pub fn tile_count(extent: u32) -> (n: u32)
    ensures
        n == tiles(extent),
        n * TILE >= extent,
        n * TILE < extent + TILE,
{
    if extent % TILE == 0 {
        extent / TILE
    } else {
        extent / TILE + 1
    }
}

/// The kinds of the bindings of the ray tracing kernel.
pub fn trace_binding_kinds() -> (kinds: Vec<BindingKind>)
    ensures
        kinds@ == trace_layout(),
{
    let kinds = vec![
        BindingKind::Uniform,
        BindingKind::StorageImage,
        BindingKind::ReadOnlyStorage,
        BindingKind::ReadOnlyStorage,
        BindingKind::ReadOnlyStorage,
    ];
    assert(kinds@ =~= trace_layout());
    kinds
}

/// The kinds of the bindings of the copy program.
pub fn copy_binding_kinds() -> (kinds: Vec<BindingKind>)
    ensures
        kinds@ == copy_layout(),
{
    let kinds = vec![BindingKind::SampledTexture, BindingKind::Sampler];
    assert(kinds@ =~= copy_layout());
    kinds
}

impl RenderTargets {
    #[verifier::type_invariant]
    spec fn has_area(self) -> bool {
        self.width > 0 && self.height > 0
    }

    /// The width of the image.
    pub closed spec fn spec_width(self) -> u32 {
        self.width
    }

    /// The height of the image.
    pub closed spec fn spec_height(self) -> u32 {
        self.height
    }

    /// The generation of the image.
    pub closed spec fn spec_generation(self) -> u64 {
        self.generation
    }

    /// The targets for a surface of the given size, with an image of
    /// generation 0, or `None` where the size has no area.
    pub fn new(width: u32, height: u32) -> (targets: Option<RenderTargets>)
        ensures
            targets is Some <==> width > 0 && height > 0,
            targets matches Some(t) ==> t.spec_width() == width && t.spec_height() == height
                && t.spec_generation() == 0,
    {
        if width > 0 && height > 0 {
            Some(RenderTargets { width, height, generation: 0 })
        } else {
            None
        }
    }

    /// The width of the image, which is not zero.
    #[verifier::when_used_as_spec(spec_width)]
    pub fn width(self) -> (w: u32)
        ensures
            w == self.spec_width(),
            w > 0,
    {
        proof {
            use_type_invariant(self);
        }
        self.width
    }

    /// The height of the image, which is not zero.
    #[verifier::when_used_as_spec(spec_height)]
    pub fn height(self) -> (h: u32)
        ensures
            h == self.spec_height(),
            h > 0,
    {
        proof {
            use_type_invariant(self);
        }
        self.height
    }

    /// The generation of the image.
    #[verifier::when_used_as_spec(spec_generation)]
    pub fn generation(self) -> (g: u64)
        ensures
            g == self.spec_generation(),
    {
        self.generation
    }

    /// Takes in a new size of the surface. A size with an area becomes the
    /// size of a new image, of the next generation. A size without an area
    /// changes nothing.
    pub fn resize(&mut self, width: u32, height: u32) -> (action: ResizeAction)
        ensures
            width > 0 && height > 0 ==> {
                &&& final(self).spec_width() == width
                &&& final(self).spec_height() == height
                &&& final(self).spec_generation() == next_generation(old(self).spec_generation())
                &&& final(self).spec_generation() != old(self).spec_generation()
                &&& action == (ResizeAction::Rebuild {
                    width,
                    height,
                    generation: final(self).spec_generation(),
                })
            },
            width == 0 || height == 0 ==> *final(self) == *old(self) && action
                == ResizeAction::Ignore,
    {
        if width > 0 && height > 0 {
            let generation = if self.generation == u64::MAX {
                0
            } else {
                self.generation + 1
            };
            *self = RenderTargets { width, height, generation };
            ResizeAction::Rebuild { width, height, generation }
        } else {
            ResizeAction::Ignore
        }
    }

    /// What the bindings of the ray tracing kernel refer to.
    pub fn trace_bindings(self) -> (set: Vec<Resource>)
        ensures
            set@ == trace_set(self.spec_generation()),
    {
        let set = vec![
            Resource::Params,
            Resource::Image { generation: self.generation },
            Resource::Spheres,
            Resource::Vertices,
            Resource::Meshes,
        ];
        assert(set@ =~= trace_set(self.generation));
        set
    }

    /// What the bindings of the copy program refer to.
    pub fn copy_bindings(self) -> (set: Vec<Resource>)
        ensures
            set@ == copy_set(self.spec_generation()),
    {
        let set = vec![Resource::Image { generation: self.generation }, Resource::Sampler];
        assert(set@ =~= copy_set(self.generation));
        set
    }

    /// The numbers of workgroups, across and down, that cover the image.
    pub fn workgroups(self) -> (groups: (u32, u32))
        ensures
            groups.0 == tiles(self.spec_width()),
            groups.1 == tiles(self.spec_height()),
            groups.0 > 0,
            groups.1 > 0,
    {
        proof {
            use_type_invariant(self);
        }
        (tile_count(self.width), tile_count(self.height))
    }
}

/// Each binding refers to a resource that its kind accepts, whatever the
/// generation of the image.
pub proof fn lemma_bindings_match_layout(generation: u64)
    ensures
        trace_set(generation).len() == trace_layout().len(),
        copy_set(generation).len() == copy_layout().len(),
        forall|i: int|
            0 <= i < trace_layout().len() ==> accepts(
                #[trigger] trace_layout()[i],
                trace_set(generation)[i],
            ),
        forall|i: int|
            0 <= i < copy_layout().len() ==> accepts(
                #[trigger] copy_layout()[i],
                copy_set(generation)[i],
            ),
{
}

/// When the image is made anew, each binding that referred to the old image
/// refers to the new one, and no binding refers to any other image.
pub proof fn lemma_no_stale_binding(old_generation: u64, new_generation: u64)
    ensures
        forall|i: int|
            0 <= i < trace_set(old_generation).len() && (#[trigger] trace_set(old_generation)[i])
                is Image ==> trace_set(new_generation)[i] == (Resource::Image {
                generation: new_generation,
            }),
        forall|i: int|
            0 <= i < copy_set(old_generation).len() && (#[trigger] copy_set(old_generation)[i])
                is Image ==> copy_set(new_generation)[i] == (Resource::Image {
                generation: new_generation,
            }),
        refers_only_to(trace_set(new_generation), new_generation),
        refers_only_to(copy_set(new_generation), new_generation),
        next_generation(old_generation) != old_generation,
{
}

/// The tiles cover the extent, and one tile fewer would not.
pub proof fn lemma_tiles_cover(extent: u32)
    ensures
        tiles(extent) * TILE >= extent,
        (tiles(extent) - 1) * TILE < extent,
        extent > 0 ==> tiles(extent) > 0,
        0 <= tiles(extent) <= u32::MAX,
{
}

} // verus!
