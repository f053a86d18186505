use vstd::prelude::*;

verus! {

/// Edge length, in texels, of the square storage texture.
pub const STORAGE_TEXTURE_SIZE: u32 = 30;

/// Size, in bytes, of the camera uniform buffer: a minimal transform.
pub const CAMERA_UNIFORM_SIZE: u64 = 16;

/// What a binding slot holds.
#[derive(Clone, Copy, Debug, PartialEq, Eq, Structural)]
pub enum BindingKind {
    /// A uniform buffer, read by compute and fragment stages.
    UniformBuffer,
    /// A write-only storage texture, visible to the same stages.
    StorageTexture,
}

/// One slot of a bind-group layout, or the entry that fills it.
#[derive(Clone, Copy, Debug, PartialEq, Eq, Structural)]
pub struct BindingSlot {
    pub binding: u32,
    pub kind: BindingKind,
}

/// Descriptor state of the auxiliary GPU resources: a storage-capable
/// texture, a camera uniform buffer, and the layout and bind group that
/// expose them to compute-or-fragment stages.
pub struct ResourceCtx {
    pub texture_width: u32,
    pub texture_height: u32,
    pub uniform_size: u64,
    /// Slots the bind-group layout declares, in binding order.
    pub layout: Vec<BindingSlot>,
    /// Entries the bind group fills, in binding order.
    pub group: Vec<BindingSlot>,
}

impl ResourceCtx {
    /// The layout and the bind group built from it stay in sync: the
    /// group fills exactly the slots the layout declares, and no
    /// binding index repeats.
    pub open spec fn wf(self) -> bool {
        &&& self.group@ == self.layout@
        &&& forall|i: int, j: int|
            0 <= i < j < self.layout@.len() ==> self.layout@[i].binding != self.layout@[j].binding
    }

    /// One-time construction: a 30-by-30 storage texture, a 16-byte
    /// uniform buffer, binding 0 for the buffer and binding 1 for the
    /// texture, and a bind group filling exactly those slots. No resize
    /// or update operation exists for these resources.
    pub fn new() -> (r: ResourceCtx)
        ensures
            r.texture_width == STORAGE_TEXTURE_SIZE,
            r.texture_height == STORAGE_TEXTURE_SIZE,
            r.uniform_size == CAMERA_UNIFORM_SIZE,
            r.layout@.len() == 2,
            r.layout@[0] == (BindingSlot { binding: 0, kind: BindingKind::UniformBuffer }),
            r.layout@[1] == (BindingSlot { binding: 1, kind: BindingKind::StorageTexture }),
            r.group@ == r.layout@,
            r.wf(),
    {
        let mut layout: Vec<BindingSlot> = Vec::new();
        layout.push(BindingSlot { binding: 0, kind: BindingKind::UniformBuffer });
        layout.push(BindingSlot { binding: 1, kind: BindingKind::StorageTexture });
        let mut group: Vec<BindingSlot> = Vec::new();
        group.push(BindingSlot { binding: 0, kind: BindingKind::UniformBuffer });
        group.push(BindingSlot { binding: 1, kind: BindingKind::StorageTexture });
        let r = ResourceCtx {
            texture_width: STORAGE_TEXTURE_SIZE,
            texture_height: STORAGE_TEXTURE_SIZE,
            uniform_size: CAMERA_UNIFORM_SIZE,
            layout,
            group,
        };
        proof {
            assert(r.group@ =~= r.layout@);
        }
        r
    }
}

} // verus!
