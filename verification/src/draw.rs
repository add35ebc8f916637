//! The draw list: what one dirty UI session hands the renderer.
//!
//! A draw list carries resource updates (new textures with raw pixel data, or
//! sub-region patches of existing textures), a stream of draw commands over
//! numeric vertex ranges and texture ids, and the length of the flat vertex
//! buffer the commands index into. Its invariant: commands reference only
//! texture ids introduced by updates of the same or an earlier draw, and
//! every referenced vertex range lies within the vertex buffer.

use vstd::prelude::*;

verus! {

/// An axis-aligned rectangle in pixels, top-left origin.
#[derive(Clone, Copy, Debug, PartialEq, Eq, Structural)]
pub struct Rect {
    pub left: u32,
    pub top: u32,
    pub right: u32,
    pub bottom: u32,
}

impl Rect {
    /// The sides are ordered.
    pub open spec fn wf(&self) -> bool {
        self.left <= self.right && self.top <= self.bottom
    }

    /// The width in pixels.
    pub fn width(&self) -> (r: u32)
        requires
            self.wf(),
        ensures
            r == self.right - self.left,
    {
        self.right - self.left
    }

    /// The height in pixels.
    pub fn height(&self) -> (r: u32)
        requires
            self.wf(),
        ensures
            r == self.bottom - self.top,
    {
        self.bottom - self.top
    }
}

/// An update of the available texture data, to be uploaded before the draw
/// commands run.
#[derive(Debug, Clone, PartialEq, Eq)]
pub enum Update {
    /// A new texture is introduced under a library-assigned id; re-using an
    /// id replaces the texture previously live under it.
    Texture {
        /// The library-assigned id later draw commands refer to.
        id: u64,
        /// Width of the texture in pixels.
        width: u32,
        /// Height of the texture in pixels.
        height: u32,
        /// Texel data, 4 bytes per pixel, rows unpadded.
        data: Vec<u8>,
        /// Whether the texture may later receive sub-region patches.
        atlas: bool,
    },
    /// A sub-region of an existing texture is patched.
    TextureSubresource {
        /// The id of the texture to patch; it must already be live.
        id: u64,
        /// Horizontal pixel offset of the patched region.
        x: u32,
        /// Vertical pixel offset of the patched region.
        y: u32,
        /// Width of the patched region in pixels.
        width: u32,
        /// Height of the patched region in pixels.
        height: u32,
        /// Texel data of the patched region, 4 bytes per pixel, rows
        /// unpadded.
        data: Vec<u8>,
    },
}

impl Update {
    /// The texture id the update concerns.
    pub open spec fn spec_id(&self) -> u64 {
        match *self {
            Update::Texture { id, .. } => id,
            Update::TextureSubresource { id, .. } => id,
        }
    }

    /// Whether the update introduces a new texture (rather than patching an
    /// existing one).
    pub open spec fn introduces(&self) -> bool {
        self matches Update::Texture { .. }
    }
}

/// The texture ids introduced by a sequence of updates.
pub open spec fn introduced_ids(updates: Seq<Update>) -> Set<u64> {
    Set::new(|id: u64| exists|i: int| 0 <= i < updates.len() && #[trigger] updates[i].introduces()
        && updates[i].spec_id() == id)
}

/// Updates are ordered: a sub-region patch targets a texture that is already
/// live, or one introduced earlier in the same sequence.
pub open spec fn updates_wf(updates: Seq<Update>, live: Set<u64>) -> bool {
    forall|i: int| 0 <= i < updates.len() && !(#[trigger] updates[i].introduces())
        ==> live.contains(updates[i].spec_id())
            || introduced_ids(updates.subrange(0, i)).contains(updates[i].spec_id())
}

/// One abstract draw command over the draw list's vertex buffer.
#[derive(Clone, Copy, Debug, PartialEq, Eq, Structural)]
pub enum Command {
    /// Do nothing.
    Nop,
    /// Confine subsequent geometry to a scissor rectangle.
    Clip {
        /// The scissor rectangle in logical pixels.
        scissor: Rect,
    },
    /// Draw a run of vertices without sampling a texture.
    Colored {
        /// Offset in vertices from the start of the vertex buffer.
        offset: usize,
        /// The number of vertices to draw.
        count: usize,
    },
    /// Draw a run of vertices sampling the given texture.
    Textured {
        /// The library-assigned id of the texture to sample.
        texture: u64,
        /// Offset in vertices from the start of the vertex buffer.
        offset: usize,
        /// The number of vertices to draw.
        count: usize,
    },
}

impl Command {
    /// The vertex range the command references stays within a buffer of
    /// `vertex_count` vertices.
    pub open spec fn in_range(&self, vertex_count: int) -> bool {
        match *self {
            Command::Colored { offset, count } => offset + count <= vertex_count,
            Command::Textured { offset, count, .. } => offset + count <= vertex_count,
            _ => true,
        }
    }

    /// Every texture the command references is among the live ids.
    pub open spec fn textures_live(&self, live: Set<u64>) -> bool {
        match *self {
            Command::Textured { texture, .. } => live.contains(texture),
            _ => true,
        }
    }
}

/// Every command stays within the vertex buffer and references only live
/// texture ids.
pub open spec fn commands_wf(commands: Seq<Command>, live: Set<u64>, vertex_count: int) -> bool {
    forall|i: int| 0 <= i < commands.len() ==> (#[trigger] commands[i]).in_range(vertex_count)
        && commands[i].textures_live(live)
}

/// The per-frame output of a dirty UI session.
#[derive(Debug, Clone, PartialEq, Eq)]
pub struct DrawList {
    /// Resource updates to process before the commands run.
    pub updates: Vec<Update>,
    /// The draw command stream.
    pub commands: Vec<Command>,
    /// The number of vertices in the flat vertex buffer backing the
    /// commands.
    pub vertex_count: usize,
}

impl DrawList {
    /// The draw-list invariant, relative to the texture ids already live
    /// before this draw: updates are ordered, and commands reference only
    /// vertex ranges within the buffer and texture ids live after the
    /// updates are processed.
    pub open spec fn wf(&self, live: Set<u64>) -> bool {
        updates_wf(self.updates@, live)
            && commands_wf(
            self.commands@,
            live.union(introduced_ids(self.updates@)),
            self.vertex_count as int,
        )
    }
}

} // verus!
