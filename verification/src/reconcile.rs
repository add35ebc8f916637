//! The draw-list reconciler: turning one session's draw list into host GPU
//! resource state.
//!
//! Texture uploads go through a staging buffer whose rows are padded to the
//! host's row-alignment requirement; the padded stride is recomputed per
//! texture width. The per-entity resource cache maps each library-assigned
//! texture id to at most one live host texture handle — replacing an id
//! hands the superseded handle back for release. The vertex buffer is
//! double-buffered: a new non-empty buffer replaces the old one only once it
//! is ready, and an empty draw releases the buffer entirely so that command
//! emission skips the entity.

use vstd::prelude::*;

use std::collections::HashMap;

use crate::draw::{Command, Update};

verus! {

broadcast use vstd::std_specs::hash::group_hash_axioms;

/// The host's row-alignment requirement for texture copies, in bytes.
pub const ROW_ALIGNMENT: u64 = 256;

/// Bytes per pixel of the texture format.
pub const BYTES_PER_PIXEL: u64 = 4;

/// The padded byte stride of one texture row: the next multiple of the row
/// alignment at or above the tight stride of `4 * width` bytes.
pub open spec fn spec_padded_stride(width: u32) -> int {
    ((4 * width + 255) / 256) * 256
}

/// A sequence of `n` zero bytes.
pub open spec fn zero_bytes(n: int) -> Seq<u8> {
    Seq::new(n as nat, |i: int| 0u8)
}

/// The first `rows` rows of `data` (at the tight stride of `4 * width`
/// bytes), each padded with zero bytes to the padded stride.
pub open spec fn spec_pad_rows(data: Seq<u8>, width: u32, rows: int) -> Seq<u8>
    decreases rows,
{
    if rows <= 0 {
        Seq::empty()
    } else {
        spec_pad_rows(data, width, rows - 1) + data.subrange(
            (rows - 1) * (4 * width),
            (rows - 1) * (4 * width) + 4 * width,
        ) + zero_bytes(spec_padded_stride(width) - 4 * width)
    }
}

/// The padded stride is aligned, and within one alignment unit above the
/// tight stride.
pub proof fn lemma_padded_stride_bounds(width: u32)
    ensures
        spec_padded_stride(width) % 256 == 0,
        4 * width <= spec_padded_stride(width) < 4 * width + 256,
{
    let w4 = 4 * (width as int);
    assert(spec_padded_stride(width) == ((w4 + 255) / 256) * 256);
    assert(((w4 + 255) / 256) * 256 % 256 == 0) by (nonlinear_arith);
    assert(w4 <= ((w4 + 255) / 256) * 256 < w4 + 256) by (nonlinear_arith)
        requires
            w4 >= 0,
    ;
}

/// Padding `rows` rows yields `rows` times the padded stride in bytes.
pub proof fn lemma_pad_rows_len(data: Seq<u8>, width: u32, rows: int)
    requires
        0 <= rows,
        4 * width * rows <= data.len(),
    ensures
        spec_pad_rows(data, width, rows).len() == rows * spec_padded_stride(width),
    decreases rows,
{
    let w4 = 4 * (width as int);
    let ps = spec_padded_stride(width);
    lemma_padded_stride_bounds(width);
    if rows > 0 {
        assert(w4 * (rows - 1) <= w4 * rows) by (nonlinear_arith)
            requires
                w4 >= 0,
                rows >= 1,
        ;
        lemma_pad_rows_len(data, width, rows - 1);
        assert((rows - 1) * w4 >= 0) by (nonlinear_arith)
            requires
                w4 >= 0,
                rows >= 1,
        ;
        assert((rows - 1) * w4 + w4 == rows * w4) by (nonlinear_arith);
        assert(rows * w4 == w4 * rows) by (nonlinear_arith);
        assert((rows - 1) * ps + ps == rows * ps) by (nonlinear_arith);
        let prefix = spec_pad_rows(data, width, rows - 1);
        let row_part = data.subrange((rows - 1) * (4 * width), (rows - 1) * (4 * width) + 4 * width);
        let pad_part = zero_bytes(ps - w4);
        assert(spec_pad_rows(data, width, rows) == prefix + row_part + pad_part);
        assert(row_part.len() == w4);
        assert(pad_part.len() == ps - w4);
        assert((prefix + row_part + pad_part).len() == prefix.len() + w4 + (ps - w4));
        assert(prefix.len() == (rows - 1) * ps);
        assert(spec_pad_rows(data, width, rows).len() == rows * ps);
    } else {
        assert(rows == 0);
        assert(spec_pad_rows(data, width, 0) =~= Seq::<u8>::empty());
        assert(rows * ps == 0) by (nonlinear_arith)
            requires
                rows == 0,
        ;
    }
}

/// What one padded byte is: within the first `4 * width` bytes of a row it
/// copies the source row, beyond them it is zero.
pub proof fn lemma_pad_rows_index(data: Seq<u8>, width: u32, rows: int, row: int, col: int)
    requires
        0 <= row < rows,
        0 <= col < spec_padded_stride(width),
        4 * width * rows <= data.len(),
    ensures
        spec_pad_rows(data, width, rows)[row * spec_padded_stride(width) + col] == if col < 4
            * width {
            data[row * (4 * width) + col]
        } else {
            0u8
        },
    decreases rows,
{
    let w4 = 4 * (width as int);
    let ps = spec_padded_stride(width);
    lemma_padded_stride_bounds(width);
    assert(w4 * (rows - 1) <= w4 * rows) by (nonlinear_arith)
        requires
            w4 >= 0,
            rows >= 1,
    ;
    lemma_pad_rows_len(data, width, rows - 1);
    assert((rows - 1) * w4 >= 0) by (nonlinear_arith)
        requires
            w4 >= 0,
            rows >= 1,
    ;
    assert((rows - 1) * w4 + w4 == rows * w4) by (nonlinear_arith);
    assert(rows * w4 == w4 * rows) by (nonlinear_arith);
    if row < rows - 1 {
        lemma_pad_rows_index(data, width, rows - 1, row, col);
        assert(row * ps + col < (rows - 1) * ps) by (nonlinear_arith)
            requires
                row < rows - 1,
                0 <= col < ps,
        ;
        assert(spec_pad_rows(data, width, rows)[row * ps + col] == spec_pad_rows(
            data,
            width,
            rows - 1,
        )[row * ps + col]);
    } else {
        assert(row == rows - 1);
        assert((rows - 1) * ps == row * ps);
        if col < w4 {
            assert(spec_pad_rows(data, width, rows)[row * ps + col] == data.subrange(
                (rows - 1) * w4,
                (rows - 1) * w4 + w4,
            )[col]);
        } else {
            assert(spec_pad_rows(data, width, rows)[row * ps + col] == zero_bytes(ps - w4)[col
                - w4]);
        }
    }
}

/// Computes the padded row stride for a texture width, in bytes.
pub fn padded_stride(width: u32) -> (r: u64)
    ensures
        r == spec_padded_stride(width),
{
    ((BYTES_PER_PIXEL * (width as u64) + (ROW_ALIGNMENT - 1)) / ROW_ALIGNMENT) * ROW_ALIGNMENT
}

/// Pads each pixel row of `data` (4 bytes per pixel, `width` pixels per row)
/// with zero bytes up to the host's row alignment, producing the staging
/// bytes for a texture upload of `height` rows.
pub fn pad_rows(data: &Vec<u8>, width: u32, height: u32) -> (r: Vec<u8>)
    requires
        data@.len() == 4 * width * height,
        spec_padded_stride(width) * height <= usize::MAX,
    ensures
        r@ == spec_pad_rows(data@, width, height as int),
        r@.len() == spec_padded_stride(width) * height,
{
    proof {
        lemma_pad_rows_len(data@, width, height as int);
    }
    let mut out: Vec<u8> = Vec::new();
    if height == 0 {
        proof {
            assert(out@ =~= spec_pad_rows(data@, width, 0));
        }
        return out;
    }
    proof {
        lemma_padded_stride_bounds(width);
        assert(4 * width * 1 <= 4 * width * height) by (nonlinear_arith)
            requires
                height >= 1,
                width >= 0,
        ;
        assert(spec_padded_stride(width) * 1 <= spec_padded_stride(width) * height)
            by (nonlinear_arith)
            requires
                height >= 1,
                spec_padded_stride(width) >= 0,
        ;
        assert(4 * width * height <= spec_padded_stride(width) * height) by (nonlinear_arith)
            requires
                0 <= 4 * width <= spec_padded_stride(width),
                height >= 0,
        ;
    }
    let row_bytes: usize = 4 * (width as usize);
    let stride: usize = padded_stride(width) as usize;
    let padding: usize = stride - row_bytes;
    let mut row: u32 = 0;
    while row < height
        invariant
            row <= height,
            row_bytes == 4 * width,
            stride == spec_padded_stride(width),
            padding == stride - row_bytes,
            data@.len() == 4 * width * height,
            data@.len() <= usize::MAX,
            spec_padded_stride(width) * height <= usize::MAX,
            out@ == spec_pad_rows(data@, width, row as int),
        decreases height - row,
    {
        proof {
            let w4 = 4 * (width as int);
            let ps = spec_padded_stride(width);
            lemma_padded_stride_bounds(width);
            assert(w4 * (row + 1) <= w4 * height) by (nonlinear_arith)
                requires
                    row + 1 <= height,
                    w4 >= 0,
            ;
            assert(w4 * row + w4 == w4 * (row + 1)) by (nonlinear_arith);
            assert(row * w4 == w4 * row) by (nonlinear_arith);
            assert(w4 * height <= ps * height) by (nonlinear_arith)
                requires
                    0 <= w4 <= ps,
                    height >= 0,
            ;
            assert(row * w4 + w4 <= data@.len());
            assert(row * w4 <= usize::MAX);
        }
        let base: usize = row as usize * row_bytes;
        let mut j: usize = 0;
        while j < row_bytes
            invariant
                j <= row_bytes,
                row < height,
                row_bytes == 4 * width,
                base == row * (4 * width),
                base + row_bytes <= data@.len(),
                data@.len() == 4 * width * height,
                data@.len() <= usize::MAX,
                out@ == spec_pad_rows(data@, width, row as int) + data@.subrange(
                    base as int,
                    base + j,
                ),
            decreases row_bytes - j,
        {
            out.push(data[base + j]);
            j = j + 1;
            proof {
                assert(data@.subrange(base as int, base + j as int) =~= data@.subrange(
                    base as int,
                    base + j - 1,
                ).push(data@[base + j - 1]));
            }
        }
        let mut k: usize = 0;
        while k < padding
            invariant
                k <= padding,
                row < height,
                row_bytes == 4 * width,
                padding == spec_padded_stride(width) - 4 * width,
                base == row * (4 * width),
                base + row_bytes <= data@.len(),
                data@.len() == 4 * width * height,
                out@ == spec_pad_rows(data@, width, row as int) + data@.subrange(
                    base as int,
                    base + row_bytes as int,
                ) + zero_bytes(k as int),
            decreases padding - k,
        {
            out.push(0u8);
            k = k + 1;
            proof {
                assert(zero_bytes(k as int) =~= zero_bytes(k - 1).push(0u8));
            }
        }
        row = row + 1;
        proof {
            assert(out@ =~= spec_pad_rows(data@, width, row as int));
        }
    }
    proof {
        assert(out@ == spec_pad_rows(data@, width, height as int));
        lemma_pad_rows_len(data@, width, height as int);
        assert(height * spec_padded_stride(width) == spec_padded_stride(width) * height)
            by (nonlinear_arith);
    }
    out
}

/// The per-entity resource cache: library-assigned texture id to live host
/// texture handle, at most one handle per id. A deterministic id list
/// doubles as the iteration order, so "the first available texture" is well
/// defined.
pub struct TextureCache {
    map: HashMap<u64, u64>,
    ids: Vec<u64>,
}

impl View for TextureCache {
    type V = Map<u64, u64>;

    /// The id-to-handle mapping.
    closed spec fn view(&self) -> Map<u64, u64> {
        self.map@
    }
}

impl TextureCache {
    /// The ids with a live handle, in registration order.
    pub closed spec fn id_order(&self) -> Seq<u64> {
        self.ids@
    }

    /// The id list carries each live id exactly once.
    pub open spec fn wf(&self) -> bool {
        &&& self.id_order().no_duplicates()
        &&& forall|id: u64| self@.contains_key(id) <==> self.id_order().contains(id)
    }

    /// An empty cache.
    pub fn new() -> (c: Self)
        ensures
            c@ == Map::<u64, u64>::empty(),
            c.id_order() == Seq::<u64>::empty(),
            c.wf(),
    {
        let c = TextureCache { map: HashMap::new(), ids: Vec::new() };
        proof {
            assert(c@ =~= Map::<u64, u64>::empty());
        }
        c
    }

    /// How many texture ids have a live handle.
    pub fn len(&self) -> (r: usize)
        requires
            self.wf(),
        ensures
            r == self.id_order().len(),
            r == self@.dom().len(),
    {
        proof {
            assert(self.id_order().to_set() =~= self@.dom());
            self.id_order().unique_seq_to_set();
        }
        self.ids.len()
    }

    /// Whether a handle is live under this id.
    pub fn contains(&self, id: u64) -> (r: bool)
        ensures
            r == self@.contains_key(id),
    {
        self.map.contains_key(&id)
    }

    /// The live handle under this id, if any.
    pub fn get(&self, id: u64) -> (r: Option<u64>)
        ensures
            r == if self@.contains_key(id) {
                Some(self@[id])
            } else {
                Option::<u64>::None
            },
    {
        match self.map.get(&id) {
            Some(h) => Some(*h),
            None => None,
        }
    }

    /// Registers a host texture handle under a library texture id. The id
    /// maps to the new handle afterwards; if the id was already live, the
    /// superseded handle is handed back and must be released by the caller —
    /// no two host textures stay live for one id.
    pub fn insert(&mut self, id: u64, handle: u64) -> (prev: Option<u64>)
        requires
            old(self).wf(),
        ensures
            final(self).wf(),
            final(self)@ == old(self)@.insert(id, handle),
            prev == if old(self)@.contains_key(id) {
                Some(old(self)@[id])
            } else {
                Option::<u64>::None
            },
            final(self).id_order() == if old(self)@.contains_key(id) {
                old(self).id_order()
            } else {
                old(self).id_order().push(id)
            },
    {
        let prev = self.map.insert(id, handle);
        match prev {
            Some(_) => {
                proof {
                    assert forall|x: u64| self@.contains_key(x) implies self.id_order().contains(
                        x,
                    ) by {
                        assert(old(self)@.contains_key(x));
                    }
                }
            },
            None => {
                self.ids.push(id);
                proof {
                    let ids0 = old(self).id_order();
                    let ids1 = self.id_order();
                    assert(ids1 =~= ids0.push(id));
                    assert(ids1[ids0.len() as int] == id);
                    assert(ids1.contains(id));
                    assert(!ids0.contains(id));
                    assert forall|x: u64| ids0.contains(x) implies ids1.contains(x) by {
                        let i = choose|i: int| 0 <= i < ids0.len() && ids0[i] == x;
                        assert(ids1[i] == x);
                    }
                    assert forall|i: int, j: int|
                        0 <= i < ids1.len() && 0 <= j < ids1.len() && i != j implies ids1[i]
                        != ids1[j] by {
                        if i < ids0.len() && j < ids0.len() {
                        } else if i == ids0.len() as int {
                            assert(ids0[j] != id) by {
                                if ids0[j] == id {
                                    assert(ids0.contains(id));
                                }
                            }
                        } else {
                            assert(ids0[i] != id) by {
                                if ids0[i] == id {
                                    assert(ids0.contains(id));
                                }
                            }
                        }
                    }
                    assert forall|x: u64| self@.contains_key(x) implies ids1.contains(
                        x,
                    ) by {
                        if x != id {
                            assert(ids0.contains(x));
                        }
                    }
                    assert forall|x: u64| ids1.contains(x) implies self@.contains_key(
                        x,
                    ) by {
                        let i = choose|i: int| 0 <= i < ids1.len() && ids1[i] == x;
                        if i < ids0.len() {
                            assert(ids0[i] == x);
                            assert(ids0.contains(x));
                        }
                    }
                }
            },
        }
        prev
    }

    /// The handle of the first registered texture, used as the placeholder
    /// binding for untextured geometry; `None` iff no texture is live.
    pub fn first_handle(&self) -> (r: Option<u64>)
        requires
            self.wf(),
        ensures
            r == if self.id_order().len() > 0 {
                Some(self@[self.id_order()[0]])
            } else {
                Option::<u64>::None
            },
            r is Some <==> self@.dom() != Set::<u64>::empty(),
    {
        if self.ids.len() == 0 {
            proof {
                assert forall|id: u64| !self@.contains_key(id) by {
                    if self@.contains_key(id) {
                        assert(self.id_order().contains(id));
                        assert(false);
                    }
                }
                assert(self@.dom() =~= Set::<u64>::empty());
            }
            None
        } else {
            let id = self.ids[0];
            proof {
                assert(self.id_order().contains(id));
            }
            let handle = self.map.get(&id);
            proof {
                assert(self@.dom().contains(id));
                assert(self@.dom() != Set::<u64>::empty());
            }
            match handle {
                Some(h) => Some(*h),
                None => None,
            }
        }
    }
}

/// An update can be staged: its raw data covers its pixel rectangle exactly,
/// and the padded staging buffer fits the address space.
pub open spec fn spec_upload_ok(u: Update) -> bool {
    match u {
        Update::Texture { width, height, data, .. } => data@.len() == 4 * width * height
            && spec_padded_stride(width) * height <= usize::MAX,
        Update::TextureSubresource { width, height, data, .. } => data@.len() == 4 * width
            * height && spec_padded_stride(width) * height <= usize::MAX,
    }
}

/// One staged texture upload: the padded staging bytes and where they go.
#[derive(Debug, Clone, PartialEq, Eq)]
pub struct TextureUpload {
    /// The library texture id the upload targets.
    pub id: u64,
    /// Horizontal pixel offset of the destination rectangle.
    pub x: u32,
    /// Vertical pixel offset of the destination rectangle.
    pub y: u32,
    /// Width of the destination rectangle in pixels.
    pub width: u32,
    /// Height of the destination rectangle in pixels.
    pub height: u32,
    /// The aligned byte stride of one staged row.
    pub row_stride: u64,
    /// The staging bytes, one aligned row per pixel row.
    pub data: Vec<u8>,
    /// Whether a new host texture must be allocated for the id first.
    pub creates: bool,
    /// Whether the new texture may later receive sub-region patches.
    pub atlas: bool,
}

/// Stages one texture update for upload: rows are padded to the host's row
/// alignment, a `Texture` update allocates at the origin, a
/// `TextureSubresource` update patches at its pixel offset.
pub fn prepare_upload(update: &Update) -> (r: TextureUpload)
    requires
        spec_upload_ok(*update),
    ensures
        match *update {
            Update::Texture { id, width, height, ref data, atlas } => {
                &&& r.id == id
                &&& r.x == 0
                &&& r.y == 0
                &&& r.width == width
                &&& r.height == height
                &&& r.row_stride == spec_padded_stride(width)
                &&& r.data@ == spec_pad_rows(data@, width, height as int)
                &&& r.data@.len() == spec_padded_stride(width) * height
                &&& r.creates
                &&& r.atlas == atlas
            },
            Update::TextureSubresource { id, x, y, width, height, ref data } => {
                &&& r.id == id
                &&& r.x == x
                &&& r.y == y
                &&& r.width == width
                &&& r.height == height
                &&& r.row_stride == spec_padded_stride(width)
                &&& r.data@ == spec_pad_rows(data@, width, height as int)
                &&& r.data@.len() == spec_padded_stride(width) * height
                &&& !r.creates
                &&& !r.atlas
            },
        },
{
    match update {
        Update::Texture { id, width, height, data, atlas } => {
            let padded = pad_rows(data, *width, *height);
            TextureUpload {
                id: *id,
                x: 0,
                y: 0,
                width: *width,
                height: *height,
                row_stride: padded_stride(*width),
                data: padded,
                creates: true,
                atlas: *atlas,
            }
        },
        Update::TextureSubresource { id, x, y, width, height, data } => {
            let padded = pad_rows(data, *width, *height);
            TextureUpload {
                id: *id,
                x: *x,
                y: *y,
                width: *width,
                height: *height,
                row_stride: padded_stride(*width),
                data: padded,
                creates: false,
                atlas: false,
            }
        },
    }
}

/// The per-entity draw component: the current vertex buffer handle (if any),
/// the texture cache, and the updates and commands carried over from the
/// session's last draw list.
pub struct UiDraw {
    vertices: Option<u64>,
    textures: TextureCache,
    updates: Vec<Update>,
    commands: Vec<Command>,
}

impl UiDraw {
    /// The current host vertex buffer handle, `None` when the last draw had
    /// no vertices.
    pub closed spec fn vertex_buffer(&self) -> Option<u64> {
        self.vertices
    }

    /// The texture cache's id-to-handle mapping.
    pub closed spec fn texture_map(&self) -> Map<u64, u64> {
        self.textures@
    }

    /// The texture ids in registration order.
    pub closed spec fn texture_order(&self) -> Seq<u64> {
        self.textures.id_order()
    }

    /// The resource updates not yet processed.
    pub closed spec fn pending_updates(&self) -> Seq<Update> {
        self.updates@
    }

    /// The draw commands of the last ingested draw list.
    pub closed spec fn command_list(&self) -> Seq<Command> {
        self.commands@
    }

    /// The texture cache is well formed.
    pub closed spec fn wf(&self) -> bool {
        self.textures.wf()
    }

    /// An empty draw component: no buffer, no textures, nothing pending.
    pub fn new() -> (d: Self)
        ensures
            d.vertex_buffer() is None,
            d.texture_map() == Map::<u64, u64>::empty(),
            d.pending_updates() == Seq::<Update>::empty(),
            d.command_list() == Seq::<Command>::empty(),
            d.wf(),
    {
        UiDraw {
            vertices: None,
            textures: TextureCache::new(),
            updates: Vec::new(),
            commands: Vec::new(),
        }
    }

    /// Carries one draw list over from the session: its updates are queued
    /// after the ones still pending, and its commands replace the previous
    /// command stream. Returns the vertex count of the new vertex buffer.
    pub fn ingest_draw_list(&mut self, list: crate::draw::DrawList) -> (vertex_count: usize)
        ensures
            final(self).pending_updates() == old(self).pending_updates() + list.updates@,
            final(self).command_list() == list.commands@,
            final(self).vertex_buffer() == old(self).vertex_buffer(),
            final(self).texture_map() == old(self).texture_map(),
            final(self).texture_order() == old(self).texture_order(),
            old(self).wf() ==> final(self).wf(),
            vertex_count == list.vertex_count,
    {
        let crate::draw::DrawList { mut updates, commands, vertex_count } = list;
        self.updates.append(&mut updates);
        self.commands = commands;
        vertex_count
    }

    /// Takes the pending updates for processing, oldest first, leaving none
    /// pending.
    pub fn take_updates(&mut self) -> (r: Vec<Update>)
        ensures
            r@ == old(self).pending_updates(),
            final(self).pending_updates() == Seq::<Update>::empty(),
            final(self).command_list() == old(self).command_list(),
            final(self).vertex_buffer() == old(self).vertex_buffer(),
            final(self).texture_map() == old(self).texture_map(),
            final(self).texture_order() == old(self).texture_order(),
            old(self).wf() ==> final(self).wf(),
    {
        let mut taken: Vec<Update> = Vec::new();
        core::mem::swap(&mut taken, &mut self.updates);
        taken
    }

    /// The current draw command stream.
    pub fn commands(&self) -> (r: &Vec<Command>)
        ensures
            r@ == self.command_list(),
    {
        &self.commands
    }

    /// Registers a host texture handle for a library texture id, handing
    /// back the superseded handle — which the caller must release — if the
    /// id was already live.
    pub fn register_texture(&mut self, id: u64, handle: u64) -> (prev: Option<u64>)
        requires
            old(self).wf(),
        ensures
            final(self).wf(),
            final(self).texture_map() == old(self).texture_map().insert(id, handle),
            prev == if old(self).texture_map().contains_key(id) {
                Some(old(self).texture_map()[id])
            } else {
                Option::<u64>::None
            },
            final(self).texture_order() == if old(self).texture_map().contains_key(id) {
                old(self).texture_order()
            } else {
                old(self).texture_order().push(id)
            },
            final(self).vertex_buffer() == old(self).vertex_buffer(),
            final(self).pending_updates() == old(self).pending_updates(),
            final(self).command_list() == old(self).command_list(),
    {
        self.textures.insert(id, handle)
    }

    /// The live host texture handle for a library texture id, if any.
    pub fn texture_handle(&self, id: u64) -> (r: Option<u64>)
        ensures
            r == if self.texture_map().contains_key(id) {
                Some(self.texture_map()[id])
            } else {
                Option::<u64>::None
            },
    {
        self.textures.get(id)
    }

    /// The handle of the first registered texture, if any texture is live.
    pub fn first_texture_handle(&self) -> (r: Option<u64>)
        requires
            self.wf(),
        ensures
            r == if self.texture_order().len() > 0 {
                Some(self.texture_map()[self.texture_order()[0]])
            } else {
                Option::<u64>::None
            },
            r is Some <==> self.texture_map().dom() != Set::<u64>::empty(),
    {
        self.textures.first_handle()
    }

    /// How many texture ids are live.
    pub fn texture_count(&self) -> (r: usize)
        requires
            self.wf(),
        ensures
            r == self.texture_map().dom().len(),
    {
        self.textures.len()
    }

    /// Installs a freshly created, ready vertex buffer and hands back the
    /// previous one — which the caller releases only now, so no frame
    /// observes a torn buffer.
    pub fn replace_vertex_buffer(&mut self, new_buffer: u64) -> (old_buffer: Option<u64>)
        ensures
            final(self).vertex_buffer() == Some(new_buffer),
            old_buffer == old(self).vertex_buffer(),
            final(self).texture_map() == old(self).texture_map(),
            final(self).texture_order() == old(self).texture_order(),
            final(self).pending_updates() == old(self).pending_updates(),
            final(self).command_list() == old(self).command_list(),
            old(self).wf() ==> final(self).wf(),
    {
        let old_buffer = self.vertices;
        self.vertices = Some(new_buffer);
        old_buffer
    }

    /// Records that the new draw has no vertices: any existing buffer is
    /// handed back for release and "no buffer present" is marked, so command
    /// emission skips this entity.
    pub fn clear_vertex_buffer(&mut self) -> (old_buffer: Option<u64>)
        ensures
            final(self).vertex_buffer() is None,
            old_buffer == old(self).vertex_buffer(),
            final(self).texture_map() == old(self).texture_map(),
            final(self).texture_order() == old(self).texture_order(),
            final(self).pending_updates() == old(self).pending_updates(),
            final(self).command_list() == old(self).command_list(),
            old(self).wf() ==> final(self).wf(),
    {
        let old_buffer = self.vertices;
        self.vertices = None;
        old_buffer
    }

    /// Applies one draw's vertex count to the double-buffered vertex
    /// buffer. Vertices present: the freshly created, ready buffer is
    /// installed and the previous one handed back for release — only now,
    /// so no frame observes a torn buffer. Zero vertices: any existing
    /// buffer is handed back and "no buffer present" is recorded, so
    /// command emission skips this entity. The caller creates a buffer
    /// exactly when the vertex list is non-empty.
    pub fn apply_vertex_buffer(
        &mut self,
        vertex_count: usize,
        new_buffer: Option<u64>,
    ) -> (old_buffer: Option<u64>)
        requires
            new_buffer is Some <==> vertex_count > 0,
        ensures
            final(self).vertex_buffer() == if vertex_count > 0 {
                new_buffer
            } else {
                Option::<u64>::None
            },
            vertex_count == 0 ==> final(self).vertex_buffer() is None,
            old_buffer == old(self).vertex_buffer(),
            final(self).texture_map() == old(self).texture_map(),
            final(self).texture_order() == old(self).texture_order(),
            final(self).pending_updates() == old(self).pending_updates(),
            final(self).command_list() == old(self).command_list(),
            old(self).wf() ==> final(self).wf(),
    {
        match new_buffer {
            Some(buffer) => self.replace_vertex_buffer(buffer),
            None => self.clear_vertex_buffer(),
        }
    }

    /// Whether a vertex buffer is currently present.
    pub fn has_vertex_buffer(&self) -> (r: bool)
        ensures
            r == (self.vertex_buffer() is Some),
    {
        self.vertices.is_some()
    }

    /// The current vertex buffer handle, if present.
    pub fn current_vertex_buffer(&self) -> (r: Option<u64>)
        ensures
            r == self.vertex_buffer(),
    {
        self.vertices
    }
}

/// Texture id uniqueness across successive registrations: introducing a
/// texture under an id that is already live yields exactly the previously
/// live handle for release, and afterwards the id is live with the new
/// handle alone.
pub proof fn lemma_texture_replace_keeps_one_live(m: Map<u64, u64>, id: u64, h1: u64, h2: u64)
    requires
        !m.contains_key(id),
    ensures
        m.insert(id, h1).insert(id, h2).contains_key(id),
        m.insert(id, h1).insert(id, h2)[id] == h2,
        m.insert(id, h1).insert(id, h2).dom() =~= m.insert(id, h1).dom(),
        m.insert(id, h1)[id] == h1,
{
}

} // verus!
