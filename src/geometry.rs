use vstd::prelude::*;
use vstd::arithmetic::div_mod::lemma_fundamental_div_mod_converse;

use crate::linear_transform::LinearTransform;

verus! {

/// Values per vertex of the position attribute.
pub const POSITION_SIZE: usize = 3;

/// Values per vertex of the color attribute.
pub const COLOR_SIZE: usize = 4;

/// Values per vertex in the interleaved buffer: the position, then the color.
pub const VERTEX_SIZE: usize = 7;

/// How the GPU assembles vertices into primitives.
#[derive(Clone, Copy, Debug, PartialEq, Eq, Structural)]
pub enum PrimitiveMode {
    Points,
    Lines,
    LineLoop,
    LineStrip,
    Triangles,
    TriangleStrip,
    TriangleFan,
}

/// Why a geometry buffer could not be built.
#[derive(Clone, Debug, PartialEq, Eq)]
pub enum ConstructionError {
    /// The position array does not hold three values per vertex.
    PositionLength { vertex_count: usize, found: usize },
    /// The color array does not hold four values per vertex.
    ColorLength { vertex_count: usize, found: usize },
    /// The packed buffer of seven values per vertex would not fit in memory.
    TooManyVertices { vertex_count: usize },
    /// A GPU object (buffer, vertex array, shader, program) could not be made.
    Gpu(String),
}

/// The draw call that renders one geometry buffer.
#[derive(Clone, Copy, Debug, PartialEq, Eq, Structural)]
pub enum DrawCall {
    /// An indexed draw over `count` indices.
    Elements { mode: PrimitiveMode, count: usize },
    /// A non-indexed draw over `count` vertices.
    Arrays { mode: PrimitiveMode, count: usize },
}

/// The value that slot `i` of an interleaved buffer takes from `positions`
/// and `colors`: slots `0..3` of each vertex hold its position, slots `3..7`
/// its color.
pub open spec fn interleaved_slot<T>(positions: Seq<T>, colors: Seq<T>, i: int) -> T {
    let v = i / 7;
    let k = i % 7;
    if k < 3 {
        positions[3 * v + k]
    } else {
        colors[4 * v + (k - 3)]
    }
}

/// Whether slot `i` of an interleaved buffer belongs to a position.
pub open spec fn is_position_slot(i: int) -> bool {
    i % 7 < 3
}

/// The interleaved buffer of `n` vertices.
pub open spec fn interleaved<T>(positions: Seq<T>, colors: Seq<T>, n: nat) -> Seq<T> {
    Seq::new(7 * n, |i: int| interleaved_slot(positions, colors, i))
}

/// `packed` after one packing pass: the position slots are taken anew from
/// `positions` if and only if `positions_dirty`, the color slots from
/// `colors` if and only if `colors_dirty`; every other slot is kept.
pub open spec fn packed_after<T>(
    packed: Seq<T>,
    positions: Seq<T>,
    colors: Seq<T>,
    positions_dirty: bool,
    colors_dirty: bool,
) -> Seq<T> {
    Seq::new(
        packed.len(),
        |i: int|
            if (is_position_slot(i) && positions_dirty) || (!is_position_slot(i) && colors_dirty) {
                interleaved_slot(positions, colors, i)
            } else {
                packed[i]
            },
    )
}

/// The values of one vertex attribute on the CPU side, with a flag that says
/// whether they changed since they were last packed.
pub struct AttributeBuffer<T> {
    values: Vec<T>,
    dirty: bool,
}

impl<T> AttributeBuffer<T> {
    /// The values.
    pub closed spec fn view_values(self) -> Seq<T> {
        self.values@
    }

    /// Whether the values changed since they were last packed.
    pub closed spec fn dirty(self) -> bool {
        self.dirty
    }

    /// A buffer of `values`, marked as not yet packed.
    pub fn new(values: Vec<T>) -> (r: Self)
        ensures
            r.view_values() == values@,
            r.dirty(),
    {
        AttributeBuffer { values, dirty: true }
    }

    /// The values.
    pub fn values(&self) -> (r: &Vec<T>)
        ensures
            r@ == self.view_values(),
    {
        &self.values
    }

    /// Whether the values changed since they were last packed.
    pub fn is_dirty(&self) -> (r: bool)
        ensures
            r == self.dirty(),
    {
        self.dirty
    }

    /// Replaces value `i` and marks the buffer dirty.
    pub fn set(&mut self, i: usize, value: T)
        requires
            i < old(self).view_values().len(),
        ensures
            final(self).view_values() == old(self).view_values().update(i as int, value),
            final(self).dirty(),
    {
        self.values.set(i, value);
        self.dirty = true;
    }

    fn mark_clean(&mut self)
        ensures
            final(self).view_values() == old(self).view_values(),
            !final(self).dirty(),
    {
        self.dirty = false;
    }
}

/// Copies `len` values of `src`, from `src_start` on, into `dst` from
/// `dst_start` on; every other value of `dst` is kept.
fn copy_run<T: Copy>(dst: &mut Vec<T>, dst_start: usize, src: &Vec<T>, src_start: usize, len: usize)
    requires
        dst_start + len <= old(dst)@.len(),
        src_start + len <= src@.len(),
    ensures
        final(dst)@.len() == old(dst)@.len(),
        forall|i: int|
            0 <= i < old(dst)@.len() ==> final(dst)@[i] == if dst_start <= i < dst_start + len {
                src@[src_start + i - dst_start]
            } else {
                old(dst)@[i]
            },
{
    let dst_len = dst.len();
    let src_len = src.len();
    let mut k: usize = 0;
    while k < len
        invariant
            k <= len,
            dst@.len() == dst_len,
            src@.len() == src_len,
            dst_start + len <= old(dst)@.len(),
            src_start + len <= src@.len(),
            dst@.len() == old(dst)@.len(),
            forall|i: int|
                0 <= i < old(dst)@.len() ==> dst@[i] == if dst_start <= i < dst_start + k {
                    src@[src_start + i - dst_start]
                } else {
                    old(dst)@[i]
                },
        decreases len - k,
    {
        dst.set(dst_start + k, src[src_start + k]);
        k = k + 1;
    }
}

/// Slot `7 * v + k` of an interleaved buffer is slot `k` of vertex `v`.
proof fn lemma_slot(v: int, k: int)
    requires
        0 <= v,
        0 <= k < 7,
    ensures
        (7 * v + k) / 7 == v,
        (7 * v + k) % 7 == k,
{
    lemma_fundamental_div_mod_converse(7 * v + k, 7, v, k);
}

/// A drawable: its vertex attributes on the CPU side, the interleaved buffer
/// that is uploaded to the GPU, an optional index list, and the object's
/// transform (pose `P`, matrix `M`).
///
/// The packed buffer always agrees with each attribute that is not dirty.
pub struct GeometryBuffer<T, P, M> {
    mode: PrimitiveMode,
    vertex_count: usize,
    positions: AttributeBuffer<T>,
    colors: AttributeBuffer<T>,
    packed: Vec<T>,
    indices: Option<Vec<u32>>,
    transform: LinearTransform<P, M>,
}

impl<T, P, M> GeometryBuffer<T, P, M> {
    /// The attribute arrays hold three and four values per vertex, the packed
    /// buffer seven, and the packed buffer agrees with each attribute that
    /// is not dirty.
    pub closed spec fn wf(self) -> bool {
        let n = self.vertex_count as nat;
        let pos = self.positions.view_values();
        let col = self.colors.view_values();
        &&& 7 * n <= usize::MAX
        &&& pos.len() == 3 * n
        &&& col.len() == 4 * n
        &&& self.packed@.len() == 7 * n
        &&& !self.positions.dirty() ==> forall|i: int|
            0 <= i < 7 * n && is_position_slot(i) ==> #[trigger] self.packed@[i]
                == interleaved_slot(pos, col, i)
        &&& !self.colors.dirty() ==> forall|i: int|
            0 <= i < 7 * n && !is_position_slot(i) ==> #[trigger] self.packed@[i]
                == interleaved_slot(pos, col, i)
    }

    pub closed spec fn spec_vertex_count(self) -> nat {
        self.vertex_count as nat
    }

    pub closed spec fn spec_mode(self) -> PrimitiveMode {
        self.mode
    }

    pub closed spec fn position_values(self) -> Seq<T> {
        self.positions.view_values()
    }

    pub closed spec fn color_values(self) -> Seq<T> {
        self.colors.view_values()
    }

    pub closed spec fn positions_dirty(self) -> bool {
        self.positions.dirty()
    }

    pub closed spec fn colors_dirty(self) -> bool {
        self.colors.dirty()
    }

    /// The interleaved buffer as last packed.
    pub closed spec fn packed_values(self) -> Seq<T> {
        self.packed@
    }

    pub closed spec fn index_values(self) -> Option<Seq<u32>> {
        match self.indices {
            Some(ix) => Some(ix@),
            None => None,
        }
    }

    pub closed spec fn spec_transform(self) -> LinearTransform<P, M> {
        self.transform
    }
}

impl<T: Copy, P, M> GeometryBuffer<T, P, M> {
    /// Builds a geometry buffer of `vertex_count` vertices from flat arrays of
    /// three position values and four color values per vertex. The packed
    /// buffer starts as `7 * vertex_count` copies of `fill`; both attributes
    /// start dirty, so the first `prepare_for_render` packs and uploads them.
    pub fn new(
        mode: PrimitiveMode,
        vertex_count: usize,
        positions: Vec<T>,
        colors: Vec<T>,
        indices: Option<Vec<u32>>,
        transform: LinearTransform<P, M>,
        fill: T,
    ) -> (r: Result<Self, ConstructionError>)
        ensures
            positions@.len() != 3 * vertex_count ==> r == Err::<Self, _>(
                ConstructionError::PositionLength { vertex_count, found: positions@.len() as usize },
            ),
            positions@.len() == 3 * vertex_count && colors@.len() != 4 * vertex_count ==> r == Err::<
                Self,
                _,
            >(ConstructionError::ColorLength { vertex_count, found: colors@.len() as usize }),
            positions@.len() == 3 * vertex_count && colors@.len() == 4 * vertex_count && 7
                * vertex_count > usize::MAX ==> r == Err::<Self, _>(
                ConstructionError::TooManyVertices { vertex_count },
            ),
            positions@.len() == 3 * vertex_count && colors@.len() == 4 * vertex_count && 7
                * vertex_count <= usize::MAX ==> r is Ok,
            r matches Ok(g) ==> {
                &&& g.wf()
                &&& g.spec_mode() == mode
                &&& g.spec_vertex_count() == vertex_count
                &&& g.position_values() == positions@
                &&& g.color_values() == colors@
                &&& g.positions_dirty()
                &&& g.colors_dirty()
                &&& g.packed_values() == Seq::new(7 * vertex_count as nat, |i: int| fill)
                &&& g.index_values() == (match indices {
                    Some(ix) => Some(ix@),
                    None => None::<Seq<u32>>,
                })
                &&& g.spec_transform() == transform
            },
    {
        if positions.len() / POSITION_SIZE != vertex_count || positions.len() % POSITION_SIZE != 0 {
            return Err(ConstructionError::PositionLength { vertex_count, found: positions.len() });
        }
        if colors.len() / COLOR_SIZE != vertex_count || colors.len() % COLOR_SIZE != 0 {
            return Err(ConstructionError::ColorLength { vertex_count, found: colors.len() });
        }
        if vertex_count > usize::MAX / VERTEX_SIZE {
            return Err(ConstructionError::TooManyVertices { vertex_count });
        }
        let len = VERTEX_SIZE * vertex_count;
        let mut packed: Vec<T> = Vec::with_capacity(len);
        let mut i: usize = 0;
        while i < len
            invariant
                i <= len,
                packed@ == Seq::new(i as nat, |j: int| fill),
            decreases len - i,
        {
            packed.push(fill);
            i = i + 1;
            assert(packed@ =~= Seq::new(i as nat, |j: int| fill));
        }
        Ok(GeometryBuffer {
            mode,
            vertex_count,
            positions: AttributeBuffer::new(positions),
            colors: AttributeBuffer::new(colors),
            packed,
            indices,
            transform,
        })
    }

    /// Whether either attribute changed since it was last packed.
    pub fn buffer_needs_update(&self) -> (r: bool)
        requires
            self.wf(),
        ensures
            r == (self.positions_dirty() || self.colors_dirty()),
    {
        self.positions.is_dirty() || self.colors.is_dirty()
    }

    /// Brings the packed buffer up to date in one pass over the vertices:
    /// the position slots are rewritten only if the positions are dirty, the
    /// color slots only if the colors are; every other slot keeps its value.
    /// Both dirty flags are cleared together.
    pub fn pack_attributes(&mut self)
        requires
            old(self).wf(),
        ensures
            final(self).wf(),
            final(self).packed_values() == packed_after(
                old(self).packed_values(),
                old(self).position_values(),
                old(self).color_values(),
                old(self).positions_dirty(),
                old(self).colors_dirty(),
            ),
            !final(self).positions_dirty(),
            !final(self).colors_dirty(),
            final(self).position_values() == old(self).position_values(),
            final(self).color_values() == old(self).color_values(),
            final(self).spec_mode() == old(self).spec_mode(),
            final(self).spec_vertex_count() == old(self).spec_vertex_count(),
            final(self).index_values() == old(self).index_values(),
            final(self).spec_transform() == old(self).spec_transform(),
    {
        let ghost old_packed = self.packed@;
        let ghost pos = self.positions.view_values();
        let ghost col = self.colors.view_values();
        let pos_dirty = self.positions.is_dirty();
        let col_dirty = self.colors.is_dirty();
        let ghost target = packed_after(old_packed, pos, col, pos_dirty, col_dirty);
        if !pos_dirty && !col_dirty {
            assert(target =~= old_packed);
            return;
        }
        let n = self.vertex_count;
        let mut v: usize = 0;
        while v < n
            invariant
                v <= n,
                n == self.vertex_count,
                self.mode == old(self).mode,
                self.indices == old(self).indices,
                self.transform == old(self).transform,
                old(self).wf(),
                7 * n <= usize::MAX,
                pos == self.positions.view_values(),
                col == self.colors.view_values(),
                pos_dirty == self.positions.dirty(),
                col_dirty == self.colors.dirty(),
                pos.len() == 3 * n,
                col.len() == 4 * n,
                old_packed.len() == 7 * n,
                target == packed_after(old_packed, pos, col, pos_dirty, col_dirty),
                self.packed@.len() == 7 * n,
                forall|i: int| 0 <= i < 7 * v ==> #[trigger] self.packed@[i] == target[i],
                forall|i: int| 7 * v <= i < 7 * n ==> #[trigger] self.packed@[i] == old_packed[i],
            decreases n - v,
        {
            let ghost before = self.packed@;
            if pos_dirty {
                copy_run(&mut self.packed, VERTEX_SIZE * v, self.positions.values(), POSITION_SIZE * v, POSITION_SIZE);
            }
            if col_dirty {
                copy_run(
                    &mut self.packed,
                    VERTEX_SIZE * v + POSITION_SIZE,
                    self.colors.values(),
                    COLOR_SIZE * v,
                    COLOR_SIZE,
                );
            }
            assert forall|i: int| 0 <= i < 7 * n implies #[trigger] self.packed@[i] == (if i < 7 * (v + 1) {
                target[i]
            } else {
                old_packed[i]
            }) by {
                if 7 * v <= i < 7 * v + 7 {
                    lemma_slot(v as int, i - 7 * v);
                    assert(before[i] == old_packed[i]);
                } else {
                    assert(before[i] == self.packed@[i]);
                }
            }
            v = v + 1;
        }
        self.positions.mark_clean();
        self.colors.mark_clean();
        assert(self.packed@ =~= target);
    }

    /// The number of vertices.
    pub fn vertex_count(&self) -> (r: usize)
        ensures
            r == self.spec_vertex_count(),
    {
        self.vertex_count
    }

    /// How the vertices are assembled into primitives.
    pub fn mode(&self) -> (r: PrimitiveMode)
        ensures
            r == self.spec_mode(),
    {
        self.mode
    }

    /// The position attribute.
    pub fn positions(&self) -> (r: &AttributeBuffer<T>)
        ensures
            r.view_values() == self.position_values(),
            r.dirty() == self.positions_dirty(),
    {
        &self.positions
    }

    /// The color attribute.
    pub fn colors(&self) -> (r: &AttributeBuffer<T>)
        ensures
            r.view_values() == self.color_values(),
            r.dirty() == self.colors_dirty(),
    {
        &self.colors
    }

    /// The interleaved buffer as last packed.
    pub fn packed(&self) -> (r: &Vec<T>)
        ensures
            r@ == self.packed_values(),
    {
        &self.packed
    }

    /// The index list, if the object is drawn by index.
    pub fn indices(&self) -> (r: &Option<Vec<u32>>)
        ensures
            self.index_values() == (match *r {
                Some(ix) => Some(ix@),
                None => None::<Seq<u32>>,
            }),
    {
        &self.indices
    }

    /// The object's transform.
    pub fn transform(&self) -> (r: &LinearTransform<P, M>)
        ensures
            *r == self.spec_transform(),
    {
        &self.transform
    }

    /// The object's transform, to move, turn or scale it.
    pub fn transform_mut(&mut self) -> (r: &mut LinearTransform<P, M>)
        requires
            old(self).wf(),
        ensures
            *r == old(self).spec_transform(),
            final(self).spec_transform() == *final(r),
            final(self).wf(),
            final(self).position_values() == old(self).position_values(),
            final(self).color_values() == old(self).color_values(),
            final(self).positions_dirty() == old(self).positions_dirty(),
            final(self).colors_dirty() == old(self).colors_dirty(),
            final(self).packed_values() == old(self).packed_values(),
            final(self).spec_mode() == old(self).spec_mode(),
            final(self).spec_vertex_count() == old(self).spec_vertex_count(),
            final(self).index_values() == old(self).index_values(),
    {
        &mut self.transform
    }

    /// Replaces position value `i` (value `i % 3` of vertex `i / 3`) and
    /// marks the positions dirty.
    pub fn set_position(&mut self, i: usize, value: T)
        requires
            old(self).wf(),
            i < 3 * old(self).spec_vertex_count(),
        ensures
            final(self).wf(),
            final(self).position_values() == old(self).position_values().update(i as int, value),
            final(self).positions_dirty(),
            final(self).color_values() == old(self).color_values(),
            final(self).colors_dirty() == old(self).colors_dirty(),
            final(self).packed_values() == old(self).packed_values(),
            final(self).spec_mode() == old(self).spec_mode(),
            final(self).spec_vertex_count() == old(self).spec_vertex_count(),
            final(self).index_values() == old(self).index_values(),
            final(self).spec_transform() == old(self).spec_transform(),
    {
        self.positions.set(i, value);
        proof {
            let n = self.vertex_count as nat;
            assert forall|j: int| 0 <= j < 7 * n && !is_position_slot(j) && !self.colors.dirty() implies #[trigger] self.packed@[j]
                == interleaved_slot(self.positions.view_values(), self.colors.view_values(), j) by {
                assert(old(self).packed@[j] == interleaved_slot(old(self).positions.view_values(), self.colors.view_values(), j));
            }
        }
    }

    /// Replaces color value `i` (value `i % 4` of vertex `i / 4`) and marks
    /// the colors dirty.
    pub fn set_color(&mut self, i: usize, value: T)
        requires
            old(self).wf(),
            i < 4 * old(self).spec_vertex_count(),
        ensures
            final(self).wf(),
            final(self).color_values() == old(self).color_values().update(i as int, value),
            final(self).colors_dirty(),
            final(self).position_values() == old(self).position_values(),
            final(self).positions_dirty() == old(self).positions_dirty(),
            final(self).packed_values() == old(self).packed_values(),
            final(self).spec_mode() == old(self).spec_mode(),
            final(self).spec_vertex_count() == old(self).spec_vertex_count(),
            final(self).index_values() == old(self).index_values(),
            final(self).spec_transform() == old(self).spec_transform(),
    {
        self.colors.set(i, value);
        proof {
            let n = self.vertex_count as nat;
            assert forall|j: int| 0 <= j < 7 * n && is_position_slot(j) && !self.positions.dirty() implies #[trigger] self.packed@[j]
                == interleaved_slot(self.positions.view_values(), self.colors.view_values(), j) by {
                assert(old(self).packed@[j] == interleaved_slot(self.positions.view_values(), old(self).colors.view_values(), j));
            }
        }
    }

    /// Readies the object for a frame: recomposes its transform's matrix if
    /// the pose changed, then packs the attributes if either is dirty.
    /// Returns whether the packed buffer changed and so must be uploaded
    /// whole to the GPU.
    pub fn prepare_for_render<F: Fn(&P) -> M>(&mut self, compose: &F) -> (upload: bool)
        requires
            old(self).wf(),
            forall|p: &P| compose.requires((p,)),
        ensures
            final(self).wf(),
            upload == (old(self).positions_dirty() || old(self).colors_dirty()),
            LinearTransform::update_step(old(self).spec_transform(), final(self).spec_transform()),
            old(self).spec_transform().dirty() ==> compose.ensures(
                (&old(self).spec_transform().current_pose(),),
                final(self).spec_transform().cached_matrix(),
            ),
            final(self).packed_values() == packed_after(
                old(self).packed_values(),
                old(self).position_values(),
                old(self).color_values(),
                old(self).positions_dirty(),
                old(self).colors_dirty(),
            ),
            !final(self).positions_dirty(),
            !final(self).colors_dirty(),
            final(self).position_values() == old(self).position_values(),
            final(self).color_values() == old(self).color_values(),
            final(self).spec_mode() == old(self).spec_mode(),
            final(self).spec_vertex_count() == old(self).spec_vertex_count(),
            final(self).index_values() == old(self).index_values(),
    {
        self.transform.update_matrix(compose);
        if self.buffer_needs_update() {
            self.pack_attributes();
            true
        } else {
            assert(packed_after(self.packed@, self.positions.view_values(), self.colors.view_values(), false, false)
                =~= self.packed@);
            false
        }
    }

    /// The draw call for this object: indexed over the whole index list if
    /// there is one, otherwise over all vertices.
    pub fn draw_call(&self) -> (r: DrawCall)
        ensures
            r == (match self.index_values() {
                Some(ix) => DrawCall::Elements { mode: self.spec_mode(), count: ix.len() as usize },
                None => DrawCall::Arrays { mode: self.spec_mode(), count: self.spec_vertex_count() as usize },
            }),
    {
        match &self.indices {
            Some(ix) => DrawCall::Elements { mode: self.mode, count: ix.len() },
            None => DrawCall::Arrays { mode: self.mode, count: self.vertex_count },
        }
    }
}

/// Changing only positions since the last pack, then packing, leaves every
/// color slot of the packed buffer as it was before the pack, and brings
/// every position slot up to date.
pub proof fn lemma_position_pack_keeps_colors<T, P, M>(
    before: GeometryBuffer<T, P, M>,
    after: GeometryBuffer<T, P, M>,
)
    requires
        before.wf(),
        !before.colors_dirty(),
        after.packed_values() == packed_after(
            before.packed_values(),
            before.position_values(),
            before.color_values(),
            before.positions_dirty(),
            before.colors_dirty(),
        ),
    ensures
        after.packed_values().len() == before.packed_values().len(),
        forall|i: int|
            0 <= i < before.packed_values().len() && !is_position_slot(i) ==> after.packed_values()[i]
                == before.packed_values()[i],
        before.positions_dirty() ==> forall|i: int|
            0 <= i < before.packed_values().len() && is_position_slot(i) ==> after.packed_values()[i]
                == interleaved_slot(before.position_values(), before.color_values(), i),
{
}

/// Whenever neither attribute is dirty, the packed buffer is exactly the
/// interleaving of the current positions and colors.
pub proof fn lemma_clean_buffer_is_interleaved<T, P, M>(g: GeometryBuffer<T, P, M>)
    requires
        g.wf(),
        !g.positions_dirty(),
        !g.colors_dirty(),
    ensures
        g.packed_values() == interleaved(g.position_values(), g.color_values(), g.spec_vertex_count()),
{
    assert(g.packed_values() =~= interleaved(g.position_values(), g.color_values(), g.spec_vertex_count()));
}

} // verus!
