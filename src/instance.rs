//! Instance records whose layout must match, word for word, the structures
//! that the shaders declare.
use vstd::prelude::*;
use crate::address::{GpuCacheAddress, PackedLayerIndex, RenderTaskAddress};
use vstd::std_specs::convert::FromSpec;

verus! {

/// A reference to an entry of the layer table, narrowed to the width that a
/// record holds. It is made only from a `PackedLayerIndex`.
#[derive(Debug, Copy, Clone)]
pub struct PackedLayerAddress(i32);

impl View for PackedLayerAddress {
    type V = i32;

    closed spec fn view(&self) -> i32 {
        self.0
    }
}

impl From<PackedLayerIndex> for PackedLayerAddress {
    fn from(index: PackedLayerIndex) -> (r: PackedLayerAddress)
        ensures
            r@ == index.0 as i32,
    {
        let r = PackedLayerAddress(#[verifier::truncate] (index.0 as i32));
        proof {
            assert(r@ == index.0 as i32);
            let c = choose|a: PackedLayerAddress| a@ == index.0 as i32;
            assert(r == c);
        }
        r
    }
}

impl vstd::std_specs::convert::FromSpecImpl<PackedLayerIndex> for PackedLayerAddress {
    open spec fn obeys_from_spec() -> bool {
        true
    }

    open spec fn from_spec(v: PackedLayerIndex) -> PackedLayerAddress {
        choose|a: PackedLayerAddress| a@ == #[verifier::truncate] (v.0 as i32)
    }
}

/// The axis along which a blur pass samples. The shader reads it as the
/// integer that `as_int` gives: 0 for horizontal, 1 for vertical.
#[derive(Debug, Copy, Clone, PartialEq, Eq)]
pub enum BlurDirection {
    Horizontal,
    Vertical,
}

impl BlurDirection {
    pub open spec fn spec_as_int(self) -> i32 {
        match self {
            BlurDirection::Horizontal => 0,
            BlurDirection::Vertical => 1,
        }
    }

    /// The integer that a blur record holds for this direction.
    pub fn as_int(self) -> (r: i32)
        ensures
            r == self.spec_as_int(),
    {
        match self {
            BlurDirection::Horizontal => 0,
            BlurDirection::Vertical => 1,
        }
    }
}

/// A clipping primitive drawn into the clipping mask. Whether it is an image
/// or a rectangle decides how `clip_data_address` is read. This record has a
/// layout of its own and is not packed into a `PrimitiveInstance`.
#[derive(Debug, Copy, Clone)]
pub struct ClipMaskInstance {
    pub render_task_address: RenderTaskAddress,
    pub layer_address: PackedLayerAddress,
    pub segment: i32,
    pub clip_data_address: GpuCacheAddress,
    pub resource_address: GpuCacheAddress,
}

/// The record shared by the primitive shaders: eight 32-bit words, 32 bytes.
/// Only the packing of one of the instance kinds below makes one.
#[derive(Debug, Clone)]
pub struct PrimitiveInstance {
    data: [i32; 8],
}

impl View for PrimitiveInstance {
    type V = Seq<i32>;

    closed spec fn view(&self) -> Seq<i32> {
        self.data@
    }
}

impl PrimitiveInstance {
    /// The eight words of the record, in slot order.
    pub fn data(&self) -> (r: [i32; 8])
        ensures
            r@ == self@,
    {
        self.data
    }
}

/// Proves that two records with the same eight words are the same record.
proof fn lemma_record_ext(a: PrimitiveInstance, b: PrimitiveInstance)
    requires
        a@ == b@,
    ensures
        a == b,
{
    assert(a.data =~= b.data);
}

/// A record has eight words.
pub proof fn lemma_record_len(r: PrimitiveInstance)
    ensures
        r@.len() == 8,
{
}

/// The words of a simple primitive, in slot order: primitive data address,
/// task address, clip task address, layer address, z, then the three
/// payload words.
pub open spec fn simple_record(
    i: SimplePrimitiveInstance,
    data0: i32,
    data1: i32,
    data2: i32,
) -> Seq<i32> {
    seq![
        i.specific_prim_address.spec_as_int(),
        i.task_address.spec_as_int(),
        i.clip_task_address.spec_as_int(),
        i.layer_address@,
        i.z_sort_index,
        data0,
        data1,
        data2,
    ]
}

/// The words of a composite primitive, in slot order: task, source task and
/// backdrop task addresses, z, the two payload words, and two zero words.
pub open spec fn composite_record(i: CompositePrimitiveInstance) -> Seq<i32> {
    seq![
        i.task_address.spec_as_int(),
        i.src_task_address.spec_as_int(),
        i.backdrop_task_address.spec_as_int(),
        i.z,
        i.data0,
        i.data1,
        0i32,
        0i32,
    ]
}

/// The words of a brush, in slot order: picture address, primitive address,
/// layer address, clip task address, z, flags, then the two payload words.
pub open spec fn brush_record(
    picture_address: RenderTaskAddress,
    prim_address: GpuCacheAddress,
    layer_address: PackedLayerAddress,
    clip_task_address: RenderTaskAddress,
    z: i32,
    flags: i32,
    user_data0: i32,
    user_data1: i32,
) -> Seq<i32> {
    seq![
        picture_address.spec_as_int(),
        prim_address.spec_as_int(),
        layer_address@,
        clip_task_address.spec_as_int(),
        z,
        flags,
        user_data0,
        user_data1,
    ]
}

/// A primitive whose shader reads its own data from the GPU cache.
pub struct SimplePrimitiveInstance {
    pub specific_prim_address: GpuCacheAddress,
    pub task_address: RenderTaskAddress,
    pub clip_task_address: RenderTaskAddress,
    pub layer_address: PackedLayerAddress,
    pub z_sort_index: i32,
}

impl SimplePrimitiveInstance {
    pub fn new(
        specific_prim_address: GpuCacheAddress,
        task_address: RenderTaskAddress,
        clip_task_address: RenderTaskAddress,
        layer_address: PackedLayerAddress,
        z_sort_index: i32,
    ) -> (r: SimplePrimitiveInstance)
        ensures
            r.specific_prim_address == specific_prim_address,
            r.task_address == task_address,
            r.clip_task_address == clip_task_address,
            r.layer_address == layer_address,
            r.z_sort_index == z_sort_index,
    {
        SimplePrimitiveInstance {
            specific_prim_address,
            task_address,
            clip_task_address,
            layer_address,
            z_sort_index,
        }
    }

    /// Packs the instance with three payload words into a record.
    pub fn build(&self, data0: i32, data1: i32, data2: i32) -> (r: PrimitiveInstance)
        ensures
            r@ == simple_record(*self, data0, data1, data2),
    {
        let r = PrimitiveInstance {
            data: [
                self.specific_prim_address.as_int(),
                #[verifier::truncate] (self.task_address.0 as i32),
                #[verifier::truncate] (self.clip_task_address.0 as i32),
                self.layer_address.0,
                self.z_sort_index,
                data0,
                data1,
                data2,
            ],
        };
        assert(r@ =~= simple_record(*self, data0, data1, data2));
        r
    }
}

/// A primitive drawn by combining a source task with a backdrop task.
pub struct CompositePrimitiveInstance {
    pub task_address: RenderTaskAddress,
    pub src_task_address: RenderTaskAddress,
    pub backdrop_task_address: RenderTaskAddress,
    pub data0: i32,
    pub data1: i32,
    pub z: i32,
}

impl CompositePrimitiveInstance {
    pub fn new(
        task_address: RenderTaskAddress,
        src_task_address: RenderTaskAddress,
        backdrop_task_address: RenderTaskAddress,
        data0: i32,
        data1: i32,
        z: i32,
    ) -> (r: CompositePrimitiveInstance)
        ensures
            r.task_address == task_address,
            r.src_task_address == src_task_address,
            r.backdrop_task_address == backdrop_task_address,
            r.data0 == data0,
            r.data1 == data1,
            r.z == z,
    {
        CompositePrimitiveInstance {
            task_address,
            src_task_address,
            backdrop_task_address,
            data0,
            data1,
            z,
        }
    }
}

impl From<CompositePrimitiveInstance> for PrimitiveInstance {
    fn from(instance: CompositePrimitiveInstance) -> (r: PrimitiveInstance)
        ensures
            r@ == composite_record(instance),
    {
        let r = PrimitiveInstance {
            data: [
                #[verifier::truncate] (instance.task_address.0 as i32),
                #[verifier::truncate] (instance.src_task_address.0 as i32),
                #[verifier::truncate] (instance.backdrop_task_address.0 as i32),
                instance.z,
                instance.data0,
                instance.data1,
                0,
                0,
            ],
        };
        proof {
            assert(r@ =~= composite_record(instance));
            let c = choose|p: PrimitiveInstance| p@ == composite_record(instance);
            lemma_record_ext(r, c);
        }
        r
    }
}

impl vstd::std_specs::convert::FromSpecImpl<CompositePrimitiveInstance> for PrimitiveInstance {
    open spec fn obeys_from_spec() -> bool {
        true
    }

    open spec fn from_spec(v: CompositePrimitiveInstance) -> PrimitiveInstance {
        choose|p: PrimitiveInstance| p@ == composite_record(v)
    }
}

/// Set in a brush's flags when the brush is drawn into a picture task rather
/// than an alpha batch task. Bit 0; the other bits are kept as given.
pub const BRUSH_FLAG_USES_PICTURE: i32 = 1;

/// A brush primitive. It takes a record of the same size as the other
/// primitives, so that both can share one vertex format.
pub struct BrushInstance {
    picture_address: RenderTaskAddress,
    prim_address: GpuCacheAddress,
    layer_address: PackedLayerAddress,
    clip_task_address: RenderTaskAddress,
    z: i32,
    flags: i32,
    user_data0: i32,
    user_data1: i32,
}

impl View for BrushInstance {
    /// A brush is seen as the eight words that it packs to.
    type V = Seq<i32>;

    closed spec fn view(&self) -> Seq<i32> {
        brush_record(
            self.picture_address,
            self.prim_address,
            self.layer_address,
            self.clip_task_address,
            self.z,
            self.flags,
            self.user_data0,
            self.user_data1,
        )
    }
}

impl BrushInstance {
    pub closed spec fn spec_picture_address(&self) -> RenderTaskAddress {
        self.picture_address
    }

    pub closed spec fn spec_prim_address(&self) -> GpuCacheAddress {
        self.prim_address
    }

    pub closed spec fn spec_layer_address(&self) -> PackedLayerAddress {
        self.layer_address
    }

    pub closed spec fn spec_clip_task_address(&self) -> RenderTaskAddress {
        self.clip_task_address
    }

    pub closed spec fn spec_z(&self) -> i32 {
        self.z
    }

    pub closed spec fn spec_flags(&self) -> i32 {
        self.flags
    }

    pub closed spec fn spec_user_data0(&self) -> i32 {
        self.user_data0
    }

    pub closed spec fn spec_user_data1(&self) -> i32 {
        self.user_data1
    }

    pub fn new(
        picture_address: RenderTaskAddress,
        prim_address: GpuCacheAddress,
        layer_address: PackedLayerAddress,
        clip_task_address: RenderTaskAddress,
        z: i32,
        flags: i32,
        user_data0: i32,
        user_data1: i32,
    ) -> (r: BrushInstance)
        ensures
            r@ == brush_record(
                picture_address,
                prim_address,
                layer_address,
                clip_task_address,
                z,
                flags,
                user_data0,
                user_data1,
            ),
            r.spec_picture_address() == picture_address,
            r.spec_prim_address() == prim_address,
            r.spec_layer_address() == layer_address,
            r.spec_clip_task_address() == clip_task_address,
            r.spec_z() == z,
            r.spec_flags() == flags,
            r.spec_user_data0() == user_data0,
            r.spec_user_data1() == user_data1,
    {
        BrushInstance {
            picture_address,
            prim_address,
            layer_address,
            clip_task_address,
            z,
            flags,
            user_data0,
            user_data1,
        }
    }
}

/// A brush packs to the words of the fields it holds.
pub proof fn lemma_brush_view(b: BrushInstance)
    ensures
        b@ == brush_record(
            b.spec_picture_address(),
            b.spec_prim_address(),
            b.spec_layer_address(),
            b.spec_clip_task_address(),
            b.spec_z(),
            b.spec_flags(),
            b.spec_user_data0(),
            b.spec_user_data1(),
        ),
{
}

impl From<BrushInstance> for PrimitiveInstance {
    fn from(instance: BrushInstance) -> (r: PrimitiveInstance)
        ensures
            r@ == instance@,
    {
        let r = PrimitiveInstance {
            data: [
                #[verifier::truncate] (instance.picture_address.0 as i32),
                instance.prim_address.as_int(),
                instance.layer_address.0,
                #[verifier::truncate] (instance.clip_task_address.0 as i32),
                instance.z,
                instance.flags,
                instance.user_data0,
                instance.user_data1,
            ],
        };
        proof {
            assert(r@ =~= instance@);
            let c = choose|p: PrimitiveInstance| p@ == instance@;
            lemma_record_ext(r, c);
        }
        r
    }
}

impl vstd::std_specs::convert::FromSpecImpl<BrushInstance> for PrimitiveInstance {
    open spec fn obeys_from_spec() -> bool {
        true
    }

    open spec fn from_spec(v: BrushInstance) -> PrimitiveInstance {
        choose|p: PrimitiveInstance| p@ == v@
    }
}

/// A layer index that fits in 31 bits keeps its value when narrowed to a
/// layer address.
pub proof fn lemma_layer_address_value(index: PackedLayerIndex)
    requires
        index.0 <= i32::MAX,
    ensures
        (index.0 as i32) as int == index.0 as int,
        PackedLayerAddress::from_spec(index)@ == index.0 as int,
{
    let w = PackedLayerAddress(index.0 as i32);
    assert(w@ == index.0 as i32);
}

/// Packing a simple primitive is deterministic: two records packed from the
/// same instance and payload words are the same record, word for word.
pub proof fn lemma_simple_packing_deterministic(
    i: SimplePrimitiveInstance,
    data0: i32,
    data1: i32,
    data2: i32,
    r1: PrimitiveInstance,
    r2: PrimitiveInstance,
)
    requires
        r1@ == simple_record(i, data0, data1, data2),
        r2@ == simple_record(i, data0, data1, data2),
    ensures
        r1 == r2,
{
    lemma_record_ext(r1, r2);
}

/// Packing a composite primitive is deterministic: two records packed from
/// the same instance are the same record, word for word.
pub proof fn lemma_composite_packing_deterministic(
    i: CompositePrimitiveInstance,
    r1: PrimitiveInstance,
    r2: PrimitiveInstance,
)
    requires
        r1@ == composite_record(i),
        r2@ == composite_record(i),
    ensures
        r1 == r2,
{
    lemma_record_ext(r1, r2);
}

/// Packing a brush is deterministic: two records packed from the same brush
/// are the same record, word for word.
pub proof fn lemma_brush_packing_deterministic(
    b: BrushInstance,
    r1: PrimitiveInstance,
    r2: PrimitiveInstance,
)
    requires
        r1@ == b@,
        r2@ == b@,
    ensures
        r1 == r2,
{
    lemma_record_ext(r1, r2);
}

/// A brush's flags reach the flags slot of its record unchanged: the
/// uses-picture bit and every other bit.
pub proof fn lemma_brush_flags_kept(
    picture_address: RenderTaskAddress,
    prim_address: GpuCacheAddress,
    layer_address: PackedLayerAddress,
    clip_task_address: RenderTaskAddress,
    z: i32,
    flags: i32,
    user_data0: i32,
    user_data1: i32,
)
    ensures
        ({
            let rec = brush_record(
                picture_address,
                prim_address,
                layer_address,
                clip_task_address,
                z,
                flags,
                user_data0,
                user_data1,
            );
            &&& rec[5] == flags
            &&& rec[5] & BRUSH_FLAG_USES_PICTURE == flags & BRUSH_FLAG_USES_PICTURE
        }),
{
}

} // verus!
