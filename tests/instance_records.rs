use gpu_types::address::{GpuCacheAddress, PackedLayerIndex, RenderTaskAddress, MAX_VERTEX_TEXTURE_WIDTH};
use gpu_types::instance::{
    BlurDirection, BrushInstance, ClipMaskInstance, CompositePrimitiveInstance, PackedLayerAddress,
    PrimitiveInstance, SimplePrimitiveInstance, BRUSH_FLAG_USES_PICTURE,
};

fn layer(index: usize) -> PackedLayerAddress {
    PackedLayerAddress::from(PackedLayerIndex(index))
}

fn simple(z: i32) -> SimplePrimitiveInstance {
    SimplePrimitiveInstance::new(
        GpuCacheAddress::new(10, 2),
        RenderTaskAddress(3),
        RenderTaskAddress(4),
        layer(1),
        z,
    )
}

#[test]
fn simple_primitive_example_record() {
    let record = simple(9).build(100, 200, 300);
    let packed = 2 * 1024 + 10;
    assert_eq!(record.data(), [packed, 3, 4, 1, 9, 100, 200, 300]);
}

#[test]
fn simple_primitive_slot_table() {
    let instance = SimplePrimitiveInstance::new(
        GpuCacheAddress::new(7, 5),
        RenderTaskAddress(11),
        RenderTaskAddress(12),
        layer(13),
        -14,
    );
    let data = instance.build(15, -16, 17).data();
    let expected: [(usize, i32); 8] = [
        (0, 5 * 1024 + 7),
        (1, 11),
        (2, 12),
        (3, 13),
        (4, -14),
        (5, 15),
        (6, -16),
        (7, 17),
    ];
    for (slot, value) in expected.iter() {
        assert_eq!(data[*slot], *value, "slot {}", slot);
    }
}

#[test]
fn composite_primitive_example_record() {
    let instance = CompositePrimitiveInstance::new(
        RenderTaskAddress(1),
        RenderTaskAddress(2),
        RenderTaskAddress(3),
        5,
        6,
        7,
    );
    let record = PrimitiveInstance::from(instance);
    assert_eq!(record.data(), [1, 2, 3, 7, 5, 6, 0, 0]);
}

#[test]
fn composite_primitive_slot_table() {
    let instance = CompositePrimitiveInstance::new(
        RenderTaskAddress(21),
        RenderTaskAddress(22),
        RenderTaskAddress(23),
        -1,
        i32::MAX,
        i32::MIN,
    );
    let data = PrimitiveInstance::from(instance).data();
    let expected: [(usize, i32); 8] = [
        (0, 21),
        (1, 22),
        (2, 23),
        (3, i32::MIN),
        (4, -1),
        (5, i32::MAX),
        (6, 0),
        (7, 0),
    ];
    for (slot, value) in expected.iter() {
        assert_eq!(data[*slot], *value, "slot {}", slot);
    }
}

#[test]
fn brush_slot_table() {
    let brush = BrushInstance::new(
        RenderTaskAddress(31),
        GpuCacheAddress::new(1, 3),
        layer(32),
        RenderTaskAddress(33),
        34,
        BRUSH_FLAG_USES_PICTURE,
        35,
        -36,
    );
    let data = PrimitiveInstance::from(brush).data();
    assert_eq!(data, [31, 3 * 1024 + 1, 32, 33, 34, 1, 35, -36]);
}

#[test]
fn brush_flags_survive_packing() {
    let brush = BrushInstance::new(
        RenderTaskAddress(1),
        GpuCacheAddress::new(0, 0),
        layer(0),
        RenderTaskAddress(2),
        0,
        0b101,
        0,
        0,
    );
    let data = PrimitiveInstance::from(brush).data();
    assert_eq!(data[5], 5);
    assert_eq!(data[5] & BRUSH_FLAG_USES_PICTURE, BRUSH_FLAG_USES_PICTURE);
}

#[test]
fn brush_flags_keep_reserved_bits_without_picture_bit() {
    let brush = BrushInstance::new(
        RenderTaskAddress(1),
        GpuCacheAddress::new(0, 0),
        layer(0),
        RenderTaskAddress(2),
        0,
        -2,
        0,
        0,
    );
    let data = PrimitiveInstance::from(brush).data();
    assert_eq!(data[5], -2);
    assert_eq!(data[5] & BRUSH_FLAG_USES_PICTURE, 0);
}

#[test]
fn packing_is_deterministic() {
    let instance = simple(42);
    assert_eq!(instance.build(1, 2, 3).data(), instance.build(1, 2, 3).data());

    let composite = || {
        CompositePrimitiveInstance::new(RenderTaskAddress(8), RenderTaskAddress(9), RenderTaskAddress(10), 1, 2, 3)
    };
    assert_eq!(PrimitiveInstance::from(composite()).data(), PrimitiveInstance::from(composite()).data());

    let brush = || {
        BrushInstance::new(RenderTaskAddress(4), GpuCacheAddress::new(5, 6), layer(7), RenderTaskAddress(8), 9, 10, 11, 12)
    };
    assert_eq!(PrimitiveInstance::from(brush()).data(), PrimitiveInstance::from(brush()).data());
}

#[test]
fn layer_index_keeps_its_value() {
    let record = SimplePrimitiveInstance::new(
        GpuCacheAddress::new(0, 0),
        RenderTaskAddress(0),
        RenderTaskAddress(0),
        layer(7),
        0,
    )
    .build(0, 0, 0);
    assert_eq!(record.data()[3], 7);
}

#[test]
fn gpu_cache_address_packs_row_and_column() {
    assert_eq!(MAX_VERTEX_TEXTURE_WIDTH, 1024);
    assert_eq!(GpuCacheAddress::new(10, 2).as_int(), 2058);
    assert_eq!(GpuCacheAddress::new(0, 0).as_int(), 0);
    assert_eq!(GpuCacheAddress::new(1023, 0).as_int(), 1023);
    assert_eq!(GpuCacheAddress::new(0, 1).as_int(), 1024);
    assert_eq!(GpuCacheAddress::new(u16::MAX, u16::MAX).as_int(), 65535 * 1024 + 65535);
    let a = GpuCacheAddress::new(10, 2);
    assert_eq!(a.as_int() % 1024, a.u as i32);
    assert_eq!(a.as_int() / 1024, a.v as i32);
}

#[test]
fn largest_task_address_wraps_to_a_signed_word() {
    let instance = CompositePrimitiveInstance::new(
        RenderTaskAddress(u32::MAX),
        RenderTaskAddress(i32::MAX as u32),
        RenderTaskAddress(0),
        0,
        0,
        0,
    );
    let data = PrimitiveInstance::from(instance).data();
    assert_eq!(data[0], -1);
    assert_eq!(data[1], i32::MAX);
    assert_eq!(data[2], 0);
}

#[test]
fn blur_direction_values() {
    assert_eq!(BlurDirection::Horizontal.as_int(), 0);
    assert_eq!(BlurDirection::Vertical.as_int(), 1);
    assert_ne!(BlurDirection::Horizontal, BlurDirection::Vertical);
}

#[test]
fn clip_mask_is_a_record_of_its_own() {
    let clip = ClipMaskInstance {
        render_task_address: RenderTaskAddress(1),
        layer_address: layer(2),
        segment: 3,
        clip_data_address: GpuCacheAddress::new(4, 5),
        resource_address: GpuCacheAddress::new(6, 7),
    };
    let copy = clip;
    assert_eq!(copy.render_task_address, RenderTaskAddress(1));
    assert_eq!(copy.segment, 3);
    assert_eq!(copy.clip_data_address.as_int(), 5 * 1024 + 4);
    assert_eq!(copy.resource_address.as_int(), 7 * 1024 + 6);
    assert_eq!(std::mem::size_of::<ClipMaskInstance>(), 5 * 4);
    assert_eq!(std::mem::size_of::<PrimitiveInstance>(), 8 * 4);
}
