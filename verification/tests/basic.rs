use tracy_full::allocator::{GlobalAllocator, GlobalAllocatorSampled};
use tracy_full::clamp_callstack_depth;
use tracy_full::color::Color;
use tracy_full::event::{read_le_u64, BackendKind};
use tracy_full::pass::{Pass, PassKind};

#[test]
fn color_packs_channels() {
    assert_eq!(Color::new(255, 0, 0).to_u32(), 0xff0000);
    assert_eq!(Color::new(0, 255, 0).to_u32(), 0x00ff00);
    assert_eq!(Color::new(0, 0, 255).to_u32(), 0x0000ff);
    assert_eq!(Color::new(1, 2, 3).to_u32(), 0x010203);
    assert_eq!(Color::new(0x12, 0x34, 0x56).to_u32(), 0x123456);
}

#[test]
fn color_none_is_zero() {
    assert_eq!(Color::none().to_u32(), 0);
}

#[test]
fn clamp_depth_edges() {
    assert_eq!(clamp_callstack_depth(0), 0);
    assert_eq!(clamp_callstack_depth(61), 61);
    assert_eq!(clamp_callstack_depth(62), 62);
    assert_eq!(clamp_callstack_depth(63), 62);
    assert_eq!(clamp_callstack_depth(u32::MAX), 62);
}

#[test]
fn read_le_u64_exact() {
    let bytes: Vec<u8> = vec![1, 2, 3, 4, 5, 6, 7, 8];
    assert_eq!(read_le_u64(&bytes, 0), 0x0807060504030201);
}

#[test]
fn read_le_u64_offset_and_extremes() {
    let mut bytes: Vec<u8> = vec![0xaa, 0xbb];
    bytes.extend_from_slice(&[0xff; 8]);
    bytes.extend_from_slice(&[0; 8]);
    assert_eq!(read_le_u64(&bytes, 2), u64::MAX);
    assert_eq!(read_le_u64(&bytes, 10), 0);
}

#[test]
fn backend_kind_codes() {
    assert_eq!(BackendKind::Empty.code(), 0);
    assert_eq!(BackendKind::Gl.code(), 1);
    assert_eq!(BackendKind::Vulkan.code(), 2);
    assert_eq!(BackendKind::Dx12.code(), 4);
    assert_eq!(BackendKind::Metal.code(), 5);
    assert_eq!(BackendKind::BrowserWebGpu.code(), 6);
}

#[test]
fn pass_records_writes_in_order() {
    let mut pass = Pass::new_encoder();
    pass.write_timestamp(7);
    pass.write_timestamp(9);
    pass.write_timestamp(8);
    assert_eq!(pass.recorded_writes().as_slice(), &[7, 9, 8]);
}

#[test]
fn pass_kinds() {
    assert!(matches!(Pass::new_encoder(), Pass::Encoder { .. }));
    assert!(matches!(Pass::new_render(), Pass::Render { .. }));
    assert!(matches!(Pass::new_compute(), Pass::Compute { .. }));
    let _ = PassKind::Encoder;
}

#[test]
fn sampled_allocator_clamps_depth() {
    let a = GlobalAllocatorSampled::new(100);
    assert_eq!(a.depth, 62);
    let b = GlobalAllocatorSampled::new_with(std::alloc::System, 5);
    assert_eq!(b.depth, 5);
}

#[test]
fn global_allocator_keeps_inner() {
    let a = GlobalAllocator::new_with(17u32);
    assert_eq!(a.inner, 17);
    let _ = GlobalAllocator::new();
}
