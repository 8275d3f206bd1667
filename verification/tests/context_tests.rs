use tracy_full::context::{get_next_context, ProfileContext};
use tracy_full::event::{BackendKind, GpuCommand, TracyEvent};
use tracy_full::pass::Pass;

fn calibration_bytes(value: u64) -> Vec<u8> {
    value.to_le_bytes().to_vec()
}

fn enabled_context(buffered_frames: u32, resync_interval: u64) -> ProfileContext {
    let mut counter: u8 = 0;
    ProfileContext::with_enabled(
        &mut counter,
        buffered_frames,
        resync_interval,
        0,
        0x3f80_0000,
        BackendKind::Vulkan,
        &calibration_bytes(1000),
        true,
    )
}

#[test]
fn context_ids_count_up() {
    let mut counter: u8 = 3;
    assert_eq!(get_next_context(&mut counter), 3);
    assert_eq!(get_next_context(&mut counter), 4);
    assert_eq!(counter, 5);
}

#[test]
fn construction_calibrates_and_announces() {
    let mut counter: u8 = 0;
    let ctx = ProfileContext::with_enabled(
        &mut counter,
        3,
        1_000_000,
        0,
        0x3f80_0000,
        BackendKind::Dx12,
        &calibration_bytes(42),
        true,
    );
    assert_eq!(counter, 1);
    assert_eq!(ctx.context, 0);
    assert_eq!(ctx.frames.len(), 3);
    assert_eq!(ctx.allocated_query_ids, 128);
    assert_eq!(ctx.frames[0].pools.len(), 1);
    assert_eq!(ctx.frames[0].pools[0].base_query_id, 0);
    assert_eq!(ctx.frames[0].pools[0].used_queries, 0);
    assert_eq!(
        ctx.events,
        vec![TracyEvent::NewContext {
            gpu_time: 42,
            period_bits: 0x3f80_0000,
            context: 0,
            backend: 4,
        }]
    );
    assert_eq!(
        ctx.commands,
        vec![
            GpuCommand::CreateQueryPool { base_query_id: 0 },
            GpuCommand::WriteCalibrationTimestamp { base_query_id: 0 },
            GpuCommand::ResolveQueries { base_query_id: 0, count: 1 },
            GpuCommand::Submit,
            GpuCommand::MapReadback { base_query_id: 0, count: 1 },
            GpuCommand::WaitForGpu,
            GpuCommand::UnmapReadback { base_query_id: 0 },
        ]
    );
}

#[test]
fn named_context_emits_name_after_announcement() {
    let mut counter: u8 = 0;
    let ctx = ProfileContext::with_name(
        "main timeline".to_string(),
        &mut counter,
        2,
        1_000_000,
        0,
        0,
        BackendKind::Metal,
        &calibration_bytes(7),
    );
    assert_eq!(ctx.events.len(), 2);
    assert!(matches!(ctx.events[0], TracyEvent::NewContext { gpu_time: 7, .. }));
    assert_eq!(
        ctx.events[1],
        TracyEvent::ContextName { context: 0, name: "main timeline".to_string() }
    );
}

#[test]
fn disabled_context_is_a_no_op() {
    let mut counter: u8 = 0;
    let mut ctx = ProfileContext::with_enabled(
        &mut counter,
        3,
        0,
        0,
        0,
        BackendKind::Empty,
        &Vec::new(),
        false,
    );
    // The id is still allocated, but nothing else happens.
    assert_eq!(counter, 1);
    assert!(ctx.frames.is_empty());
    assert!(ctx.events.is_empty());
    assert!(ctx.commands.is_empty());

    let mut pass = Pass::new_encoder();
    ctx.begin_zone(&mut pass, None, 1, "a.rs".to_string(), "f".to_string());
    ctx.end_zone(&mut pass);
    ctx.end_frame(1_000_000, &vec![Vec::new()], &calibration_bytes(9));
    assert!(pass.recorded_writes().is_empty());
    assert!(ctx.events.is_empty());
    assert!(ctx.commands.is_empty());
    assert_eq!(ctx.allocated_query_ids, 0);
}

#[test]
fn disabled_named_context_emits_nothing() {
    let mut counter: u8 = 9;
    let ctx = ProfileContext::with_enabled_and_name(
        "quiet".to_string(),
        &mut counter,
        2,
        10,
        0,
        0,
        BackendKind::Gl,
        &Vec::new(),
        false,
    );
    assert_eq!(ctx.context, 9);
    assert!(ctx.events.is_empty());
    assert!(ctx.commands.is_empty());
}

#[test]
fn zone_ids_strictly_increase_within_a_frame() {
    let mut ctx = enabled_context(2, 1_000_000);
    let mut pass = Pass::new_encoder();
    for i in 0..5u32 {
        ctx.begin_zone(&mut pass, None, i, "a.rs".to_string(), "f".to_string());
        ctx.end_zone(&mut pass);
    }
    assert_eq!(pass.recorded_writes().as_slice(), &[0, 1, 2, 3, 4, 5, 6, 7, 8, 9]);
    let mut begin_ids = Vec::new();
    for e in &ctx.events {
        if let TracyEvent::ZoneBegin { query_id, .. } = e {
            begin_ids.push(*query_id);
        }
    }
    assert_eq!(begin_ids, vec![0, 2, 4, 6, 8]);
}

#[test]
fn zone_begin_carries_call_site() {
    let mut ctx = enabled_context(2, 1_000_000);
    let mut pass = Pass::new_render();
    ctx.begin_zone(
        &mut pass,
        Some("shadow pass".to_string()),
        217,
        "render.rs".to_string(),
        "draw_shadows".to_string(),
    );
    assert_eq!(
        ctx.events[1],
        TracyEvent::ZoneBegin {
            name: Some("shadow pass".to_string()),
            function: "draw_shadows".to_string(),
            file: "render.rs".to_string(),
            line: 217,
            query_id: 0,
            context: 0,
        }
    );
    ctx.end_zone(&mut pass);
    assert_eq!(ctx.events[2], TracyEvent::ZoneEnd { query_id: 1, context: 0 });
}

#[test]
fn pool_overflow_continues_base_ids() {
    let mut ctx = enabled_context(2, 1_000_000);
    let mut pass = Pass::new_encoder();
    // 129 writes: the first 128 fill the calibration pool (base 0), the
    // 129th triggers a new pool whose base continues at 128.
    for i in 0..129u32 {
        ctx.begin_zone(&mut pass, None, i, "a.rs".to_string(), "f".to_string());
    }
    assert_eq!(ctx.frames[0].pools.len(), 2);
    assert_eq!(ctx.frames[0].pools[0].base_query_id, 0);
    assert_eq!(ctx.frames[0].pools[0].used_queries, 128);
    assert_eq!(ctx.frames[0].pools[1].base_query_id, 128);
    assert_eq!(ctx.frames[0].pools[1].used_queries, 1);
    assert_eq!(pass.recorded_writes()[128], 128);
    assert!(ctx.commands.contains(&GpuCommand::CreateQueryPool { base_query_id: 128 }));
    assert_eq!(ctx.allocated_query_ids, 256);
}

#[test]
fn encoder_and_pass_wrappers_pair_zones() {
    let ctx = enabled_context(2, 1_000_000);
    let encoder = ctx.create_command_encoder(
        Some("frame encoder".to_string()),
        10,
        "gpu.rs".to_string(),
        "render".to_string(),
    );
    let pass = encoder.begin_render_pass(
        Some("main pass".to_string()),
        20,
        "gpu.rs".to_string(),
        "render".to_string(),
    );
    let (pass_recorder, encoder) = pass.finish();
    let (encoder_recorder, ctx) = encoder.finish();
    assert!(matches!(pass_recorder, Pass::Render { .. }));
    assert!(matches!(encoder_recorder, Pass::Encoder { .. }));
    // Encoder begin got id 0, pass begin 1, pass end 2, encoder end 3.
    assert_eq!(encoder_recorder.recorded_writes().as_slice(), &[0, 3]);
    assert_eq!(pass_recorder.recorded_writes().as_slice(), &[1, 2]);
    let kinds: Vec<&TracyEvent> = ctx.events.iter().collect();
    assert!(matches!(kinds[0], TracyEvent::NewContext { .. }));
    assert!(
        matches!(kinds[1], TracyEvent::ZoneBegin { query_id: 0, .. })
    );
    assert!(
        matches!(kinds[2], TracyEvent::ZoneBegin { query_id: 1, .. })
    );
    assert!(matches!(kinds[3], TracyEvent::ZoneEnd { query_id: 2, .. }));
    assert!(matches!(kinds[4], TracyEvent::ZoneEnd { query_id: 3, .. }));
}

#[test]
fn compute_pass_wrapper_records_kind() {
    let ctx = enabled_context(2, 1_000_000);
    let encoder =
        ctx.create_command_encoder(None, 1, "gpu.rs".to_string(), "dispatch".to_string());
    let pass =
        encoder.begin_compute_pass(None, 2, "gpu.rs".to_string(), "dispatch".to_string());
    let (recorder, encoder) = pass.finish();
    assert!(matches!(recorder, Pass::Compute { .. }));
    let (_, _ctx) = encoder.finish();
}

#[test]
fn resync_due_respects_clock() {
    let mut ctx = enabled_context(2, 10);
    ctx.last_sync = 5;
    assert!(!ctx.is_resync_due(14));
    assert!(ctx.is_resync_due(15));
    assert!(ctx.is_resync_due(100));
    assert!(!ctx.is_resync_due(3));
}
