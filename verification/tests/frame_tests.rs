use tracy_full::context::ProfileContext;
use tracy_full::event::{BackendKind, GpuCommand, TracyEvent};
use tracy_full::pass::Pass;

fn calibration_bytes(value: u64) -> Vec<u8> {
    value.to_le_bytes().to_vec()
}

fn pool_bytes(values: &[u64]) -> Vec<u8> {
    let mut bytes = Vec::new();
    for v in values {
        bytes.extend_from_slice(&v.to_le_bytes());
    }
    bytes
}

fn enabled_context(buffered_frames: u32, resync_interval: u64) -> ProfileContext {
    let mut counter: u8 = 0;
    ProfileContext::with_enabled(
        &mut counter,
        buffered_frames,
        resync_interval,
        0,
        0,
        BackendKind::Vulkan,
        &calibration_bytes(1000),
        true,
    )
}

fn gpu_time_events(ctx: &ProfileContext) -> Vec<(u16, u64)> {
    let mut out = Vec::new();
    for e in &ctx.events {
        if let TracyEvent::GpuTime { gpu_time, query_id, .. } = e {
            out.push((*query_id, *gpu_time));
        }
    }
    out
}

// 200 queries in frame 0 overflow one pool into a second one; their GPU
// times come back only once the ring has gone all the way around, and then
// exactly once each.
#[test]
fn two_hundred_queries_three_frames() {
    let mut ctx = enabled_context(3, u64::MAX);
    let mut pass = Pass::new_encoder();
    for i in 0..100u32 {
        ctx.begin_zone(&mut pass, None, i, "a.rs".to_string(), "f".to_string());
        ctx.end_zone(&mut pass);
    }
    // Exactly two pools, with base ids 0 and 128.
    assert_eq!(ctx.frames[0].pools.len(), 2);
    assert_eq!(ctx.frames[0].pools[0].base_query_id, 0);
    assert_eq!(ctx.frames[0].pools[0].used_queries, 128);
    assert_eq!(ctx.frames[0].pools[1].base_query_id, 128);
    assert_eq!(ctx.frames[0].pools[1].used_queries, 72);

    ctx.end_frame(1, &vec![Vec::new()], &Vec::new());
    assert_eq!(gpu_time_events(&ctx).len(), 0);
    assert_eq!(ctx.curr_frame, 1);
    // The resolve of frame 0 covered both pools.
    assert!(ctx.commands.contains(&GpuCommand::ResolveQueries { base_query_id: 0, count: 128 }));
    assert!(ctx.commands.contains(&GpuCommand::ResolveQueries { base_query_id: 128, count: 72 }));

    ctx.end_frame(2, &vec![Vec::new()], &Vec::new());
    assert_eq!(gpu_time_events(&ctx).len(), 0);
    assert_eq!(ctx.curr_frame, 2);

    // The third end_frame returns the cursor to slot 0 and consumes its
    // readback: one value per query, in id order.
    let values0: Vec<u64> = (0..128u64).map(|i| 10_000 + i).collect();
    let values1: Vec<u64> = (128..200u64).map(|i| 10_000 + i).collect();
    let data = vec![vec![pool_bytes(&values0), pool_bytes(&values1)]];
    ctx.end_frame(3, &data, &Vec::new());
    assert_eq!(ctx.curr_frame, 0);

    let got = gpu_time_events(&ctx);
    assert_eq!(got.len(), 200);
    for (i, (id, value)) in got.iter().enumerate() {
        assert_eq!(*id as usize, i);
        assert_eq!(*value, 10_000 + i as u64);
    }
    // The slot is reset for reuse: same pools, same bases, no writes.
    assert_eq!(ctx.frames[0].pools.len(), 2);
    assert_eq!(ctx.frames[0].pools[0].used_queries, 0);
    assert_eq!(ctx.frames[0].pools[1].used_queries, 0);
    assert_eq!(ctx.frames[0].pools[1].base_query_id, 128);
    assert_eq!(ctx.frames[0].curr_pool, 0);
    assert!(!ctx.frames[0].map_submission);
}

// With a ring of depth one there is no buffering: the queries resolved at
// the end of a frame are read back in the same call.
#[test]
fn single_slot_ring_reads_back_immediately() {
    let mut ctx = enabled_context(1, u64::MAX);
    let mut pass = Pass::new_encoder();
    ctx.begin_zone(&mut pass, None, 1, "a.rs".to_string(), "f".to_string());
    ctx.end_zone(&mut pass);
    let data = vec![vec![pool_bytes(&[111, 222])]];
    ctx.end_frame(1, &data, &Vec::new());
    assert_eq!(gpu_time_events(&ctx), vec![(0, 111), (1, 222)]);
    assert_eq!(ctx.curr_frame, 0);
}

// A zero resync interval forces a full drain and a fresh calibration on
// every end_frame: all slots are flushed before the time-sync record, and
// the ring cursor returns to the first slot.
#[test]
fn zero_interval_forces_drain_and_recalibration() {
    let mut ctx = enabled_context(2, 0);
    let mut pass = Pass::new_encoder();
    ctx.begin_zone(&mut pass, None, 1, "a.rs".to_string(), "f".to_string());

    let commands_before = ctx.commands.len();
    // Visiting order: slot 1 (empty) first, then slot 0.
    let data = vec![Vec::new(), vec![pool_bytes(&[555])]];
    ctx.end_frame(0, &data, &calibration_bytes(777));

    assert_eq!(ctx.curr_frame, 0);
    assert_eq!(ctx.last_sync, 0);
    // Every slot is flushed.
    for f in &ctx.frames {
        assert!(!f.map_submission);
        assert_eq!(f.curr_pool, 0);
        for p in &f.pools {
            assert_eq!(p.used_queries, 0);
        }
    }
    // The GPU time of the drained query comes before the time sync, which
    // is the last record and carries the freshly calibrated clock value.
    let n = ctx.events.len();
    assert_eq!(ctx.events[n - 2], TracyEvent::GpuTime { gpu_time: 555, query_id: 0, context: 0 });
    assert_eq!(ctx.events[n - 1], TracyEvent::TimeSync { gpu_time: 777, context: 0 });

    // The commands after the frame's resolve: the drain of slot 0 (wait,
    // unmap), then the full calibration round trip on the first slot.
    let tail = &ctx.commands[commands_before..];
    assert_eq!(
        tail,
        &[
            GpuCommand::ResolveQueries { base_query_id: 0, count: 1 },
            GpuCommand::Submit,
            GpuCommand::MapReadback { base_query_id: 0, count: 1 },
            GpuCommand::WaitForGpu,
            GpuCommand::UnmapReadback { base_query_id: 0 },
            GpuCommand::WriteCalibrationTimestamp { base_query_id: 0 },
            GpuCommand::ResolveQueries { base_query_id: 0, count: 1 },
            GpuCommand::Submit,
            GpuCommand::MapReadback { base_query_id: 0, count: 1 },
            GpuCommand::WaitForGpu,
            GpuCommand::UnmapReadback { base_query_id: 0 },
        ]
    );
    // Every end_frame repeats the cycle while the interval stays zero.
    ctx.end_frame(5, &vec![Vec::new(), Vec::new()], &calibration_bytes(888));
    assert_eq!(ctx.last_sync, 5);
    assert_eq!(*ctx.events.last().unwrap(), TracyEvent::TimeSync { gpu_time: 888, context: 0 });
}

// A resync re-derives the clock mapping through the full calibration
// procedure — the calibration command sequence appears again — rather than
// an incremental estimate, and it resets the ring cursor to slot 0.
#[test]
fn resync_repeats_full_calibration() {
    let mut ctx = enabled_context(3, 100);
    // Steady frames first, so the cursor moves away from slot 0.
    ctx.end_frame(10, &vec![Vec::new()], &Vec::new());
    assert_eq!(ctx.curr_frame, 1);
    let commands_before = ctx.commands.len();
    let calibration_count_before = ctx
        .commands
        .iter()
        .filter(|c| matches!(c, GpuCommand::WriteCalibrationTimestamp { .. }))
        .count();
    assert_eq!(calibration_count_before, 1);

    // Past the interval: the next end_frame drains and recalibrates.
    ctx.end_frame(150, &vec![Vec::new(), Vec::new(), Vec::new()], &calibration_bytes(4242));
    assert_eq!(ctx.curr_frame, 0);
    assert_eq!(ctx.last_sync, 150);
    let tail = &ctx.commands[commands_before..];
    assert!(tail.contains(&GpuCommand::WriteCalibrationTimestamp { base_query_id: 0 }));
    assert_eq!(*ctx.events.last().unwrap(), TracyEvent::TimeSync { gpu_time: 4242, context: 0 });

    // Afterwards the steady cadence resumes.
    ctx.end_frame(151, &vec![Vec::new()], &Vec::new());
    assert_eq!(ctx.curr_frame, 1);
    assert_eq!(ctx.last_sync, 150);
}
