use korp::batch::{aligned_stride, grown_capacity, FrameBatches, RenderBatch, Transform};
use korp::timestep::FixedTimestep;

fn transform(k: u32) -> Transform {
    let mut t = [0u32; 16];
    t[0] = k;
    t[15] = 0x3F80_0000;
    t
}

fn batch(start: u32, end: u32, view_projection_idx: u32) -> RenderBatch {
    RenderBatch { start, end, view_projection_idx }
}

#[test]
fn twelve_ticks_a_second_over_three_tenths() {
    let mut clock = FixedTimestep::new(1_000_000_000 / 12, 16);
    assert_eq!(clock.advance(300_000_000), 3);
    let alpha = clock.alpha();
    assert_eq!(alpha.raw, 39321);
    assert!((alpha.raw as f64 / 65536.0 - 0.6).abs() < 0.001);
    assert_eq!(clock.advance(33_333_332), 1);
    assert_eq!(clock.alpha().raw, 0);
}

#[test]
fn frames_shorter_than_a_tick_accumulate() {
    let mut clock = FixedTimestep::new(100, 16);
    assert_eq!(clock.advance(40), 0);
    assert_eq!(clock.alpha().raw, 26214);
    assert_eq!(clock.advance(40), 0);
    assert_eq!(clock.advance(40), 1);
    assert_eq!(clock.alpha().raw, 13107);
}

#[test]
fn a_long_stall_runs_at_most_the_cap() {
    let mut clock = FixedTimestep::new(10, 5);
    assert_eq!(clock.advance(1_000_007), 5);
    assert_eq!(clock.alpha().raw, 7 * 65536 / 10);
    assert_eq!(clock.advance(3), 1);
}

#[test]
fn empty_scope_produces_no_draw_call() {
    let mut frame = FrameBatches::new(transform(1));
    frame.begin_scope(transform(2));
    frame.end_scope();
    assert!(frame.finish().is_empty());
}

#[test]
fn batches_follow_scopes_and_drop_empty_ones() {
    let mut frame = FrameBatches::new(transform(1));
    frame.push_vertices(3);
    let camera = frame.begin_scope(transform(2));
    assert_eq!(camera, 1);
    frame.push_vertices(6);
    let inner = frame.begin_scope(transform(3));
    assert_eq!(inner, 2);
    frame.end_scope();
    frame.push_vertices(6);
    frame.end_scope();
    frame.push_vertices(3);
    assert_eq!(frame.vertex_count(), 18);
    assert_eq!(
        frame.finish(),
        vec![batch(0, 3, 0), batch(3, 9, 1), batch(9, 15, 1), batch(15, 18, 0)]
    );
    assert_eq!(frame.transforms().len(), 3);
}

#[test]
fn equal_transforms_share_a_slot() {
    let mut frame = FrameBatches::new(transform(1));
    assert_eq!(frame.begin_scope(transform(1)), 0);
    frame.push_vertices(3);
    frame.end_scope();
    assert_eq!(frame.begin_scope(transform(7)), 1);
    frame.end_scope();
    assert_eq!(frame.begin_scope(transform(7)), 1);
    frame.push_vertices(6);
    frame.end_scope();
    assert_eq!(frame.transforms(), &[transform(1), transform(7)]);
    assert_eq!(frame.finish(), vec![batch(0, 3, 0), batch(3, 9, 1)]);
}

#[test]
fn capacity_doubles_until_it_fits() {
    assert_eq!(grown_capacity(8, 20), 32);
    assert_eq!(grown_capacity(8, 16), 16);
    assert_eq!(grown_capacity(8, 8), 8);
    assert_eq!(grown_capacity(8, 3), 8);
    assert_eq!(grown_capacity(1, 1025), 2048);
    assert_eq!(grown_capacity(3, 1 << 40), 3 << 39);
}

#[test]
fn uniform_stride_rounds_up_to_the_alignment() {
    assert_eq!(aligned_stride(64, 256), 256);
    assert_eq!(aligned_stride(256, 256), 256);
    assert_eq!(aligned_stride(300, 256), 512);
    assert_eq!(aligned_stride(64, 1), 64);
    assert_eq!(aligned_stride(0, 256), 0);
}
