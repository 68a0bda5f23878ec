use sprite_xml::engine::EngineError;
use sprite_xml::engine::SpriteXML;
use sprite_xml::engine::find_frame_range;
use sprite_xml::manifest::SubTexture;
use sprite_xml::manifest::XML;
use sprite_xml::offsets::Transform2;
use sprite_xml::offsets::Vec2I;
use sprite_xml::offsets::packed_rects;

fn rec(name: &str, x: u32, y: u32, w: u32, h: u32, fx: i32, fy: i32) -> SubTexture {
    SubTexture {
        name: name.as_bytes().to_vec(),
        x,
        y,
        width: w,
        height: h,
        frame_x: fx,
        frame_y: fy,
        frame_width: 0,
        frame_height: 0,
    }
}

fn transform(px: i64, py: i64, sx: i64, sy: i64) -> Transform2 {
    Transform2 { translation: Vec2I { x: px, y: py }, scale: Vec2I { x: sx, y: sy } }
}

fn walk_idle_manifest() -> XML {
    XML {
        subtexture: vec![
            rec("walk0", 0, 0, 10, 10, 0, 0),
            rec("walk1", 10, 0, 12, 10, 4, -2),
            rec("walk2", 22, 0, 8, 10, -6, 10),
            rec("idle0", 30, 0, 10, 10, 2, 2),
        ],
    }
}

#[test]
fn find_frame_range_collects_prefix_matches_in_order() {
    let xml = walk_idle_manifest();
    let range = find_frame_range(&xml, &b"walk".to_vec()).unwrap();
    assert_eq!(range, vec![0, 1, 2]);
    let range = find_frame_range(&xml, &b"idle".to_vec()).unwrap();
    assert_eq!(range, vec![3]);
    assert_eq!(
        find_frame_range(&xml, &b"run".to_vec()),
        Err(EngineError::AnimationNotFound)
    );
}

#[test]
fn duplicate_names_are_kept_separately_by_index() {
    let xml = XML {
        subtexture: vec![
            rec("spin", 0, 0, 4, 4, 0, 0),
            rec("spin", 4, 0, 4, 4, 2, 0),
            rec("other", 8, 0, 4, 4, 0, 0),
        ],
    };
    let range = find_frame_range(&xml, &b"spin".to_vec()).unwrap();
    assert_eq!(range, vec![0, 1]);
}

#[test]
fn apply_offsets_scales_componentwise() {
    let engine = SpriteXML::from_xml(walk_idle_manifest());
    let mut t = transform(10, 20, 3, 5);
    // Entry 1 compensates by (-4, -2) half-pixel units.
    engine.apply_offsets(1, &mut t);
    assert_eq!(t.translation, Vec2I { x: 10 - 12, y: 20 - 10 });
    assert_eq!(t.scale, Vec2I { x: 3, y: 5 });
}

#[test]
fn interval_is_the_reciprocal_of_fps() {
    let mut engine = SpriteXML::from_xml(walk_idle_manifest());
    engine.add_anim_from_prefix(b"walk".to_vec(), true, 1).unwrap();
    engine.add_anim_from_prefix(b"walk".to_vec(), true, 60).unwrap();
    engine.add_anim_from_prefix(b"walk".to_vec(), true, 65535).unwrap();
    assert_eq!(engine.animations[0].interval_nanos, 1_000_000_000);
    assert_eq!(engine.animations[1].interval_nanos, 16_666_666);
    assert_eq!(engine.animations[2].interval_nanos, 15_259);
}

#[test]
fn add_anim_unknown_prefix_fails_and_leaves_registry_unchanged() {
    let mut engine = SpriteXML::from_xml(walk_idle_manifest());
    engine.add_anim_from_prefix(b"walk".to_vec(), true, 10).unwrap();
    assert_eq!(engine.animations.len(), 1);
    let r = engine.add_anim_from_prefix(b"run".to_vec(), true, 10);
    assert_eq!(r, Err(EngineError::AnimationNotFound));
    assert_eq!(engine.animations.len(), 1);
    assert_eq!(engine.animations[0].name, b"walk".to_vec());
}

#[test]
fn registered_animation_starts_fresh() {
    let mut engine = SpriteXML::from_xml(walk_idle_manifest());
    engine.add_anim_from_prefix(b"walk".to_vec(), false, 10).unwrap();
    let a = &engine.animations[0];
    assert_eq!(a.idx_range, vec![0, 1, 2]);
    assert_eq!(a.idx, 0);
    assert!(!a.looped);
    assert!(!a.should_go);
    assert!(!a.finished);
    assert_eq!(a.interval_nanos, 100_000_000);
    assert_eq!(a.elapsed_nanos, 0);
}

#[test]
fn looped_animation_cycles_in_order_and_never_finishes() {
    let mut engine = SpriteXML::from_xml(walk_idle_manifest());
    engine.add_anim_from_prefix(b"walk".to_vec(), true, 10).unwrap();
    let mut frame: usize = 0;
    let mut t = transform(0, 0, 1, 1);
    engine.set_anim(b"walk".to_vec(), &mut frame, true).unwrap();
    engine.apply_offsets(frame, &mut t);
    let mut seen: Vec<usize> = Vec::new();
    for _ in 0..7 {
        engine.get_next_frame_of_anim(&mut frame, &mut t, 0);
        seen.push(frame);
        assert!(!engine.animations[0].finished);
    }
    // The first step holds on frame 0; then the range cycles in order.
    assert_eq!(seen, vec![0, 1, 2, 0, 1, 2, 0]);
}

#[test]
fn nonlooped_animation_finishes_and_stays_put() {
    let mut engine = SpriteXML::from_xml(walk_idle_manifest());
    engine.add_anim_from_prefix(b"walk".to_vec(), false, 10).unwrap();
    let mut frame: usize = 0;
    let mut t = transform(100, 200, 1, 1);
    engine.set_anim(b"walk".to_vec(), &mut frame, true).unwrap();
    engine.apply_offsets(frame, &mut t);
    // Hold on 0, advance to 1, advance to 2 (the last index).
    for _ in 0..3 {
        engine.get_next_frame_of_anim(&mut frame, &mut t, 0);
    }
    assert_eq!(frame, 2);
    assert!(!engine.animations[0].finished);
    let t_before = t;
    let cursor_before = engine.animations[0].idx;
    // The next step only marks the animation finished; further steps are
    // no-ops.
    for _ in 0..3 {
        engine.get_next_frame_of_anim(&mut frame, &mut t, 0);
        assert!(engine.animations[0].finished);
        assert_eq!(frame, 2);
        assert_eq!(engine.animations[0].idx, cursor_before);
        assert_eq!(t, t_before);
    }
}

#[test]
fn full_loop_cycle_has_zero_net_position_delta() {
    let mut engine = SpriteXML::from_xml(walk_idle_manifest());
    engine.add_anim_from_prefix(b"walk".to_vec(), true, 10).unwrap();
    let mut frame: usize = 0;
    let mut t = transform(1000, -500, 3, 5);
    engine.set_anim(b"walk".to_vec(), &mut frame, true).unwrap();
    engine.apply_offsets(frame, &mut t);
    // First step: the hold on frame 0 (no position change, offsets equal).
    engine.get_next_frame_of_anim(&mut frame, &mut t, 0);
    let synced = t;
    // One full cycle: as many steps as the range has frames.
    for _ in 0..3 {
        engine.get_next_frame_of_anim(&mut frame, &mut t, 0);
    }
    assert_eq!(frame, 0);
    assert_eq!(t, synced);
}

#[test]
fn advance_unconditional_wraps_and_compensates() {
    let mut engine = SpriteXML::from_xml(walk_idle_manifest());
    let mut frame: usize = 2;
    let mut t = transform(0, 0, 1, 1);
    // Offsets (half-pixel units): entry2 = (6, 10), entry3 = (-2, 2).
    engine.get_next_frame(&mut frame, &mut t);
    assert_eq!(frame, 3);
    assert_eq!(t.translation, Vec2I { x: 0 - 6 + (-2), y: 0 - 10 + 2 });
    engine.get_next_frame(&mut frame, &mut t);
    assert_eq!(frame, 0);
}

#[test]
fn advance_unconditional_single_entry_is_stationary() {
    let xml = XML { subtexture: vec![rec("solo", 0, 0, 4, 4, 8, -6)] };
    let engine = SpriteXML::from_xml(xml);
    let mut frame: usize = 0;
    let mut t = transform(33, -44, 2, 7);
    for _ in 0..4 {
        engine.get_next_frame(&mut frame, &mut t);
        assert_eq!(frame, 0);
        assert_eq!(t, transform(33, -44, 2, 7));
    }
}

#[test]
fn set_anim_with_reset_overwrites_frame_index() {
    let mut engine = SpriteXML::from_xml(walk_idle_manifest());
    engine.add_anim_from_prefix(b"walk".to_vec(), true, 10).unwrap();
    engine.add_anim_from_prefix(b"idle".to_vec(), true, 10).unwrap();
    let mut frame: usize = 0;
    let mut t = transform(0, 0, 1, 1);
    engine.set_anim(b"walk".to_vec(), &mut frame, true).unwrap();
    // Move the walk animation along so its cursor is not at the start.
    for _ in 0..2 {
        engine.get_next_frame_of_anim(&mut frame, &mut t, 0);
    }
    assert_eq!(frame, 1);
    engine.set_anim(b"idle".to_vec(), &mut frame, true).unwrap();
    assert_eq!(engine.cur_anim, Some(1));
    // The frame index lands on the idle range's first entry, independent of
    // the walk cursor.
    assert_eq!(frame, 3);
    // Without the reset flag the frame index is left alone.
    let mut frame2: usize = 1;
    engine.set_anim(b"walk".to_vec(), &mut frame2, false).unwrap();
    assert_eq!(engine.cur_anim, Some(0));
    assert_eq!(frame2, 1);
}

#[test]
fn set_anim_unknown_prefix_fails() {
    let mut engine = SpriteXML::from_xml(walk_idle_manifest());
    engine.add_anim_from_prefix(b"walk".to_vec(), true, 10).unwrap();
    let mut frame: usize = 7;
    let r = engine.set_anim(b"idle".to_vec(), &mut frame, true);
    assert_eq!(r, Err(EngineError::AnimationNotFound));
    assert_eq!(engine.cur_anim, None);
    assert_eq!(frame, 7);
}

#[test]
fn reset_anim_idx_requires_active_animation() {
    let mut engine = SpriteXML::from_xml(walk_idle_manifest());
    engine.add_anim_from_prefix(b"walk".to_vec(), true, 10).unwrap();
    assert_eq!(engine.reset_anim_idx(), Err(EngineError::NoActiveAnimation));
    let mut frame: usize = 0;
    let mut t = transform(0, 0, 1, 1);
    engine.set_anim(b"walk".to_vec(), &mut frame, true).unwrap();
    for _ in 0..3 {
        engine.get_next_frame_of_anim(&mut frame, &mut t, 0);
    }
    assert_eq!(engine.animations[0].idx, 2);
    engine.reset_anim_idx().unwrap();
    assert_eq!(engine.animations[0].idx, 0);
    assert!(engine.animations[0].should_go);
}

#[test]
fn packed_rects_follow_manifest_order() {
    let xml = walk_idle_manifest();
    let rects = packed_rects(&xml);
    assert_eq!(rects.len(), 4);
    assert_eq!(rects[1].min_x, 10);
    assert_eq!(rects[1].min_y, 0);
    assert_eq!(rects[1].max_x, 22);
    assert_eq!(rects[1].max_y, 10);
    assert_eq!(rects[3].min_x, 30);
    assert_eq!(rects[3].max_x, 40);
}

#[test]
fn tick_without_active_animation_is_inert() {
    let mut engine = SpriteXML::from_xml(walk_idle_manifest());
    engine.add_anim_from_prefix(b"walk".to_vec(), true, 10).unwrap();
    let mut frame: usize = 1;
    let mut t = transform(5, 6, 1, 1);
    engine.tick(1_000_000_000, &mut frame, &mut t);
    assert_eq!(frame, 1);
    assert_eq!(t, transform(5, 6, 1, 1));
    assert_eq!(engine.animations[0].elapsed_nanos, 0);
}

#[test]
fn tick_fires_once_per_interval_crossing() {
    let mut engine = SpriteXML::from_xml(walk_idle_manifest());
    engine.add_anim_from_prefix(b"walk".to_vec(), true, 10).unwrap();
    let mut frame: usize = 0;
    let mut t = transform(0, 0, 1, 1);
    engine.set_anim(b"walk".to_vec(), &mut frame, true).unwrap();
    engine.apply_offsets(frame, &mut t);
    // 50 ms: below the 100 ms interval, nothing fires.
    engine.tick(50_000_000, &mut frame, &mut t);
    assert_eq!(frame, 0);
    assert!(!engine.animations[0].should_go);
    assert_eq!(engine.animations[0].elapsed_nanos, 50_000_000);
    // 60 ms more: one crossing, the hold step fires.
    engine.tick(60_000_000, &mut frame, &mut t);
    assert_eq!(frame, 0);
    assert!(engine.animations[0].should_go);
    assert_eq!(engine.animations[0].elapsed_nanos, 10_000_000);
    // 340 ms more: three crossings, three steps (frames 1, 2, wrap to 0).
    engine.tick(340_000_000, &mut frame, &mut t);
    assert_eq!(frame, 0);
    assert_eq!(engine.animations[0].idx, 0);
    assert_eq!(engine.animations[0].elapsed_nanos, 50_000_000);
}
