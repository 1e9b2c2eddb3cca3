use lunex_layout::anchor::{reconcile, Reconciled, SizeMode, Transform, VisualAnchor};
use lunex_layout::frame::{apply, element_update, tree_compute, tree_pull_window, EntityState, Seen};
use lunex_layout::geometry::{place, PositionRule, Rect, MAX_FRAC, MAX_LEN, MAX_POS};
use lunex_layout::tree::{window_root, DepthRule, InsertError, LayoutTree, LookupError, RuleError, MAX_NODES};

fn screen() -> LayoutTree {
    LayoutTree::new(Rect { x: 0, y: 0, width: 1920, height: 1080 })
}

fn screen_with_panel() -> LayoutTree {
    let mut t = screen();
    let r = t.insert(b"", b"panel", PositionRule::Centered { width: 5000, height: 5000 }, DepthRule::Add(0));
    assert_eq!(r, Ok(1));
    t.recompute();
    t
}

fn run_frame(t: &mut LayoutTree, id: usize, anchors: &Vec<VisualAnchor>, entities: &mut Vec<EntityState>) {
    let root = t.root_rect;
    tree_compute(t, root);
    element_update(t, id, anchors, entities);
}

fn anchor(path: &[u8], mode: SizeMode, bw: i64, bh: i64) -> VisualAnchor {
    VisualAnchor::new(0, path, 5000, 5000, mode, bw, bh, 10000, 3).unwrap()
}

#[test]
fn centered_half_of_full_hd() {
    let t = screen_with_panel();
    let v = t.fetch(b"panel").unwrap();
    assert_eq!(v.rect, Rect { x: 480, y: 270, width: 960, height: 540 });
    assert!(v.visible);
}

#[test]
fn relative_rule_matches_centered() {
    let mut t = screen();
    t.insert(b"", b"panel", PositionRule::Relative { x: 2500, y: 2500, width: 5000, height: 5000 }, DepthRule::Add(0))
        .unwrap();
    t.recompute();
    assert_eq!(t.fetch(b"panel").unwrap().rect, Rect { x: 480, y: 270, width: 960, height: 540 });
}

#[test]
fn absolute_rule_offsets_from_parent() {
    let mut t = screen_with_panel();
    t.insert(b"panel", b"label", PositionRule::Absolute { x: 10, y: -20, width: 100, height: 50 }, DepthRule::Add(0))
        .unwrap();
    t.recompute();
    assert_eq!(t.fetch(b"panel/label").unwrap().rect, Rect { x: 490, y: 250, width: 100, height: 50 });
}

#[test]
fn negative_fraction_rounds_toward_zero() {
    let parent = Rect { x: 0, y: 0, width: 3, height: 3 };
    let r = place(&PositionRule::Relative { x: -5000, y: 5000, width: 5000, height: 0 }, &parent);
    assert_eq!(r, Rect { x: -1, y: 1, width: 1, height: 0 });
}

#[test]
fn sizes_saturate_at_layout_bounds() {
    let parent = Rect { x: MAX_POS, y: 0, width: MAX_LEN, height: 10 };
    let r = place(&PositionRule::Relative { x: 20000, y: 0, width: 20000, height: 0 }, &parent);
    assert_eq!(r, Rect { x: MAX_POS, y: 0, width: MAX_LEN, height: 0 });
    assert_eq!(Rect::new(-1, 2, -5, MAX_LEN + 1), Rect { x: -1, y: 2, width: 0, height: MAX_LEN });
}

#[test]
fn zero_size_root_collapses_children() {
    let mut t = LayoutTree::new(Rect { x: 5, y: 5, width: 0, height: 0 });
    t.insert(b"", b"a", PositionRule::Centered { width: 5000, height: 5000 }, DepthRule::Add(0)).unwrap();
    t.recompute();
    assert_eq!(t.fetch(b"a").unwrap().rect, Rect { x: 5, y: 5, width: 0, height: 0 });
}

#[test]
fn recompute_is_deterministic() {
    let mut a = screen_with_panel();
    let mut b = screen_with_panel();
    a.insert(b"panel", b"x", PositionRule::Relative { x: 1000, y: 2000, width: 3000, height: 4000 }, DepthRule::Add(1))
        .unwrap();
    b.insert(b"panel", b"x", PositionRule::Relative { x: 1000, y: 2000, width: 3000, height: 4000 }, DepthRule::Add(1))
        .unwrap();
    a.recompute();
    b.recompute();
    a.recompute();
    assert_eq!(a.rects, b.rects);
    assert_eq!(a.fetch(b"panel/x").unwrap().rect, Rect { x: 576, y: 378, width: 288, height: 216 });
}

#[test]
fn negative_sizes_collapse_to_zero() {
    let mut t = screen_with_panel();
    let d = DepthRule::Add(0);
    let r = PositionRule::Relative { x: 1000, y: 0, width: -3000, height: 5000 };
    assert_eq!(t.insert(b"panel", b"a", r, d), Ok(2));
    let ab = PositionRule::Absolute { x: 5, y: 5, width: -10, height: -MAX_LEN };
    assert_eq!(t.insert(b"panel", b"b", ab, d), Ok(3));
    t.recompute();
    assert_eq!(t.fetch(b"panel/a").unwrap().rect, Rect { x: 576, y: 270, width: 0, height: 270 });
    assert_eq!(t.fetch(b"panel/b").unwrap().rect, Rect { x: 485, y: 275, width: 0, height: 0 });
}

#[test]
fn lookup_paths() {
    let mut t = screen_with_panel();
    t.insert(b"panel", b"child", PositionRule::Centered { width: 10000, height: 10000 }, DepthRule::Add(0)).unwrap();
    assert_eq!(t.lookup(b""), Some(0));
    assert_eq!(t.lookup(b"panel"), Some(1));
    assert_eq!(t.lookup(b"panel/child"), Some(2));
    assert_eq!(t.lookup(b"panel/"), None);
    assert_eq!(t.lookup(b"/panel"), None);
    assert_eq!(t.lookup(b"child"), None);
    assert_eq!(t.fetch(b"missing"), Err(LookupError::NotFound));
}

#[test]
fn insert_errors() {
    let mut t = screen_with_panel();
    let d = DepthRule::Add(0);
    let ok = PositionRule::Centered { width: 1, height: 1 };
    assert_eq!(t.insert(b"nope", b"a", ok, d), Err(InsertError::ParentNotFound));
    assert_eq!(t.insert(b"", b"", ok, d), Err(InsertError::InvalidName));
    assert_eq!(t.insert(b"", b"a/b", ok, d), Err(InsertError::InvalidName));
    assert_eq!(t.insert(b"", b"panel", ok, d), Err(InsertError::DuplicateName));
    let bad = PositionRule::Relative { x: 0, y: 0, width: MAX_FRAC + 1, height: 0 };
    assert_eq!(t.insert(b"", b"a", bad, d), Err(InsertError::RuleOutOfRange));
    let far = PositionRule::Absolute { x: 0, y: 0, width: 0, height: -MAX_LEN - 1 };
    assert_eq!(t.insert(b"", b"a", far, d), Err(InsertError::RuleOutOfRange));
    assert_eq!(t.insert(b"", b"a", ok, DepthRule::Fixed(i64::MAX)), Err(InsertError::RuleOutOfRange));
    assert_eq!(t.names.len(), 2);
    assert_eq!(t.insert(b"panel", b"panel", ok, d), Ok(2));
}

#[test]
fn remove_detaches_subtree() {
    let mut t = screen_with_panel();
    t.insert(b"panel", b"child", PositionRule::Centered { width: 1, height: 1 }, DepthRule::Add(0)).unwrap();
    assert_eq!(t.remove(b""), Err(LookupError::NotFound));
    assert_eq!(t.remove(b"panel"), Ok(1));
    assert_eq!(t.lookup(b"panel"), None);
    assert_eq!(t.lookup(b"panel/child"), None);
    assert_eq!(t.remove(b"panel"), Err(LookupError::NotFound));
    assert_eq!(t.insert(b"", b"panel", PositionRule::Centered { width: 1, height: 1 }, DepthRule::Add(0)), Ok(3));
}

#[test]
fn visibility_is_and_of_ancestors() {
    let mut t = screen_with_panel();
    t.insert(b"panel", b"child", PositionRule::Centered { width: 1, height: 1 }, DepthRule::Add(0)).unwrap();
    assert!(t.fetch(b"panel/child").unwrap().visible);
    assert_eq!(t.set_visible(b"panel", false), Ok(1));
    assert!(!t.fetch(b"panel").unwrap().visible);
    assert!(!t.fetch(b"panel/child").unwrap().visible);
    assert!(t.fetch(b"").unwrap().visible);
    t.set_visible(b"panel", true).unwrap();
    t.set_visible(b"", false).unwrap();
    assert!(!t.fetch(b"panel/child").unwrap().visible);
    assert_eq!(t.set_visible(b"gone", true), Err(LookupError::NotFound));
}

#[test]
fn add_depth_accumulates_and_fixed_depth_ignores_ancestors() {
    let mut t = screen();
    let r = PositionRule::Centered { width: 1, height: 1 };
    t.insert(b"", b"a", r, DepthRule::Add(100)).unwrap();
    t.insert(b"", b"b", r, DepthRule::Add(5)).unwrap();
    t.insert(b"b", b"c", r, DepthRule::Add(2)).unwrap();
    t.insert(b"b", b"d", r, DepthRule::Fixed(7)).unwrap();
    t.recompute();
    assert_eq!(t.fetch(b"").unwrap().depth, 0);
    assert_eq!(t.fetch(b"a").unwrap().depth, 100);
    assert_eq!(t.fetch(b"b").unwrap().depth, 15);
    assert_eq!(t.fetch(b"b/c").unwrap().depth, 17);
    assert_eq!(t.fetch(b"b/d").unwrap().depth, 7);
    assert_eq!(t.depth_index, vec![0, 0, 1, 0, 1]);
}

#[test]
fn depth_index_follows_removal() {
    let mut t = screen();
    let r = PositionRule::Centered { width: 1, height: 1 };
    t.insert(b"", b"a", r, DepthRule::Add(0)).unwrap();
    t.insert(b"", b"b", r, DepthRule::Add(0)).unwrap();
    t.recompute();
    assert_eq!(t.fetch(b"b").unwrap().depth, 10);
    t.remove(b"a").unwrap();
    t.recompute();
    assert_eq!(t.fetch(b"b").unwrap().depth, 0);
}

#[test]
fn reconcile_both_axes() {
    let t = screen_with_panel();
    let a = anchor(b"panel", SizeMode::BothAxes { width: 10000, height: 10000 }, 480, 270);
    assert_eq!(
        reconcile(&t, &a),
        Reconciled::Show(Transform { x: 960, y: -540, z: 3, scale_x: 20000, scale_y: 20000 })
    );
    let b = anchor(b"panel", SizeMode::BothAxes { width: 5000, height: 10000 }, 960, 1080);
    assert_eq!(
        reconcile(&t, &b),
        Reconciled::Show(Transform { x: 960, y: -540, z: 3, scale_x: 5000, scale_y: 5000 })
    );
}

#[test]
fn reconcile_width_and_height_only() {
    let t = screen_with_panel();
    let w = anchor(b"panel", SizeMode::WidthOnly { width: 5000 }, 480, 1);
    match reconcile(&t, &w) {
        Reconciled::Show(tr) => {
            assert_eq!(tr.scale_x, 10000);
            assert_eq!(tr.scale_y, 10000);
        },
        other => panic!("unexpected {:?}", other),
    }
    let h = anchor(b"panel", SizeMode::HeightOnly { height: 10000 }, 1, 1080);
    match reconcile(&t, &h) {
        Reconciled::Show(tr) => {
            assert_eq!(tr.scale_x, 5000);
            assert_eq!(tr.scale_y, 5000);
        },
        other => panic!("unexpected {:?}", other),
    }
}

#[test]
fn extra_scale_and_root_depth() {
    let mut t = screen_with_panel();
    t.set_root_depth(-50);
    let a = VisualAnchor::new(0, b"panel", 0, 10000, SizeMode::FitSmaller, 960, 540, 5000, -1).unwrap();
    assert_eq!(
        reconcile(&t, &a),
        Reconciled::Show(Transform { x: 480, y: -810, z: -51, scale_x: 5000, scale_y: 5000 })
    );
}

#[test]
fn fit_smaller_axis_in_fifty_square() {
    let t = LayoutTree::new(Rect { x: 0, y: 0, width: 50, height: 50 });
    let a = VisualAnchor::new(0, b"", 0, 0, SizeMode::FitSmaller, 100, 200, 10000, 0).unwrap();
    match reconcile(&t, &a) {
        Reconciled::Show(tr) => {
            assert_eq!(tr.scale_x, 2500);
            assert_eq!(tr.scale_y, 2500);
            assert_eq!(tr.scale_x, tr.scale_y);
        },
        other => panic!("unexpected {:?}", other),
    }
}

#[test]
fn hidden_owner_keeps_transform() {
    let mut t = screen_with_panel();
    let a = anchor(b"panel", SizeMode::FitSmaller, 960, 540);
    let mut e = EntityState::new();
    apply(&mut e, reconcile(&t, &a));
    let shown = e.transform;
    t.set_visible(b"panel", false).unwrap();
    assert_eq!(reconcile(&t, &a), Reconciled::Hide);
    apply(&mut e, reconcile(&t, &a));
    assert!(!e.visible);
    assert_eq!(e.transform, shown);
}

#[test]
fn reconcile_twice_is_identical() {
    let t = screen_with_panel();
    let a = anchor(b"panel", SizeMode::BothAxes { width: 3000, height: 7000 }, 123, 45);
    let r1 = reconcile(&t, &a);
    let r2 = reconcile(&t, &a);
    assert_eq!(r1, r2);
    let mut e = EntityState::new();
    apply(&mut e, r1);
    let once = e;
    apply(&mut e, r2);
    assert_eq!(e, once);
}

#[test]
fn deleted_owner_removes_entity() {
    let mut t = screen_with_panel();
    let anchors = vec![anchor(b"panel", SizeMode::FitSmaller, 960, 540)];
    let mut entities = vec![EntityState::new()];
    t.remove(b"panel").unwrap();
    run_frame(&mut t, 0, &anchors, &mut entities);
    assert!(entities[0].removed);
    assert_eq!(entities[0].transform, EntityState::new().transform);
    assert!(entities[0].visible);
    assert_eq!(reconcile(&t, &anchors[0]), Reconciled::Remove);
}

#[test]
fn only_changed_anchor_is_reconciled() {
    let mut t = screen_with_panel();
    let mut anchors = vec![
        anchor(b"panel", SizeMode::FitSmaller, 960, 540),
        anchor(b"panel", SizeMode::FitSmaller, 960, 540),
    ];
    let mut entities = vec![EntityState::new(), EntityState::new()];
    run_frame(&mut t, 0, &anchors, &mut entities);
    let first = entities.clone();
    assert_eq!(first[0].seen, Some(Seen { tree: t.generation, anchor: 0 }));
    anchors[1].set_relative(0, 0);
    run_frame(&mut t, 0, &anchors, &mut entities);
    assert_eq!(entities[0], first[0]);
    assert_eq!(entities[1].transform.x, 480);
    assert_eq!(entities[1].transform.y, -270);
    assert_eq!(entities[1].seen, Some(Seen { tree: t.generation, anchor: 1 }));
}

#[test]
fn tree_change_reconciles_all_its_anchors_once() {
    let mut t = screen_with_panel();
    let anchors = vec![
        anchor(b"panel", SizeMode::FitSmaller, 960, 540),
        VisualAnchor::new(1, b"panel", 0, 0, SizeMode::FitSmaller, 1, 1, 10000, 0).unwrap(),
    ];
    let mut entities = vec![EntityState::new(), EntityState::new()];
    run_frame(&mut t, 0, &anchors, &mut entities);
    assert_eq!(entities[1], EntityState::new());
    tree_compute(&mut t, Rect { x: 0, y: 0, width: 960, height: 540 });
    element_update(&t, 0, &anchors, &mut entities);
    assert_eq!(entities[0].transform, Transform { x: 480, y: -270, z: 3, scale_x: 5000, scale_y: 5000 });
    let after = entities.clone();
    run_frame(&mut t, 0, &anchors, &mut entities);
    assert_eq!(entities, after);
}

#[test]
fn window_root_is_centred() {
    assert_eq!(window_root(1920, 1080), Rect { x: -960, y: -540, width: 1920, height: 1080 });
    assert_eq!(window_root(-3, 7), Rect { x: 0, y: -3, width: 0, height: 7 });
    let mut t = screen();
    let g = t.generation;
    tree_pull_window(&mut t, 800, 600);
    assert_eq!(t.root_rect, Rect { x: -400, y: -300, width: 800, height: 600 });
    assert_eq!(t.generation, g + 1);
    tree_pull_window(&mut t, 800, 600);
    assert_eq!(t.generation, g + 1);
}

#[test]
fn anchor_rejects_out_of_range_values() {
    assert!(VisualAnchor::new(0, b"", 0, 0, SizeMode::FitSmaller, 0, 1, 10000, 0).is_none());
    assert!(VisualAnchor::new(0, b"", 0, 0, SizeMode::WidthOnly { width: MAX_FRAC + 1 }, 1, 1, 10000, 0).is_none());
    assert!(VisualAnchor::new(0, b"", 0, 0, SizeMode::FitSmaller, 1, 1, -MAX_FRAC - 1, 0).is_none());
    assert!(VisualAnchor::new(0, b"", 0, 0, SizeMode::WidthOnly { width: -1 }, 1, 1, -1, 0).is_some());
    let a = VisualAnchor::new(2, b"a/b", 1, 2, SizeMode::FitSmaller, 3, 4, 5, 6).unwrap();
    assert_eq!(a.owner_path, b"a/b".to_vec());
    assert_eq!((a.tree, a.relative_x, a.relative_y, a.generation), (2, 1, 2, 0));
}

#[test]
fn set_rule_moves_node_at_next_recompute() {
    let mut t = screen_with_panel();
    let g = t.generation;
    let rule = PositionRule::Absolute { x: 1, y: 2, width: 3, height: 4 };
    assert_eq!(t.set_rule(b"panel", rule), Ok(1));
    assert_eq!(t.generation, g + 1);
    assert_eq!(t.fetch(b"panel").unwrap().rect, Rect { x: 480, y: 270, width: 960, height: 540 });
    t.recompute();
    assert_eq!(t.fetch(b"panel").unwrap().rect, Rect { x: 1, y: 2, width: 3, height: 4 });
    assert_eq!(t.set_rule(b"", rule), Err(RuleError::NotFound));
    assert_eq!(t.set_rule(b"nope", rule), Err(RuleError::NotFound));
    let bad = PositionRule::Centered { width: MAX_FRAC + 1, height: 0 };
    assert_eq!(t.set_rule(b"panel", bad), Err(RuleError::RuleOutOfRange));
    let shrunk = PositionRule::Centered { width: -1, height: -5000 };
    assert_eq!(t.set_rule(b"panel", shrunk), Ok(1));
    t.recompute();
    assert_eq!(t.fetch(b"panel").unwrap().rect, Rect { x: 960, y: 540, width: 0, height: 0 });
}

#[test]
fn negative_scale_keeps_its_sign() {
    let t = screen_with_panel();
    let a = VisualAnchor::new(0, b"panel", 0, 0, SizeMode::BothAxes { width: -5000, height: 5000 }, 10, 10, 10000, 0)
        .unwrap();
    match reconcile(&t, &a) {
        Reconciled::Show(tr) => {
            assert_eq!(tr.scale_x, -480000);
            assert_eq!(tr.scale_y, 270000);
        },
        other => panic!("unexpected {:?}", other),
    }
    let w = VisualAnchor::new(0, b"panel", 0, 0, SizeMode::WidthOnly { width: -10000 }, 960, 1, 10000, 0).unwrap();
    match reconcile(&t, &w) {
        Reconciled::Show(tr) => assert_eq!((tr.scale_x, tr.scale_y), (-10000, -10000)),
        other => panic!("unexpected {:?}", other),
    }
    let f = VisualAnchor::new(0, b"panel", 0, 0, SizeMode::FitSmaller, 10, 10, -1, 0).unwrap();
    match reconcile(&t, &f) {
        Reconciled::Show(tr) => assert_eq!((tr.scale_x, tr.scale_y), (-54, -54)),
        other => panic!("unexpected {:?}", other),
    }
    let unit = LayoutTree::new(Rect { x: 0, y: 0, width: 1, height: 1 });
    let g = VisualAnchor::new(0, b"", 0, 0, SizeMode::FitSmaller, 1, 1, -10000, 0).unwrap();
    match reconcile(&unit, &g) {
        Reconciled::Show(tr) => assert_eq!((tr.scale_x, tr.scale_y), (-10000, -10000)),
        other => panic!("unexpected {:?}", other),
    }
    let third = LayoutTree::new(Rect { x: 0, y: 0, width: 3, height: 3 });
    let h = VisualAnchor::new(0, b"", 0, 0, SizeMode::FitSmaller, 2, 2, -10000, 0).unwrap();
    match reconcile(&third, &h) {
        Reconciled::Show(tr) => assert_eq!((tr.scale_x, tr.scale_y), (-15000, -15000)),
        other => panic!("unexpected {:?}", other),
    }
}

#[test]
fn anchor_setters_bump_generation_and_trigger_reconcile() {
    let mut t = screen_with_panel();
    t.insert(b"", b"side", PositionRule::Absolute { x: 0, y: 0, width: 100, height: 100 }, DepthRule::Add(0)).unwrap();
    let mut anchors = vec![anchor(b"panel", SizeMode::FitSmaller, 960, 540)];
    let mut entities = vec![EntityState::new()];
    run_frame(&mut t, 0, &anchors, &mut entities);
    assert_eq!(entities[0].transform.scale_x, 10000);
    anchors[0].set_extra_scale(5000);
    assert_eq!(anchors[0].generation, 1);
    run_frame(&mut t, 0, &anchors, &mut entities);
    assert_eq!(entities[0].transform.scale_x, 5000);
    anchors[0].set_boundary(480, 540);
    run_frame(&mut t, 0, &anchors, &mut entities);
    assert_eq!(entities[0].transform.scale_x, 5000);
    anchors[0].set_size_mode(SizeMode::WidthOnly { width: 10000 });
    run_frame(&mut t, 0, &anchors, &mut entities);
    assert_eq!(entities[0].transform.scale_x, 10000);
    anchors[0].set_depth_offset(9);
    run_frame(&mut t, 0, &anchors, &mut entities);
    assert_eq!(entities[0].transform.z, 9);
    anchors[0].set_owner_path(b"side");
    run_frame(&mut t, 0, &anchors, &mut entities);
    assert_eq!(entities[0].transform.x, 50);
    anchors[0].set_tree(1);
    let before = entities[0];
    run_frame(&mut t, 0, &anchors, &mut entities);
    assert_eq!(entities[0], before);
    assert_eq!(anchors[0].generation, 6);
    assert_eq!(anchors[0].owner_path, b"side".to_vec());
}

#[test]
fn set_depth_rule_changes_depth() {
    let mut t = screen_with_panel();
    let g = t.generation;
    assert_eq!(t.set_depth_rule(b"panel", DepthRule::Fixed(42)), Ok(1));
    assert_eq!(t.generation, g + 1);
    assert_eq!(t.fetch(b"panel").unwrap().depth, 42);
    assert_eq!(t.set_depth_rule(b"", DepthRule::Fixed(1)), Err(RuleError::NotFound));
    assert_eq!(t.set_depth_rule(b"nope", DepthRule::Fixed(1)), Err(RuleError::NotFound));
    assert_eq!(t.set_depth_rule(b"panel", DepthRule::Add(i64::MIN)), Err(RuleError::RuleOutOfRange));
}

#[test]
fn owner_depth_rule_sets_transform_z() {
    let mut t = screen();
    let r = PositionRule::Centered { width: 5000, height: 5000 };
    t.insert(b"", b"a", r, DepthRule::Add(100)).unwrap();
    t.insert(b"", b"b", r, DepthRule::Add(5)).unwrap();
    t.insert(b"b", b"fixed", r, DepthRule::Fixed(7)).unwrap();
    t.insert(b"b", b"added", r, DepthRule::Add(2)).unwrap();
    t.set_root_depth(1000);
    t.recompute();
    let fixed = VisualAnchor::new(0, b"b/fixed", 0, 0, SizeMode::FitSmaller, 1, 1, 10000, 3).unwrap();
    let added = VisualAnchor::new(0, b"b/added", 0, 0, SizeMode::FitSmaller, 1, 1, 10000, 3).unwrap();
    match reconcile(&t, &fixed) {
        Reconciled::Show(tr) => assert_eq!(tr.z, 7 + 3 + 1000),
        other => panic!("unexpected {:?}", other),
    }
    match reconcile(&t, &added) {
        Reconciled::Show(tr) => assert_eq!(tr.z, 2 + 10 + 15 + 3 + 1000),
        other => panic!("unexpected {:?}", other),
    }
}

fn full_tree(attached: bool) -> LayoutTree {
    let mut t = screen();
    for _ in 1..MAX_NODES {
        t.names.push(b"n".to_vec());
        t.parents.push(0);
        t.attached.push(attached);
        t.rules.push(PositionRule::Centered { width: 1, height: 1 });
        t.depth_rules.push(DepthRule::Add(0));
        t.visible.push(true);
        t.rects.push(Rect { x: 0, y: 0, width: 0, height: 0 });
        t.depth_index.push(0);
    }
    t
}

#[test]
fn full_arena_refuses_insert() {
    let mut t = full_tree(true);
    let r = PositionRule::Centered { width: 1, height: 1 };
    assert_eq!(t.insert(b"", b"x", r, DepthRule::Add(0)), Err(InsertError::Full));
    assert_eq!(t.names.len(), MAX_NODES);
}

#[test]
fn full_arena_reuses_removed_slot() {
    let mut t = full_tree(true);
    t.attached[1] = false;
    t.attached[2] = false;
    t.parents[3] = 1;
    let r = PositionRule::Absolute { x: 1, y: 1, width: 2, height: 2 };
    assert_eq!(t.insert(b"", b"x", r, DepthRule::Add(0)), Ok(2));
    assert_eq!(t.names.len(), MAX_NODES);
    assert_eq!(t.lookup(b"x"), Some(2));
    t.recompute();
    assert_eq!(t.fetch(b"x").unwrap().rect, Rect { x: 1, y: 1, width: 2, height: 2 });
    assert_eq!(t.insert(b"", b"y", r, DepthRule::Add(0)), Err(InsertError::Full));
}
