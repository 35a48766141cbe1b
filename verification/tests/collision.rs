use rust_training_tool::collision::{
    collide_with_boundary, collide_with_rect, BounceDirection, Direction2D, Rect,
};

#[test]
fn from_center_size_even() {
    let r = Rect::from_center_size(0, 0, 100, 100);
    assert_eq!(r, Rect { left: -50, top: -50, right: 50, bottom: 50 });
}

#[test]
fn from_center_size_odd_rounds_toward_top_left() {
    let r = Rect::from_center_size(0, 0, 5, 5);
    assert_eq!(r, Rect { left: -2, top: -2, right: 3, bottom: 3 });
}

#[test]
fn boundary_contained_returns_none() {
    let boundary = Rect::from_center_size(0, 0, 100, 100);
    let bounding_box = Rect::from_center_size(0, 0, 10, 10);
    assert_eq!(collide_with_boundary(&bounding_box, &boundary), None);
}

#[test]
fn boundary_touching_edges_still_contained() {
    let boundary = Rect::new(-50, -50, 50, 50);
    let bounding_box = Rect::new(-50, -5, 50, 5);
    assert_eq!(collide_with_boundary(&bounding_box, &boundary), None);
}

#[test]
fn boundary_right_exit_bounces_left() {
    // A box of size 10x10 centered at (91, 0) sticks out of the right edge
    // of a 100x100 boundary centered at the origin.
    let boundary = Rect::from_center_size(0, 0, 100, 100);
    let bounding_box = Rect::from_center_size(91, 0, 10, 10);
    assert_eq!(
        collide_with_boundary(&bounding_box, &boundary),
        Some(BounceDirection::Left)
    );
}

#[test]
fn boundary_left_exit_bounces_right() {
    let boundary = Rect::new(-50, -50, 50, 50);
    let bounding_box = Rect::new(-55, -5, -45, 5);
    assert_eq!(
        collide_with_boundary(&bounding_box, &boundary),
        Some(BounceDirection::Right)
    );
}

#[test]
fn boundary_top_exit_bounces_down() {
    let boundary = Rect::new(-50, -50, 50, 50);
    let bounding_box = Rect::new(-5, -55, 5, -45);
    assert_eq!(
        collide_with_boundary(&bounding_box, &boundary),
        Some(BounceDirection::Down)
    );
}

#[test]
fn boundary_bottom_exit_bounces_up() {
    let boundary = Rect::new(-50, -50, 50, 50);
    let bounding_box = Rect::new(-5, 45, 5, 55);
    assert_eq!(
        collide_with_boundary(&bounding_box, &boundary),
        Some(BounceDirection::Up)
    );
}

#[test]
fn rect_disjoint_returns_none() {
    let self_box = Rect::new(0, 0, 10, 10);
    let other_box = Rect::new(20, 20, 30, 30);
    let directions = [
        Direction2D { x: 1, y: 0 },
        Direction2D { x: -1, y: 0 },
        Direction2D { x: 0, y: 1 },
        Direction2D { x: 0, y: -1 },
        Direction2D { x: 3, y: -7 },
        Direction2D { x: 0, y: 0 },
    ];
    for d in directions {
        assert_eq!(collide_with_rect(&d, &self_box, &other_box), None);
    }
}

#[test]
fn rect_moving_up_bounces_down() {
    // Moving up into a box whose bottom edge overlaps ours.
    let self_direction = Direction2D { x: 0, y: -1 };
    let self_box = Rect::from_center_size(0, 0, 10, 10);
    let other_box = Rect::from_center_size(10, 9, 10, 10);
    assert_eq!(
        collide_with_rect(&self_direction, &self_box, &other_box),
        Some(BounceDirection::Down)
    );
}

#[test]
fn rect_moving_right_bounces_left() {
    let self_direction = Direction2D { x: 1, y: 0 };
    let self_box = Rect::from_center_size(0, 0, 10, 10);
    let other_box = Rect::from_center_size(9, 10, 10, 10);
    assert_eq!(
        collide_with_rect(&self_direction, &self_box, &other_box),
        Some(BounceDirection::Left)
    );
}

#[test]
fn rect_minimum_penetration_selects_shallowest() {
    // Purely rightward motion gates only the left-face depth (5) in, so the
    // bounce is Left even though the ungated top-face depth (1) is smaller.
    let self_direction = Direction2D { x: 1, y: 0 };
    let self_box = Rect::new(0, 0, 10, 10);
    let other_box = Rect::new(5, 9, 15, 19);
    assert_eq!(
        collide_with_rect(&self_direction, &self_box, &other_box),
        Some(BounceDirection::Left)
    );
}

#[test]
fn rect_gating_excludes_numerically_smallest() {
    // The bottom-approach depth (1) is the smallest, but the box moves down,
    // so only the top-approach depth (18) is eligible: the bounce is Up, not
    // Down.
    let self_direction = Direction2D { x: 0, y: 1 };
    let self_box = Rect::new(0, 0, 10, 10);
    let other_box = Rect::new(-2, -8, 12, 1);
    assert_eq!(
        collide_with_rect(&self_direction, &self_box, &other_box),
        Some(BounceDirection::Up)
    );
}

#[test]
fn rect_zero_direction_gives_no_bounce() {
    let self_direction = Direction2D { x: 0, y: 0 };
    let self_box = Rect::new(0, 0, 10, 10);
    let other_box = Rect::new(5, 5, 15, 15);
    assert_eq!(collide_with_rect(&self_direction, &self_box, &other_box), None);
}

#[test]
fn rect_two_eligible_smaller_depth_wins() {
    // Moving up-left gates both the bottom-approach depth (3) and the
    // right-approach depth (2); the shallower right-approach wins.
    let self_direction = Direction2D { x: -1, y: -1 };
    let self_box = Rect::new(0, 0, 10, 10);
    let other_box = Rect::new(-9, -8, 2, 3);
    assert_eq!(
        collide_with_rect(&self_direction, &self_box, &other_box),
        Some(BounceDirection::Right)
    );
}

#[test]
fn rect_tie_prefers_down() {
    // Bottom and right depths are both 3 and both eligible when moving
    // up-left; the tie goes to Down.
    let self_direction = Direction2D { x: -1, y: -1 };
    let self_box = Rect::new(0, 0, 10, 10);
    let other_box = Rect::new(-8, -8, 3, 3);
    assert_eq!(
        collide_with_rect(&self_direction, &self_box, &other_box),
        Some(BounceDirection::Down)
    );
}

#[test]
fn rect_touching_edges_counts_as_intersecting() {
    // The moving box's right edge exactly touches the other box's left edge:
    // depth zero, eligible under rightward motion.
    let self_direction = Direction2D { x: 1, y: 0 };
    let self_box = Rect::new(0, 0, 10, 10);
    let other_box = Rect::new(10, 0, 20, 10);
    assert_eq!(
        collide_with_rect(&self_direction, &self_box, &other_box),
        Some(BounceDirection::Left)
    );
}
