use raytracer::hit::{nearest_hit, pick_root, Hit, Roots, Side};

#[test]
fn roots_come_nearer_first() {
    let r = Roots::new(9, 4);
    assert_eq!(r.near(), 4);
    assert_eq!(r.far(), 9);
    assert_eq!(r.key(Side::Near), 4);
    assert_eq!(r.key(Side::Far), 9);
}

#[test]
fn near_root_is_preferred() {
    let r = Roots::new(10, 20);
    assert_eq!(pick_root(&r, 5, 100), Some(Side::Near));
}

#[test]
fn far_root_when_near_is_behind() {
    let r = Roots::new(10, 20);
    assert_eq!(pick_root(&r, 15, 100), Some(Side::Far));
}

#[test]
fn no_root_inside_interval() {
    let r = Roots::new(10, 20);
    assert_eq!(pick_root(&r, 20, 100), None);
    assert_eq!(pick_root(&r, 0, 10), None);
    assert_eq!(pick_root(&r, 11, 19), None);
}

#[test]
fn interval_ends_are_excluded() {
    let r = Roots::new(10, 20);
    // t == t_min is not a hit; the far root then is.
    assert_eq!(pick_root(&r, 10, 100), Some(Side::Far));
    // t == t_max is not a hit either.
    assert_eq!(pick_root(&r, 0, 10), None);
    assert_eq!(pick_root(&r, 10, 20), None);
}

#[test]
fn nearest_of_overlapping_members() {
    let members = vec![Some(Roots::new(30, 50)), None, Some(Roots::new(20, 60)), Some(Roots::new(40, 45))];
    let h = nearest_hit(&members, 1, 1000);
    assert_eq!(h, Some(Hit { index: 2, side: Side::Near, t: 20 }));
}

#[test]
fn nearest_is_the_same_in_any_order() {
    let a = Some(Roots::new(30, 50));
    let b = Some(Roots::new(20, 60));
    let c = Some(Roots::new(40, 45));
    let orders = vec![
        vec![a, b, c],
        vec![a, c, b],
        vec![b, a, c],
        vec![b, c, a],
        vec![c, a, b],
        vec![c, b, a],
    ];
    for order in orders.iter() {
        let h = nearest_hit(order, 1, 1000).unwrap();
        assert_eq!(h.t, 20);
        assert_eq!(h.side, Side::Near);
    }
}

#[test]
fn far_root_of_enclosing_member_can_be_nearest() {
    // The ray starts inside the first member: only its far root counts.
    let members = vec![Some(Roots::new(0, 80)), Some(Roots::new(90, 95))];
    let h = nearest_hit(&members, 5, 1000);
    assert_eq!(h, Some(Hit { index: 0, side: Side::Far, t: 80 }));
}

#[test]
fn equal_keys_go_to_the_first_member() {
    let members = vec![None, Some(Roots::new(7, 9)), Some(Roots::new(7, 8))];
    let h = nearest_hit(&members, 1, 100);
    assert_eq!(h, Some(Hit { index: 1, side: Side::Near, t: 7 }));
}

#[test]
fn nothing_within_bounds_is_no_hit() {
    let members = vec![Some(Roots::new(1, 2)), Some(Roots::new(200, 300)), None];
    assert_eq!(nearest_hit(&members, 5, 100), None);
    let empty: Vec<Option<Roots>> = Vec::new();
    assert_eq!(nearest_hit(&empty, 0, u32::MAX), None);
}

#[test]
fn upper_bound_limits_the_scan() {
    let members = vec![Some(Roots::new(50, 60))];
    assert_eq!(nearest_hit(&members, 0, 50), None);
    assert_eq!(nearest_hit(&members, 0, 51), Some(Hit { index: 0, side: Side::Near, t: 50 }));
}
