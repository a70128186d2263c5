use shape_editor::custom_shape::PathBuilder;
use shape_editor::editor::ShapeHandle;
use shape_editor::keyboard_input::{handle_keyboard_input, handle_layer_change, KeyPresses};
use shape_editor::overlap_order::{
    apply_overlap_order, calculate_overlap_order, ChangedOrderEvent, OrderError, OrderedShapes,
    ShapeBase,
};

fn h(id: u64) -> ShapeHandle {
    ShapeHandle { id }
}

fn ids(o: &OrderedShapes) -> Vec<u64> {
    o.handles().iter().map(|s| s.id).collect()
}

fn order_of(hs: &[u64]) -> OrderedShapes {
    let mut o = OrderedShapes::new();
    for &i in hs {
        o.push_top(h(i));
    }
    o
}

#[test]
fn push_keeps_each_shape_once() {
    let mut o = OrderedShapes::new();
    assert!(o.push_top(h(1)));
    assert!(o.push_top(h(2)));
    assert!(!o.push_top(h(1)));
    assert_eq!(ids(&o), vec![1, 2]);
}

#[test]
fn move_step_swaps_with_neighbour() {
    let mut o = order_of(&[1, 2, 3]);
    assert_eq!(o.move_step(h(1), true), Ok(()));
    assert_eq!(ids(&o), vec![2, 1, 3]);
    assert_eq!(o.move_step(h(3), false), Ok(()));
    assert_eq!(ids(&o), vec![2, 3, 1]);
}

#[test]
fn move_step_at_boundary_changes_nothing() {
    let mut o = order_of(&[1, 2, 3]);
    assert_eq!(o.move_step(h(3), true), Ok(()));
    assert_eq!(ids(&o), vec![1, 2, 3]);
    assert_eq!(o.move_step(h(1), false), Ok(()));
    assert_eq!(ids(&o), vec![1, 2, 3]);
}

#[test]
fn remove_keeps_the_others_in_order() {
    let mut o = order_of(&[4, 5, 6, 7]);
    assert_eq!(o.remove(h(5)), Ok(()));
    assert_eq!(ids(&o), vec![4, 6, 7]);
    assert_eq!(o.position(h(7)), Some(2));
    assert_eq!(o.position(h(5)), None);
}

#[test]
fn unknown_shape_is_not_found() {
    let mut o = order_of(&[1]);
    assert_eq!(o.remove(h(9)), Err(OrderError::NotFound(h(9))));
    assert_eq!(o.move_step(h(9), true), Err(OrderError::NotFound(h(9))));
    let mut empty = OrderedShapes::new();
    assert_eq!(empty.move_step(h(1), false), Err(OrderError::NotFound(h(1))));
    assert_eq!(ids(&o), vec![1]);
}

#[test]
fn mixed_operations_leave_live_shapes_once() {
    let mut o = OrderedShapes::new();
    o.push_top(h(1));
    o.push_top(h(2));
    o.push_top(h(3));
    o.move_step(h(1), true).unwrap();
    o.remove(h(2)).unwrap();
    o.push_top(h(2));
    o.push_top(h(3));
    o.move_step(h(2), false).unwrap();
    assert_eq!(ids(&o), vec![1, 2, 3]);
}

#[test]
fn frame_registers_new_shapes_then_applies_changes() {
    let mut o = order_of(&[1]);
    let changes = vec![
        ChangedOrderEvent { entity: h(3), change_up: false, removed: false },
        ChangedOrderEvent { entity: h(1), change_up: true, removed: true },
    ];
    assert_eq!(calculate_overlap_order(&mut o, &vec![h(2), h(3)], &changes), Ok(()));
    assert_eq!(ids(&o), vec![3, 2]);
}

#[test]
fn frame_with_unknown_shape_applies_no_change() {
    let mut o = order_of(&[1, 2]);
    let changes = vec![
        ChangedOrderEvent { entity: h(1), change_up: true, removed: false },
        ChangedOrderEvent { entity: h(8), change_up: true, removed: false },
    ];
    assert_eq!(
        calculate_overlap_order(&mut o, &vec![h(3)], &changes),
        Err(OrderError::NotFound(h(8)))
    );
    assert_eq!(ids(&o), vec![1, 2, 3]);
}

#[test]
fn depths_follow_the_order() {
    let o = order_of(&[7, 5, 6]);
    let mut shapes = vec![
        ShapeBase { handle: h(5), depth: 0 },
        ShapeBase { handle: h(6), depth: 0 },
        ShapeBase { handle: h(9), depth: 42 },
        ShapeBase { handle: h(7), depth: 3 },
    ];
    assert_eq!(apply_overlap_order(&o, &mut shapes), Ok(()));
    let depths: Vec<usize> = shapes.iter().map(|s| s.depth).collect();
    assert_eq!(depths, vec![1, 2, 42, 0]);
}

#[test]
fn depths_need_every_ordered_shape() {
    let o = order_of(&[1, 2]);
    let mut shapes = vec![ShapeBase { handle: h(1), depth: 5 }];
    assert_eq!(apply_overlap_order(&o, &mut shapes), Err(OrderError::NotFound(h(2))));
    assert_eq!(shapes[0].depth, 5);
}

#[test]
fn delete_removes_selected_and_escape_cancels() {
    let mut b = PathBuilder::new();
    b.begin(shape_editor::geometry::Point::new(0, 0));
    let keys = KeyPresses { delete: true, escape: true, page_up: false, page_down: false };
    let events = handle_keyboard_input(keys, &vec![h(4), h(2)], &mut b);
    assert_eq!(
        events,
        vec![
            ChangedOrderEvent { entity: h(4), change_up: false, removed: true },
            ChangedOrderEvent { entity: h(2), change_up: false, removed: true },
        ]
    );
    assert!(b.active.is_none());
    let none = KeyPresses { delete: false, escape: false, page_up: false, page_down: false };
    assert!(handle_keyboard_input(none, &vec![h(4)], &mut b).is_empty());
}

#[test]
fn page_keys_step_the_selected_shape() {
    let up = KeyPresses { delete: false, escape: false, page_up: true, page_down: false };
    let down = KeyPresses { delete: false, escape: false, page_up: false, page_down: true };
    let both = KeyPresses { delete: false, escape: false, page_up: true, page_down: true };
    assert_eq!(
        handle_layer_change(up, Some(h(3))),
        Some(ChangedOrderEvent { entity: h(3), change_up: true, removed: false })
    );
    assert_eq!(
        handle_layer_change(down, Some(h(3))),
        Some(ChangedOrderEvent { entity: h(3), change_up: false, removed: false })
    );
    assert_eq!(handle_layer_change(both, Some(h(3))), None);
    assert_eq!(handle_layer_change(up, None), None);
}
