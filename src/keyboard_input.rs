use vstd::prelude::*;
use crate::custom_shape::PathBuilder;
use crate::editor::ShapeHandle;
use crate::overlap_order::ChangedOrderEvent;

verus! {

/// The keys of the editor that went down this frame.
#[derive(Clone, Copy, Debug, PartialEq, Eq, Structural)]
pub struct KeyPresses {
    pub delete: bool,
    pub escape: bool,
    pub page_up: bool,
    pub page_down: bool,
}

/// The event that drops `h` from the order.
pub open spec fn removal(h: ShapeHandle) -> ChangedOrderEvent {
    ChangedOrderEvent { entity: h, change_up: false, removed: true }
}

/// Delete removes every selected shape: one removal event each, in the
/// order given, for the host to despawn them and for the overlap order.
/// Escape discards the path under construction.
pub fn handle_keyboard_input(
    keys: KeyPresses,
    selected: &Vec<ShapeHandle>,
    builder: &mut PathBuilder,
) -> (r: Vec<ChangedOrderEvent>)
    requires
        old(builder).wf(),
    ensures
        final(builder).wf(),
        keys.delete ==> r@ == selected@.map_values(|h: ShapeHandle| removal(h)),
        !keys.delete ==> r@.len() == 0,
        keys.escape ==> final(builder).active is None && final(builder).drag_start
            == old(builder).drag_start,
        !keys.escape ==> *final(builder) == *old(builder),
{
    let mut events: Vec<ChangedOrderEvent> = Vec::new();
    if keys.delete {
        let mut i: usize = 0;
        while i < selected.len()
            invariant
                i <= selected@.len(),
                events@ == selected@.take(i as int).map_values(|h: ShapeHandle| removal(h)),
            decreases selected@.len() - i,
        {
            events.push(ChangedOrderEvent { entity: selected[i], change_up: false, removed: true });
            assert(selected@.take(i + 1).map_values(|h: ShapeHandle| removal(h)) =~= selected@.take(
                i as int,
            ).map_values(|h: ShapeHandle| removal(h)).push(removal(selected@[i as int])));
            i = i + 1;
        }
        assert(selected@.take(i as int) =~= selected@);
    }
    if keys.escape {
        builder.cancel();
    }
    events
}

/// Page Up moves the selected shape one step up the order, Page Down one
/// step down; both at once, or no selection, do nothing.
pub fn handle_layer_change(keys: KeyPresses, selected: Option<ShapeHandle>) -> (r: Option<
    ChangedOrderEvent,
>)
    ensures
        r == if keys.page_up != keys.page_down && selected is Some {
            Some(
                ChangedOrderEvent { entity: selected.unwrap(), change_up: keys.page_up, removed: false },
            )
        } else {
            None
        },
{
    if keys.page_up == keys.page_down {
        return None;
    }
    match selected {
        Some(e) => Some(ChangedOrderEvent { entity: e, change_up: keys.page_up, removed: false }),
        None => None,
    }
}

} // verus!
