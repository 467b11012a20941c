use custom_widget::dragdrop_list::{rearrange, remove_by_index, WidgetId};

#[test]
fn payloads_shift_but_handles_stay() {
    let mut v = vec![
        (Some(WidgetId(7)), "A"),
        (None, "B"),
        (Some(WidgetId(9)), "C"),
        (Some(WidgetId(11)), "D"),
    ];
    rearrange(0, 2, &mut v);
    // the payloads moved exactly as in the plain list...
    let values: Vec<&str> = v.iter().map(|slot| slot.1).collect();
    assert_eq!(values, vec!["B", "C", "A", "D"]);
    // ...while every cached widget handle stayed on its slot
    let handles: Vec<Option<WidgetId>> = v.iter().map(|slot| slot.0).collect();
    assert_eq!(
        handles,
        vec![Some(WidgetId(7)), None, Some(WidgetId(9)), Some(WidgetId(11))]
    );
}

#[test]
fn slot_backward_move() {
    let mut v = vec![
        (Some(WidgetId(1)), 10u32),
        (Some(WidgetId(2)), 20),
        (Some(WidgetId(3)), 30),
        (Some(WidgetId(4)), 40),
    ];
    rearrange(3, 1, &mut v);
    let values: Vec<u32> = v.iter().map(|slot| slot.1).collect();
    assert_eq!(values, vec![10, 40, 20, 30]);
    let handles: Vec<Option<WidgetId>> = v.iter().map(|slot| slot.0).collect();
    assert_eq!(
        handles,
        vec![
            Some(WidgetId(1)),
            Some(WidgetId(2)),
            Some(WidgetId(3)),
            Some(WidgetId(4))
        ]
    );
}

#[test]
fn slot_same_slot_is_identity() {
    let mut v = vec![(Some(WidgetId(1)), "A"), (None, "B")];
    rearrange(1, 1, &mut v);
    assert_eq!(v, vec![(Some(WidgetId(1)), "A"), (None, "B")]);
}

#[test]
fn slot_removal_returns_payload() {
    let mut v = vec![
        (Some(WidgetId(1)), "A"),
        (Some(WidgetId(2)), "B"),
        (Some(WidgetId(3)), "C"),
    ];
    let removed = remove_by_index(1, &mut v);
    assert_eq!(removed, "B");
    // the whole slot leaves, cached handle included
    assert_eq!(v, vec![(Some(WidgetId(1)), "A"), (Some(WidgetId(3)), "C")]);
}
