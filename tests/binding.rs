use kifs_raymarching::binding::{binding_indices, fixed_entry_slots, layout_slots, BindingSlot};

#[test]
fn layout_binds_resources_in_order() {
    let slots = layout_slots(3, &vec!['a', 'b', 'c']);
    assert_eq!(
        slots,
        vec![
            BindingSlot { binding: 0, entry: 'a' },
            BindingSlot { binding: 1, entry: 'b' },
            BindingSlot { binding: 2, entry: 'c' },
        ]
    );
}

#[test]
fn fixed_entry_layout_repeats_entry() {
    let slots = fixed_entry_slots(3, 7u8);
    assert_eq!(slots.len(), 3);
    for (i, slot) in slots.iter().enumerate() {
        assert_eq!(*slot, BindingSlot { binding: i as u32, entry: 7u8 });
    }
    assert!(fixed_entry_slots(0, 7u8).is_empty());
}

#[test]
fn binding_indices_count_up() {
    assert_eq!(binding_indices(3), vec![0, 1, 2]);
    assert!(binding_indices(0).is_empty());
}
