use selectable_list::input::handle_key;
use selectable_list::input::KeyCode;
use selectable_list::input::KeyEvent;
use selectable_list::list::ListError;
use selectable_list::list::SelectableList;

fn four_items() -> SelectableList {
    SelectableList::new(vec!["Item 1", "Item 2", "Item 3", "Item 4"]).unwrap()
}

fn key(code: KeyCode) -> KeyEvent {
    KeyEvent { code, ctrl: false }
}

#[test]
fn construct_builds_unselected_items_with_cursor_at_zero() {
    let list = four_items();
    assert_eq!(list.items.len(), 4);
    assert_eq!(list.selected_index, 0);
    for (i, item) in list.items.iter().enumerate() {
        assert_eq!(item.label, format!("Item {}", i + 1));
        assert!(!item.selected);
    }
}

#[test]
fn construct_rejects_empty_labels() {
    let result = SelectableList::new(vec![]);
    match result {
        Err(e) => assert_eq!(e, ListError::EmptyLabels),
        Ok(_) => panic!("an empty label list must be rejected"),
    }
}

#[test]
fn move_wraps_backward_from_first_to_last() {
    let mut list = four_items();
    list.move_selection(-1);
    assert_eq!(list.selected_index, 3);
}

#[test]
fn move_wraps_forward_from_last_to_first() {
    let mut list = four_items();
    list.selected_index = 3;
    list.move_selection(1);
    assert_eq!(list.selected_index, 0);
}

#[test]
fn move_uses_mathematical_modulo_for_large_offsets() {
    let mut list = four_items();
    list.move_selection(-5);
    assert_eq!(list.selected_index, 3);
    list.move_selection(9);
    assert_eq!(list.selected_index, 0);
    list.move_selection(-8);
    assert_eq!(list.selected_index, 0);
    list.move_selection(i32::MIN);
    assert_eq!(list.selected_index, 0);
    list.move_selection(i32::MAX);
    assert_eq!(list.selected_index, 3);
}

#[test]
fn move_round_trip_restores_cursor() {
    let mut list = four_items();
    list.selected_index = 2;
    for k in [-7, -1, 0, 1, 3, 11] {
        list.move_selection(k);
        list.move_selection(-k);
        assert_eq!(list.selected_index, 2);
    }
}

#[test]
fn repeated_unit_moves_cycle_back_and_stay_in_bounds() {
    let mut list = four_items();
    list.selected_index = 1;
    for _ in 0..4 {
        list.move_selection(1);
        assert!(list.selected_index < list.items.len());
    }
    assert_eq!(list.selected_index, 1);
}

#[test]
fn toggle_twice_restores_and_touches_only_the_cursor_item() {
    let mut list = four_items();
    list.selected_index = 2;
    list.toggle_selected();
    let flags: Vec<bool> = list.items.iter().map(|it| it.selected).collect();
    assert_eq!(flags, vec![false, false, true, false]);
    list.toggle_selected();
    let flags: Vec<bool> = list.items.iter().map(|it| it.selected).collect();
    assert_eq!(flags, vec![false, false, false, false]);
}

#[test]
fn key_sequence_scenario_selects_two_items_and_exits() {
    let mut list = four_items();
    assert!(!handle_key(&mut list, key(KeyCode::Down)));
    assert_eq!(list.selected_index, 1);
    assert!(!handle_key(&mut list, key(KeyCode::Char(' '))));
    assert!(list.items[1].selected);
    assert!(!handle_key(&mut list, key(KeyCode::Up)));
    assert_eq!(list.selected_index, 0);
    assert!(!handle_key(&mut list, key(KeyCode::Enter)));
    assert!(list.items[0].selected);
    assert!(!handle_key(&mut list, key(KeyCode::Tab)));
    assert_eq!(list.selected_index, 1);
    assert!(handle_key(&mut list, key(KeyCode::Char('q'))));
    let flags: Vec<bool> = list.items.iter().map(|it| it.selected).collect();
    assert_eq!(flags, vec![true, true, false, false]);
}

#[test]
fn interrupt_exits_whatever_the_state() {
    let interrupt = KeyEvent { code: KeyCode::Char('c'), ctrl: true };
    let mut list = four_items();
    assert!(handle_key(&mut list, interrupt));
    let mut list = four_items();
    handle_key(&mut list, key(KeyCode::Down));
    handle_key(&mut list, key(KeyCode::Enter));
    assert!(handle_key(&mut list, interrupt));
    assert_eq!(list.selected_index, 1);
    assert!(list.items[1].selected);
}

#[test]
fn escape_exits_and_plain_c_does_not() {
    let mut list = four_items();
    assert!(handle_key(&mut list, key(KeyCode::Esc)));
    assert!(!handle_key(&mut list, key(KeyCode::Char('c'))));
    assert_eq!(list.selected_index, 0);
}

#[test]
fn unmapped_keys_change_nothing() {
    let mut list = four_items();
    assert!(!handle_key(&mut list, key(KeyCode::Other)));
    assert!(!handle_key(&mut list, key(KeyCode::Char('x'))));
    assert_eq!(list.selected_index, 0);
    assert!(list.items.iter().all(|it| !it.selected));
}

#[test]
fn styled_line_marks_cursor_and_selection() {
    let mut list = four_items();
    list.selected_index = 1;
    list.items[2].selected = true;

    let plain = list.styled_line(0);
    assert_eq!(plain.prefix, "  ");
    assert!(!plain.bold);
    assert!(!plain.green);
    assert_eq!(plain.label, "Item 1");

    let cursor_line = list.styled_line(1);
    assert_eq!(cursor_line.prefix, "> ");
    assert!(cursor_line.bold);
    assert!(!cursor_line.green);

    let selected_line = list.styled_line(2);
    assert_eq!(selected_line.prefix, "  ");
    assert!(!selected_line.bold);
    assert!(selected_line.green);

    list.selected_index = 2;
    let selected_cursor_line = list.styled_line(2);
    assert_eq!(selected_cursor_line.prefix, "* ");
    assert!(selected_cursor_line.bold);
    assert!(selected_cursor_line.green);
}

#[test]
fn render_lines_covers_every_item_in_order() {
    let mut list = four_items();
    list.toggle_selected();
    let lines = list.render_lines();
    assert_eq!(lines.len(), 4);
    assert_eq!(lines[0].prefix, "* ");
    assert!(lines[0].bold);
    assert!(lines[0].green);
    for (i, line) in lines.iter().enumerate() {
        assert_eq!(line.label, format!("Item {}", i + 1));
        if i > 0 {
            assert_eq!(line.prefix, "  ");
            assert!(!line.bold);
            assert!(!line.green);
        }
    }
}
