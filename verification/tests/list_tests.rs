use swoosh::action::Action;
use swoosh::components::Component;
use swoosh::keymap::Keymap;
use swoosh::keys::{KeyChord, KeyCode, CONTROL, SHIFT};
use swoosh::list::ImageList;
use swoosh::value::{ImageInfo, ImageStatus};
use swoosh::{Event, Mode};

fn image(name: &str) -> ImageInfo {
    ImageInfo::from_parts(
        format!("/pictures/{name}.png"),
        format!("{name}.png"),
        String::from("1 B"),
        ImageStatus::Queued,
    )
}

fn list_of(names: &[&str]) -> ImageList {
    let mut list = ImageList::new();
    for name in names {
        list.add_image(image(name));
    }
    list
}

fn names(list: &ImageList) -> Vec<String> {
    list.image_data().iter().map(|info| info.filename.clone()).collect()
}

fn home_keymap() -> Keymap {
    let mut keymap = Keymap::new();
    keymap.bind(Mode::Home, vec![KeyChord::plain(KeyCode::Char('j'))], Action::Down);
    keymap.bind(Mode::Home, vec![KeyChord::plain(KeyCode::Char('k'))], Action::Up);
    keymap.bind(Mode::Home, vec![KeyChord::new(KeyCode::Down, SHIFT)], Action::ShiftDown);
    keymap.bind(Mode::Home, vec![KeyChord::new(KeyCode::Up, SHIFT)], Action::ShiftUp);
    keymap.bind(Mode::Home, vec![KeyChord::plain(KeyCode::Char(' '))], Action::Select);
    keymap.bind(Mode::Home, vec![KeyChord::new(KeyCode::Char(' '), CONTROL)], Action::Select);
    keymap.bind(Mode::Home, vec![KeyChord::new(KeyCode::Char(' '), SHIFT)], Action::Select);
    keymap.bind(Mode::Home, vec![KeyChord::plain(KeyCode::Delete)], Action::Delete);
    keymap
}

#[test]
fn new_list_is_empty_without_cursor() {
    let list = ImageList::new();
    assert_eq!(list.len(), 0);
    assert!(list.is_empty());
    assert_eq!(list.cursor(), None);
    assert_eq!(list.anchor(), None);
    assert_eq!(list.selected_count(), 0);
}

#[test]
fn first_added_image_gets_the_cursor() {
    let mut list = ImageList::new();
    list.add_image(image("a"));
    assert_eq!(list.cursor(), Some(0));
    list.add_image(image("b"));
    list.add_image(image("c"));
    assert_eq!(list.cursor(), Some(0));
    assert_eq!(names(&list), vec!["a.png", "b.png", "c.png"]);
}

#[test]
fn cursor_stops_at_both_ends() {
    let mut list = list_of(&["a", "b", "c"]);
    list.cursor_up();
    assert_eq!(list.cursor(), Some(0));
    list.cursor_down();
    list.cursor_down();
    assert_eq!(list.cursor(), Some(2));
    list.cursor_down();
    assert_eq!(list.cursor(), Some(2));
    list.cursor_up();
    assert_eq!(list.cursor(), Some(1));
}

#[test]
fn cursor_moves_do_nothing_on_empty_list() {
    let mut list = ImageList::new();
    list.cursor_down();
    list.cursor_up();
    list.extend_down();
    list.extend_up();
    list.delete_selected();
    list.select_at_cursor(KeyChord::plain(KeyCode::Enter));
    assert_eq!(list.cursor(), None);
    assert_eq!(list.selected_count(), 0);
    assert_eq!(list.anchor(), None);
}

#[test]
fn extend_down_twice_then_delete() {
    let mut list = list_of(&["A", "B", "C", "D"]);
    assert_eq!(list.cursor(), Some(0));
    list.extend_down();
    assert_eq!(list.anchor(), Some(0));
    assert_eq!(list.cursor(), Some(1));
    assert_eq!(list.selected_indices(), vec![0]);
    list.extend_down();
    assert_eq!(list.anchor(), Some(1));
    assert_eq!(list.cursor(), Some(2));
    assert_eq!(list.selected_indices(), vec![0, 1]);
    list.delete_selected();
    assert_eq!(names(&list), vec!["C.png", "D.png"]);
    assert_eq!(list.cursor(), Some(0));
    assert_eq!(list.selected_indices(), Vec::<usize>::new());
    assert_eq!(list.anchor(), None);
}

#[test]
fn deleting_three_selected_of_four_leaves_the_last() {
    let mut list = list_of(&["A", "B", "C", "D"]);
    list.extend_down();
    list.extend_down();
    list.extend_selection(2);
    assert_eq!(list.selected_indices(), vec![0, 1, 2]);
    assert_eq!(list.cursor(), Some(2));
    list.delete_selected();
    assert_eq!(names(&list), vec!["D.png"]);
    assert_eq!(list.cursor(), Some(0));
    assert_eq!(list.selected_count(), 0);
}

#[test]
fn control_select_toggles() {
    let mut list = list_of(&["A", "B", "C"]);
    list.cursor_down();
    assert_eq!(list.cursor(), Some(1));
    let chord = KeyChord::new(KeyCode::Char(' '), CONTROL);
    list.select_at_cursor(chord);
    assert_eq!(list.selected_indices(), vec![1]);
    assert_eq!(list.anchor(), Some(1));
    list.select_at_cursor(chord);
    assert_eq!(list.selected_indices(), Vec::<usize>::new());
    assert_eq!(list.anchor(), Some(1));
}

#[test]
fn plain_select_replaces_the_selection() {
    let mut list = list_of(&["A", "B", "C", "D"]);
    list.extend_selection(2);
    list.extend_selection(0);
    assert_eq!(list.selected_indices(), vec![0, 1, 2]);
    list.cursor_down();
    assert_eq!(list.selected_count(), 0);
    list.extend_selection(3);
    list.extend_selection(2);
    assert_eq!(list.selected_indices(), vec![2, 3]);
    list.select_at_cursor(KeyChord::plain(KeyCode::Enter));
    assert_eq!(list.selected_indices(), vec![1]);
    assert_eq!(list.anchor(), Some(1));
}

#[test]
fn shift_select_spans_anchor_to_cursor() {
    let mut list = list_of(&["A", "B", "C", "D", "E"]);
    list.select_at_cursor(KeyChord::plain(KeyCode::Enter));
    list.cursor_down();
    list.cursor_down();
    list.cursor_down();
    assert_eq!(list.selected_indices(), vec![0]);
    list.select_at_cursor(KeyChord::new(KeyCode::Enter, SHIFT));
    assert_eq!(list.selected_indices(), vec![0, 1, 2, 3]);
    assert_eq!(list.anchor(), Some(3));
}

#[test]
fn shift_select_without_anchor_selects_the_cursor_row() {
    let mut list = list_of(&["A", "B", "C"]);
    list.cursor_down();
    list.select_at_cursor(KeyChord::new(KeyCode::Enter, SHIFT));
    assert_eq!(list.selected_indices(), vec![1]);
    assert_eq!(list.anchor(), Some(1));
}

#[test]
fn shift_wins_over_control() {
    let mut list = list_of(&["A", "B", "C"]);
    list.select_at_cursor(KeyChord::plain(KeyCode::Enter));
    list.cursor_down();
    list.cursor_down();
    list.select_at_cursor(KeyChord::new(KeyCode::Enter, SHIFT | CONTROL));
    assert_eq!(list.selected_indices(), vec![0, 1, 2]);
}

#[test]
fn plain_move_collapses_a_multi_selection() {
    let mut list = list_of(&["A", "B", "C", "D"]);
    list.extend_down();
    list.extend_down();
    assert_eq!(list.selected_count(), 2);
    list.cursor_down();
    assert_eq!(list.cursor(), Some(3));
    assert_eq!(list.selected_count(), 0);
    assert_eq!(list.anchor(), None);
}

#[test]
fn plain_move_keeps_a_single_selection() {
    let mut list = list_of(&["A", "B", "C"]);
    list.select_at_cursor(KeyChord::plain(KeyCode::Enter));
    list.cursor_down();
    assert_eq!(list.selected_indices(), vec![0]);
    assert_eq!(list.anchor(), Some(0));
}

#[test]
fn blocked_move_keeps_a_multi_selection() {
    let mut list = list_of(&["A", "B", "C"]);
    list.extend_down();
    list.extend_down();
    assert_eq!(list.cursor(), Some(2));
    list.cursor_down();
    assert_eq!(list.selected_indices(), vec![0, 1]);
}

#[test]
fn extend_down_then_up_returns_the_cursor_and_keeps_members() {
    let mut list = list_of(&["A", "B", "C", "D"]);
    list.cursor_down();
    list.select_at_cursor(KeyChord::plain(KeyCode::Enter));
    list.extend_down();
    list.extend_up();
    assert_eq!(list.cursor(), Some(1));
    assert_eq!(list.selected_indices(), vec![1, 2]);
    assert_eq!(list.anchor(), Some(2));
}

#[test]
fn plain_move_between_extensions_forgets_the_selection() {
    let mut list = list_of(&["A", "B", "C"]);
    list.extend_selection(0);
    list.cursor_down();
    list.select_at_cursor(KeyChord::plain(KeyCode::Enter));
    list.extend_selection(0);
    list.cursor_down();
    assert_eq!(list.selected_count(), 0);
    list.cursor_up();
    list.extend_selection(0);
    list.extend_selection(1);
    list.extend_selection(2);
    assert_eq!(list.selected_indices(), vec![0, 1, 2]);
    assert_eq!(list.cursor(), Some(1));
    list.extend_down();
    assert_eq!(list.cursor(), Some(2));
    list.cursor_up();
    assert_eq!(list.cursor(), Some(1));
    assert_eq!(list.selected_count(), 0);
    assert_eq!(list.anchor(), None);
    list.extend_up();
    assert_eq!(list.cursor(), Some(0));
    assert_eq!(list.selected_indices(), vec![1]);
}

#[test]
fn extend_selection_out_of_range_changes_nothing() {
    let mut list = list_of(&["A", "B"]);
    list.extend_selection(2);
    assert_eq!(list.selected_count(), 0);
    assert_eq!(list.anchor(), None);
}

#[test]
fn delete_without_selection_removes_the_cursor_row() {
    let mut list = list_of(&["A", "B", "C"]);
    list.cursor_down();
    list.delete_selected();
    assert_eq!(names(&list), vec!["A.png", "C.png"]);
    assert_eq!(list.cursor(), Some(1));
    list.delete_selected();
    assert_eq!(names(&list), vec!["A.png"]);
    assert_eq!(list.cursor(), Some(0));
    list.delete_selected();
    assert!(list.is_empty());
    assert_eq!(list.cursor(), None);
}

#[test]
fn delete_scattered_selection_keeps_order() {
    let mut list = list_of(&["A", "B", "C", "D", "E"]);
    list.cursor_down();
    list.cursor_down();
    list.extend_selection(1);
    list.extend_selection(3);
    assert_eq!(list.selected_indices(), vec![1, 2, 3]);
    list.select_at_cursor(KeyChord::new(KeyCode::Char(' '), CONTROL));
    assert_eq!(list.selected_indices(), vec![1, 3]);
    list.delete_selected();
    assert_eq!(names(&list), vec!["A.png", "C.png", "E.png"]);
    assert_eq!(list.cursor(), Some(1));
    assert_eq!(list.selected_count(), 0);
    assert_eq!(list.anchor(), None);
}

#[test]
fn delete_all_selected_empties_list() {
    let mut list = list_of(&["A", "B"]);
    list.extend_selection(0);
    list.extend_selection(1);
    list.delete_selected();
    assert!(list.is_empty());
    assert_eq!(list.cursor(), None);
}

#[test]
fn delete_tail_selection_clamps_cursor() {
    let mut list = list_of(&["A", "B", "C", "D"]);
    list.extend_selection(2);
    list.extend_selection(3);
    list.delete_selected();
    assert_eq!(names(&list), vec!["A.png", "B.png"]);
    assert_eq!(list.cursor(), Some(1));
}

#[test]
fn remove_image_keeps_numbers_and_drops_what_falls_off() {
    let mut list = list_of(&["A", "B", "C"]);
    list.extend_selection(1);
    list.extend_selection(2);
    list.cursor_down();
    list.extend_selection(2);
    assert_eq!(list.selected_indices(), vec![2]);
    list.remove_image(0);
    assert_eq!(names(&list), vec!["B.png", "C.png"]);
    assert_eq!(list.cursor(), Some(1));
    assert_eq!(list.selected_count(), 0);
    assert_eq!(list.anchor(), None);
    list.remove_image(7);
    assert_eq!(list.len(), 2);
}

#[test]
fn remove_selected_images_without_selection_changes_nothing() {
    let mut list = list_of(&["A", "B"]);
    list.cursor_down();
    list.remove_selected_images();
    assert_eq!(names(&list), vec!["A.png", "B.png"]);
    assert_eq!(list.cursor(), Some(1));
}

#[test]
fn status_update_out_of_range_is_ignored() {
    let mut list = list_of(&["A", "B"]);
    let reply = list.update(Action::UpdateImageStatus { index: 2, status: ImageStatus::Completed });
    assert_eq!(reply, None);
    assert_eq!(list.len(), 2);
    assert_eq!(list.image_data()[0].status, ImageStatus::Queued);
    assert_eq!(list.image_data()[1].status, ImageStatus::Queued);
}

#[test]
fn status_update_touches_one_item_only() {
    let mut list = list_of(&["A", "B", "C"]);
    list.update(Action::UpdateImageStatus {
        index: 1,
        status: ImageStatus::Error(String::from("broken")),
    });
    assert_eq!(list.image_data()[0].status, ImageStatus::Queued);
    assert_eq!(list.image_data()[1].status, ImageStatus::Error(String::from("broken")));
    assert_eq!(list.image_data()[1].filename, "B.png");
    assert_eq!(list.image_data()[2].status, ImageStatus::Queued);
    assert_eq!(list.cursor(), Some(0));
}

#[test]
fn clear_images_resets_everything() {
    let mut list = list_of(&["A", "B", "C"]);
    list.extend_down();
    let reply = list.update(Action::ClearImages);
    assert_eq!(reply, None);
    assert!(list.is_empty());
    assert_eq!(list.cursor(), None);
    assert_eq!(list.selected_count(), 0);
    assert_eq!(list.anchor(), None);
}

#[test]
fn other_commands_leave_the_list_alone() {
    let mut list = list_of(&["A", "B"]);
    list.update(Action::Down);
    list.update(Action::Delete);
    list.update(Action::Tick);
    assert_eq!(list.len(), 2);
    assert_eq!(list.cursor(), Some(0));
}

#[test]
fn key_events_drive_the_list() {
    let keymap = home_keymap();
    let mut list = list_of(&["A", "B", "C"]);
    let down = Event::Key(KeyChord::plain(KeyCode::Char('j')));
    assert_eq!(list.handle_events(&keymap, Some(down)), None);
    assert_eq!(list.cursor(), Some(1));
    list.handle_events(&keymap, Some(Event::Key(KeyChord::new(KeyCode::Char(' '), CONTROL))));
    assert_eq!(list.selected_indices(), vec![1]);
    list.handle_events(&keymap, Some(Event::Key(KeyChord::new(KeyCode::Up, SHIFT))));
    assert_eq!(list.cursor(), Some(0));
    assert_eq!(list.selected_indices(), vec![1]);
    list.handle_events(&keymap, Some(Event::Key(KeyChord::new(KeyCode::Down, SHIFT))));
    assert_eq!(list.cursor(), Some(1));
    assert_eq!(list.selected_indices(), vec![0, 1]);
    list.handle_events(&keymap, Some(Event::Key(KeyChord::plain(KeyCode::Delete))));
    assert_eq!(names(&list), vec!["C.png"]);
    assert_eq!(list.cursor(), Some(0));
}

#[test]
fn unbound_keys_and_other_events_are_ignored() {
    let keymap = home_keymap();
    let mut list = list_of(&["A", "B"]);
    list.handle_events(&keymap, Some(Event::Key(KeyChord::plain(KeyCode::Char('x')))));
    list.handle_events(&keymap, Some(Event::Tick));
    list.handle_events(&keymap, Some(Event::Resize(80, 24)));
    list.handle_events(&keymap, None);
    assert_eq!(list.cursor(), Some(0));
    assert_eq!(list.len(), 2);
}

#[test]
fn rows_reflect_cursor_selection_and_status() {
    let mut list = list_of(&["A", "B"]);
    list.update(Action::UpdateImageStatus {
        index: 1,
        status: ImageStatus::Error(String::from("bad file")),
    });
    list.select_at_cursor(KeyChord::plain(KeyCode::Enter));
    list.cursor_down();
    let rows = list.rows();
    assert_eq!(rows.len(), 2);
    assert_eq!(rows[0].filename, "A.png");
    assert_eq!(rows[0].size, "1 B");
    assert_eq!(rows[0].status, "Queued");
    assert!(!rows[0].highlighted);
    assert!(rows[0].selected);
    assert_eq!(rows[1].status, "Error: bad file");
    assert!(rows[1].highlighted);
    assert!(!rows[1].selected);
}
