use live_list::state::{ListError, State};
use live_list::{Main, WindowState};

fn state_with(n: usize) -> State {
    let mut state = State::new();
    for _ in 0..n {
        state.add_item().unwrap();
    }
    state
}

#[test]
fn rebuilt_window_covers_every_item() {
    let state = state_with(3);
    let window: WindowState<u32> = WindowState::rebuild(&state);
    assert_eq!(window.len(), 3);
    assert_eq!(window.scroll_offset(), &None);
    let rows = window.render_range(0, window.len(), |it| format!("<{}|{}>", it.title(), it.subtitle())).unwrap();
    assert_eq!(rows, vec!["<Item 0|Subtitle>", "<Item 1|Subtitle>", "<Item 2|Subtitle>"]);
}

#[test]
fn render_range_past_the_end_fails() {
    let state = state_with(3);
    let window: WindowState<u32> = WindowState::rebuild(&state);
    assert_eq!(window.render_range(1, 2, |it| it.title().len()).unwrap(), vec![6, 6]);
    assert_eq!(window.render_range(3, 0, |it| it.title().len()).unwrap(), Vec::<usize>::new());
    assert_eq!(window.render_range(2, 2, |it| it.title().len()), Err(ListError::IndexOutOfRange));
    assert_eq!(window.render_range(4, 0, |it| it.title().len()), Err(ListError::IndexOutOfRange));
    assert_eq!(window.render_range(1, usize::MAX, |it| it.title().len()), Err(ListError::IndexOutOfRange));
}

#[test]
fn materialize_checks_the_index() {
    let state = state_with(2);
    let window: WindowState<u32> = WindowState::rebuild(&state);
    assert_eq!(window.materialize(1).unwrap().title(), "Item 1");
    assert_eq!(window.materialize(2).err(), Some(ListError::IndexOutOfRange));
}

#[test]
fn window_is_a_snapshot() {
    let mut state = state_with(2);
    let window: WindowState<u32> = WindowState::rebuild(&state);
    state.add_item().unwrap();
    assert_eq!(window.len(), 2);
    assert_eq!(window.materialize(2).err(), Some(ListError::IndexOutOfRange));
}

#[test]
fn scroll_position_survives_an_append() {
    let mut state = state_with(3);
    let mut main: Main<(usize, i64)> = Main::new(&state);
    let offset_a = (1, -7);
    main.scroll_to(offset_a);
    state.add_item().unwrap();
    assert!(main.on_collection_changed(&state));
    assert_eq!(main.window().len(), 4);
    assert_eq!(main.window().scroll_offset(), &Some(offset_a));
    assert_eq!(main.window().materialize(3).unwrap().title(), "Item 3");
}

#[test]
fn unset_scroll_position_stays_unset() {
    let mut state = state_with(1);
    let mut main: Main<u8> = Main::new(&state);
    state.add_item().unwrap();
    assert!(main.on_collection_changed(&state));
    assert_eq!(main.window().len(), 2);
    assert_eq!(main.window().scroll_offset(), &None);
}

#[test]
fn scroll_position_survives_many_appends() {
    let mut state = State::new();
    let mut main: Main<u64> = Main::new(&state);
    assert_eq!(main.window().len(), 0);
    main.scroll_to(42);
    for n in 1..=6 {
        state.add_item().unwrap();
        assert!(main.on_collection_changed(&state));
        assert_eq!(main.window().len(), n);
        assert_eq!(main.window().scroll_offset(), &Some(42));
    }
    main.scroll_to(7);
    state.add_item().unwrap();
    assert!(main.on_collection_changed(&state));
    assert_eq!(main.window().scroll_offset(), &Some(7));
}

#[test]
fn take_scroll_offset_leaves_it_unset() {
    let state = state_with(1);
    let mut window: WindowState<u8> = WindowState::rebuild(&state);
    window.scroll_to(3);
    assert_eq!(window.take_scroll_offset(), Some(3));
    assert_eq!(window.scroll_offset(), &None);
}
