use live_list::state::{ListError, Notification, State};
use live_list::ListItem;

fn item(title: &str, subtitle: &str) -> ListItem {
    ListItem::new(title.to_string(), subtitle.to_string())
}

#[test]
fn two_appends_keep_their_items() {
    let mut state = State::new();
    assert!(state.append(item("Item 0", "Subtitle")).is_ok());
    assert!(state.append(item("Item 1", "Subtitle")).is_ok());
    assert_eq!(state.len(), 2);
    assert_eq!(state.get(0).unwrap().title(), "Item 0");
    assert_ne!(state.get(1).unwrap().title(), "Subtitle");
    assert_eq!(state.get(1).unwrap().title(), "Item 1");
    assert_eq!(state.get(1).unwrap().subtitle(), "Subtitle");
}

#[test]
fn appended_items_never_change() {
    let mut state = State::new();
    for n in 0..5 {
        state.append(item(&format!("t{}", n), &format!("s{}", n))).unwrap();
        assert_eq!(state.len(), n + 1);
        for i in 0..=n {
            let got = state.get(i).unwrap();
            assert_eq!(got.title(), format!("t{}", i));
            assert_eq!(got.subtitle(), format!("s{}", i));
        }
    }
}

#[test]
fn get_past_the_end_is_out_of_range() {
    let mut state = State::new();
    assert_eq!(state.get(0).err(), Some(ListError::IndexOutOfRange));
    state.add_item().unwrap();
    assert!(state.get(0).is_ok());
    assert_eq!(state.get(1).err(), Some(ListError::IndexOutOfRange));
    assert_eq!(state.get(usize::MAX).err(), Some(ListError::IndexOutOfRange));
}

#[test]
fn add_item_numbers_after_the_length() {
    let mut state = State::new();
    for _ in 0..12 {
        state.add_item().unwrap();
    }
    assert_eq!(state.len(), 12);
    assert_eq!(state.get(0).unwrap().title(), "Item 0");
    assert_eq!(state.get(10).unwrap().title(), "Item 10");
    assert_eq!(state.get(11).unwrap().title(), "Item 11");
    assert_eq!(state.get(11).unwrap().subtitle(), "Subtitle");
}

#[test]
fn numbered_item_writes_the_count_in_decimal() {
    let it = ListItem::numbered(1207);
    assert_eq!(it.title(), "Item 1207");
    assert_eq!(it.subtitle(), "Subtitle");
    assert_eq!(ListItem::numbered(0).title(), "Item 0");
}

#[test]
fn interleaved_callers_lose_and_duplicate_nothing() {
    let mut state = State::new();
    state.append(item("ui", "click")).unwrap();
    state.add_item().unwrap();
    state.append(item("ui", "click again")).unwrap();
    state.add_item().unwrap();
    state.add_item().unwrap();
    assert_eq!(state.len(), 5);
    let titles: Vec<String> = (0..5).map(|i| state.get(i).unwrap().title().to_string()).collect();
    assert_eq!(titles, vec!["ui", "Item 1", "ui", "Item 3", "Item 4"]);
    assert_eq!(state.get(0).unwrap().subtitle(), "click");
    assert_eq!(state.get(2).unwrap().subtitle(), "click again");
}

#[test]
fn each_append_notifies_each_subscriber_once() {
    let mut state = State::new();
    assert_eq!(state.append(item("a", "b")).unwrap(), Vec::<Notification>::new());
    let first = state.subscribe().unwrap();
    let second = state.subscribe().unwrap();
    assert_eq!(first.id, 0);
    assert_eq!(second.id, 1);
    let sent = state.add_item().unwrap();
    assert_eq!(
        sent,
        vec![Notification { subscriber: 0, length: 2 }, Notification { subscriber: 1, length: 2 }]
    );
    let sent = state.append(item("c", "d")).unwrap();
    assert_eq!(sent.len(), 2);
    assert!(sent.iter().all(|n| n.length == 3));
}

#[test]
fn closed_list_refuses_appends_and_keeps_its_items() {
    let mut state = State::new();
    state.add_item().unwrap();
    assert!(state.is_open());
    state.close();
    assert!(!state.is_open());
    assert_eq!(state.append(item("x", "y")), Err(ListError::MutationUnreachable));
    assert_eq!(state.add_item(), Err(ListError::MutationUnreachable));
    assert_eq!(state.len(), 1);
    assert_eq!(state.get(0).unwrap().title(), "Item 0");
}

#[test]
fn snapshot_copies_the_items_in_order() {
    let mut state = State::new();
    state.add_item().unwrap();
    state.append(item("b", "c")).unwrap();
    let snap = state.snapshot();
    state.add_item().unwrap();
    assert_eq!(snap.len(), 2);
    assert_eq!(snap[0].title(), "Item 0");
    assert_eq!(snap[1].title(), "b");
    assert_eq!(snap[1].subtitle(), "c");
}

#[test]
fn items_compare_by_value() {
    assert_eq!(ListItem::numbered(7), item("Item 7", "Subtitle"));
    assert_ne!(ListItem::numbered(7), item("Item 7", "Other"));
    assert_ne!(item("a", "b"), item("b", "b"));
    let mut state = State::new();
    let x = item("x", "y");
    state.append(x.clone()).unwrap();
    assert_eq!(state.get(0).unwrap(), x);
    assert_eq!(format!("{:?}", x), "ListItem { title: \"x\", subtitle: \"y\" }");
}

#[test]
fn many_shared_path_appends_number_each_by_its_index() {
    let mut state = State::new();
    for n in 0..200 {
        state.add_item().unwrap();
        assert_eq!(state.len(), n + 1);
    }
    for i in 0..200 {
        assert_eq!(state.get(i).unwrap(), ListItem::numbered(i));
        assert_eq!(state.get(i).unwrap().title(), format!("Item {}", i));
    }
}
