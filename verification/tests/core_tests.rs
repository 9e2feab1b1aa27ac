use cli_chat::state::SendRequest;
use cli_chat::{Core, Effect, Event, Key, MenuItem, Mode};

fn press(core: &mut Core, k: Key, room_len: usize, friend_len: usize) -> Effect {
    core.step(Event::Input(k), room_len, friend_len)
}

#[test]
fn starts_in_normal_mode_on_home() {
    let core = Core::new(3, 2);
    assert_eq!(core.mode(), Mode::Normal);
    assert_eq!(core.menu(), MenuItem::Home);
    assert_eq!(core.room_cursor(), Some(0));
    assert_eq!(core.friend_cursor(), Some(0));
    assert_eq!(core.buffer().len(), 0);
}

#[test]
fn empty_collections_leave_cursors_unset() {
    let mut core = Core::new(0, 0);
    assert_eq!(core.room_cursor(), None);
    assert_eq!(core.friend_cursor(), None);
    press(&mut core, Key::Down, 0, 0);
    press(&mut core, Key::Up, 0, 0);
    assert_eq!(core.room_cursor(), None);
    assert_eq!(core.friend_cursor(), None);
}

#[test]
fn down_clamps_at_last_room() {
    // rooms = [A, B, C], cursor starts at 0
    let mut core = Core::new(3, 0);
    press(&mut core, Key::Down, 3, 0);
    press(&mut core, Key::Down, 3, 0);
    press(&mut core, Key::Down, 3, 0);
    assert_eq!(core.room_cursor(), Some(2));
    press(&mut core, Key::Down, 3, 0);
    assert_eq!(core.room_cursor(), Some(2));
}

#[test]
fn up_clamps_at_first_room() {
    let mut core = Core::new(3, 0);
    press(&mut core, Key::Down, 3, 0);
    press(&mut core, Key::Up, 3, 0);
    assert_eq!(core.room_cursor(), Some(0));
    press(&mut core, Key::Up, 3, 0);
    assert_eq!(core.room_cursor(), Some(0));
}

#[test]
fn one_key_moves_both_cursors() {
    let mut core = Core::new(3, 3);
    press(&mut core, Key::Down, 3, 3);
    assert_eq!(core.room_cursor(), Some(1));
    assert_eq!(core.friend_cursor(), Some(1));
}

#[test]
fn menu_keys_pick_tabs() {
    let mut core = Core::new(1, 1);
    press(&mut core, Key::Char('c'), 1, 1);
    assert_eq!(core.menu(), MenuItem::ChatRooms);
    press(&mut core, Key::Char('f'), 1, 1);
    assert_eq!(core.menu(), MenuItem::FriendsList);
    press(&mut core, Key::Char('h'), 1, 1);
    assert_eq!(core.menu(), MenuItem::Home);
}

#[test]
fn insert_key_ignored_outside_chat_rooms() {
    let mut core = Core::new(1, 1);
    assert_eq!(core.menu(), MenuItem::Home);
    press(&mut core, Key::Char('i'), 1, 1);
    assert_eq!(core.mode(), Mode::Normal);
    press(&mut core, Key::Char('f'), 1, 1);
    press(&mut core, Key::Char('i'), 1, 1);
    assert_eq!(core.mode(), Mode::Normal);
}

#[test]
fn insert_key_enters_insert_mode_in_chat_rooms() {
    let mut core = Core::new(1, 1);
    press(&mut core, Key::Char('c'), 1, 1);
    press(&mut core, Key::Char('i'), 1, 1);
    assert_eq!(core.mode(), Mode::Insert);
}

#[test]
fn quit_key_asks_to_quit() {
    let mut core = Core::new(1, 1);
    let eff = press(&mut core, Key::Char('q'), 1, 1);
    assert!(matches!(eff, Effect::Quit));
}

#[test]
fn esc_cancels_and_clears_buffer() {
    let mut core = Core::new(1, 1);
    press(&mut core, Key::Char('c'), 1, 1);
    press(&mut core, Key::Char('i'), 1, 1);
    press(&mut core, Key::Char('x'), 1, 1);
    press(&mut core, Key::Char('y'), 1, 1);
    assert_eq!(core.buffer().len(), 2);
    let eff = press(&mut core, Key::Esc, 1, 1);
    assert!(matches!(eff, Effect::DoNothing));
    assert_eq!(core.mode(), Mode::Normal);
    assert_eq!(core.buffer().len(), 0);
}

#[test]
fn compose_and_submit_sends_once() {
    // MenuItem=Home, `c` -> ChatRooms, `i` -> Insert, "hi", Enter.
    let mut core = Core::new(3, 0);
    press(&mut core, Key::Char('c'), 3, 0);
    assert_eq!(core.menu(), MenuItem::ChatRooms);
    press(&mut core, Key::Char('i'), 3, 0);
    assert_eq!(core.mode(), Mode::Insert);
    let e1 = press(&mut core, Key::Char('h'), 3, 0);
    let e2 = press(&mut core, Key::Char('i'), 3, 0);
    assert!(matches!(e1, Effect::DoNothing));
    assert!(matches!(e2, Effect::DoNothing));
    assert_eq!(core.buffer().text().as_slice(), &['h', 'i']);
    let eff = press(&mut core, Key::Enter, 3, 0);
    match eff {
        Effect::Send(SendRequest { room_index, text }) => {
            assert_eq!(room_index, 0);
            assert_eq!(text.as_slice(), &['h', 'i']);
        },
        _ => panic!("expected a send"),
    }
    assert_eq!(core.mode(), Mode::Normal);
    assert_eq!(core.buffer().len(), 0);
}

#[test]
fn submit_addresses_selected_room() {
    let mut core = Core::new(3, 0);
    press(&mut core, Key::Down, 3, 0);
    press(&mut core, Key::Down, 3, 0);
    press(&mut core, Key::Char('c'), 3, 0);
    press(&mut core, Key::Char('i'), 3, 0);
    press(&mut core, Key::Char('a'), 3, 0);
    let eff = press(&mut core, Key::Enter, 3, 0);
    match eff {
        Effect::Send(req) => assert_eq!(req.room_index, 2),
        _ => panic!("expected a send"),
    }
}

#[test]
fn submit_without_room_sends_nothing_but_clears() {
    let mut core = Core::new(0, 0);
    press(&mut core, Key::Char('c'), 0, 0);
    press(&mut core, Key::Char('i'), 0, 0);
    assert_eq!(core.mode(), Mode::Insert);
    press(&mut core, Key::Char('a'), 0, 0);
    let eff = press(&mut core, Key::Enter, 0, 0);
    assert!(matches!(eff, Effect::DoNothing));
    assert_eq!(core.mode(), Mode::Normal);
    assert_eq!(core.buffer().len(), 0);
}

#[test]
fn line_editing_in_insert_mode() {
    let mut core = Core::new(1, 0);
    press(&mut core, Key::Char('c'), 1, 0);
    press(&mut core, Key::Char('i'), 1, 0);
    press(&mut core, Key::Char('a'), 1, 0);
    press(&mut core, Key::Char('c'), 1, 0);
    // cursor between 'a' and 'c': insert 'b'
    press(&mut core, Key::Left, 1, 0);
    press(&mut core, Key::Char('b'), 1, 0);
    assert_eq!(core.buffer().text().as_slice(), &['a', 'b', 'c']);
    // delete the 'b' again
    press(&mut core, Key::Backspace, 1, 0);
    assert_eq!(core.buffer().text().as_slice(), &['a', 'c']);
    // move right past 'c' and append 'd'
    press(&mut core, Key::Right, 1, 0);
    press(&mut core, Key::Char('d'), 1, 0);
    assert_eq!(core.buffer().text().as_slice(), &['a', 'c', 'd']);
}

#[test]
fn backspace_at_start_does_nothing() {
    let mut core = Core::new(1, 0);
    press(&mut core, Key::Char('c'), 1, 0);
    press(&mut core, Key::Char('i'), 1, 0);
    press(&mut core, Key::Backspace, 1, 0);
    assert_eq!(core.buffer().len(), 0);
    press(&mut core, Key::Char('a'), 1, 0);
    press(&mut core, Key::Left, 1, 0);
    press(&mut core, Key::Backspace, 1, 0);
    assert_eq!(core.buffer().text().as_slice(), &['a']);
}

#[test]
fn ticks_change_nothing() {
    let mut core = Core::new(3, 2);
    press(&mut core, Key::Down, 3, 2);
    press(&mut core, Key::Char('c'), 3, 2);
    for _ in 0..5 {
        let eff = core.step(Event::Tick, 3, 2);
        assert!(matches!(eff, Effect::DoNothing));
    }
    assert_eq!(core.mode(), Mode::Normal);
    assert_eq!(core.menu(), MenuItem::ChatRooms);
    assert_eq!(core.room_cursor(), Some(1));
    assert_eq!(core.friend_cursor(), Some(1));
    assert_eq!(core.buffer().len(), 0);
}

#[test]
fn sync_cursors_clamps_on_shrink() {
    let mut core = Core::new(3, 3);
    press(&mut core, Key::Down, 3, 3);
    press(&mut core, Key::Down, 3, 3);
    assert_eq!(core.room_cursor(), Some(2));
    core.sync_cursors(1, 3);
    assert_eq!(core.room_cursor(), Some(0));
    assert_eq!(core.friend_cursor(), Some(2));
    core.sync_cursors(0, 0);
    assert_eq!(core.room_cursor(), None);
    assert_eq!(core.friend_cursor(), None);
    core.sync_cursors(4, 4);
    assert_eq!(core.room_cursor(), Some(0));
    assert_eq!(core.friend_cursor(), Some(0));
}

#[test]
fn menu_tabs_are_numbered_left_to_right() {
    assert_eq!(MenuItem::Home.index(), 0);
    assert_eq!(MenuItem::ChatRooms.index(), 1);
    assert_eq!(MenuItem::FriendsList.index(), 2);
}

#[test]
fn unhandled_keys_are_ignored() {
    let mut core = Core::new(2, 2);
    let eff = press(&mut core, Key::Other, 2, 2);
    assert!(matches!(eff, Effect::DoNothing));
    let eff = press(&mut core, Key::Char('z'), 2, 2);
    assert!(matches!(eff, Effect::DoNothing));
    assert_eq!(core.mode(), Mode::Normal);
    assert_eq!(core.menu(), MenuItem::Home);
    assert_eq!(core.room_cursor(), Some(0));
}
