use zombierun::savefiles::SavefilePath;
use zombierun::{App, Game, SelfDestructible, TickAction};

fn two_profile_app() -> App {
    // one Dark Souls III location and one Elden Ring location, as discovery
    // would hand them over
    let paths = SavefilePath::get_all(
        vec![String::from("ds3/DS30000.sl2")],
        vec![String::from("er/ER0000.sl2")],
    );
    App::new(paths)
}

#[test]
fn selector_starts_at_first_discovered_location() {
    let app = two_profile_app();
    let p = app.current_savefile_path();
    assert_eq!(p.game, Game::DarkSoulsIII);
    assert_eq!(p.path, "ds3/DS30000.sl2");
}

#[test]
fn save_appends_selects_and_announces() {
    let mut app = two_profile_app();
    assert!(app.current_savefiles().is_none());
    app.save(vec![1, 2, 3], 1000);
    let h = app.current_savefiles().expect("history exists after save");
    assert_eq!(h.len(), 1);
    assert_eq!(h.index(), 0);
    assert_eq!(h.get().data, vec![1, 2, 3]);
    assert_eq!(h.get().uid, 0);
    assert_eq!(h.get().saved(), 1000);
    assert_eq!(app.message(1000).expect("fresh message").as_str(), "Saved");
    app.save(vec![4], 2000);
    let h = app.current_savefiles().unwrap();
    assert_eq!(h.len(), 2);
    assert_eq!(h.index(), 1);
    assert_eq!(h.get().uid, 1);
}

#[test]
fn capture_does_not_touch_other_games_history() {
    let mut app = two_profile_app();
    // build some Elden Ring state first
    assert!(app.select_path(1));
    app.save(vec![9], 100);
    app.save(vec![8], 200);
    app.save(vec![7], 300);
    assert!(app.select_path(1));
    {
        let er = app.current_savefiles().unwrap();
        assert_eq!(er.len(), 3);
        assert_eq!(er.index(), 2);
    }
    // capture for Dark Souls III
    assert!(app.select_path(0));
    app.save(vec![1], 400);
    // Elden Ring's history length, index and contents are unchanged
    assert!(app.select_path(1));
    let er = app.current_savefiles().unwrap();
    assert_eq!(er.len(), 3);
    assert_eq!(er.index(), 2);
    assert_eq!(er.get_at(0).unwrap().data, vec![9]);
    assert_eq!(er.get_at(1).unwrap().data, vec![8]);
    assert_eq!(er.get_at(2).unwrap().data, vec![7]);
}

#[test]
fn switching_profiles_keeps_each_selection() {
    let mut app = two_profile_app();
    app.save(vec![1], 1);
    app.save(vec![2], 2);
    app.prev_slot();
    assert_eq!(app.current_savefiles().unwrap().index(), 0);
    assert!(app.select_path(1));
    assert!(app.current_savefiles().is_none());
    assert!(app.select_path(0));
    let h = app.current_savefiles().unwrap();
    assert_eq!(h.len(), 2);
    assert_eq!(h.index(), 0);
}

#[test]
fn load_on_missing_or_empty_history_is_a_noop() {
    let mut app = two_profile_app();
    assert!(app.load().is_none());
    assert!(app.load_at(0).is_none());
    app.save(vec![5], 10);
    app.remove_at(0);
    assert!(app.load().is_none());
    assert!(app.message(10).is_some());
}

#[test]
fn capture_then_restore_round_trips_bytes() {
    // discovery found one location per game; the selector starts at index 0,
    // Dark Souls III; a capture followed by a restore hands back the same
    // bytes for the target path.
    let mut app = two_profile_app();
    assert_eq!(app.current_savefile_path().game, Game::DarkSoulsIII);
    let bytes = vec![0xde, 0xad, 0xbe, 0xef];
    app.save(bytes.clone(), 1000);
    let (restored, idx) = app.load().expect("restore has an entry");
    assert_eq!(restored, bytes);
    assert_eq!(idx, 0);
    let again = app.load_at(0).expect("entry 0 exists");
    assert_eq!(again, bytes);
    app.confirm_restored(idx, 2000);
    assert_eq!(
        app.message(2000).expect("fresh message").as_str(),
        "Loaded #000 (Dark Souls III)"
    );
}

#[test]
fn load_uses_the_current_selection() {
    let mut app = two_profile_app();
    app.save(vec![1], 1);
    app.save(vec![2], 2);
    app.save(vec![3], 3);
    app.prev_slot();
    let (restored, idx) = app.load().unwrap();
    assert_eq!(idx, 1);
    assert_eq!(restored, vec![2]);
    // load_at does not move the selection
    let r = app.load_at(0).unwrap();
    assert_eq!(r, vec![1]);
    assert_eq!(app.current_savefiles().unwrap().index(), 1);
}

#[test]
fn remove_at_delegates_and_out_of_range_is_noop() {
    let mut app = two_profile_app();
    app.save(vec![1], 1);
    app.save(vec![2], 2);
    app.save(vec![3], 3);
    app.remove_at(0);
    let h = app.current_savefiles().unwrap();
    assert_eq!(h.len(), 2);
    assert_eq!(h.index(), 1);
    assert_eq!(h.get().data, vec![3]);
    app.remove_at(7);
    assert_eq!(app.current_savefiles().unwrap().len(), 2);
}

#[test]
fn update_inputs_priority_and_actions() {
    let mut app = two_profile_app();
    app.save(vec![1], 1);
    app.save(vec![2], 2);
    app.prev_slot();
    // advance wins over everything else
    assert_eq!(app.update_inputs(true, true, true, true), TickAction::Idle);
    assert_eq!(app.current_savefiles().unwrap().index(), 1);
    assert_eq!(app.update_inputs(false, true, true, true), TickAction::Idle);
    assert_eq!(app.current_savefiles().unwrap().index(), 0);
    assert_eq!(app.update_inputs(false, false, true, true), TickAction::Capture);
    assert_eq!(app.update_inputs(false, false, false, true), TickAction::Restore);
    assert_eq!(app.update_inputs(false, false, false, false), TickAction::Idle);
    assert_eq!(app.current_savefiles().unwrap().index(), 0);
}

#[test]
fn message_expires_after_its_lifetime() {
    // ttl of 5 seconds: readable immediately, absent once 5s have elapsed
    let m: SelfDestructible<String> = SelfDestructible::new(String::from("hi"), 1000, 5000);
    assert_eq!(m.get(1000).map(|s| s.as_str()), Some("hi"));
    assert_eq!(m.get(5999).map(|s| s.as_str()), Some("hi"));
    assert!(m.get(6000).is_none());
    assert!(m.get(60000).is_none());
}

#[test]
fn app_message_expires_lazily_on_read() {
    let mut app = two_profile_app();
    assert!(app.message(0).is_none());
    app.save(vec![1], 1000);
    assert_eq!(app.message(1000).unwrap().as_str(), "Saved");
    assert_eq!(app.message(5999).unwrap().as_str(), "Saved");
    assert!(app.message(6000).is_none());
}

#[test]
fn goto_last_selects_newest_entry() {
    let mut app = two_profile_app();
    app.save(vec![1], 1);
    app.save(vec![2], 2);
    app.save(vec![3], 3);
    app.prev_slot();
    app.prev_slot();
    assert_eq!(app.current_savefiles().unwrap().index(), 0);
    app.goto_last();
    assert_eq!(app.current_savefiles().unwrap().index(), 2);
}
