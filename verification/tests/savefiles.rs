use zombierun::savefiles::{candidate_dirs, is_hex_name, DirEntry, Savefile, SavefilePath};
use zombierun::Game;

#[test]
fn hex_names_accepted() {
    assert!(is_hex_name("0123456789abcdef"));
    assert!(is_hex_name("a"));
    assert!(is_hex_name("00f3"));
}

#[test]
fn non_hex_names_rejected() {
    assert!(!is_hex_name(""));
    assert!(!is_hex_name("xyz"));
    assert!(!is_hex_name("ABCDEF"));
    assert!(!is_hex_name("12g4"));
    assert!(!is_hex_name("deadbeef "));
}

#[test]
fn candidate_dirs_keeps_hex_directories_in_order() {
    let entries = vec![
        DirEntry { name: String::from("1a2b"), is_dir: true },
        DirEntry { name: String::from("notes.txt"), is_dir: false },
        DirEntry { name: String::from("cafe"), is_dir: true },
        DirEntry { name: String::from("cafe"), is_dir: false },
        DirEntry { name: String::from("Backup"), is_dir: true },
        DirEntry { name: String::from("00ff"), is_dir: true },
    ];
    let r = candidate_dirs(&entries);
    assert_eq!(r, vec![
        String::from("1a2b"),
        String::from("cafe"),
        String::from("00ff"),
    ]);
}

#[test]
fn get_all_orders_dark_souls_before_elden_ring() {
    let ds3 = vec![String::from("ds3/a"), String::from("ds3/b")];
    let er = vec![String::from("er/c")];
    let all = SavefilePath::get_all(ds3, er);
    assert_eq!(all.len(), 3);
    assert_eq!(all[0].game, Game::DarkSoulsIII);
    assert_eq!(all[0].path, "ds3/a");
    assert_eq!(all[1].game, Game::DarkSoulsIII);
    assert_eq!(all[1].path, "ds3/b");
    assert_eq!(all[2].game, Game::EldenRing);
    assert_eq!(all[2].path, "er/c");
}

#[test]
fn display_keeps_short_paths() {
    let p = SavefilePath { game: Game::EldenRing, path: String::from("short/path") };
    assert_eq!(p.display().as_str(), "Elden Ring: short/path");
    let exactly32 = "abcdefghijklmnopqrstuvwxyz012345";
    assert_eq!(exactly32.len(), 32);
    let p2 = SavefilePath { game: Game::DarkSoulsIII, path: String::from(exactly32) };
    assert_eq!(
        p2.display().as_str(),
        "Dark Souls III: abcdefghijklmnopqrstuvwxyz012345"
    );
}

#[test]
fn display_shortens_long_paths_to_final_32_chars() {
    let long = "0abcdefghijklmnopqrstuvwxyz012345";
    assert_eq!(long.len(), 33);
    let p = SavefilePath { game: Game::EldenRing, path: String::from(long) };
    assert_eq!(
        p.display().as_str(),
        "Elden Ring: ...abcdefghijklmnopqrstuvwxyz012345"
    );
}

#[test]
fn savefile_keeps_its_fields() {
    let s = Savefile::new(vec![1, 2, 3], 777, 9);
    assert_eq!(s.data, vec![1, 2, 3]);
    assert_eq!(s.saved(), 777);
    assert_eq!(s.saved, 777);
    assert_eq!(s.uid, 9);
}
