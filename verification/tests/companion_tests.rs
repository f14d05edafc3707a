use steamdeck_touch::companion::{ProcEntry, is_pid_alive, select_steam_pid, steam_exe_path};

const STEAM_EXE: &str = "/home/deck/.local/share/Steam/ubuntu12_32/steam";

fn table(entries: &[(i32, &str)]) -> Vec<ProcEntry> {
    entries.iter().map(|(pid, exe)| ProcEntry { pid: *pid, exe: exe.to_string() }).collect()
}

#[test]
fn companion_path_is_the_known_install_path() {
    assert_eq!(steam_exe_path(), STEAM_EXE);
}

#[test]
fn select_finds_first_matching_entry() {
    let entries = table(&[(1, "/sbin/init"), (42, STEAM_EXE), (43, STEAM_EXE)]);
    assert_eq!(select_steam_pid(&entries), Some(42));
}

#[test]
fn select_ignores_other_executables() {
    let entries = table(&[
        (1, "/sbin/init"),
        (2, "/usr/bin/steam"),
        (3, "/home/deck/.local/share/Steam/ubuntu12_32/steam2"),
    ]);
    assert_eq!(select_steam_pid(&entries), None);
}

#[test]
fn select_on_empty_table_finds_nothing() {
    assert_eq!(select_steam_pid(&Vec::new()), None);
}

#[test]
fn absurd_pid_is_not_alive() {
    assert!(!is_pid_alive(999_999_999));
}

#[test]
fn init_pid_is_alive() {
    assert!(is_pid_alive(1));
}
