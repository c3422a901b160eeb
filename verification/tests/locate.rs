use roblox_project::locator::{EntryKind, LocateState, PROJECT_FILENAME};
use roblox_project::project::Project;

fn listing(entries: &[(&str, EntryKind)]) -> Vec<(String, EntryKind)> {
    entries.iter().map(|(path, kind)| (path.to_string(), *kind)).collect()
}

#[test]
fn descriptor_filename() {
    assert_eq!(PROJECT_FILENAME, "roblox-project.json");
}

#[test]
fn locate_accepts_a_file_of_any_name() {
    let entries = listing(&[("/a", EntryKind::Directory), ("/a/whatever.txt", EntryKind::File)]);
    assert_eq!(
        Project::locate("/a/whatever.txt", PROJECT_FILENAME, &entries),
        Some("/a/whatever.txt".to_string())
    );
}

#[test]
fn locate_finds_descriptor_in_directory() {
    let entries = listing(&[
        ("/a/b", EntryKind::Directory),
        ("/a/b/roblox-project.json", EntryKind::File),
    ]);
    assert_eq!(
        Project::locate("/a/b", PROJECT_FILENAME, &entries),
        Some("/a/b/roblox-project.json".to_string())
    );
}

#[test]
fn locate_stops_at_shadowed_name() {
    let entries = listing(&[
        ("/a", EntryKind::Directory),
        ("/a/roblox-project.json", EntryKind::File),
        ("/a/b", EntryKind::Directory),
        ("/a/b/roblox-project.json", EntryKind::Directory),
    ]);
    assert_eq!(Project::locate("/a/b", PROJECT_FILENAME, &entries), None);
    assert_eq!(
        Project::locate("/a", PROJECT_FILENAME, &entries),
        Some("/a/roblox-project.json".to_string())
    );
}

#[test]
fn locate_searches_ancestors() {
    let entries = listing(&[
        ("/", EntryKind::Directory),
        ("/a", EntryKind::Directory),
        ("/a/roblox-project.json", EntryKind::File),
        ("/a/b", EntryKind::Directory),
        ("/a/b/c", EntryKind::Directory),
    ]);
    assert_eq!(
        Project::locate("/a/b/c", PROJECT_FILENAME, &entries),
        Some("/a/roblox-project.json".to_string())
    );
    assert_eq!(
        Project::locate("/a/b", PROJECT_FILENAME, &entries),
        Some("/a/roblox-project.json".to_string())
    );
}

#[test]
fn locate_gives_up_at_the_root() {
    let entries = listing(&[
        ("/", EntryKind::Directory),
        ("/a", EntryKind::Directory),
        ("/a/b", EntryKind::Directory),
    ]);
    assert_eq!(Project::locate("/a/b", PROJECT_FILENAME, &entries), None);
    assert_eq!(Project::locate("/", PROJECT_FILENAME, &entries), None);
}

#[test]
fn locate_of_missing_start_finds_nothing() {
    let entries = listing(&[("/a", EntryKind::Directory), ("/a/roblox-project.json", EntryKind::File)]);
    assert_eq!(Project::locate("/a/missing", PROJECT_FILENAME, &entries), None);
    assert_eq!(Project::locate("/a/missing", PROJECT_FILENAME, &Vec::new()), None);
}

#[test]
fn locate_goes_up_from_what_is_neither_file_nor_directory() {
    let entries = listing(&[
        ("/a", EntryKind::Directory),
        ("/a/roblox-project.json", EntryKind::File),
        ("/a/socket", EntryKind::Other),
    ]);
    assert_eq!(
        Project::locate("/a/socket", PROJECT_FILENAME, &entries),
        Some("/a/roblox-project.json".to_string())
    );
}

#[test]
fn locate_takes_another_filename() {
    let entries = listing(&[
        ("/a", EntryKind::Directory),
        ("/a/roblox-project.json", EntryKind::File),
        ("/a/custom.json", EntryKind::File),
        ("/a/b", EntryKind::Directory),
    ]);
    assert_eq!(
        Project::locate("/a/b", "custom.json", &entries),
        Some("/a/custom.json".to_string())
    );
}

#[test]
fn listing_gives_first_entry_of_a_path() {
    let entries = listing(&[("/a", EntryKind::File), ("/a", EntryKind::Directory)]);
    assert_eq!(roblox_project::locator::kind_in(&entries, &"/a".to_string()), EntryKind::File);
    assert_eq!(roblox_project::locator::kind_in(&entries, &"/b".to_string()), EntryKind::Missing);
}

#[test]
fn search_steps_one_probe_at_a_time() {
    let state = LocateState::new("/a/b");
    assert_eq!(state.probe().map(|p| p.as_str()), Some("/a/b"));
    assert!(!state.is_done());

    let state = state.step(PROJECT_FILENAME, EntryKind::Directory);
    assert_eq!(state.probe().map(|p| p.as_str()), Some("/a/b/roblox-project.json"));

    let state = state.step(PROJECT_FILENAME, EntryKind::Missing);
    assert_eq!(state.probe().map(|p| p.as_str()), Some("/a"));

    let state = state.step(PROJECT_FILENAME, EntryKind::Directory);
    assert_eq!(state.probe().map(|p| p.as_str()), Some("/a/roblox-project.json"));

    let state = state.step(PROJECT_FILENAME, EntryKind::File);
    assert!(state.is_done());
    assert_eq!(state.probe(), None);
    assert_eq!(state.into_found(), Some("/a/roblox-project.json".to_string()));
}

#[test]
fn search_ends_at_the_root() {
    let state = LocateState::new("/");
    let state = state.step(PROJECT_FILENAME, EntryKind::Directory);
    assert_eq!(state.probe().map(|p| p.as_str()), Some("/roblox-project.json"));
    let state = state.step(PROJECT_FILENAME, EntryKind::Missing);
    assert!(state.is_done());
    assert_eq!(state.into_found(), None);
}

#[test]
fn search_that_has_ended_stays_ended() {
    let state = LocateState::new("/a/file").step(PROJECT_FILENAME, EntryKind::File);
    let state = state.step(PROJECT_FILENAME, EntryKind::Directory);
    assert!(state.is_done());
    assert_eq!(state.into_found(), Some("/a/file".to_string()));
}

#[test]
fn search_not_ended_has_found_nothing() {
    assert_eq!(LocateState::new("/a").into_found(), None);
}
