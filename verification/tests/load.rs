use roblox_project::errors::{ProjectLoadExactError, ProjectLoadFuzzyError};
use roblox_project::node::ProjectNode;
use roblox_project::project::{DescriptorRead, Project, SourceProject};
use roblox_project::source::SourceProjectNode;

fn io_error() -> std::io::Error {
    std::io::Error::new(std::io::ErrorKind::NotFound, "no such file")
}

fn json_error() -> serde_json::Error {
    match serde_json::from_str::<serde_json::Value>("{ not json") {
        Err(error) => error,
        Ok(_) => panic!("the text was taken for JSON"),
    }
}

fn descriptor(path: &str) -> SourceProject {
    SourceProject {
        name: "game".to_string(),
        tree: SourceProjectNode::SyncPoint { path: path.to_string() },
        serve_port: Some(34872),
    }
}

#[test]
fn exact_load_of_unreadable_file_is_io_error() {
    let result = Project::load_exact("/nowhere/proj.json", DescriptorRead::Unreadable(io_error()));
    match result {
        Err(ProjectLoadExactError::IoError(error)) => {
            assert_eq!(error.kind(), std::io::ErrorKind::NotFound)
        }
        _ => panic!("an I/O error was expected"),
    }
}

#[test]
fn exact_load_of_malformed_text_is_json_error() {
    let expected = json_error().to_string();
    let result = Project::load_exact("/d/proj.json", DescriptorRead::Malformed(json_error()));
    match result {
        Err(ProjectLoadExactError::JsonError(error)) => assert_eq!(error.to_string(), expected),
        _ => panic!("a JSON error was expected"),
    }
}

#[test]
fn exact_load_of_parsed_descriptor_normalizes() {
    let result = Project::load_exact("/d/proj.json", DescriptorRead::Parsed(descriptor("src")));
    match result {
        Ok(project) => {
            assert_eq!(project.name, "game");
            assert_eq!(project.serve_port, Some(34872));
            assert_eq!(project.file_location, "/d/proj.json");
            assert!(matches!(&project.tree, ProjectNode::SyncPoint(found) if found.path == "/d/src"));
        }
        Err(_) => panic!("a project was expected"),
    }
}

#[test]
fn fuzzy_load_without_descriptor_is_not_found() {
    assert!(matches!(Project::load_fuzzy(None), Err(ProjectLoadFuzzyError::NotFound)));
    assert!(matches!(Project::load_checked(None), Some(Err(ProjectLoadFuzzyError::NotFound))));
}

#[test]
fn fuzzy_load_widens_io_error() {
    let found = Some(("/d/proj.json".to_string(), DescriptorRead::Unreadable(io_error())));
    match Project::load_fuzzy(found) {
        Err(ProjectLoadFuzzyError::IoError(error)) => {
            assert_eq!(error.kind(), std::io::ErrorKind::NotFound)
        }
        _ => panic!("an I/O error was expected"),
    }
}

#[test]
fn fuzzy_load_widens_json_error() {
    let found = Some(("/d/proj.json".to_string(), DescriptorRead::Malformed(json_error())));
    assert!(matches!(Project::load_fuzzy(found), Err(ProjectLoadFuzzyError::JsonError(_))));
}

#[test]
fn fuzzy_load_of_parsed_descriptor_normalizes() {
    let found = Some(("/d/e/proj.json".to_string(), DescriptorRead::Parsed(descriptor("src"))));
    match Project::load_fuzzy(found) {
        Ok(project) => {
            assert_eq!(project.file_location, "/d/e/proj.json");
            assert!(matches!(&project.tree, ProjectNode::SyncPoint(found) if found.path == "/d/e/src"));
        }
        Err(_) => panic!("a project was expected"),
    }
}

#[test]
fn checked_load_refuses_relative_path_without_folder() {
    let read = DescriptorRead::Parsed(descriptor("src"));
    assert!(read.is_stuck_at("/"));
    assert!(read.is_stuck_at(""));
    assert!(!read.is_stuck_at("/d/proj.json"));
    assert!(Project::load_checked(Some(("/".to_string(), read))).is_none());
}

#[test]
fn checked_load_accepts_absolute_path_without_folder() {
    let read = DescriptorRead::Parsed(descriptor("/abs"));
    assert!(!read.is_stuck_at("/"));
    match Project::load_checked(Some(("/".to_string(), read))) {
        Some(Ok(project)) => {
            assert!(matches!(&project.tree, ProjectNode::SyncPoint(found) if found.path == "/abs"))
        }
        _ => panic!("a project was expected"),
    }
}

#[test]
fn checked_load_passes_errors_on() {
    let unreadable = Some(("/".to_string(), DescriptorRead::Unreadable(io_error())));
    assert!(matches!(Project::load_checked(unreadable), Some(Err(ProjectLoadFuzzyError::IoError(_)))));
    let malformed = Some(("/".to_string(), DescriptorRead::Malformed(json_error())));
    assert!(matches!(Project::load_checked(malformed), Some(Err(ProjectLoadFuzzyError::JsonError(_)))));
}

#[test]
fn exact_error_widens_to_fuzzy_error() {
    let widened = ProjectLoadFuzzyError::from(ProjectLoadExactError::IoError(io_error()));
    assert!(matches!(widened, ProjectLoadFuzzyError::IoError(_)));
    let widened = ProjectLoadFuzzyError::from(ProjectLoadExactError::JsonError(json_error()));
    assert!(matches!(widened, ProjectLoadFuzzyError::JsonError(_)));
}

#[test]
fn error_messages() {
    assert_eq!(ProjectLoadFuzzyError::NotFound.message(), "Project not found");
    assert_eq!(ProjectLoadFuzzyError::IoError(io_error()).message(), "IO error");
    assert_eq!(ProjectLoadFuzzyError::JsonError(json_error()).message(), "JSON error");
    assert_eq!(ProjectLoadExactError::IoError(io_error()).message(), "IO error");
    assert_eq!(ProjectLoadExactError::JsonError(json_error()).message(), "JSON error");
}
