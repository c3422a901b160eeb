//! The loaded project, and the decisions of a load.

use crate::errors::{schema_error, widened, ProjectLoadExactError, ProjectLoadFuzzyError};
use crate::node::ProjectNode;
use crate::paths::{parent_of, path_parent};
use crate::raw::RawProject;
use crate::source::SourceProjectNode;
use vstd::prelude::*;

verus! {

/// A descriptor as it is written: a name, the tree, and the port to serve
/// on, if one is given.
#[derive(Debug)]
pub struct SourceProject {
    pub name: String,
    pub tree: SourceProjectNode,
    pub serve_port: Option<u16>,
}

/// A loaded project.
#[derive(Debug, Clone, PartialEq)]
pub struct Project {
    pub name: String,
    pub tree: ProjectNode,
    pub serve_port: Option<u16>,
    /// Where the descriptor lies that the project was loaded from.
    pub file_location: String,
}

/// What came of reading the descriptor file and parsing its text.
#[derive(Debug)]
pub enum DescriptorRead {
    /// The file could not be read.
    Unreadable(std::io::Error),
    /// The file was read, and its text is no descriptor.
    Malformed(serde_json::Error),
    /// The file was read and parsed.
    Parsed(SourceProject),
}

impl SourceProject {
    /// `project` is this descriptor, loaded from `location`: name and port
    /// as written, the tree normalized for `location`, and `location` kept.
    pub open spec fn loads_as(self, location: Seq<char>, project: Project) -> bool {
        &&& project.name@ == self.name@
        &&& self.tree.normalizes_to(location, project.tree)
        &&& project.serve_port == self.serve_port
        &&& project.file_location@ == location
    }

    /// The descriptor can be loaded from `location`: the tree needs no
    /// folder, or `location` lies in one.
    pub open spec fn loadable_from(self, location: Seq<char>) -> bool {
        self.tree.needs_folder() ==> path_parent(location).is_some()
    }

    /// The project that this descriptor, found at `project_file_location`,
    /// describes.
    pub fn into_project(self, project_file_location: &str) -> (project: Project)
        requires
            self.tree.needs_folder() ==> path_parent(project_file_location@).is_some(),
        ensures
            self.loads_as(project_file_location@, project),
            self.tree.wf() ==> project.tree.wf(),
    {
        let tree = self.tree.into_project_node(project_file_location);
        Project {
            name: self.name,
            tree,
            serve_port: self.serve_port,
            file_location: project_file_location.to_owned(),
        }
    }
}

impl DescriptorRead {
    /// The descriptor was parsed and cannot be loaded from `location`.
    pub open spec fn stuck_at(self, location: Seq<char>) -> bool {
        self matches DescriptorRead::Parsed(source) && !source.loadable_from(location)
    }

    /// What came of parsing the text of a file that was read. A descriptor
    /// in whose tree some object is neither an instance nor a sync point
    /// counts as malformed.
    pub fn from_parse(parsed: Result<RawProject, serde_json::Error>) -> (read: DescriptorRead)
        ensures
            match parsed {
                Ok(raw) => if raw.tree.is_tree() {
                    read matches DescriptorRead::Parsed(source) && raw.parses_as(source)
                } else {
                    read is Malformed
                },
                Err(error) => read == DescriptorRead::Malformed(error),
            },
    {
        match parsed {
            Ok(raw) => match raw.into_source_project() {
                Some(source) => DescriptorRead::Parsed(source),
                None => DescriptorRead::Malformed(
                    schema_error("data did not match any kind of project node"),
                ),
            },
            Err(error) => DescriptorRead::Malformed(error),
        }
    }

    /// Whether the descriptor was parsed and cannot be loaded from
    /// `location`.
    pub fn is_stuck_at(&self, location: &str) -> (stuck: bool)
        ensures
            stuck == self.stuck_at(location@),
    {
        match self {
            DescriptorRead::Parsed(source) => source.tree.has_relative_path() && parent_of(
                location,
            ).is_none(),
            _ => false,
        }
    }
}

/// What a fuzzy load returns once the search has ended with `found`: the
/// place of the descriptor and what came of reading it, or nothing.
pub open spec fn fuzzy_outcome(
    found: Option<(String, DescriptorRead)>,
    result: Result<Project, ProjectLoadFuzzyError>,
) -> bool {
    match found {
        None => result == Err::<Project, ProjectLoadFuzzyError>(ProjectLoadFuzzyError::NotFound),
        Some((location, read)) => match read {
            DescriptorRead::Unreadable(error) => result == Err::<Project, ProjectLoadFuzzyError>(
                ProjectLoadFuzzyError::IoError(error),
            ),
            DescriptorRead::Malformed(error) => result == Err::<Project, ProjectLoadFuzzyError>(
                ProjectLoadFuzzyError::JsonError(error),
            ),
            DescriptorRead::Parsed(source) => result matches Ok(project) && source.loads_as(
                location@,
                project,
            ),
        },
    }
}

/// What an exact load of the descriptor at `location` returns once the file
/// has been read with the outcome `read`.
pub open spec fn exact_outcome(
    location: Seq<char>,
    read: DescriptorRead,
    result: Result<Project, ProjectLoadExactError>,
) -> bool {
    match read {
        DescriptorRead::Unreadable(error) => result == Err::<Project, ProjectLoadExactError>(
            ProjectLoadExactError::IoError(error),
        ),
        DescriptorRead::Malformed(error) => result == Err::<Project, ProjectLoadExactError>(
            ProjectLoadExactError::JsonError(error),
        ),
        DescriptorRead::Parsed(source) => result matches Ok(project) && source.loads_as(
            location,
            project,
        ),
    }
}

/// A fuzzy load whose search has found a descriptor ends as the exact load
/// of that descriptor does, with the error widened; it then never fails for
/// want of a descriptor.
pub proof fn lemma_fuzzy_load_widens_exact_load(
    location: String,
    read: DescriptorRead,
    exact: Result<Project, ProjectLoadExactError>,
)
    requires
        exact_outcome(location@, read, exact),
    ensures
        fuzzy_outcome(
            Some((location, read)),
            match exact {
                Ok(project) => Ok(project),
                Err(error) => Err(widened(error)),
            },
        ),
        exact matches Err(error) ==> widened(error) != ProjectLoadFuzzyError::NotFound,
{
}

impl Project {
    /// Loads the descriptor at `project_file_location`, given what came of
    /// reading that file.
    pub fn load_exact(project_file_location: &str, read: DescriptorRead) -> (result: Result<
        Project,
        ProjectLoadExactError,
    >)
        requires
            !read.stuck_at(project_file_location@),
        ensures
            exact_outcome(project_file_location@, read, result),
    {
        match read {
            DescriptorRead::Unreadable(error) => Err(ProjectLoadExactError::IoError(error)),
            DescriptorRead::Malformed(error) => Err(ProjectLoadExactError::JsonError(error)),
            DescriptorRead::Parsed(parsed) => Ok(parsed.into_project(project_file_location)),
        }
    }

    /// Loads as `load_fuzzy` does wherever the descriptor can be loaded from
    /// its place, and returns `None` where it cannot: where its tree holds a
    /// relative path and its place lies in no folder.
    pub fn load_checked(found: Option<(String, DescriptorRead)>) -> (result: Option<
        Result<Project, ProjectLoadFuzzyError>,
    >)
        ensures
            match result {
                Some(loaded) => fuzzy_outcome(found, loaded) && !(found matches Some(
                    (location, read),
                ) && read.stuck_at(location@)),
                None => found matches Some((location, read)) && read.stuck_at(location@),
            },
    {
        let stuck = match &found {
            Some((location, read)) => read.is_stuck_at(location.as_str()),
            None => false,
        };
        if stuck {
            None
        } else {
            Some(Project::load_fuzzy(found))
        }
    }

    /// Loads the descriptor that a search has found, given the place and
    /// what came of reading it; fails with `NotFound` where the search found
    /// nothing.
    pub fn load_fuzzy(found: Option<(String, DescriptorRead)>) -> (result: Result<
        Project,
        ProjectLoadFuzzyError,
    >)
        requires
            found matches Some((location, read)) ==> !read.stuck_at(location@),
        ensures
            fuzzy_outcome(found, result),
    {
        match found {
            None => Err(ProjectLoadFuzzyError::NotFound),
            Some((project_path, read)) => {
                match Project::load_exact(project_path.as_str(), read) {
                    Ok(project) => Ok(project),
                    Err(error) => Err(ProjectLoadFuzzyError::from(error)),
                }
            },
        }
    }
}

} // verus!
