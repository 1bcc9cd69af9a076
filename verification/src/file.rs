//! What is decided of a path once the file system has said what is there.

use crate::error::Error;
use vstd::prelude::*;
use vstd::string::StringExecFns;

verus! {

pub struct FileWriter {}

/// What the file system says of a path.
#[derive(Clone, Copy, Debug, PartialEq, Eq, Structural)]
pub struct PathFacts {
    /// The path is a directory.
    pub is_dir: bool,
    /// Something is there.
    pub exists: bool,
    /// The path is absolute.
    pub is_absolute: bool,
    /// The path has a parent.
    pub has_parent: bool,
    /// The parent is a directory.
    pub parent_is_dir: bool,
    /// The parent has a canonical form.
    pub parent_is_canonical: bool,
}

/// What to do with a path.
#[derive(Clone, Copy, Debug, PartialEq, Eq, Structural)]
pub enum PathStep {
    /// It is a directory: no file.
    RefuseDirectory,
    /// Take its canonical form.
    Canonicalize,
    /// Take it as it is.
    Keep,
    /// Put the working directory in front and look again.
    PrependWorkingDirectory,
    /// Its parent is missing.
    RefuseMissingParent,
    /// It has no parent.
    RefuseNoParent,
}

/// What to do with a path: a directory is refused; a file that is there is
/// taken in its canonical form; a new file is taken as it is where its
/// parent is a directory, looked for below the working directory where the
/// path is relative, and refused otherwise.
pub open spec fn step_for(facts: PathFacts) -> PathStep {
    if facts.is_dir {
        PathStep::RefuseDirectory
    } else if facts.exists {
        PathStep::Canonicalize
    } else if !facts.has_parent {
        PathStep::RefuseNoParent
    } else if !facts.parent_is_dir {
        if facts.is_absolute {
            PathStep::RefuseMissingParent
        } else {
            PathStep::PrependWorkingDirectory
        }
    } else if facts.parent_is_canonical {
        PathStep::Keep
    } else {
        PathStep::RefuseMissingParent
    }
}

/// The text of the error for a missing parent.
pub open spec fn missing_parent_text(parent: Seq<char>) -> Seq<char> {
    "File parent directory "@ + parent + " not found"@
}

/// What to do with a path.
pub fn normalize_step(facts: &PathFacts) -> (r: PathStep)
    ensures
        r == step_for(*facts),
{
    if facts.is_dir {
        PathStep::RefuseDirectory
    } else if facts.exists {
        PathStep::Canonicalize
    } else if !facts.has_parent {
        PathStep::RefuseNoParent
    } else if !facts.parent_is_dir {
        if facts.is_absolute {
            PathStep::RefuseMissingParent
        } else {
            PathStep::PrependWorkingDirectory
        }
    } else if facts.parent_is_canonical {
        PathStep::Keep
    } else {
        PathStep::RefuseMissingParent
    }
}

/// The error of a step that refuses a path; none for the other steps.
pub fn refusal(step: PathStep, parent: &str) -> (r: Option<Error>)
    ensures
        match step {
            PathStep::RefuseDirectory => r matches Some(Error::FileIO(m)) && m@
                == "File path must not be a directory"@,
            PathStep::RefuseMissingParent => r matches Some(Error::FileIO(m)) && m@
                == missing_parent_text(parent@),
            PathStep::RefuseNoParent => r matches Some(Error::FileIO(m)) && m@
                == "File path not found"@,
            _ => r is None,
        },
{
    match step {
        PathStep::RefuseDirectory => Some(Error::file_io("File path must not be a directory")),
        PathStep::RefuseMissingParent => Some(
            Error::FileIO(
                String::from_str("File parent directory ").concat(parent).concat(" not found"),
            ),
        ),
        PathStep::RefuseNoParent => Some(Error::file_io("File path not found")),
        _ => None,
    }
}

impl FileWriter {
    /// Whether a file can be written at a path: not where the path is a
    /// directory, and not where its parent is missing. `parent_exists` is
    /// none for a path without a parent.
    pub fn check_output_path(is_dir: bool, parent_exists: Option<bool>) -> (r: Result<(), Error>)
        ensures
            if is_dir {
                r matches Err(Error::FileIO(m)) && m@ == "Output path must not be a directory"@
            } else if parent_exists == Some(false) {
                r matches Err(Error::FileIO(m)) && m@
                    == "Output path parent directory does not exist"@
            } else {
                r is Ok
            },
    {
        if is_dir {
            return Err(Error::FileIO("Output path must not be a directory".to_owned()));
        }
        if let Some(exists) = parent_exists {
            if !exists {
                return Err(
                    Error::FileIO("Output path parent directory does not exist".to_owned()),
                );
            }
        }
        Ok(())
    }
}

} // verus!
