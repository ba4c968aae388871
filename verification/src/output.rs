//! Where the report file goes: the rules that turn the user's request and
//! what the file system holds into a path to write, or a refusal.

use vstd::prelude::*;

verus! {

/// What the file system holds at a path.
#[derive(Clone, Copy, Debug, PartialEq, Eq)]
pub enum PathKind {
    /// Nothing.
    Missing,
    /// A regular file.
    File,
    /// A directory.
    Directory,
    /// Something else.
    Other,
}

/// Why no report file can be written.
#[derive(Debug, PartialEq, Eq)]
pub enum OutputPathError {
    /// The explicit file exists already.
    FileExists(String),
    /// The explicit file path names a directory.
    FileIsDirectory(String),
    /// The output directory path names a file.
    DirectoryIsFile(String),
    /// There is no output directory at the path.
    DirectoryMissing(String),
    /// The generated name is in use.
    NameTaken,
    /// Neither a file nor a directory was asked for.
    NothingRequested,
}

/// What the user asked for: an explicit file, a directory in which a file
/// name is generated, both or neither.
#[derive(Debug, PartialEq, Eq)]
pub struct OutputRequest {
    pub out_file: Option<String>,
    pub out_dir: Option<String>,
}

/// The next thing to find out, or the outcome.
#[derive(Debug, PartialEq, Eq)]
pub enum OutputStep {
    /// Find out what is at this path, the explicit file, and hand it to
    /// [`file_checked`].
    CheckFile(String),
    /// Find out what is at this path, the output directory, and hand it to
    /// [`directory_checked`].
    CheckDirectory(String),
    /// Nothing to find out.
    Done(Result<String, OutputPathError>),
}

/// What the user is told about a refusal.
pub open spec fn error_message(error: OutputPathError) -> Seq<char> {
    match error {
        OutputPathError::FileExists(path) => "File '"@ + path@ + "' already exists."@,
        OutputPathError::FileIsDirectory(path) => "'"@ + path@ + "' is a directory."@,
        OutputPathError::DirectoryIsFile(path) => "'"@ + path@ + "' is a file."@,
        OutputPathError::DirectoryMissing(path) => "Directory '"@ + path@ + "' doesn't exist."@,
        OutputPathError::NameTaken => "Unable to generate file name. Use --out-file to explicitly specify a file path."@,
        OutputPathError::NothingRequested => "Unable to resolve out file"@,
    }
}

impl OutputPathError {
    /// What the user is told.
    pub fn message(&self) -> (text: String)
        ensures
            text@ == error_message(*self),
    {
        match self {
            OutputPathError::FileExists(path) => {
                let mut text = String::from_str("File '");
                text.append(path.as_str());
                text.append("' already exists.");
                text
            },
            OutputPathError::FileIsDirectory(path) => {
                let mut text = String::from_str("'");
                text.append(path.as_str());
                text.append("' is a directory.");
                text
            },
            OutputPathError::DirectoryIsFile(path) => {
                let mut text = String::from_str("'");
                text.append(path.as_str());
                text.append("' is a file.");
                text
            },
            OutputPathError::DirectoryMissing(path) => {
                let mut text = String::from_str("Directory '");
                text.append(path.as_str());
                text.append("' doesn't exist.");
                text
            },
            OutputPathError::NameTaken => String::from_str(
                "Unable to generate file name. Use --out-file to explicitly specify a file path.",
            ),
            OutputPathError::NothingRequested => String::from_str("Unable to resolve out file"),
        }
    }
}

impl OutputRequest {
    /// Whether a report file was asked for at all.
    pub fn wants_file(&self) -> (wanted: bool)
        ensures
            wanted == (self.out_file is Some || self.out_dir is Some),
    {
        self.out_file.is_some() || self.out_dir.is_some()
    }

    /// The first step: an explicit file wins over a directory.
    pub fn first_step(self) -> (step: OutputStep)
        ensures
            match (self.out_file, self.out_dir) {
                (Some(file), _) => step matches OutputStep::CheckFile(path) && path@ == file@,
                (None, Some(dir)) => step matches OutputStep::CheckDirectory(path) && path@
                    == dir@,
                (None, None) => step == OutputStep::Done(
                    Err::<String, OutputPathError>(OutputPathError::NothingRequested),
                ),
            },
    {
        match self.out_file {
            Some(file) => OutputStep::CheckFile(file),
            None => match self.out_dir {
                Some(dir) => OutputStep::CheckDirectory(dir),
                None => OutputStep::Done(Err(OutputPathError::NothingRequested)),
            },
        }
    }
}

/// Judges the explicit file: it must not exist yet, neither as a file nor
/// as a directory.
pub fn file_checked(path: String, kind: PathKind) -> (result: Result<String, OutputPathError>)
    ensures
        match kind {
            PathKind::File => result matches Err(OutputPathError::FileExists(p)) && p@ == path@,
            PathKind::Directory => result matches Err(OutputPathError::FileIsDirectory(p)) && p@
                == path@,
            _ => result matches Ok(p) && p@ == path@,
        },
{
    match kind {
        PathKind::File => Err(OutputPathError::FileExists(path)),
        PathKind::Directory => Err(OutputPathError::FileIsDirectory(path)),
        _ => Ok(path),
    }
}

/// Judges the output directory: it must be a directory. Where it is one,
/// the next step is to generate a file name in it and hand what is at that
/// path to [`name_checked`].
pub fn directory_checked(dir: String, kind: PathKind) -> (result: Result<String, OutputPathError>)
    ensures
        match kind {
            PathKind::Directory => result matches Ok(d) && d@ == dir@,
            PathKind::File => result matches Err(OutputPathError::DirectoryIsFile(d)) && d@
                == dir@,
            _ => result matches Err(OutputPathError::DirectoryMissing(d)) && d@ == dir@,
        },
{
    match kind {
        PathKind::Directory => Ok(dir),
        PathKind::File => Err(OutputPathError::DirectoryIsFile(dir)),
        _ => Err(OutputPathError::DirectoryMissing(dir)),
    }
}

/// Judges the generated path: nothing may be there yet.
pub fn name_checked(path: String, kind: PathKind) -> (result: Result<String, OutputPathError>)
    ensures
        match kind {
            PathKind::Missing => result matches Ok(p) && p@ == path@,
            _ => result == Err::<String, OutputPathError>(OutputPathError::NameTaken),
        },
{
    match kind {
        PathKind::Missing => Ok(path),
        _ => Err(OutputPathError::NameTaken),
    }
}

} // verus!
