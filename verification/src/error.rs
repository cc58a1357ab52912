use vstd::prelude::*;

verus! {

/// The ways a run of the tool can fail that the library itself decides.
/// Failures of the file system and of spawned commands are the program's.
#[derive(Debug, PartialEq, Eq)]
pub enum YbuildError {
    /// The configuration location or a project path is unusable.
    Config(String),
    /// The configuration document could not be read or written as JSON.
    Json(String),
    /// A build step could not be carried out.
    Build(String),
    /// No known build system was detected in the directory.
    NoBuildSystem,
    /// The user dismissed a selection.
    SelectionCanceled,
    /// Anything else, such as a malformed command line.
    Other(String),
}

/// What an error is, with its messages as text.
pub enum ErrorV {
    Config(Seq<char>),
    Json(Seq<char>),
    Build(Seq<char>),
    NoBuildSystem,
    SelectionCanceled,
    Other(Seq<char>),
}

impl View for YbuildError {
    type V = ErrorV;

    open spec fn view(&self) -> ErrorV {
        match self {
            YbuildError::Config(m) => ErrorV::Config(m@),
            YbuildError::Json(m) => ErrorV::Json(m@),
            YbuildError::Build(m) => ErrorV::Build(m@),
            YbuildError::NoBuildSystem => ErrorV::NoBuildSystem,
            YbuildError::SelectionCanceled => ErrorV::SelectionCanceled,
            YbuildError::Other(m) => ErrorV::Other(m@),
        }
    }
}

/// The message shown for an error.
pub open spec fn message_v(e: ErrorV) -> Seq<char> {
    match e {
        ErrorV::Config(m) => "Config error: "@ + m,
        ErrorV::Json(m) => "JSON error: "@ + m,
        ErrorV::Build(m) => "Build error: "@ + m,
        ErrorV::NoBuildSystem => "No supported build system found in this directory"@,
        ErrorV::SelectionCanceled => "Selection canceled by user"@,
        ErrorV::Other(m) => m,
    }
}

fn prefixed(prefix: &str, m: &String) -> (r: String)
    ensures
        r@ == prefix@ + m@,
{
    let mut r = prefix.to_owned();
    r.append(m.as_str());
    r
}

impl YbuildError {
    /// The message shown for the error.
    pub fn message(&self) -> (r: String)
        ensures
            r@ == message_v(self@),
    {
        match self {
            YbuildError::Config(m) => prefixed("Config error: ", m),
            YbuildError::Json(m) => prefixed("JSON error: ", m),
            YbuildError::Build(m) => prefixed("Build error: ", m),
            YbuildError::NoBuildSystem => "No supported build system found in this directory".to_owned(),
            YbuildError::SelectionCanceled => "Selection canceled by user".to_owned(),
            YbuildError::Other(m) => m.clone(),
        }
    }
}

} // verus!
