use vstd::prelude::*;

verus! {

/// Why a run, or one step of it, could not go on.
#[derive(Debug, Clone, PartialEq, Eq)]
pub enum DotError {
    /// A `HOME` path needs the home directory, and none is known.
    MissingHome,
    /// A file to add was not given as an absolute path.
    NotAbsolute { path: String },
    /// A file to add has no path below its base directory (it is `/` itself).
    NothingToAdd { path: String },
    /// A file to add has an empty, `.` or `..` component, or ends in a separator.
    NotPlain { path: String },
    /// The target exists and is not a symbolic link.
    AlreadyExists { path: String },
    /// The target is a symbolic link to somewhere other than the checkout.
    WrongLink { path: String, expected: String, actual: String },
}

/// The mathematical value of a `DotError`.
pub enum ErrView {
    MissingHome,
    NotAbsolute { path: Seq<char> },
    NothingToAdd { path: Seq<char> },
    NotPlain { path: Seq<char> },
    AlreadyExists { path: Seq<char> },
    WrongLink { path: Seq<char>, expected: Seq<char>, actual: Seq<char> },
}

impl View for DotError {
    type V = ErrView;

    open spec fn view(&self) -> ErrView {
        match self {
            DotError::MissingHome => ErrView::MissingHome,
            DotError::NotAbsolute { path } => ErrView::NotAbsolute { path: path@ },
            DotError::NothingToAdd { path } => ErrView::NothingToAdd { path: path@ },
            DotError::NotPlain { path } => ErrView::NotPlain { path: path@ },
            DotError::AlreadyExists { path } => ErrView::AlreadyExists { path: path@ },
            DotError::WrongLink { path, expected, actual } => ErrView::WrongLink {
                path: path@,
                expected: expected@,
                actual: actual@,
            },
        }
    }
}

/// The message shown to the user for an error.
pub open spec fn describe_spec(e: ErrView) -> Seq<char> {
    match e {
        ErrView::MissingHome => "the home directory is not known"@,
        ErrView::NotAbsolute { path } => path + " is not an absolute path"@,
        ErrView::NothingToAdd { path } => path + " names no file to add"@,
        ErrView::NotPlain { path } => path + " has an empty, `.` or `..` component"@,
        ErrView::AlreadyExists { path } => path + " already exists"@,
        ErrView::WrongLink { path, expected, actual } => path + " linked to wrong file: "@
            + actual + " instead of "@ + expected,
    }
}

impl DotError {
    /// A one-line, human-readable account of the error, naming the paths involved.
    pub fn describe(&self) -> (r: String)
        ensures
            r@ == describe_spec(self@),
    {
        match self {
            DotError::MissingHome => String::from_str("the home directory is not known"),
            DotError::NotAbsolute { path } => path.clone().concat(" is not an absolute path"),
            DotError::NothingToAdd { path } => path.clone().concat(" names no file to add"),
            DotError::NotPlain { path } => path.clone().concat(
                " has an empty, `.` or `..` component",
            ),
            DotError::AlreadyExists { path } => path.clone().concat(" already exists"),
            DotError::WrongLink { path, expected, actual } => {
                let r = path.clone().concat(" linked to wrong file: ");
                let r = r.concat(actual.as_str());
                let r = r.concat(" instead of ");
                r.concat(expected.as_str())
            },
        }
    }
}

} // verus!
