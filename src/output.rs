//! Where a logger writes, as the factories of this crate decide it.
use vstd::prelude::*;

use crate::common::{OpenMode, Target, TargetModel};

verus! {

/// How a log file is opened: the flags of `std::fs::OpenOptions` that are
/// set; the others stay unset.
#[derive(Debug, Clone, Copy, PartialEq, Eq, Structural)]
pub struct OpenFlags {
    pub create: bool,
    pub write: bool,
    pub append: bool,
    pub truncate: bool,
    pub create_new: bool,
}

/// The flags that open a file in the given mode: appending or truncating
/// create the file where it is missing, a new file must not exist yet.
pub open spec fn spec_open_flags(mode: OpenMode) -> OpenFlags {
    match mode {
        OpenMode::Append => OpenFlags {
            create: true,
            write: true,
            append: true,
            truncate: false,
            create_new: false,
        },
        OpenMode::Truncate => OpenFlags {
            create: true,
            write: true,
            append: false,
            truncate: true,
            create_new: false,
        },
        OpenMode::New => OpenFlags {
            create: false,
            write: true,
            append: false,
            truncate: false,
            create_new: true,
        },
    }
}

/// The flags that open a file in the given mode.
pub fn open_flags(mode: OpenMode) -> (r: OpenFlags)
    ensures
        r == spec_open_flags(mode),
{
    match mode {
        OpenMode::Append => OpenFlags {
            create: true,
            write: true,
            append: true,
            truncate: false,
            create_new: false,
        },
        OpenMode::Truncate => OpenFlags {
            create: true,
            write: true,
            append: false,
            truncate: true,
            create_new: false,
        },
        OpenMode::New => OpenFlags {
            create: false,
            write: true,
            append: false,
            truncate: false,
            create_new: true,
        },
    }
}

/// Where a logger writes.
#[derive(Debug, Clone, PartialEq, Eq)]
pub enum Output {
    /// The standard output stream.
    Stdout,
    /// The standard error stream.
    Stderr,
    /// A file, opened with the given flags, after its parent directories
    /// are created where `create_parents` is set.
    File { path: String, flags: OpenFlags, create_parents: bool },
}

/// The mathematical model of an `Output`.
pub enum OutputModel {
    Stdout,
    Stderr,
    File(Seq<char>, OpenFlags, bool),
}

impl View for Output {
    type V = OutputModel;

    open spec fn view(&self) -> OutputModel {
        match self {
            Output::Stdout => OutputModel::Stdout,
            Output::Stderr => OutputModel::Stderr,
            Output::File { path, flags, create_parents } => OutputModel::File(
                path@,
                *flags,
                *create_parents,
            ),
        }
    }
}

/// Where a logger with the given target writes.
pub open spec fn spec_output(target: TargetModel, create_parents: bool) -> OutputModel {
    match target {
        TargetModel::Stdout => OutputModel::Stdout,
        TargetModel::Stderr => OutputModel::Stderr,
        TargetModel::File(path, mode) => OutputModel::File(
            path,
            spec_open_flags(mode),
            create_parents,
        ),
    }
}

/// Where a logger with the given target writes; a file's parent
/// directories are created first where `create_parents` is set.
pub fn output(target: &Target, create_parents: bool) -> (r: Output)
    ensures
        r@ == spec_output(target@, create_parents),
{
    match target {
        Target::Stdout => Output::Stdout,
        Target::Stderr => Output::Stderr,
        Target::File { path, mode } => Output::File {
            path: path.clone(),
            flags: open_flags(*mode),
            create_parents,
        },
    }
}

} // verus!
