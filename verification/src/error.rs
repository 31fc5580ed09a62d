//! The flags of the command line and the ways in which a run can be refused.

use vstd::prelude::*;

verus! {

/// One of the four flags that the command line knows.
#[derive(Clone, Copy, Debug, PartialEq, Eq, Structural)]
pub enum Flag {
    /// `-a`: change the access time.
    Access,
    /// `-c`: create nothing, and leave a target that exists as it is.
    NoCreate,
    /// `-m`: change the modification time.
    Modify,
    /// `-r`: take the new times from a reference file.
    Reference,
}

impl Flag {
    /// The flag that a letter stands for, if it stands for one.
    pub open spec fn of_letter(c: char) -> Option<Flag> {
        if c == 'a' {
            Some(Flag::Access)
        } else if c == 'c' {
            Some(Flag::NoCreate)
        } else if c == 'm' {
            Some(Flag::Modify)
        } else if c == 'r' {
            Some(Flag::Reference)
        } else {
            None
        }
    }

    /// Computes [`Flag::of_letter`].
    pub fn from_letter(c: char) -> (f: Option<Flag>)
        ensures
            f == Flag::of_letter(c),
    {
        if c == 'a' {
            Some(Flag::Access)
        } else if c == 'c' {
            Some(Flag::NoCreate)
        } else if c == 'm' {
            Some(Flag::Modify)
        } else if c == 'r' {
            Some(Flag::Reference)
        } else {
            None
        }
    }
}

/// A command line, or a reference file, that the tool refuses. Each is
/// reported with the usage text and ends the run with a non-zero exit code.
#[derive(Clone, Copy, Debug, PartialEq, Eq, Structural)]
pub enum UsageError {
    /// The flag was given more than once.
    DuplicateFlag(Flag),
    /// No target file was named, or its name was blank.
    MissingFilename,
    /// The reference file named with `-r` does not exist.
    ReferenceUnreadable,
}

impl UsageError {
    /// The text that reports the error.
    pub open spec fn text(self) -> Seq<char> {
        match self {
            UsageError::DuplicateFlag(Flag::Access) => "-a flag already specified"@,
            UsageError::DuplicateFlag(Flag::NoCreate) => "-c flag already specified"@,
            UsageError::DuplicateFlag(Flag::Modify) => "-m flag already specified"@,
            UsageError::DuplicateFlag(Flag::Reference) => "-r flag already specified"@,
            UsageError::MissingFilename => "a filename must be provided"@,
            UsageError::ReferenceUnreadable => "cannot access reference file"@,
        }
    }

    /// The text that reports the error, as a string.
    pub fn message(&self) -> (s: String)
        ensures
            s@ == self.text(),
    {
        match self {
            UsageError::DuplicateFlag(Flag::Access) => "-a flag already specified".to_owned(),
            UsageError::DuplicateFlag(Flag::NoCreate) => "-c flag already specified".to_owned(),
            UsageError::DuplicateFlag(Flag::Modify) => "-m flag already specified".to_owned(),
            UsageError::DuplicateFlag(Flag::Reference) => "-r flag already specified".to_owned(),
            UsageError::MissingFilename => "a filename must be provided".to_owned(),
            UsageError::ReferenceUnreadable => "cannot access reference file".to_owned(),
        }
    }
}

} // verus!
