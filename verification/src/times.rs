//! Pairs of file timestamps and the choice of the pair to write.

use vstd::prelude::*;

verus! {

/// `filetime::FileTime`, the timestamp of a file. The library never looks
/// inside one: it only decides which of the timestamps it was handed is
/// written back.
#[verifier::external_type_specification]
#[verifier::external_body]
pub struct ExFileTime(filetime::FileTime);

/// The access time and the modification time of one file.
#[derive(Clone, Copy, Debug, PartialEq, Eq)]
pub struct Times {
    /// When the file was last read.
    pub accessed: filetime::FileTime,
    /// When the file was last written.
    pub modified: filetime::FileTime,
}

/// The times to write to the target, if any are to be written. `current` are
/// the target's own times and `fresh` the new ones. A time that was asked for
/// becomes the fresh one, the other stays the target's own; where neither was
/// asked for, nothing is written.
pub open spec fn chosen(access: bool, modify: bool, current: Times, fresh: Times) -> Option<Times> {
    if access && modify {
        Some(fresh)
    } else if access {
        Some(Times { accessed: fresh.accessed, modified: current.modified })
    } else if modify {
        Some(Times { accessed: current.accessed, modified: fresh.modified })
    } else {
        None
    }
}

/// Computes [`chosen`].
pub fn choose_times(access: bool, modify: bool, current: Times, fresh: Times) -> (r: Option<Times>)
    ensures
        r == chosen(access, modify, current, fresh),
{
    match (access, modify) {
        (true, false) => Some(Times { accessed: fresh.accessed, modified: current.modified }),
        (false, true) => Some(Times { accessed: current.accessed, modified: fresh.modified }),
        (true, true) => Some(fresh),
        (false, false) => None,
    }
}

} // verus!
