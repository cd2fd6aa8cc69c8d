//! The open operation's validated half: an option set is either rejected
//! because it still carries the uninitialized sentinel, or translated into
//! the host open-mode flags for the single native open call.

use vstd::prelude::*;
use crate::error::FileError;
use crate::options::FileOptions;
use crate::options::OpenMode;
use crate::options::OptionsView;
use crate::options::initial_options;
use crate::options::mode_of;

verus! {

/// An open is permitted exactly when the uninitialized sentinel has been
/// cleared, that is, when at least one setter has been invoked with
/// `set = true`.
pub open spec fn open_permitted(v: OptionsView) -> bool {
    !v.uninitialized
}

/// A freshly constructed option set is never accepted by the open
/// validation: the uninitialized sentinel alone forbids the open, before
/// storage is ever touched.
pub proof fn lemma_new_is_rejected()
    ensures
        initial_options().uninitialized,
        !open_permitted(initial_options()),
{
}

impl FileOptions {
    /// Validates this option set for an open of the named file.  If the
    /// uninitialized sentinel is still set, the open is rejected with a
    /// validation error and storage is never touched; otherwise the set is
    /// translated into the host open-mode flags for the native call.
    pub fn check_open(&self, file_name: &str) -> (r: Result<OpenMode, FileError>)
        ensures
            r is Ok <==> open_permitted(self@),
            r matches Ok(m) ==> m == mode_of(self@),
            r matches Err(e) ==> e.message@ == "Options uninitialized"@
                && e.file_options == *self && e.file_name@ == file_name@,
    {
        if self.is_initialized() {
            Ok(self.open_mode())
        } else {
            Err(FileError::options_uninitialized(*self, file_name.to_string()))
        }
    }
}

} // verus!
