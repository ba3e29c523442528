use crate::shared::str_eq;
use vstd::prelude::*;

verus! {

/// Where the shell keeps persistent emulated-program data: on disk, or
/// only in memory for the session.
#[derive(Clone, Copy, PartialEq, Eq, Structural, Debug)]
pub enum StorageBackend {
    Disk,
    Memory,
}

impl Default for StorageBackend {
    /// Persistent data goes to disk unless the user says otherwise.
    fn default() -> (res: Self)
        ensures
            res == StorageBackend::Disk,
    {
        StorageBackend::Disk
    }
}

impl StorageBackend {
    /// Parse a configuration word: `"disk"` and `"memory"` select their
    /// backends, anything else is rejected.
    pub fn from_str(s: &str) -> (res: Result<StorageBackend, ()>)
        ensures
            s@ == "disk"@ ==> res == Ok::<StorageBackend, ()>(StorageBackend::Disk),
            s@ == "memory"@ ==> res == Ok::<StorageBackend, ()>(StorageBackend::Memory),
            s@ != "disk"@ && s@ != "memory"@ ==> res == Err::<StorageBackend, ()>(()),
    {
        proof {
            reveal_strlit("disk");
            reveal_strlit("memory");
            assert("disk"@.len() == 4);
            assert("memory"@.len() == 6);
        }
        if str_eq(s, "disk") {
            Ok(StorageBackend::Disk)
        } else if str_eq(s, "memory") {
            Ok(StorageBackend::Memory)
        } else {
            Err(())
        }
    }

    /// The configuration word this backend is written as.
    pub fn as_str(&self) -> (res: &'static str)
        ensures
            *self is Disk ==> res@ == "disk"@,
            *self is Memory ==> res@ == "memory"@,
    {
        match self {
            StorageBackend::Disk => "disk",
            StorageBackend::Memory => "memory",
        }
    }
}

} // verus!
