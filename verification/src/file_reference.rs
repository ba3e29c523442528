use crate::value::{clone_bytes, Value};
use vstd::prelude::*;

verus! {

/// The outcome of a finished file-selection dialog: the chosen file's
/// name, its size in bytes, and its contents.
#[derive(Debug)]
pub struct FileDialogResult {
    pub file_name: Option<String>,
    pub size: Option<u64>,
    pub contents: Vec<u8>,
}

impl FileDialogResult {
    /// The recorded size fits the runtime's number range.
    pub open spec fn wf(&self) -> bool {
        match self.size {
            Some(s) => s <= i64::MAX as u64,
            None => true,
        }
    }
}

/// What a file-reference object currently points at: nothing, or the
/// outcome of a finished selection dialog.
#[derive(Debug)]
pub enum FileReference {
    Unselected,
    Selected(FileDialogResult),
}

/// The modelled state of a file-reference object: its selection and
/// whether its contents have been loaded.
#[derive(Debug)]
pub struct FileReferenceObject {
    pub file_reference: FileReference,
    pub loaded: bool,
}

impl FileReferenceObject {
    /// The recorded size, if any, fits the runtime's number range.
    pub open spec fn wf(&self) -> bool {
        match self.file_reference {
            FileReference::Selected(d) => d.wf(),
            FileReference::Unselected => true,
        }
    }

    /// A file-reference object with nothing selected.
    pub fn new() -> (res: FileReferenceObject)
        ensures
            res.file_reference is Unselected,
            !res.loaded,
    {
        FileReferenceObject { file_reference: FileReference::Unselected, loaded: false }
    }
}

/// An event dispatched on a file-reference object.
#[derive(Clone, Copy, PartialEq, Eq, Structural, Debug)]
pub enum FileEvent {
    Open,
    Progress { loaded: u64, total: u64 },
    Complete,
}

/// An error raised by the file-reference routines.
#[derive(Clone, Copy, PartialEq, Eq, Structural, Debug)]
pub enum FileReferenceError {
    /// Routines were called in an incorrect sequence: no file has been
    /// selected yet.
    InvalidCallSequence,
    /// A supplied file filter is not in the correct format.
    InvalidFileFilter,
}

impl FileReferenceError {
    /// The runtime's numeric code for this error.
    pub fn code(&self) -> (res: u32)
        ensures
            *self is InvalidCallSequence ==> res == 2037,
            *self is InvalidFileFilter ==> res == 2097,
    {
        match self {
            FileReferenceError::InvalidCallSequence => 2037,
            FileReferenceError::InvalidFileFilter => 2097,
        }
    }
}

/// The `data` property getter: the selected file's contents once they
/// are loaded.  Unlike the other getters this one reports absence, not
/// an error, when nothing is there yet.
pub fn get_data(this: &FileReferenceObject) -> (res: Option<Vec<u8>>)
    ensures
        match this.file_reference {
            FileReference::Selected(d) => if this.loaded {
                res matches Some(b) && b@ == d.contents@
            } else {
                res is None
            },
            FileReference::Unselected => res is None,
        },
{
    match &this.file_reference {
        FileReference::Selected(d) => {
            if this.loaded {
                Some(clone_bytes(&d.contents))
            } else {
                None
            }
        },
        FileReference::Unselected => None,
    }
}

/// The `name` property getter: the selected file's name (empty when the
/// dialog reported none), or a call-sequence error before any selection.
pub fn get_name(this: &FileReferenceObject) -> (res: Result<Value, FileReferenceError>)
    ensures
        match this.file_reference {
            FileReference::Selected(d) => res matches Ok(v) && (v matches Value::Str(s) && s@
                == match d.file_name {
                Some(n) => n@,
                None => Seq::<char>::empty(),
            }),
            FileReference::Unselected => res == Err::<Value, FileReferenceError>(
                FileReferenceError::InvalidCallSequence,
            ),
        },
{
    match &this.file_reference {
        FileReference::Selected(d) => {
            let name = match &d.file_name {
                Some(n) => n.clone(),
                None => String::new(),
            };
            Ok(Value::Str(name))
        },
        FileReference::Unselected => Err(FileReferenceError::InvalidCallSequence),
    }
}

/// The `size` property getter: the selected file's size in bytes (zero
/// when the dialog reported none), or a call-sequence error before any
/// selection.
pub fn get_size(this: &FileReferenceObject) -> (res: Result<Value, FileReferenceError>)
    requires
        this.wf(),
    ensures
        match this.file_reference {
            FileReference::Selected(d) => res == Ok::<Value, FileReferenceError>(
                Value::Number(
                    match d.size {
                        Some(s) => s as i64,
                        None => 0,
                    },
                ),
            ),
            FileReference::Unselected => res == Err::<Value, FileReferenceError>(
                FileReferenceError::InvalidCallSequence,
            ),
        },
{
    match &this.file_reference {
        FileReference::Selected(d) => {
            let size: i64 = match d.size {
                Some(s) => s as i64,
                None => 0,
            };
            Ok(Value::Number(size))
        },
        FileReference::Unselected => Err(FileReferenceError::InvalidCallSequence),
    }
}

/// A candidate file filter as the caller supplied it: the three
/// properties read off the filter object, still untyped.
#[derive(Debug)]
pub struct FileFilterCandidate {
    pub description: Value,
    pub extension: Value,
    pub mac_type: Value,
}

/// A validated file filter, ready for the host's file-selection dialog.
#[derive(Debug)]
pub struct FileFilter {
    pub description: String,
    pub extensions: String,
    pub mac_type: Option<String>,
}

/// A candidate is valid when its description and extension are both
/// non-empty strings.
pub open spec fn spec_valid_filter(c: FileFilterCandidate) -> bool {
    &&& c.description matches Value::Str(d) && d@.len() > 0
    &&& c.extension matches Value::Str(e) && e@.len() > 0
}

/// How a validated filter relates to the candidate it came from: the
/// description and extension carry over, and the optional Mac type is
/// kept only when it is a non-empty string.
pub open spec fn spec_filter_matches(f: FileFilter, c: FileFilterCandidate) -> bool {
    &&& (c.description matches Value::Str(d) && f.description@ == d@)
    &&& (c.extension matches Value::Str(e) && f.extensions@ == e@)
    &&& (match c.mac_type {
        Value::Str(m) => if m@.len() > 0 {
            f.mac_type matches Some(x) && x@ == m@
        } else {
            f.mac_type is None
        },
        _ => f.mac_type is None,
    })
}

/// Validate the file filters handed to a selection dialog: each
/// candidate must carry a non-empty string description and extension,
/// and a non-empty string Mac type is kept while anything else is
/// dropped.  The first invalid candidate aborts the walk with a filter
/// error; the host shell displays the dialog over the validated list.
pub fn browse(candidates: &Vec<FileFilterCandidate>) -> (res: Result<
    Vec<FileFilter>,
    FileReferenceError,
>)
    ensures
        match res {
            Ok(filters) => {
                &&& (forall|i: int|
                    0 <= i < candidates@.len() ==> #[trigger] spec_valid_filter(candidates@[i]))
                &&& filters@.len() == candidates@.len()
                &&& (forall|i: int|
                    0 <= i < candidates@.len() ==> #[trigger] spec_filter_matches(
                        filters@[i],
                        candidates@[i],
                    ))
            },
            Err(e) => {
                &&& e == FileReferenceError::InvalidFileFilter
                &&& exists|i: int|
                    0 <= i < candidates@.len() && !#[trigger] spec_valid_filter(candidates@[i])
            },
        },
{
    let mut filters: Vec<FileFilter> = Vec::new();
    let mut i: usize = 0;
    while i < candidates.len()
        invariant
            i <= candidates@.len(),
            filters@.len() == i,
            forall|j: int| 0 <= j < i ==> #[trigger] spec_valid_filter(candidates@[j]),
            forall|j: int|
                0 <= j < i ==> #[trigger] spec_filter_matches(filters@[j], candidates@[j]),
        decreases candidates@.len() - i,
    {
        let c = &candidates[i];
        let description = match &c.description {
            Value::Str(d) => {
                if d.as_str().is_empty() {
                    proof {
                        assert(!spec_valid_filter(candidates@[i as int]));
                    }
                    return Err(FileReferenceError::InvalidFileFilter);
                }
                d.clone()
            },
            _ => {
                proof {
                    assert(!spec_valid_filter(candidates@[i as int]));
                }
                return Err(FileReferenceError::InvalidFileFilter);
            },
        };
        let extension = match &c.extension {
            Value::Str(e) => {
                if e.as_str().is_empty() {
                    proof {
                        assert(!spec_valid_filter(candidates@[i as int]));
                    }
                    return Err(FileReferenceError::InvalidFileFilter);
                }
                e.clone()
            },
            _ => {
                proof {
                    assert(!spec_valid_filter(candidates@[i as int]));
                }
                return Err(FileReferenceError::InvalidFileFilter);
            },
        };
        let mac_type = match &c.mac_type {
            Value::Str(m) => {
                if !m.as_str().is_empty() {
                    Some(m.clone())
                } else {
                    None
                }
            },
            _ => None,
        };
        filters.push(FileFilter { description, extensions: extension, mac_type });
        i = i + 1;
    }
    Ok(filters)
}

/// Report the already-loaded selection to its listeners: dispatch the
/// open, progress and completion events in the order the runtime does,
/// and mark the reference loaded.  Before any selection the call fails
/// with a call-sequence error and dispatches nothing.
pub fn load(this: &mut FileReferenceObject, events: &mut Vec<FileEvent>) -> (res: Result<
    Value,
    FileReferenceError,
>)
    requires
        old(this).wf(),
    ensures
        match old(this).file_reference {
            FileReference::Selected(d) => {
                let size = match d.size {
                    Some(s) => s,
                    None => 0,
                };
                &&& final(this).file_reference == old(this).file_reference
                &&& final(this).loaded
                &&& final(events)@ == old(events)@ + seq![
                    FileEvent::Open,
                    FileEvent::Progress { loaded: 0, total: size },
                    FileEvent::Open,
                    FileEvent::Progress { loaded: size, total: size },
                    FileEvent::Complete,
                ]
                &&& res == Ok::<Value, FileReferenceError>(Value::Undefined)
            },
            FileReference::Unselected => {
                &&& *final(this) == *old(this)
                &&& final(events)@ == old(events)@
                &&& res == Err::<Value, FileReferenceError>(
                    FileReferenceError::InvalidCallSequence,
                )
            },
        },
{
    let size: u64 = match &this.file_reference {
        FileReference::Selected(d) => match d.size {
            Some(s) => s,
            None => 0,
        },
        FileReference::Unselected => {
            return Err(FileReferenceError::InvalidCallSequence);
        },
    };
    events.push(FileEvent::Open);
    events.push(FileEvent::Progress { loaded: 0, total: size });
    events.push(FileEvent::Open);
    events.push(FileEvent::Progress { loaded: size, total: size });
    this.loaded = true;
    events.push(FileEvent::Complete);
    proof {
        assert(events@ =~= old(events)@ + seq![
            FileEvent::Open,
            FileEvent::Progress { loaded: 0, total: size },
            FileEvent::Open,
            FileEvent::Progress { loaded: size, total: size },
            FileEvent::Complete,
        ]);
    }
    Ok(Value::Undefined)
}

} // verus!
