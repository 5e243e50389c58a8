use vstd::prelude::*;

verus! {

/// What went wrong in a file operation.
#[derive(Clone, Copy, Debug, PartialEq, Eq, Structural)]
pub enum FailureKind {
    /// The file or directory did not exist.
    NotFound,
    /// Any other failure.
    Other,
}

/// A failed file operation, as reported by the persistence layer.
#[derive(Clone, Debug)]
pub struct IoFailure {
    pub kind: FailureKind,
    pub message: String,
}

/// A request to the store.
#[derive(Clone, Debug)]
pub enum Action {
    Put { key: String, value: String },
    Get { key: String },
    Del { key: String },
    Clear,
}

/// A file operation that the store needs performed under its root.
#[derive(Clone, Debug)]
pub enum FileOp {
    /// Write `value` as the whole contents of the file of `key`.
    Write { key: String, value: String },
    /// Read the file of `key`.
    Read { key: String },
    /// Remove the file of `key`.
    Remove { key: String },
    /// Remove the root directory with everything in it.
    Wipe,
}

/// What a file operation came to.
#[derive(Debug)]
pub enum FileOutcome {
    /// The outcome of a write, a removal or a wipe.
    Done(Result<(), IoFailure>),
    /// The outcome of a read: the contents of the file.
    Loaded(Result<String, IoFailure>),
}

/// The one response that each action receives.
#[derive(Debug)]
pub enum Reply {
    /// The response to a set, a get or a delete: a value, if there is one.
    Entry(Result<Option<String>, IoFailure>),
    /// The response to a clear.
    Cleared(Result<(), IoFailure>),
}

/// What the store does next with an action.
#[derive(Debug)]
pub enum Step {
    /// The action is answered without touching the files.
    Reply(Reply),
    /// The action needs this file operation, whose outcome goes to `Store::complete`.
    Perform(FileOp),
}

/// The cache as a map from key to value.
pub type CacheMap = Map<Seq<char>, String>;

/// The files under the root as a map from key to contents.
pub type DiskMap = Map<Seq<char>, Seq<char>>;

/// The file that holds `key` under `root`.
pub open spec fn key_path(root: Seq<char>, key: Seq<char>) -> Seq<char> {
    root + seq!['/'] + key
}

/// The value that `cache` holds for `key`, if any.
pub open spec fn cached(cache: CacheMap, key: Seq<char>) -> Option<String> {
    if cache.contains_key(key) {
        Some(cache[key])
    } else {
        None
    }
}

/// A wipe succeeds when it removed the root, or when there was no root to remove.
pub open spec fn wipe_succeeded(r: Result<(), IoFailure>) -> bool {
    match r {
        Ok(()) => true,
        Err(e) => e.kind == FailureKind::NotFound,
    }
}

/// What the store does with `a` when its cache is `cache`: a get of a cached
/// key is answered from the cache; every other action needs its file operation.
pub open spec fn plan(cache: CacheMap, a: Action) -> Step {
    match a {
        Action::Put { key, value } => Step::Perform(FileOp::Write { key, value }),
        Action::Get { key } => if cache.contains_key(key@) {
            Step::Reply(Reply::Entry(Ok(Some(cache[key@]))))
        } else {
            Step::Perform(FileOp::Read { key })
        },
        Action::Del { key } => Step::Perform(FileOp::Remove { key }),
        Action::Clear => Step::Perform(FileOp::Wipe),
    }
}

/// Whether `o` is the kind of outcome that the file operation of `a` has.
pub open spec fn outcome_of(a: Action, o: FileOutcome) -> bool {
    match a {
        Action::Get { .. } => o is Loaded,
        _ => o is Done,
    }
}

/// The cache after `a` came to `o`: the cache changes only after its file
/// operation succeeded.
pub open spec fn cache_after(cache: CacheMap, a: Action, o: FileOutcome) -> CacheMap {
    match (a, o) {
        (Action::Put { key, value }, FileOutcome::Done(Ok(()))) => cache.insert(key@, value),
        (Action::Del { key }, FileOutcome::Done(Ok(()))) => cache.remove(key@),
        (Action::Clear, FileOutcome::Done(r)) => if wipe_succeeded(r) {
            Map::empty()
        } else {
            cache
        },
        _ => cache,
    }
}

/// The reply to `a` once it came to `o`. A set and a delete give the value that
/// the cache held before; a failed read is a missing key, not an error; a wipe
/// that found no root is a successful clear.
pub open spec fn reply_after(cache: CacheMap, a: Action, o: FileOutcome) -> Reply {
    match a {
        Action::Put { key, .. } | Action::Del { key } => match o {
            FileOutcome::Done(Err(e)) => Reply::Entry(Err(e)),
            _ => Reply::Entry(Ok(cached(cache, key@))),
        },
        Action::Get { .. } => match o {
            FileOutcome::Loaded(Ok(s)) => Reply::Entry(Ok(Some(s))),
            _ => Reply::Entry(Ok(None)),
        },
        Action::Clear => match o {
            FileOutcome::Done(r) => if wipe_succeeded(r) {
                Reply::Cleared(Ok(()))
            } else {
                Reply::Cleared(r)
            },
            _ => Reply::Cleared(Ok(())),
        },
    }
}

/// Whether `o` is what a persistence layer holding `disk` reports for `op`
/// when no operation fails but for a missing file or root.
pub open spec fn served(disk: DiskMap, op: FileOp, o: FileOutcome) -> bool {
    match op {
        FileOp::Write { .. } => o == FileOutcome::Done(Ok(())),
        FileOp::Read { key } => match o {
            FileOutcome::Loaded(Ok(s)) => disk.contains_key(key@) && s@ == disk[key@],
            FileOutcome::Loaded(Err(e)) => !disk.contains_key(key@) && e.kind == FailureKind::NotFound,
            _ => false,
        },
        FileOp::Remove { key } => match o {
            FileOutcome::Done(Ok(())) => disk.contains_key(key@),
            FileOutcome::Done(Err(e)) => !disk.contains_key(key@) && e.kind == FailureKind::NotFound,
            _ => false,
        },
        FileOp::Wipe => match o {
            FileOutcome::Done(r) => wipe_succeeded(r),
            _ => false,
        },
    }
}

/// The files after `op` came to `o`; a failed operation leaves them as they were.
pub open spec fn disk_after(disk: DiskMap, op: FileOp, o: FileOutcome) -> DiskMap {
    match (op, o) {
        (FileOp::Write { key, value }, FileOutcome::Done(Ok(()))) => disk.insert(key@, value@),
        (FileOp::Remove { key }, FileOutcome::Done(Ok(()))) => disk.remove(key@),
        (FileOp::Wipe, FileOutcome::Done(r)) => if wipe_succeeded(r) {
            Map::empty()
        } else {
            disk
        },
        _ => disk,
    }
}

impl FileOutcome {
    /// Whether this is the kind of outcome that the file operation of `a` has.
    pub fn is_outcome_of(&self, a: &Action) -> (r: bool)
        ensures
            r == outcome_of(*a, *self),
    {
        match a {
            Action::Get { .. } => matches!(self, FileOutcome::Loaded(_)),
            _ => matches!(self, FileOutcome::Done(_)),
        }
    }
}

} // verus!
