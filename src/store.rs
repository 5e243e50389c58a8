use vstd::prelude::*;
use vstd::hash_map::StringHashMap;
use vstd::string::StringExecFns;

use crate::action::{
    cache_after, cached, key_path, outcome_of, plan, reply_after, Action,
    CacheMap, FailureKind, FileOp, FileOutcome, Reply, Step,
};

verus! {

/// How many actions the dispatch queue holds before a sender waits.
pub const QUEUE_CAPACITY: usize = 10;

/// The state that the workers share: the cache, the root directory of the
/// files, and the number of workers that serve the store.
///
/// Actions are applied one at a time through `&mut self`: `begin` says what
/// an action needs, and `complete` applies the outcome of that file operation
/// to the cache and gives the action's one reply.
pub struct Store {
    db: StringHashMap<String>,
    store_path: String,
    num_of_handlers: usize,
}

impl View for Store {
    type V = CacheMap;

    closed spec fn view(&self) -> CacheMap {
        self.db@
    }
}

impl Store {
    /// The root directory of the files.
    pub closed spec fn root(&self) -> Seq<char> {
        self.store_path@
    }

    /// The number of workers that serve the store.
    pub closed spec fn handlers(&self) -> nat {
        self.num_of_handlers as nat
    }

    /// An empty store over the files under `store_path`, served by
    /// `num_of_handlers` workers. One worker stands by while another waits on
    /// a file operation, so there are at least two.
    pub fn new(store_path: &str, num_of_handlers: usize) -> (s: Store)
        requires
            num_of_handlers > 1,
        ensures
            s@ == Map::<Seq<char>, String>::empty(),
            s.root() == store_path@,
            s.handlers() == num_of_handlers,
    {
        Store {
            db: StringHashMap::new(),
            store_path: String::from_str(store_path),
            num_of_handlers,
        }
    }

    /// The root directory of the files.
    pub fn store_path(&self) -> (r: &str)
        ensures
            r@ == self.root(),
    {
        self.store_path.as_str()
    }

    /// The number of workers that serve the store.
    pub fn num_of_handlers(&self) -> (r: usize)
        ensures
            r == self.handlers(),
    {
        self.num_of_handlers
    }

    /// The path of the file that holds `key`: the root, a slash, and the key.
    pub fn file_path(&self, key: &str) -> (r: String)
        ensures
            r@ == key_path(self.root(), key@),
    {
        let mut path = self.store_path.clone();
        path.append("/");
        path.append(key);
        proof {
            reveal_strlit("/");
        }
        assert(path@ =~= key_path(self.root(), key@));
        path
    }

    /// The cached value of `key`, if any.
    pub fn cached(&self, key: &str) -> (r: Option<String>)
        ensures
            r == cached(self@, key@),
    {
        match self.db.get(key) {
            Some(v) => Some(v.clone()),
            None => None,
        }
    }

    /// What `action` needs next: a get of a cached key is answered at once,
    /// every other action needs its file operation.
    pub fn begin(&self, action: &Action) -> (s: Step)
        ensures
            s == plan(self@, *action),
    {
        match action {
            Action::Put { key, value } => Step::Perform(
                FileOp::Write { key: key.clone(), value: value.clone() },
            ),
            Action::Get { key } => match self.cached(key.as_str()) {
                Some(v) => Step::Reply(Reply::Entry(Ok(Some(v)))),
                None => Step::Perform(FileOp::Read { key: key.clone() }),
            },
            Action::Del { key } => Step::Perform(FileOp::Remove { key: key.clone() }),
            Action::Clear => Step::Perform(FileOp::Wipe),
        }
    }

    /// Applies the outcome of the file operation of `action` and gives the
    /// action's reply. The cache changes only when the file operation
    /// succeeded, so the files stay ahead of the cache.
    pub fn complete(&mut self, action: Action, outcome: FileOutcome) -> (r: Reply)
        requires
            outcome_of(action, outcome),
        ensures
            final(self)@ == cache_after(old(self)@, action, outcome),
            r == reply_after(old(self)@, action, outcome),
            final(self).root() == old(self).root(),
            final(self).handlers() == old(self).handlers(),
    {
        match action {
            Action::Put { key, value } => match outcome {
                FileOutcome::Done(Ok(())) => {
                    let prev = self.cached(key.as_str());
                    self.db.insert(key, value);
                    Reply::Entry(Ok(prev))
                },
                FileOutcome::Done(Err(e)) => Reply::Entry(Err(e)),
                FileOutcome::Loaded(_) => Reply::Entry(Ok(None)),
            },
            Action::Get { .. } => match outcome {
                FileOutcome::Loaded(Ok(s)) => Reply::Entry(Ok(Some(s))),
                _ => Reply::Entry(Ok(None)),
            },
            Action::Del { key } => match outcome {
                FileOutcome::Done(Ok(())) => {
                    let prev = self.cached(key.as_str());
                    self.db.remove(key.as_str());
                    Reply::Entry(Ok(prev))
                },
                FileOutcome::Done(Err(e)) => Reply::Entry(Err(e)),
                FileOutcome::Loaded(_) => Reply::Entry(Ok(None)),
            },
            Action::Clear => match outcome {
                FileOutcome::Done(Ok(())) => {
                    self.db.clear();
                    Reply::Cleared(Ok(()))
                },
                FileOutcome::Done(Err(e)) => {
                    if e.kind == FailureKind::NotFound {
                        self.db.clear();
                        Reply::Cleared(Ok(()))
                    } else {
                        Reply::Cleared(Err(e))
                    }
                },
                FileOutcome::Loaded(_) => Reply::Cleared(Ok(())),
            },
        }
    }
}

} // verus!
