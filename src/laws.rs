//! What holds of the store over several actions, against a persistence layer
//! that reports its files faithfully.
use vstd::prelude::*;

use crate::action::{
    cache_after, cached, disk_after, plan, reply_after, served, Action, CacheMap, DiskMap,
    FileOp, FileOutcome, Reply, Step,
};

verus! {

/// Every cached entry is also on disk, with the same contents.
pub open spec fn mirrors(cache: CacheMap, disk: DiskMap) -> bool {
    forall|k: Seq<char>|
        #[trigger] cache.contains_key(k) ==> disk.contains_key(k) && disk[k] == cache[k]@
}

/// Whether action `a` may change what is stored under `key`.
pub open spec fn touches(a: Action, key: Seq<char>) -> bool {
    match a {
        Action::Put { key: k, .. } => k@ == key,
        Action::Del { key: k } => k@ == key,
        Action::Clear => true,
        Action::Get { .. } => false,
    }
}

/// The cache and the files after the store took `a`, whose file operation, if
/// it needed one, came to `o`.
pub open spec fn next(cache: CacheMap, disk: DiskMap, a: Action, o: FileOutcome) -> (
    CacheMap,
    DiskMap,
) {
    match plan(cache, a) {
        Step::Reply(_) => (cache, disk),
        Step::Perform(op) => (cache_after(cache, a, o), disk_after(disk, op, o)),
    }
}

/// Whether `o` is what a faithful persistence layer reports for the file
/// operation that `a` needs, if it needs one.
pub open spec fn step_served(cache: CacheMap, disk: DiskMap, a: Action, o: FileOutcome) -> bool {
    match plan(cache, a) {
        Step::Reply(_) => true,
        Step::Perform(op) => served(disk, op, o),
    }
}

/// The cache and the files after the store took the actions of `q` in order,
/// each with the outcome paired with it.
pub open spec fn run(cache: CacheMap, disk: DiskMap, q: Seq<(Action, FileOutcome)>) -> (
    CacheMap,
    DiskMap,
)
    decreases q.len(),
{
    if q.len() == 0 {
        (cache, disk)
    } else {
        let (c, d) = next(cache, disk, q[0].0, q[0].1);
        run(c, d, q.drop_first())
    }
}

/// Whether every outcome in `q` is what a faithful persistence layer reports
/// at the point where the store takes that action.
pub open spec fn run_served(cache: CacheMap, disk: DiskMap, q: Seq<(Action, FileOutcome)>) -> bool
    decreases q.len(),
{
    if q.len() == 0 {
        true
    } else {
        let (c, d) = next(cache, disk, q[0].0, q[0].1);
        step_served(cache, disk, q[0].0, q[0].1) && run_served(c, d, q.drop_first())
    }
}

/// Whether `r` is the kind of reply that `a` is owed: a clear is told only
/// whether it succeeded, every other action may also receive a value.
pub open spec fn reply_fits(a: Action, r: Reply) -> bool {
    match a {
        Action::Clear => r is Cleared,
        _ => r is Entry,
    }
}

/// Every action receives exactly one reply, of its own kind, whether it is
/// answered from the cache or after its file operation, and whatever that
/// operation came to.
pub proof fn lemma_one_reply(cache: CacheMap, a: Action, o: FileOutcome)
    ensures
        match plan(cache, a) {
            Step::Reply(r) => reply_fits(a, r),
            Step::Perform(_) => reply_fits(a, reply_after(cache, a, o)),
        },
{
}

/// Every action keeps the cache a mirror of the files: the files change
/// first, and the cache follows only what succeeded.
pub proof fn lemma_mirror_kept(cache: CacheMap, disk: DiskMap, a: Action, o: FileOutcome)
    requires
        mirrors(cache, disk),
        step_served(cache, disk, a, o),
    ensures
        mirrors(next(cache, disk, a, o).0, next(cache, disk, a, o).1),
{
}

/// Write-through: once a put of `key` to `value` succeeded, a get of `key` is
/// answered with `value` from the cache, and a store that starts over the same
/// files with an empty cache reads `value` back from them.
pub proof fn lemma_write_through(
    cache: CacheMap,
    disk: DiskMap,
    key: String,
    value: String,
    written: FileOutcome,
    read: FileOutcome,
)
    requires
        served(disk, FileOp::Write { key, value }, written),
    ensures
        reply_after(cache, Action::Put { key, value }, written) == Reply::Entry(
            Ok(cached(cache, key@)),
        ),
        plan(cache_after(cache, Action::Put { key, value }, written), Action::Get { key })
            == Step::Reply(Reply::Entry(Ok(Some(value)))),
        plan(Map::empty(), Action::Get { key }) == Step::Perform(FileOp::Read { key }),
        served(disk_after(disk, FileOp::Write { key, value }, written), FileOp::Read { key }, read)
            ==> match reply_after(Map::empty(), Action::Get { key }, read) {
            Reply::Entry(Ok(Some(s))) => s@ == value@,
            _ => false,
        },
{
}

/// Delete removes from both layers: after a delete of `key`, a get of `key`
/// finds nothing, in this store and in one that starts over the same files.
pub proof fn lemma_delete_removes(
    cache: CacheMap,
    disk: DiskMap,
    key: String,
    removed: FileOutcome,
    read: FileOutcome,
)
    requires
        mirrors(cache, disk),
        served(disk, FileOp::Remove { key }, removed),
    ensures
        plan(cache_after(cache, Action::Del { key }, removed), Action::Get { key })
            == Step::Perform(FileOp::Read { key }),
        plan(Map::empty(), Action::Get { key }) == Step::Perform(FileOp::Read { key }),
        served(disk_after(disk, FileOp::Remove { key }, removed), FileOp::Read { key }, read) ==> {
            &&& reply_after(cache_after(cache, Action::Del { key }, removed), Action::Get { key }, read)
                == Reply::Entry(Ok(None))
            &&& reply_after(Map::empty(), Action::Get { key }, read) == Reply::Entry(Ok(None))
        },
{
}

/// Clear empties everything: after a clear, the cache and the files are empty,
/// so a get of any key finds nothing, in this store and in one that starts
/// over the same files.
pub proof fn lemma_clear_empties(cache: CacheMap, disk: DiskMap, wiped: FileOutcome)
    requires
        served(disk, FileOp::Wipe, wiped),
    ensures
        cache_after(cache, Action::Clear, wiped) == Map::<Seq<char>, String>::empty(),
        disk_after(disk, FileOp::Wipe, wiped) == Map::<Seq<char>, Seq<char>>::empty(),
        forall|key: String, read: FileOutcome|
            #[trigger] served(Map::empty(), FileOp::Read { key }, read) ==> {
                &&& plan(Map::empty(), Action::Get { key }) == Step::Perform(FileOp::Read { key })
                &&& reply_after(Map::empty(), Action::Get { key }, read) == Reply::Entry(Ok(None))
            },
{
}

/// Idempotent clear: a clear succeeds whether or not there was anything to
/// remove, so two clears in a row both succeed.
pub proof fn lemma_clear_idempotent(
    cache: CacheMap,
    disk: DiskMap,
    first: FileOutcome,
    second: FileOutcome,
)
    requires
        served(disk, FileOp::Wipe, first),
        served(disk_after(disk, FileOp::Wipe, first), FileOp::Wipe, second),
    ensures
        reply_after(cache, Action::Clear, first) == Reply::Cleared(Ok(())),
        reply_after(cache_after(cache, Action::Clear, first), Action::Clear, second)
            == Reply::Cleared(Ok(())),
{
}

/// Actions that do not touch `key` leave its entry in the cache and its file
/// as they were.
pub proof fn lemma_untouched_kept(
    cache: CacheMap,
    disk: DiskMap,
    q: Seq<(Action, FileOutcome)>,
    key: Seq<char>,
)
    requires
        run_served(cache, disk, q),
        forall|j: int| 0 <= j < q.len() ==> !touches(#[trigger] q[j].0, key),
    ensures
        cached(run(cache, disk, q).0, key) == cached(cache, key),
        run(cache, disk, q).1.contains_key(key) == disk.contains_key(key),
        disk.contains_key(key) ==> run(cache, disk, q).1[key] == disk[key],
    decreases q.len(),
{
    if q.len() > 0 {
        let (c, d) = next(cache, disk, q[0].0, q[0].1);
        assert(!touches(q[0].0, key));
        assert forall|j: int| 0 <= j < q.drop_first().len() implies !touches(
            #[trigger] q.drop_first()[j].0,
            key,
        ) by {
            assert(q.drop_first()[j] == q[j + 1]);
        }
        lemma_untouched_kept(c, d, q.drop_first(), key);
    }
}

/// Strict ordering: the store takes actions from the queue one at a time, in
/// order, so when the last action of `q` that touches `key` is a put of
/// `value`, the cache and the file of `key` both end up holding `value`, and a
/// get of `key` is answered with it: no update is lost or mixed with another.
pub proof fn lemma_last_put_wins(
    cache: CacheMap,
    disk: DiskMap,
    q: Seq<(Action, FileOutcome)>,
    i: int,
    key: String,
    value: String,
)
    requires
        run_served(cache, disk, q),
        0 <= i < q.len(),
        q[i].0 == (Action::Put { key, value }),
        forall|j: int| i < j < q.len() ==> !touches(#[trigger] q[j].0, key@),
    ensures
        cached(run(cache, disk, q).0, key@) == Some(value),
        run(cache, disk, q).1.contains_key(key@),
        run(cache, disk, q).1[key@] == value@,
        plan(run(cache, disk, q).0, Action::Get { key }) == Step::Reply(
            Reply::Entry(Ok(Some(value))),
        ),
    decreases q.len(),
{
    let (c, d) = next(cache, disk, q[0].0, q[0].1);
    let rest = q.drop_first();
    if i == 0 {
        assert forall|j: int| 0 <= j < rest.len() implies !touches(#[trigger] rest[j].0, key@) by {
            assert(rest[j] == q[j + 1]);
        }
        lemma_untouched_kept(c, d, rest, key@);
    } else {
        assert(rest[i - 1] == q[i]);
        assert forall|j: int| i - 1 < j < rest.len() implies !touches(
            #[trigger] rest[j].0,
            key@,
        ) by {
            assert(rest[j] == q[j + 1]);
        }
        lemma_last_put_wins(c, d, rest, i - 1, key, value);
    }
}

} // verus!
