//! The shared cache of the application: who is on the cheer practice staff.
use vstd::prelude::*;
use std::sync::Arc;
use scc::TreeIndex;
use crate::ids::Uuid;

verus! {

#[verifier::external_type_specification]
#[verifier::external_body]
#[verifier::reject_recursive_types(K)]
#[verifier::reject_recursive_types(V)]
pub struct ExTreeIndex<K, V>(TreeIndex<K, V>);

/// The keys held by a `scc::TreeIndex` of identifier bits.
pub uninterp spec fn tree_index_keys(t: TreeIndex<u128, ()>) -> Set<u128>;

/// Calls `scc::TreeIndex::new()`. The contract claims that the index is empty.
#[verifier::external_body]
fn tree_index_new() -> (r: TreeIndex<u128, ()>)
    ensures
        tree_index_keys(r) == Set::<u128>::empty(),
{
    TreeIndex::new()
}

/// Calls `scc::TreeIndex::insert(key, ())`. The contract claims that the key is held
/// afterwards, alongside those held before, and that the call succeeds exactly when the
/// key was not held before (the source returns the pair back on a duplicate key).
#[verifier::external_body]
fn tree_index_insert(t: &mut TreeIndex<u128, ()>, key: u128) -> (r: bool)
    ensures
        tree_index_keys(*final(t)) == tree_index_keys(*old(t)).insert(key),
        r == !tree_index_keys(*old(t)).contains(key),
{
    t.insert(key, ()).is_ok()
}

/// Calls `scc::TreeIndex::contains(&key)`. The contract claims that the result tells
/// whether the key is held.
#[verifier::external_body]
fn tree_index_contains(t: &TreeIndex<u128, ()>, key: u128) -> (r: bool)
    ensures
        r == tree_index_keys(*t).contains(key),
{
    t.contains(&key)
}

/// Calls `<scc::TreeIndex as Clone>::clone`, which inserts every entry it iterates over into
/// a new index; the contract claims that the copy holds the same keys.
#[verifier::external_body]
fn tree_index_clone(t: &TreeIndex<u128, ()>) -> (r: TreeIndex<u128, ()>)
    ensures
        tree_index_keys(r) == tree_index_keys(*t),
{
    t.clone()
}

/// The identifier bits of a sequence of identifiers, as a set.
pub open spec fn id_set(ids: Seq<Uuid>) -> Set<u128> {
    Set::new(|b: u128| exists|i: int| 0 <= i < ids.len() && (#[trigger] ids[i]).bits == b)
}

/// The shared global cache: the students on the cheer practice staff and the teachers who
/// supervise cheer practice.
pub struct GlobalCache {
    cheer_staff_members: TreeIndex<u128, ()>,
    cheer_staff_teachers: TreeIndex<u128, ()>,
}

impl GlobalCache {
    /// The students on the cheer practice staff.
    pub closed spec fn staff_members(&self) -> Set<u128> {
        tree_index_keys(self.cheer_staff_members)
    }

    /// The teachers who supervise cheer practice.
    pub closed spec fn staff_teachers(&self) -> Set<u128> {
        tree_index_keys(self.cheer_staff_teachers)
    }

    /// An empty cache.
    pub fn new() -> (r: Arc<Self>)
        ensures
            r.staff_members() == Set::<u128>::empty(),
            r.staff_teachers() == Set::<u128>::empty(),
    {
        Arc::new(GlobalCache { cheer_staff_members: tree_index_new(), cheer_staff_teachers: tree_index_new() })
    }

    /// Adds identifiers to an index.
    fn insert_all(t: &mut TreeIndex<u128, ()>, ids: &Vec<Uuid>)
        ensures
            tree_index_keys(*final(t)) == tree_index_keys(*old(t)).union(id_set(ids@)),
    {
        let n = ids.len();
        let mut i: usize = 0;
        while i < n
            invariant
                n == ids@.len(),
                i <= n,
                tree_index_keys(*t) == tree_index_keys(*old(t)).union(id_set(ids@.take(i as int))),
            decreases n - i,
        {
            let _ = tree_index_insert(t, ids[i].bits);
            proof {
                let next = ids@.take(i + 1);
                assert forall|b: u128| #[trigger] id_set(next).contains(b) <==> (id_set(ids@.take(i as int)).contains(b) || b == ids@[i as int].bits) by {
                    if id_set(next).contains(b) {
                        let k = choose|k: int| 0 <= k < next.len() && (#[trigger] next[k]).bits == b;
                        if k < i {
                            assert(ids@.take(i as int)[k] == next[k]);
                        }
                    }
                    if id_set(ids@.take(i as int)).contains(b) {
                        let k = choose|k: int| 0 <= k < i && (#[trigger] ids@.take(i as int)[k]).bits == b;
                        assert(next[k] == ids@.take(i as int)[k]);
                    }
                    if b == ids@[i as int].bits {
                        assert(next[i as int] == ids@[i as int]);
                    }
                }
                assert(tree_index_keys(*t) =~= tree_index_keys(*old(t)).union(id_set(next)));
            }
            i = i + 1;
        }
        assert(ids@.take(n as int) =~= ids@);
    }

    /// A cache holding what `cache` holds and the given staff students and supervising
    /// teachers. The result is a new cache built from copies of the indexes of `cache`;
    /// `cache` itself is left as it was, so its other holders do not see the new identifiers.
    pub fn populate_cache(cache: Arc<Self>, student_ids: Vec<Uuid>, teacher_ids: Vec<Uuid>) -> (r: Arc<Self>)
        ensures
            r.staff_members() == cache.staff_members().union(id_set(student_ids@)),
            r.staff_teachers() == cache.staff_teachers().union(id_set(teacher_ids@)),
    {
        let mut members = tree_index_clone(&cache.cheer_staff_members);
        let mut teachers = tree_index_clone(&cache.cheer_staff_teachers);
        GlobalCache::insert_all(&mut members, &student_ids);
        GlobalCache::insert_all(&mut teachers, &teacher_ids);
        Arc::new(GlobalCache { cheer_staff_members: members, cheer_staff_teachers: teachers })
    }

    /// Whether the student is on the cheer practice staff.
    pub fn contains_cheer_staff(&self, student_id: Uuid) -> (r: bool)
        ensures
            r == self.staff_members().contains(student_id.bits),
    {
        tree_index_contains(&self.cheer_staff_members, student_id.bits)
    }

    /// Whether the teacher supervises cheer practice.
    pub fn contains_cheer_teacher(&self, teacher_id: Uuid) -> (r: bool)
        ensures
            r == self.staff_teachers().contains(teacher_id.bits),
    {
        tree_index_contains(&self.cheer_staff_teachers, teacher_id.bits)
    }
}

} // verus!
