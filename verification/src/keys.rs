use vstd::prelude::*;
use vstd::string::StringExecFns;

verus! {

/// A cache key: one owner's task collection, or one task of one owner.
///
/// The contracts track keys in this structured form; `render` gives the
/// wire form the backend sees, a composition of the namespace token, the
/// owner id and (for single-task lookups) the task id.
#[derive(Debug)]
pub enum CacheKey {
    List { owner: String },
    Item { owner: String, id: String },
}

/// The mathematical content of a cache key.
#[verifier::ext_equal]
pub ghost enum CacheKeyV {
    List { owner: Seq<char> },
    Item { owner: Seq<char>, id: Seq<char> },
}

impl View for CacheKey {
    type V = CacheKeyV;

    open spec fn view(&self) -> CacheKeyV {
        match self {
            CacheKey::List { owner } => CacheKeyV::List { owner: owner@ },
            CacheKey::Item { owner, id } => CacheKeyV::Item { owner: owner@, id: id@ },
        }
    }
}

impl CacheKey {
    /// The key of an owner's task collection.
    pub fn list(owner: &String) -> (k: CacheKey)
        ensures
            k@ == (CacheKeyV::List { owner: owner@ }),
    {
        CacheKey::List { owner: owner.clone() }
    }

    /// The key of one task of one owner.
    pub fn item(owner: &String, id: &String) -> (k: CacheKey)
        ensures
            k@ == (CacheKeyV::Item { owner: owner@, id: id@ }),
    {
        CacheKey::Item { owner: owner.clone(), id: id.clone() }
    }

    /// Copies a key; the copy addresses the same entry.
    pub fn copy_key(&self) -> (r: CacheKey)
        ensures
            r@ == self@,
    {
        match self {
            CacheKey::List { owner } => CacheKey::list(owner),
            CacheKey::Item { owner, id } => CacheKey::item(owner, id),
        }
    }

    /// Whether two keys address the same entry.
    pub fn eq_key(&self, other: &CacheKey) -> (r: bool)
        ensures
            r == (self@ == other@),
    {
        match (self, other) {
            (CacheKey::List { owner: a }, CacheKey::List { owner: b }) => *a == *b,
            (
                CacheKey::Item { owner: a, id: x },
                CacheKey::Item { owner: b, id: y },
            ) => *a == *b && *x == *y,
            _ => false,
        }
    }

    /// The wire form of the key, as the backend stores it.
    pub fn render(&self) -> (s: String)
        ensures
            self@ matches CacheKeyV::List { owner } ==> s@ == list_key_spec(owner),
            self@ matches CacheKeyV::Item { owner, id } ==> s@ == item_key_spec(owner, id),
    {
        match self {
            CacheKey::List { owner } => list_key(owner.as_str()),
            CacheKey::Item { owner, id } => item_key(owner.as_str(), id.as_str()),
        }
    }
}

/// The wire form of the collection key of an owner.
pub open spec fn list_key_spec(user_id: Seq<char>) -> Seq<char> {
    "task::"@ + user_id
}

/// The wire form of the single-task key of an owner and a task id.
pub open spec fn item_key_spec(user_id: Seq<char>, task_id: Seq<char>) -> Seq<char> {
    "task::"@ + user_id + "::"@ + task_id
}

/// Builds the wire form of the collection key for an owner.
pub fn list_key(user_id: &str) -> (k: String)
    ensures
        k@ == list_key_spec(user_id@),
{
    let mut k = "task::".to_owned();
    k.append(user_id);
    k
}

/// One owner's single-task wire keys never collide: two task ids of the
/// same owner give the same wire key only when they are the same id.
pub proof fn lemma_item_key_injective_per_owner(u: Seq<char>, t1: Seq<char>, t2: Seq<char>)
    requires
        item_key_spec(u, t1) == item_key_spec(u, t2),
    ensures
        t1 == t2,
{
    let p = "task::"@ + u + "::"@;
    assert(item_key_spec(u, t1) =~= p + t1);
    assert(item_key_spec(u, t2) =~= p + t2);
    assert((p + t1).skip(p.len() as int) =~= t1);
    assert((p + t2).skip(p.len() as int) =~= t2);
    assert(t1 =~= t2);
}

/// A collection wire key never equals a single-task wire key of the same
/// owner: the single-task key is strictly longer.
pub proof fn lemma_list_key_not_item_key(u: Seq<char>, t: Seq<char>)
    ensures
        list_key_spec(u) != item_key_spec(u, t),
{
    reveal_strlit("::");
    assert(item_key_spec(u, t).len() > list_key_spec(u).len());
}

/// Builds the wire form of the single-task key for an owner and a task id.
pub fn item_key(user_id: &str, task_id: &str) -> (k: String)
    ensures
        k@ == item_key_spec(user_id@, task_id@),
{
    let mut k = "task::".to_owned();
    k.append(user_id);
    k.append("::");
    k.append(task_id);
    k
}

} // verus!
