//! The resource registry: the typed mapping from resource name to hardware
//! handle.
//!
//! The registry is built once during boot and is the sole owner of its
//! handles for the process lifetime; membership never changes afterwards.
//! The handle type is a parameter: the hardware drivers behind the handles
//! are the platform's, not the library's.

use vstd::prelude::*;
use crate::common_v1::ResourceName;

verus! {

/// The four strings that identify a resource: the registry's primary key.
pub open spec fn name_key(n: ResourceName) -> (Seq<char>, Seq<char>, Seq<char>, Seq<char>) {
    (n.namespace@, n.typ@, n.subtype@, n.name@)
}

/// Whether two names name the same resource.
pub fn same_name(a: &ResourceName, b: &ResourceName) -> (r: bool)
    ensures
        r == (name_key(*a) == name_key(*b)),
{
    a.namespace == b.namespace && a.typ == b.typ && a.subtype == b.subtype && a.name == b.name
}

/// The registry. Entries stand in insertion order; no two entries carry the
/// same name.
pub struct Registry<H> {
    pub entries: Vec<(ResourceName, H)>,
}

impl<H> Registry<H> {
    /// The four-tuple is the primary key: no two entries share a name.
    pub open spec fn wf(self) -> bool {
        forall|i: int, j: int|
            0 <= i < j < self.entries@.len() ==> name_key(self.entries@[i].0) != name_key(
                self.entries@[j].0,
            )
    }

    /// Whether some entry carries the given key.
    pub open spec fn contains_key(self, k: (Seq<char>, Seq<char>, Seq<char>, Seq<char>)) -> bool {
        exists|i: int| 0 <= i < self.entries@.len() && name_key(self.entries@[i].0) == k
    }

    pub fn new() -> (r: Self)
        ensures
            r.entries@.len() == 0,
            r.wf(),
    {
        Registry { entries: Vec::new() }
    }

    /// How many resources are registered.
    pub fn len(&self) -> (r: usize)
        ensures
            r == self.entries@.len(),
    {
        self.entries.len()
    }

    fn find_index(&self, name: &ResourceName) -> (r: Option<usize>)
        ensures
            r matches Some(i) ==> i < self.entries@.len() && name_key(self.entries@[i as int].0)
                == name_key(*name),
            r is None ==> !self.contains_key(name_key(*name)),
            r is None ==> forall|j: int|
                0 <= j < self.entries@.len() ==> name_key(self.entries@[j].0) != name_key(*name),
    {
        let mut i: usize = 0;
        while i < self.entries.len()
            invariant
                i <= self.entries@.len(),
                forall|j: int| 0 <= j < i ==> name_key(self.entries@[j].0) != name_key(*name),
            decreases self.entries@.len() - i,
        {
            if same_name(&self.entries[i].0, name) {
                return Some(i);
            }
            i = i + 1;
        }
        None
    }

    /// Register a handle under a name. Used only during boot; inserting under
    /// a name already present replaces that entry silently (boot's
    /// responsibility to avoid).
    pub fn insert(&mut self, name: ResourceName, handle: H)
        requires
            old(self).wf(),
        ensures
            final(self).wf(),
            final(self).entries@.len() >= 1,
            final(self).entries@.last() == (name, handle),
            forall|k: (Seq<char>, Seq<char>, Seq<char>, Seq<char>)|
                #[trigger] final(self).contains_key(k) <==> (old(self).contains_key(k) || k
                    == name_key(name)),
    {
        let ghost pre = self.entries@;
        let ghost mut removed: Option<int> = None;
        match self.find_index(&name) {
            Some(i) => {
                self.entries.remove(i);
                proof {
                    removed = Some(i as int);
                    pre.remove_ensures(i as int);
                }
            },
            None => {},
        }
        let ghost mid = self.entries@;
        proof {
            // after the removal, no remaining entry carries the new key: in a
            // well-formed registry only the removed entry could
            assert forall|j: int| 0 <= j < mid.len() implies name_key(mid[j].0) != name_key(
                name,
            ) by {
                if let Some(w) = removed {
                    if j < w {
                        assert(mid[j] == pre[j]);
                    } else {
                        assert(mid[j] == pre[j + 1]);
                    }
                }
            }
        }
        self.entries.push((name, handle));
        proof {
            let post = self.entries@;
            assert forall|k: (Seq<char>, Seq<char>, Seq<char>, Seq<char>)|
                #[trigger] final(self).contains_key(k) <==> (old(self).contains_key(k) || k
                == name_key(name)) by {
                if final(self).contains_key(k) {
                    let i = choose|i: int|
                        0 <= i < post.len() && name_key(post[i].0) == k;
                    if i < mid.len() {
                        match removed {
                            Some(w) => {
                                if i < w {
                                    assert(pre[i] == mid[i]);
                                    assert(name_key(pre[i].0) == k);
                                } else {
                                    assert(pre[i + 1] == mid[i]);
                                    assert(name_key(pre[i + 1].0) == k);
                                }
                            },
                            None => {
                                assert(name_key(pre[i].0) == k);
                            },
                        }
                    }
                }
                if old(self).contains_key(k) && k != name_key(name) {
                    let i = choose|i: int| 0 <= i < pre.len() && name_key(pre[i].0) == k;
                    match removed {
                        Some(w) => {
                            if i < w {
                                assert(mid[i] == pre[i]);
                                assert(name_key(post[i].0) == k);
                            } else {
                                assert(i != w);
                                assert(mid[i - 1] == pre[i]);
                                assert(name_key(post[i - 1].0) == k);
                            }
                        },
                        None => {
                            assert(name_key(post[i].0) == k);
                        },
                    }
                }
                if k == name_key(name) {
                    assert(name_key(post[post.len() - 1].0) == k);
                }
            }
        }
    }

    /// Constant-time is not promised here; the lookup walks the entries and
    /// returns the handle registered under the name, if any.
    pub fn get(&self, name: &ResourceName) -> (r: Option<&H>)
        ensures
            r is Some <==> self.contains_key(name_key(*name)),
            r matches Some(h) ==> exists|i: int|
                0 <= i < self.entries@.len() && name_key(self.entries@[i].0) == name_key(*name)
                    && self.entries@[i].1 == *h,
    {
        match self.find_index(name) {
            Some(i) => Some(&self.entries[i].1),
            None => None,
        }
    }

    /// The registered names, in insertion order, for the resource-enumeration
    /// call.
    pub fn names(&self) -> (r: Vec<ResourceName>)
        ensures
            r@.len() == self.entries@.len(),
            forall|i: int| 0 <= i < r@.len() ==> name_key(r@[i]) == name_key(self.entries@[i].0),
    {
        let mut out: Vec<ResourceName> = Vec::new();
        let mut i: usize = 0;
        while i < self.entries.len()
            invariant
                i <= self.entries@.len(),
                out@.len() == i,
                forall|j: int| 0 <= j < i ==> name_key(out@[j]) == name_key(self.entries@[j].0),
            decreases self.entries@.len() - i,
        {
            let n = &self.entries[i].0;
            out.push(
                ResourceName {
                    namespace: n.namespace.clone(),
                    typ: n.typ.clone(),
                    subtype: n.subtype.clone(),
                    name: n.name.clone(),
                },
            );
            i = i + 1;
        }
        out
    }
}

} // verus!
