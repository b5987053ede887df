use vstd::prelude::*;
use crate::error::ResourceError;
use crate::page::Page;

verus! {

/// Identifiers held in strictly increasing order, each at least 1.
pub open spec fn ids_increasing<T>(s: Seq<(i32, T)>) -> bool {
    &&& forall|i: int| 0 <= i < s.len() ==> 1 <= (#[trigger] s[i]).0
    &&& forall|i: int, j: int| 0 <= i < j < s.len() ==> (#[trigger] s[i]).0 < (#[trigger] s[j]).0
}

/// Whether some entry holds the identifier.
pub open spec fn has_id<T>(s: Seq<(i32, T)>, id: i32) -> bool {
    exists|i: int| 0 <= i < s.len() && (#[trigger] s[i]).0 == id
}

/// The position of the entry with the identifier.
pub open spec fn index_of<T>(s: Seq<(i32, T)>, id: i32) -> int {
    choose|i: int| 0 <= i < s.len() && (#[trigger] s[i]).0 == id
}

/// The resource stored under the identifier, if any.
pub open spec fn lookup<T>(s: Seq<(i32, T)>, id: i32) -> Option<T> {
    if has_id(s, id) {
        Some(s[index_of(s, id)].1)
    } else {
        None
    }
}

/// The largest identifier held, or 0 when there is none.
pub open spec fn max_id<T>(s: Seq<(i32, T)>) -> int
    decreases s.len(),
{
    if s.len() == 0 {
        0
    } else {
        let m = max_id(s.drop_last());
        if s.last().0 > m { s.last().0 as int } else { m }
    }
}

/// The identifier that the next created resource receives: one above the largest held.
pub open spec fn next_id<T>(s: Seq<(i32, T)>) -> int {
    max_id(s) + 1
}

/// The entries after a resource is created.
pub open spec fn spec_created<T>(s: Seq<(i32, T)>, v: T) -> Seq<(i32, T)> {
    s.push((next_id(s) as i32, v))
}

/// The entries after the resource under `id` is replaced by `v`.
pub open spec fn spec_updated<T>(s: Seq<(i32, T)>, id: i32, v: T) -> Seq<(i32, T)> {
    s.update(index_of(s, id), (id, v))
}

/// The entries after the resource under `id` is removed.
pub open spec fn spec_removed<T>(s: Seq<(i32, T)>, id: i32) -> Seq<(i32, T)> {
    s.remove(index_of(s, id))
}

/// The entries that a page selects, in order.
pub open spec fn spec_page<T>(s: Seq<(i32, T)>, page: Page) -> Seq<(i32, T)> {
    s.subrange(page.spec_start(s.len()) as int, page.spec_end(s.len()) as int)
}

/// With increasing identifiers, the entry holding an identifier is the one `index_of` picks.
pub proof fn lemma_index_of_unique<T>(s: Seq<(i32, T)>, i: int)
    requires
        ids_increasing(s),
        0 <= i < s.len(),
    ensures
        has_id(s, s[i].0),
        index_of(s, s[i].0) == i,
        lookup(s, s[i].0) == Some(s[i].1),
{
    let id = s[i].0;
    assert(has_id(s, id));
    let j = index_of(s, id);
    if j < i {
        assert(s[j].0 < s[i].0);
    } else if i < j {
        assert(s[i].0 < s[j].0);
    }
}

/// With increasing identifiers, the largest one is the last.
pub proof fn lemma_max_id_is_last<T>(s: Seq<(i32, T)>)
    requires
        ids_increasing(s),
    ensures
        s.len() == 0 ==> max_id(s) == 0,
        s.len() > 0 ==> max_id(s) == s.last().0,
        forall|i: int| 0 <= i < s.len() ==> (#[trigger] s[i]).0 <= max_id(s),
    decreases s.len(),
{
    if s.len() > 0 {
        let t = s.drop_last();
        assert(ids_increasing(t)) by {
            assert forall|i: int| 0 <= i < t.len() implies 1 <= (#[trigger] t[i]).0 by {
                assert(t[i] == s[i]);
            }
            assert forall|i: int, j: int| 0 <= i < j < t.len() implies (#[trigger] t[i]).0 < (
            #[trigger] t[j]).0 by {
                assert(t[i] == s[i] && t[j] == s[j]);
            }
        }
        lemma_max_id_is_last(t);
        if t.len() > 0 {
            assert(t.last() == s[s.len() - 2]);
        }
        assert forall|i: int| 0 <= i < s.len() implies (#[trigger] s[i]).0 <= max_id(s) by {
            if i < s.len() - 1 {
                assert(t[i] == s[i]);
            }
        }
    }
}

/// A record store held in memory, under identifiers that it assigns itself.
pub struct MemoryStore<T> {
    entries: Vec<(i32, T)>,
}

impl<T> View for MemoryStore<T> {
    type V = Seq<(i32, T)>;

    closed spec fn view(&self) -> Seq<(i32, T)> {
        self.entries@
    }
}

impl<T> MemoryStore<T> {
    /// The store's invariant: identifiers are positive and increase with insertion.
    pub open spec fn wf(&self) -> bool {
        ids_increasing(self@)
    }

    /// An empty store.
    pub fn new() -> (r: MemoryStore<T>)
        ensures
            r@ == Seq::<(i32, T)>::empty(),
            r.wf(),
    {
        MemoryStore { entries: Vec::new() }
    }

    /// The number of resources held.
    pub fn len(&self) -> (r: usize)
        ensures
            r == self@.len(),
    {
        self.entries.len()
    }

    /// The position of the entry with the identifier.
    fn find(&self, id: i32) -> (r: Option<usize>)
        requires
            self.wf(),
        ensures
            r is None <==> !has_id(self@, id),
            r matches Some(i) ==> i < self@.len() && i == index_of(self@, id) && self@[i as int].0
                == id,
    {
        let mut i: usize = 0;
        while i < self.entries.len()
            invariant
                self.wf(),
                i <= self.entries@.len(),
                forall|k: int| 0 <= k < i ==> (#[trigger] self.entries@[k]).0 != id,
            decreases self.entries@.len() - i,
        {
            if self.entries[i].0 == id {
                proof {
                    lemma_index_of_unique(self@, i as int);
                }
                return Some(i);
            }
            i = i + 1;
        }
        None
    }

    /// The resource stored under `id`; fails with `NotFound` when there is none.
    pub fn read_by_id(&self, id: i32) -> (r: Result<&T, ResourceError>)
        requires
            self.wf(),
        ensures
            r is Ok <==> has_id(self@, id),
            !has_id(self@, id) ==> r == Err::<&T, ResourceError>(ResourceError::NotFound),
            r matches Ok(v) ==> lookup(self@, id) == Some(*v),
    {
        match self.find(id) {
            Some(i) => Ok(&self.entries[i].1),
            None => Err(ResourceError::NotFound),
        }
    }

    /// The entries that the page selects, in the order in which they were created.
    pub fn read_paged(&self, page: Page) -> (r: Vec<&(i32, T)>)
        ensures
            r@.len() == spec_page(self@, page).len(),
            forall|i: int| 0 <= i < r@.len() ==> *(#[trigger] r@[i]) == spec_page(self@, page)[i],
    {
        let (start, end) = page.window(self.entries.len());
        let mut r: Vec<&(i32, T)> = Vec::new();
        let mut k: usize = start;
        while k < end
            invariant
                start <= k <= end <= self.entries@.len(),
                start as nat == page.spec_start(self@.len()),
                end as nat == page.spec_end(self@.len()),
                r@.len() == k - start,
                forall|i: int| 0 <= i < r@.len() ==> *(#[trigger] r@[i]) == self@[start + i],
            decreases end - k,
        {
            r.push(&self.entries[k]);
            k = k + 1;
        }
        r
    }

    /// Stores a new resource under one above the largest identifier held, and returns the
    /// stored entry; fails with `IdsExhausted`, changing nothing, when it would not fit.
    pub fn create(&mut self, value: T) -> (r: Result<&(i32, T), ResourceError>)
        requires
            old(self).wf(),
        ensures
            final(self).wf(),
            old(self)@.len() == 0 ==> next_id(old(self)@) == 1,
            old(self)@.len() > 0 ==> next_id(old(self)@) == old(self)@.last().0 + 1,
            forall|i: int| 0 <= i < old(self)@.len() ==> (#[trigger] old(self)@[i]).0 < next_id(old(self)@),
            r is Ok <==> next_id(old(self)@) <= i32::MAX,
            r matches Ok(e) ==> e.0 == next_id(old(self)@) && e.1 == value && final(self)@
                == spec_created(old(self)@, value),
            r is Err ==> r == Err::<&(i32, T), ResourceError>(ResourceError::IdsExhausted)
                && final(self)@ == old(self)@,
    {
        proof {
            lemma_max_id_is_last(self@);
        }
        let n = self.entries.len();
        let id: i32 = if n == 0 {
            1
        } else {
            let last = self.entries[n - 1].0;
            if last == i32::MAX {
                return Err(ResourceError::IdsExhausted);
            }
            last + 1
        };
        self.entries.push((id, value));
        proof {
            let s = self@;
            assert forall|i: int, j: int| 0 <= i < j < s.len() implies (#[trigger] s[i]).0 < (
            #[trigger] s[j]).0 by {
                if j == s.len() - 1 {
                    assert(s[i] == old(self)@[i]);
                } else {
                    assert(s[i] == old(self)@[i] && s[j] == old(self)@[j]);
                }
            }
            assert forall|i: int| 0 <= i < s.len() implies 1 <= (#[trigger] s[i]).0 by {
                if i < s.len() - 1 {
                    assert(s[i] == old(self)@[i]);
                }
            }
        }
        Ok(&self.entries[n])
    }

    /// Replaces the resource under `id` and returns the stored new value; fails with
    /// `NotFound`, changing nothing, when no resource has that identifier.
    pub fn update(&mut self, id: i32, value: T) -> (r: Result<&T, ResourceError>)
        requires
            old(self).wf(),
        ensures
            final(self).wf(),
            r is Ok <==> has_id(old(self)@, id),
            r matches Ok(u) ==> *u == value && final(self)@ == spec_updated(old(self)@, id, value),
            r is Err ==> r == Err::<&T, ResourceError>(ResourceError::NotFound) && final(self)@
                == old(self)@,
    {
        match self.find(id) {
            Some(i) => {
                self.entries.set(i, (id, value));
                Ok(&self.entries[i].1)
            },
            None => Err(ResourceError::NotFound),
        }
    }

    /// Removes the resource under `id` and returns it; fails with `NotFound`, changing
    /// nothing, when no resource has that identifier.
    pub fn remove(&mut self, id: i32) -> (r: Result<T, ResourceError>)
        requires
            old(self).wf(),
        ensures
            final(self).wf(),
            r is Ok <==> has_id(old(self)@, id),
            r matches Ok(v) ==> lookup(old(self)@, id) == Some(v) && final(self)@
                == spec_removed(old(self)@, id),
            r is Err ==> r == Err::<T, ResourceError>(ResourceError::NotFound) && final(self)@
                == old(self)@,
    {
        match self.find(id) {
            Some(i) => {
                let (_, v) = self.entries.remove(i);
                Ok(v)
            },
            None => Err(ResourceError::NotFound),
        }
    }
}

} // verus!
