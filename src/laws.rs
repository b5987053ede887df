use vstd::prelude::*;
use crate::error::{
    Operation, ResourceError, is_client_error, is_success, spec_reply_status,
    STATUS_INTERNAL_ERROR,
};
use crate::store::{
    ids_increasing, has_id, lookup, next_id, spec_created, spec_updated, spec_removed,
    lemma_index_of_unique, lemma_max_id_is_last,
};

verus! {

/// An operation left unimplemented is answered with a server error, never a success, and
/// with the operation's fixed message.
pub proof fn lemma_unsupported_reply<T>(op: Operation)
    ensures
        spec_reply_status(Err::<T, ResourceError>(ResourceError::Unsupported(op)))
            == STATUS_INTERNAL_ERROR,
        !is_success(spec_reply_status(Err::<T, ResourceError>(ResourceError::Unsupported(op)))),
        ResourceError::Unsupported(op).spec_message() == op.spec_unsupported_message(),
{
}

/// A malformed identifier is answered with a client error.
pub proof fn lemma_malformed_id_is_client_error<T>()
    ensures
        is_client_error(spec_reply_status(Err::<T, ResourceError>(ResourceError::MalformedId))),
        ResourceError::MalformedId.spec_caused_by_client(),
{
}

/// A resource created in the store is found again under the identifier it was given,
/// unchanged.
pub proof fn lemma_created_then_read<T>(s: Seq<(i32, T)>, v: T)
    requires
        ids_increasing(s),
        next_id(s) <= i32::MAX,
    ensures
        ids_increasing(spec_created(s, v)),
        lookup(spec_created(s, v), next_id(s) as i32) == Some(v),
{
    lemma_max_id_is_last(s);
    let t = spec_created(s, v);
    assert forall|i: int, j: int| 0 <= i < j < t.len() implies (#[trigger] t[i]).0 < (
    #[trigger] t[j]).0 by {
        if j < s.len() {
            assert(t[i] == s[i] && t[j] == s[j]);
        } else {
            assert(t[i] == s[i]);
        }
    }
    assert forall|i: int| 0 <= i < t.len() implies 1 <= (#[trigger] t[i]).0 by {
        if i < s.len() {
            assert(t[i] == s[i]);
        }
    }
    lemma_index_of_unique(t, s.len() as int);
}

/// After a resource is replaced, reading its identifier gives the new value.
pub proof fn lemma_updated_then_read<T>(s: Seq<(i32, T)>, id: i32, v: T)
    requires
        ids_increasing(s),
        has_id(s, id),
    ensures
        ids_increasing(spec_updated(s, id, v)),
        lookup(spec_updated(s, id, v), id) == Some(v),
{
    let i = choose|i: int| 0 <= i < s.len() && (#[trigger] s[i]).0 == id;
    lemma_index_of_unique(s, i);
    let t = spec_updated(s, id, v);
    assert forall|a: int, b: int| 0 <= a < b < t.len() implies (#[trigger] t[a]).0 < (
    #[trigger] t[b]).0 by {
        assert(t[a].0 == s[a].0 && t[b].0 == s[b].0);
    }
    assert forall|a: int| 0 <= a < t.len() implies 1 <= (#[trigger] t[a]).0 by {
        assert(t[a].0 == s[a].0);
    }
    lemma_index_of_unique(t, i);
}

/// After a resource is removed, no resource has its identifier.
pub proof fn lemma_removed_then_missing<T>(s: Seq<(i32, T)>, id: i32)
    requires
        ids_increasing(s),
        has_id(s, id),
    ensures
        ids_increasing(spec_removed(s, id)),
        !has_id(spec_removed(s, id), id),
        lookup(spec_removed(s, id), id) is None,
{
    let i = choose|i: int| 0 <= i < s.len() && (#[trigger] s[i]).0 == id;
    lemma_index_of_unique(s, i);
    let t = spec_removed(s, id);
    assert forall|a: int| 0 <= a < t.len() implies (#[trigger] t[a]) == (if a < i {
        s[a]
    } else {
        s[a + 1]
    }) by {}
    assert forall|a: int, b: int| 0 <= a < b < t.len() implies (#[trigger] t[a]).0 < (
    #[trigger] t[b]).0 by {
        let a2 = if a < i { a } else { a + 1 };
        let b2 = if b < i { b } else { b + 1 };
        assert(s[a2].0 < s[b2].0);
    }
    assert forall|a: int| 0 <= a < t.len() implies 1 <= (#[trigger] t[a]).0 by {
        let a2 = if a < i { a } else { a + 1 };
        assert(t[a] == s[a2]);
    }
    if has_id(t, id) {
        let k = choose|k: int| 0 <= k < t.len() && (#[trigger] t[k]).0 == id;
        if k < i {
            assert(s[k].0 < s[i].0);
        } else {
            assert(s[i].0 < s[k + 1].0);
        }
    }
}

} // verus!
