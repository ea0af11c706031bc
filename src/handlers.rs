use vstd::prelude::*;

use crate::record::{not_found_message, ErrNoId, Hello};
use crate::state::{views, AppState};

verus! {

/// Whether some record of `s` carries `id`.
pub open spec fn has_id(s: Seq<(u32, Seq<char>)>, id: u32) -> bool {
    exists|i: int| 0 <= i < s.len() && s[i].0 == id
}

/// Whether `i` is the position of the oldest record of `s` that carries `id`.
pub open spec fn is_first_with_id(s: Seq<(u32, Seq<char>)>, id: u32, i: int) -> bool {
    &&& 0 <= i < s.len()
    &&& s[i].0 == id
    &&& forall|j: int| 0 <= j < i ==> s[j].0 != id
}

/// Looks up `id`: the oldest record that carries it, or the not-found
/// payload for `id` when none does. Later records with the same id are
/// never returned.
pub fn get(id: u32, data: &AppState) -> (r: Result<Hello, ErrNoId>)
    ensures
        r is Ok <==> has_id(data@, id),
        r matches Ok(h) ==> exists|i: int| is_first_with_id(data@, id, i) && h@ == data@[i],
        r matches Err(e) ==> e.id == id && e.err@ == not_found_message(),
{
    let n = data.len();
    let mut i: usize = 0;
    while i < n
        invariant
            n == data@.len(),
            i <= n,
            forall|j: int| 0 <= j < i ==> data@[j].0 != id,
        decreases n - i,
    {
        let h = data.record(i);
        if h.id == id {
            assert(is_first_with_id(data@, id, i as int));
            return Ok(h.copy());
        }
        i = i + 1;
    }
    Err(ErrNoId::new(id))
}

/// Lists the store: a copy of every record, oldest first.
pub fn get_all(data: &AppState) -> (r: Vec<Hello>)
    ensures
        views(r@) == data@,
{
    let n = data.len();
    let mut out: Vec<Hello> = Vec::new();
    let mut i: usize = 0;
    while i < n
        invariant
            n == data@.len(),
            i <= n,
            out@.len() == i,
            views(out@) == data@.subrange(0, i as int),
        decreases n - i,
    {
        let h = data.record(i);
        out.push(h.copy());
        i = i + 1;
        assert(views(out@) =~= data@.subrange(0, i as int));
    }
    assert(data@.subrange(0, n as int) =~= data@);
    out
}

/// Creates a record: appends a copy of `req` after every record held and
/// answers with `req` itself. Duplicate ids and empty names are accepted.
pub fn post(req: Hello, data: &mut AppState) -> (r: Hello)
    ensures
        r@ == req@,
        final(data)@ == old(data)@.push(req@),
{
    let new_hello = req.copy();
    data.push(new_hello);
    req
}

} // verus!
