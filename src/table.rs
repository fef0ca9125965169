use vstd::prelude::*;
use crate::attachment::AttachmentView;

verus! {

/// The attachments table of the relational store, keyed by id.
pub type TableView = Map<Seq<char>, AttachmentView>;

/// Every row sits under its own id.
pub open spec fn table_wf(t: TableView) -> bool {
    forall|id: Seq<char>| #[trigger] t.contains_key(id) ==> t[id].id == id
}

/// Insert-or-replace of the row with `a`'s id.
pub open spec fn upsert(t: TableView, a: AttachmentView) -> TableView {
    t.insert(a.id, a)
}

/// Delete by primary key; no matching row leaves the table as it was.
pub open spec fn delete_row(t: TableView, id: Seq<char>) -> TableView {
    t.remove(id)
}

/// The rows deleted one by one in the order of `ids`.
pub open spec fn delete_rows(t: TableView, ids: Seq<Seq<char>>) -> TableView
    decreases ids.len(),
{
    if ids.len() == 0 { t } else { delete_rows(delete_row(t, ids[0]), ids.drop_first()) }
}

/// `found` is what a lookup by cipher `c` returns on `t`: rows of `t`
/// owned by `c`, and every one of them.
pub open spec fn lists_cipher_rows(t: TableView, c: Seq<char>, found: Seq<AttachmentView>) -> bool {
    &&& forall|i: int|
        0 <= i < found.len() ==> t.contains_key(#[trigger] found[i].id) && t[found[i].id] == found[i]
            && found[i].cipher_uuid == c
    &&& forall|id: Seq<char>|
        #[trigger] t.contains_key(id) && t[id].cipher_uuid == c ==> exists|i: int|
            0 <= i < found.len() && #[trigger] found[i].id == id
}

/// The ids of `found`, in order.
pub open spec fn ids_of(found: Seq<AttachmentView>) -> Seq<Seq<char>> {
    found.map_values(|a: AttachmentView| a.id)
}

/// Saving twice under one id leaves one row, the one saved last.
pub proof fn lemma_upsert_latest_wins(t: TableView, a: AttachmentView, b: AttachmentView)
    requires
        table_wf(t),
        a.id == b.id,
    ensures
        upsert(upsert(t, a), b) == upsert(t, b),
        table_wf(upsert(t, b)),
        upsert(t, b)[b.id] == b,
{
    assert(upsert(upsert(t, a), b) =~= upsert(t, b));
}

/// Deleting an id that has no row changes nothing.
pub proof fn lemma_delete_absent(t: TableView, id: Seq<char>)
    requires
        !t.contains_key(id),
    ensures
        delete_row(t, id) == t,
{
    assert(delete_row(t, id) =~= t);
}

proof fn lemma_delete_rows(t: TableView, ids: Seq<Seq<char>>)
    ensures
        forall|id: Seq<char>| #[trigger] delete_rows(t, ids).contains_key(id) <==> t.contains_key(id)
            && !ids.contains(id),
        forall|id: Seq<char>| #[trigger] delete_rows(t, ids).contains_key(id) ==> delete_rows(
            t,
            ids,
        )[id] == t[id],
    decreases ids.len(),
{
    if ids.len() > 0 {
        let rest = ids.drop_first();
        lemma_delete_rows(delete_row(t, ids[0]), rest);
        assert(delete_rows(t, ids) == delete_rows(delete_row(t, ids[0]), rest));
        assert forall|id: Seq<char>| ids.contains(id) <==> (id == ids[0] || rest.contains(id)) by {
            if ids.contains(id) && id != ids[0] {
                let i = choose|i: int| 0 <= i < ids.len() && ids[i] == id;
                assert(rest[i - 1] == id);
            }
            if rest.contains(id) {
                let i = choose|i: int| 0 <= i < rest.len() && rest[i] == id;
                assert(ids[i + 1] == id);
            }
            if id == ids[0] {
                assert(ids[0] == id);
            }
        }
    }
}

/// Deleting, one by one, every attachment that the lookup by cipher `c`
/// returned leaves no row of `c` and every other row as it was.
pub proof fn lemma_cascade_complete(t: TableView, c: Seq<char>, found: Seq<AttachmentView>)
    requires
        table_wf(t),
        lists_cipher_rows(t, c, found),
    ensures
        forall|id: Seq<char>| #[trigger] delete_rows(t, ids_of(found)).contains_key(id)
            ==> delete_rows(t, ids_of(found))[id].cipher_uuid != c,
        forall|id: Seq<char>| #[trigger] t.contains_key(id) && t[id].cipher_uuid != c ==> delete_rows(
            t,
            ids_of(found),
        ).contains_key(id) && delete_rows(t, ids_of(found))[id] == t[id],
{
    let ids = ids_of(found);
    lemma_delete_rows(t, ids);
    assert forall|id: Seq<char>| #[trigger] t.contains_key(id) && t[id].cipher_uuid == c
        implies ids.contains(id) by {
        let i = choose|i: int| 0 <= i < found.len() && #[trigger] found[i].id == id;
        assert(ids[i] == id);
    }
    assert forall|id: Seq<char>| #[trigger] t.contains_key(id) && t[id].cipher_uuid != c
        implies !ids.contains(id) by {
        if ids.contains(id) {
            let i = choose|i: int| 0 <= i < ids.len() && ids[i] == id;
            assert(found[i].id == id);
        }
    }
}

} // verus!
