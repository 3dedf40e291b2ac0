//! Properties that relate several operations of the service.

use vstd::prelude::*;
use crate::model::NoteView;
use crate::schema::UpdateView;
use crate::service::merged_row;
use crate::store::{contains_id, idx_of, page_of, store_wf};

verus! {

/// A partial update that names only the title keeps the stored content and
/// publish flag, as well as the note's id and creation timestamp.
pub proof fn lemma_partial_update_keeps_unnamed_fields(
    existing: NoteView,
    upd: UpdateView,
    now: i64,
)
    requires
        upd.title is Some,
        upd.content is None,
        upd.is_published is None,
    ensures
        merged_row(existing, upd, now).title == upd.title.unwrap(),
        merged_row(existing, upd, now).content == existing.content,
        merged_row(existing, upd, now).is_published == existing.is_published,
        merged_row(existing, upd, now).id == existing.id,
        merged_row(existing, upd, now).created_at == existing.created_at,
{
}

/// Round trip: a note just inserted under an id the table did not carry is
/// found again, unchanged — the store keeps its primary-key property, a
/// fetch by the new id designates exactly the inserted row, and a listing of
/// the whole table carries it as its last row. Together with the create
/// contract, this says that creating a note and fetching it by id, or
/// listing it, returns the same title, content and publish flag.
pub proof fn lemma_create_then_get_round_trip(pre: Seq<NoteView>, created: NoteView)
    requires
        store_wf(pre),
        !contains_id(pre, created.id),
    ensures
        store_wf(pre.push(created)),
        contains_id(pre.push(created), created.id),
        pre.push(created)[idx_of(pre.push(created), created.id)] == created,
        page_of(pre.push(created), pre.len() as int + 1, 0) == pre.push(created),
        page_of(pre.push(created), pre.len() as int + 1, 0)[pre.len() as int] == created,
{
    assert(page_of(pre.push(created), pre.len() as int + 1, 0) =~= pre.push(created));
    let post = pre.push(created);
    assert(post[post.len() - 1] == created);
    assert(contains_id(post, created.id));
    assert forall|a: int, b: int| 0 <= a < b < post.len() implies
        (#[trigger] post[a]).id != (#[trigger] post[b]).id by {
        if b == post.len() - 1 {
            assert(pre[a].id != created.id);
        }
    }
    let k = idx_of(post, created.id);
    if k != post.len() - 1 {
        assert(post[k].id == post[post.len() - 1].id);
        assert(false);
    }
}

} // verus!
