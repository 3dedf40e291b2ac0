//! The notes table, modelled in memory: one row per note, ids unique.
//!
//! The four operations mirror the persistence gateway of the running
//! service — list a page of rows, insert a row, fetch a row by id,
//! overwrite a row by id — and their contracts state exactly what each does
//! to the table. The process around the library performs the same four
//! operations against a relational store; this model is their specification
//! and backs the verified service and its tests.

use vstd::prelude::*;
use crate::model::{NoteModel, NoteView};

verus! {

/// Failure of a store operation.
#[derive(Debug)]
pub enum StoreError {
    /// No row matches the given id.
    NotFound,
    /// An insert collided with an existing id: the primary-key constraint.
    DuplicateId,
}

/// The table's primary-key property: ids are pairwise distinct.
pub open spec fn store_wf(s: Seq<NoteView>) -> bool {
    forall|i: int, j: int| 0 <= i < j < s.len() ==> s[i].id != s[j].id
}

/// Some row of `s` carries the id `id`.
pub open spec fn contains_id(s: Seq<NoteView>, id: Seq<char>) -> bool {
    exists|i: int| 0 <= i < s.len() && (#[trigger] s[i]).id == id
}

/// The index of the row carrying `id`; meaningful only when `contains_id`
/// holds, and unique under `store_wf`.
pub open spec fn idx_of(s: Seq<NoteView>, id: Seq<char>) -> int {
    choose|i: int| 0 <= i < s.len() && (#[trigger] s[i]).id == id
}

/// The row an insert writes: the given fields, both timestamps set to `now`.
pub open spec fn inserted_row(
    id: Seq<char>,
    title: Seq<char>,
    content: Seq<char>,
    is_published: bool,
    now: i64,
) -> NoteView {
    NoteView {
        id: id,
        title: title,
        content: content,
        is_published: is_published,
        created_at: Some(now),
        updated_at: Some(now),
    }
}

/// The row an update leaves behind: the given fields over the old row, with
/// the id and creation timestamp kept and the update timestamp refreshed.
pub open spec fn updated_row(
    old_row: NoteView,
    title: Seq<char>,
    content: Seq<char>,
    is_published: bool,
    now: i64,
) -> NoteView {
    NoteView {
        id: old_row.id,
        title: title,
        content: content,
        is_published: is_published,
        created_at: old_row.created_at,
        updated_at: Some(now),
    }
}

/// The page of rows a list returns: up to `limit` rows starting at row
/// `offset`, in table order, cut off at the end of the table.
pub open spec fn page_of(s: Seq<NoteView>, limit: int, offset: int) -> Seq<NoteView> {
    let lo = if offset <= s.len() { offset } else { s.len() as int };
    let hi = if offset + limit <= s.len() { offset + limit } else { s.len() as int };
    s.subrange(lo, hi)
}

/// Whether two strings carry the same character sequence.
fn str_equal(a: &str, b: &str) -> (r: bool)
    ensures
        r == (a@ == b@),
{
    let n = a.unicode_len();
    if n != b.unicode_len() {
        return false;
    }
    let mut i: usize = 0;
    while i < n
        invariant
            0 <= i <= n,
            n == a@.len(),
            n == b@.len(),
            forall|j: int| 0 <= j < i ==> a@[j] == b@[j],
        decreases n - i,
    {
        if a.get_char(i) != b.get_char(i) {
            return false;
        }
        i += 1;
    }
    proof {
        assert(a@ =~= b@);
    }
    true
}

/// The notes table.
pub struct NotesStore {
    notes: Vec<NoteModel>,
}

impl View for NotesStore {
    type V = Seq<NoteView>;

    closed spec fn view(&self) -> Seq<NoteView> {
        self.notes.deep_view()
    }
}

impl NotesStore {
    /// An empty table.
    pub fn new() -> (s: Self)
        ensures
            s@ =~= Seq::<NoteView>::empty(),
            store_wf(s@),
    {
        NotesStore { notes: Vec::new() }
    }

    /// The index of the row carrying `id`, if any.
    fn find_index(&self, id: &str) -> (r: Option<usize>)
        ensures
            match r {
                Some(i) => i < self@.len() && self@[i as int].id == id@,
                None => !contains_id(self@, id@),
            },
    {
        let n = self.notes.len();
        let mut i: usize = 0;
        while i < n
            invariant
                0 <= i <= n,
                n == self@.len(),
                forall|j: int| 0 <= j < i ==> (#[trigger] self@[j]).id != id@,
            decreases n - i,
        {
            if str_equal(self.notes[i].id.as_str(), id) {
                return Some(i);
            }
            i += 1;
        }
        None
    }

    /// Up to `limit` rows starting at row `offset`, in table order.
    pub fn get_all_notes(&self, limit: usize, offset: usize) -> (r: Vec<NoteModel>)
        ensures
            r.deep_view() =~= page_of(self@, limit as int, offset as int),
    {
        let n = self.notes.len();
        let start = if offset > n { n } else { offset };
        let end = if limit > n - start { n } else { start + limit };
        let mut out: Vec<NoteModel> = Vec::new();
        let mut i: usize = start;
        while i < end
            invariant
                start <= i <= end <= n,
                n == self@.len(),
                out@.len() == i - start,
                forall|j: int| 0 <= j < out@.len() ==> (#[trigger] out@[j])@ == self@[start + j],
            decreases end - i,
        {
            out.push(self.notes[i].clone());
            i += 1;
        }
        proof {
            let page = page_of(self@, limit as int, offset as int);
            assert forall|j: int| 0 <= j < out@.len() implies out.deep_view()[j] == page[j] by {
                assert(out@[j]@ == self@[start + j]);
            }
            assert(out.deep_view() =~= page);
        }
        out
    }

    /// Inserts a new row with both timestamps set to `now` and returns it as
    /// persisted; refuses an id the table already carries.
    pub fn create_note(
        &mut self,
        id: &str,
        title: &str,
        content: &str,
        is_published: bool,
        now: i64,
    ) -> (r: Result<NoteModel, StoreError>)
        requires
            store_wf(old(self)@),
        ensures
            store_wf(final(self)@),
            contains_id(old(self)@, id@) ==> {
                &&& r matches Err(e) && e == StoreError::DuplicateId
                &&& final(self)@ == old(self)@
            },
            !contains_id(old(self)@, id@) ==> {
                &&& r matches Ok(note) && note@ == inserted_row(
                    id@,
                    title@,
                    content@,
                    is_published,
                    now,
                )
                &&& final(self)@ =~= old(self)@.push(
                    inserted_row(id@, title@, content@, is_published, now),
                )
            },
    {
        match self.find_index(id) {
            Some(_) => Err(StoreError::DuplicateId),
            None => {
                let note = NoteModel {
                    id: id.to_owned(),
                    title: title.to_owned(),
                    content: content.to_owned(),
                    is_published: is_published,
                    created_at: Some(now),
                    updated_at: Some(now),
                };
                let copy = note.clone();
                self.notes.push(note);
                proof {
                    let s0 = old(self)@;
                    let nv = inserted_row(id@, title@, content@, is_published, now);
                    assert(self@ =~= s0.push(nv));
                    assert forall|a: int, b: int| 0 <= a < b < self@.len() implies
                        (#[trigger] self@[a]).id != (#[trigger] self@[b]).id by {
                        if b == self@.len() - 1 {
                            assert(s0[a].id != id@);
                        }
                    }
                }
                Ok(copy)
            },
        }
    }

    /// The row carrying `id`; fails with `NotFound` when no row matches.
    pub fn get_by_id(&self, id: &str) -> (r: Result<NoteModel, StoreError>)
        requires
            store_wf(self@),
        ensures
            contains_id(self@, id@) ==> {
                &&& r matches Ok(note) && note@ == self@[idx_of(self@, id@)]
            },
            !contains_id(self@, id@) ==> (r matches Err(e) && e == StoreError::NotFound),
    {
        match self.find_index(id) {
            Some(i) => {
                proof {
                    let k = idx_of(self@, id@);
                    if k != i as int {
                        assert(self@[k].id == self@[i as int].id);
                        assert(false);
                    }
                }
                Ok(self.notes[i].clone())
            },
            None => Err(StoreError::NotFound),
        }
    }

    /// Overwrites the title, content and publish flag of the row carrying
    /// `id`, refreshes its update timestamp, and returns the row as it now
    /// stands; fails with `NotFound` when no row matches.
    pub fn update_note(
        &mut self,
        id: &str,
        title: &str,
        content: &str,
        is_published: bool,
        now: i64,
    ) -> (r: Result<NoteModel, StoreError>)
        requires
            store_wf(old(self)@),
        ensures
            store_wf(final(self)@),
            !contains_id(old(self)@, id@) ==> {
                &&& r matches Err(e) && e == StoreError::NotFound
                &&& final(self)@ == old(self)@
            },
            contains_id(old(self)@, id@) ==> {
                let k = idx_of(old(self)@, id@);
                let row = updated_row(old(self)@[k], title@, content@, is_published, now);
                &&& r matches Ok(note) && note@ == row
                &&& final(self)@ =~= old(self)@.update(k, row)
            },
    {
        match self.find_index(id) {
            Some(i) => {
                proof {
                    let k = idx_of(self@, id@);
                    if k != i as int {
                        assert(self@[k].id == self@[i as int].id);
                        assert(false);
                    }
                }
                let updated = NoteModel {
                    id: self.notes[i].id.clone(),
                    title: title.to_owned(),
                    content: content.to_owned(),
                    is_published: is_published,
                    created_at: self.notes[i].created_at,
                    updated_at: Some(now),
                };
                let copy = updated.clone();
                self.notes[i] = updated;
                proof {
                    let s0 = old(self)@;
                    let k = idx_of(s0, id@);
                    let row = updated_row(s0[k], title@, content@, is_published, now);
                    assert(self@ =~= s0.update(k, row));
                    assert forall|a: int, b: int| 0 <= a < b < self@.len() implies
                        (#[trigger] self@[a]).id != (#[trigger] self@[b]).id by {
                        assert(self@[a].id == s0[a].id);
                        assert(self@[b].id == s0[b].id);
                    }
                }
                Ok(copy)
            },
            None => Err(StoreError::NotFound),
        }
    }
}

} // verus!
