//! Business rules of the note service: pagination defaults, identifier
//! validation, the default publish flag, partial-update merging, and the
//! translation of store failures into the service's error taxonomy.

use vstd::prelude::*;
use vstd::string::StringExecFns;
use crate::model::{NoteModel, NoteModelResponse, NoteView};
use crate::note_id::{is_hyphenated_uuid, is_valid_note_id, is_valid_uuid, fresh_note_id};
use crate::schema::{CreateNoteSchema, FilterOptions, UpdateNoteSchema, UpdateView};
use crate::store::{contains_id, idx_of, page_of, store_wf, NotesStore};

verus! {

/// Number of notes a list request returns when the query names no limit.
pub const DEFAULT_LIMIT: usize = 10;

/// Page a list request starts at when the query names no page.
pub const DEFAULT_PAGE: usize = 1;

/// The limit a list request asks the store for: the given value, or
/// `DEFAULT_LIMIT` when absent.
pub open spec fn spec_effective_limit(opts: FilterOptions) -> usize {
    match opts.limit {
        Some(l) => l,
        None => DEFAULT_LIMIT,
    }
}

/// The page a list request reads: the given value clamped up to 1, or
/// `DEFAULT_PAGE` when absent.
pub open spec fn spec_effective_page(opts: FilterOptions) -> usize {
    match opts.page {
        Some(p) => if p < 1 { 1 } else { p },
        None => DEFAULT_PAGE,
    }
}

/// The row offset a list request asks the store for:
/// `(page - 1) * limit`, saturating at `usize::MAX`.
pub open spec fn spec_offset(opts: FilterOptions) -> usize {
    let n = (spec_effective_page(opts) - 1) * spec_effective_limit(opts);
    if n > usize::MAX {
        usize::MAX
    } else {
        n as usize
    }
}

/// Turns the optional query parameters into the concrete (limit, offset)
/// pair handed to the store's list operation.
pub fn query_bounds(opts: &FilterOptions) -> (r: (usize, usize))
    ensures
        r.0 == spec_effective_limit(*opts),
        r.1 == spec_offset(*opts),
{
    let limit: usize = match opts.limit {
        Some(l) => l,
        None => DEFAULT_LIMIT,
    };
    let page: usize = match opts.page {
        Some(p) => if p < 1 { 1 } else { p },
        None => DEFAULT_PAGE,
    };
    let pages_before: usize = page - 1;
    if limit != 0 && pages_before > usize::MAX / limit {
        proof {
            assert(pages_before * limit > usize::MAX) by (nonlinear_arith)
                requires
                    limit > 0,
                    pages_before > usize::MAX as int / limit as int,
            ;
        }
        (limit, usize::MAX)
    } else {
        proof {
            assert(pages_before * limit <= usize::MAX) by (nonlinear_arith)
                requires
                    limit == 0 || pages_before <= usize::MAX as int / limit as int,
            ;
        }
        (limit, pages_before * limit)
    }
}

/// A failure the service reports to the HTTP layer.
#[derive(Debug)]
pub enum ServiceError {
    /// The client supplied a note id that is not a well-formed UUID.
    InvalidArgument,
    /// The referenced note does not exist.
    NotFound,
    /// Any other storage failure, with a textual description of the cause.
    Persistence(String),
}

/// The textual description of a service failure, as the response envelope
/// echoes it.
pub open spec fn spec_message(e: ServiceError) -> Seq<char> {
    match e {
        ServiceError::InvalidArgument => "Invalid UUID format"@,
        ServiceError::NotFound => "Database error: note not found"@,
        ServiceError::Persistence(d) => "Database error: "@ + d@,
    }
}

impl ServiceError {
    /// The error's textual description.
    pub fn message(&self) -> (m: String)
        ensures
            m@ == spec_message(*self),
    {
        match self {
            ServiceError::InvalidArgument => "Invalid UUID format".to_owned(),
            ServiceError::NotFound => "Database error: note not found".to_owned(),
            ServiceError::Persistence(d) => {
                let mut m = "Database error: ".to_owned();
                m.append(d.as_str());
                m
            },
        }
    }
}

/// The publish flag a create request asks for: the given value, or `false`
/// when absent.
pub open spec fn spec_effective_publish(p: Option<bool>) -> bool {
    match p {
        Some(b) => b,
        None => false,
    }
}

/// The publish flag a create request asks for.
pub fn effective_publish(p: Option<bool>) -> (r: bool)
    ensures
        r == spec_effective_publish(p),
{
    match p {
        Some(b) => b,
        None => false,
    }
}

/// The title a partial update writes: the named one, or the stored one.
pub open spec fn merged_title(existing: NoteView, upd: UpdateView) -> Seq<char> {
    match upd.title {
        Some(t) => t,
        None => existing.title,
    }
}

/// The content a partial update writes: the named one, or the stored one.
pub open spec fn merged_content(existing: NoteView, upd: UpdateView) -> Seq<char> {
    match upd.content {
        Some(c) => c,
        None => existing.content,
    }
}

/// The publish flag a partial update writes: the named one, or the stored
/// one.
pub open spec fn merged_publish(existing: NoteView, upd: UpdateView) -> bool {
    match upd.is_published {
        Some(p) => p,
        None => existing.is_published,
    }
}

/// The row a partial update leaves behind: each named field replaces the
/// stored one, each absent field keeps it; the id and creation timestamp are
/// kept and the update timestamp is refreshed.
pub open spec fn merged_row(existing: NoteView, upd: UpdateView, now: i64) -> NoteView {
    NoteView {
        id: existing.id,
        title: merged_title(existing, upd),
        content: merged_content(existing, upd),
        is_published: merged_publish(existing, upd),
        created_at: existing.created_at,
        updated_at: Some(now),
    }
}

/// The (title, content, publish flag) triple a partial update writes over
/// the existing note: present fields of the payload win, absent ones keep
/// the stored value.
pub fn merge_update(existing: &NoteModel, upd: UpdateNoteSchema) -> (r: (String, String, bool))
    ensures
        r.0@ == merged_title(existing@, upd@),
        r.1@ == merged_content(existing@, upd@),
        r.2 == merged_publish(existing@, upd@),
{
    let UpdateNoteSchema { title, content, is_published } = upd;
    let new_title = match title {
        Some(t) => t,
        None => existing.title.clone(),
    };
    let new_content = match content {
        Some(c) => c,
        None => existing.content.clone(),
    };
    let new_published = match is_published {
        Some(p) => p,
        None => existing.is_published,
    };
    (new_title, new_content, new_published)
}

/// The note service: applies the business rules over the notes store.
pub struct NoteService {
    store: NotesStore,
}

impl View for NoteService {
    type V = Seq<NoteView>;

    closed spec fn view(&self) -> Seq<NoteView> {
        self.store@
    }
}

impl NoteService {
    /// The service's invariant: the store's primary-key property.
    pub open spec fn wf(&self) -> bool {
        store_wf(self@)
    }

    /// A service over the given store.
    pub fn new(store: NotesStore) -> (s: Self)
        ensures
            s@ == store@,
    {
        NoteService { store }
    }

    /// The response shape of a stored note: the same fields, copied.
    pub fn to_note_response(&self, note: &NoteModel) -> (r: NoteModelResponse)
        ensures
            r@ == note@,
    {
        NoteModelResponse {
            id: note.id.clone(),
            title: note.title.clone(),
            content: note.content.clone(),
            is_published: note.is_published,
            created_at: note.created_at,
            updated_at: note.updated_at,
        }
    }

    /// Lists one page of notes: `limit` and `page` fall back to their
    /// defaults when absent, and the page starting at row
    /// `(page - 1) * limit` is returned in table order.
    pub fn get_notes(&self, opts: &FilterOptions) -> (r: Result<
        Vec<NoteModelResponse>,
        ServiceError,
    >)
        ensures
            r matches Ok(notes) && notes.deep_view() == page_of(
                self@,
                spec_effective_limit(*opts) as int,
                spec_offset(*opts) as int,
            ),
    {
        let (limit, offset) = query_bounds(opts);
        let rows = self.store.get_all_notes(limit, offset);
        let mut out: Vec<NoteModelResponse> = Vec::new();
        let mut i: usize = 0;
        let n = rows.len();
        while i < n
            invariant
                0 <= i <= n,
                n == rows@.len(),
                out@.len() == i,
                forall|j: int| 0 <= j < i ==> (#[trigger] out@[j])@ == rows.deep_view()[j],
            decreases n - i,
        {
            out.push(self.to_note_response(&rows[i]));
            i += 1;
        }
        proof {
            assert forall|j: int| 0 <= j < out@.len() implies out.deep_view()[j] == rows.deep_view()[j] by {
                assert(out@[j]@ == rows.deep_view()[j]);
            }
            assert(out.deep_view() =~= rows.deep_view());
        }
        Ok(out)
    }

    /// Creates a note under a freshly generated id, with the publish flag
    /// defaulted to `false` when absent and both timestamps set to `now`.
    /// On success the returned note is the row exactly as the store now
    /// carries it, under a version-4 id the store did not carry before; the
    /// one failure is a storage-level collision of the generated id, which is
    /// possible only when the store already carries some hyphenated-UUID id.
    pub fn create_note(&mut self, note_data: CreateNoteSchema, now: i64) -> (r: Result<
        NoteModelResponse,
        ServiceError,
    >)
        requires
            old(self).wf(),
        ensures
            final(self).wf(),
            r matches Ok(resp) ==> {
                &&& is_hyphenated_uuid(resp@.id)
                &&& resp@.id[14] == '4'
                &&& resp@.id[19] == '8' || resp@.id[19] == '9' || resp@.id[19] == 'a'
                    || resp@.id[19] == 'b'
                &&& !contains_id(old(self)@, resp@.id)
                &&& resp@.title == note_data@.title
                &&& resp@.content == note_data@.content
                &&& resp@.is_published == spec_effective_publish(note_data@.is_published)
                &&& resp@.created_at == Some(now)
                &&& resp@.updated_at == Some(now)
                &&& final(self)@ == old(self)@.push(resp@)
            },
            r matches Err(e) ==> e is Persistence && final(self)@ == old(self)@,
            r is Err ==> exists|i: int|
                0 <= i < old(self)@.len() && is_hyphenated_uuid((#[trigger] old(self)@[i]).id),
    {
        let id = fresh_note_id();
        let is_published = effective_publish(note_data.is_published);
        match self.store.create_note(
            id.as_str(),
            note_data.title.as_str(),
            note_data.content.as_str(),
            is_published,
            now,
        ) {
            Ok(note) => {
                let resp = self.to_note_response(&note);
                proof {
                    assert(self@ =~= old(self)@.push(resp@));
                }
                Ok(resp)
            },
            Err(_) => {
                proof {
                    let k = idx_of(old(self)@, id@);
                    assert(old(self)@[k].id == id@);
                    assert(is_hyphenated_uuid(old(self)@[k].id));
                }
                Err(ServiceError::Persistence("duplicate note id".to_owned()))
            },
        }
    }

    /// Partially updates the note carrying `id`: rejects an id that is not a
    /// well-formed UUID without touching the store, reports `NotFound` for an
    /// unknown id, and otherwise overwrites exactly the named fields,
    /// refreshing the update timestamp.
    pub fn update_note(&mut self, id: String, note_data: UpdateNoteSchema, now: i64) -> (r: Result<
        NoteModelResponse,
        ServiceError,
    >)
        requires
            old(self).wf(),
        ensures
            final(self).wf(),
            !is_valid_uuid(id@) ==> {
                &&& r matches Err(e) && e == ServiceError::InvalidArgument
                &&& final(self)@ == old(self)@
            },
            is_valid_uuid(id@) && !contains_id(old(self)@, id@) ==> {
                &&& r matches Err(e) && e == ServiceError::NotFound
                &&& final(self)@ == old(self)@
            },
            is_valid_uuid(id@) && contains_id(old(self)@, id@) ==> {
                let row = merged_row(old(self)@[idx_of(old(self)@, id@)], note_data@, now);
                &&& r matches Ok(resp) && resp@ == row
                &&& final(self)@ == old(self)@.update(idx_of(old(self)@, id@), row)
            },
    {
        if !is_valid_note_id(id.as_str()) {
            return Err(ServiceError::InvalidArgument);
        }
        let existing = match self.store.get_by_id(id.as_str()) {
            Ok(n) => n,
            Err(_) => {
                return Err(ServiceError::NotFound);
            },
        };
        let (new_title, new_content, new_published) = merge_update(&existing, note_data);
        match self.store.update_note(
            id.as_str(),
            new_title.as_str(),
            new_content.as_str(),
            new_published,
            now,
        ) {
            Ok(note) => {
                let resp = self.to_note_response(&note);
                proof {
                    assert(self@ =~= old(self)@.update(
                        idx_of(old(self)@, id@),
                        merged_row(old(self)@[idx_of(old(self)@, id@)], note_data@, now),
                    ));
                }
                Ok(resp)
            },
            Err(_) => {
                proof {
                    assert(false);
                }
                Err(ServiceError::NotFound)
            },
        }
    }
}

} // verus!
