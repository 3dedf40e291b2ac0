//! The note entity: the stored row shape, the response shape handed back to
//! clients, and the abstract value both are read as in contracts.

use vstd::prelude::*;

verus! {

/// Abstract value of a note: the fields as mathematical values. Contracts
/// throughout the crate speak of notes through this view.
pub struct NoteView {
    pub id: Seq<char>,
    pub title: Seq<char>,
    pub content: Seq<char>,
    pub is_published: bool,
    pub created_at: Option<i64>,
    pub updated_at: Option<i64>,
}

/// A note row as the store keeps it. Timestamps are microseconds since the
/// Unix epoch; `None` stands for a null column.
#[derive(Debug)]
pub struct NoteModel {
    pub id: String,
    pub title: String,
    pub content: String,
    pub is_published: bool,
    pub created_at: Option<i64>,
    pub updated_at: Option<i64>,
}

impl View for NoteModel {
    type V = NoteView;

    open spec fn view(&self) -> NoteView {
        NoteView {
            id: self.id@,
            title: self.title@,
            content: self.content@,
            is_published: self.is_published,
            created_at: self.created_at,
            updated_at: self.updated_at,
        }
    }
}

impl DeepView for NoteModel {
    type V = NoteView;

    open spec fn deep_view(&self) -> NoteView {
        self.view()
    }
}

impl Clone for NoteModel {
    fn clone(&self) -> (r: Self)
        ensures
            r@ == self@,
    {
        NoteModel {
            id: self.id.clone(),
            title: self.title.clone(),
            content: self.content.clone(),
            is_published: self.is_published,
            created_at: self.created_at,
            updated_at: self.updated_at,
        }
    }
}

/// The note shape returned to API clients. It carries the same fields as the
/// stored row; it is a distinct type so the API contract does not change with
/// the storage schema.
#[derive(Debug)]
pub struct NoteModelResponse {
    pub id: String,
    pub title: String,
    pub content: String,
    pub is_published: bool,
    pub created_at: Option<i64>,
    pub updated_at: Option<i64>,
}

impl View for NoteModelResponse {
    type V = NoteView;

    open spec fn view(&self) -> NoteView {
        NoteView {
            id: self.id@,
            title: self.title@,
            content: self.content@,
            is_published: self.is_published,
            created_at: self.created_at,
            updated_at: self.updated_at,
        }
    }
}

impl DeepView for NoteModelResponse {
    type V = NoteView;

    open spec fn deep_view(&self) -> NoteView {
        self.view()
    }
}

impl Clone for NoteModelResponse {
    fn clone(&self) -> (r: Self)
        ensures
            r@ == self@,
    {
        NoteModelResponse {
            id: self.id.clone(),
            title: self.title.clone(),
            content: self.content.clone(),
            is_published: self.is_published,
            created_at: self.created_at,
            updated_at: self.updated_at,
        }
    }
}

} // verus!
