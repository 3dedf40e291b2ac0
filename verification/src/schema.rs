//! Request payload shapes: what the HTTP layer decodes and hands to the
//! service.

use vstd::prelude::*;

verus! {

/// Optional pagination parameters decoded from the list request's query
/// string. `page` is 1-based; both fields fall back to defaults when absent.
pub struct FilterOptions {
    pub page: Option<usize>,
    pub limit: Option<usize>,
}

/// Payload of a create request. `title` and `content` are required;
/// `is_published` defaults to `false` when absent.
pub struct CreateNoteSchema {
    pub title: String,
    pub content: String,
    pub is_published: Option<bool>,
}

/// Abstract value of a create payload.
pub struct CreateView {
    pub title: Seq<char>,
    pub content: Seq<char>,
    pub is_published: Option<bool>,
}

impl View for CreateNoteSchema {
    type V = CreateView;

    open spec fn view(&self) -> CreateView {
        CreateView {
            title: self.title@,
            content: self.content@,
            is_published: self.is_published,
        }
    }
}

/// Payload of an update request. Every field is optional: an absent field
/// keeps the stored value, while a present one (even `false` or an empty
/// string) replaces it.
pub struct UpdateNoteSchema {
    pub title: Option<String>,
    pub content: Option<String>,
    pub is_published: Option<bool>,
}

/// Abstract value of an update payload.
pub struct UpdateView {
    pub title: Option<Seq<char>>,
    pub content: Option<Seq<char>>,
    pub is_published: Option<bool>,
}

impl View for UpdateNoteSchema {
    type V = UpdateView;

    open spec fn view(&self) -> UpdateView {
        UpdateView {
            title: self.title.deep_view(),
            content: self.content.deep_view(),
            is_published: self.is_published,
        }
    }
}

} // verus!
