use crate::adapters::base::{IdType, IdView};
use crate::commands::UpdateContact;
use crate::services::contact_handlers::text_view;
use vstd::prelude::*;

verus! {

/// Which page of the contacts a request asks for, and how many contacts a
/// page holds. Pages are counted from 1.
#[derive(Clone, Copy, Debug)]
pub struct GetContactsQuery {
    pub page: Option<i32>,
    pub per_page: Option<i32>,
}

/// The number of the page asked for: the first where none is named.
pub open spec fn page_of(query: GetContactsQuery) -> int {
    match query.page {
        Some(n) => n as int,
        None => 1,
    }
}

/// The number of contacts on a page: 20 where none is named.
pub open spec fn per_page_of(query: GetContactsQuery) -> int {
    match query.per_page {
        Some(n) => n as int,
        None => 20,
    }
}

/// The number of contacts that lie before the page asked for: that of the
/// pages before it times the number of contacts on a page, and none where that
/// would be less than none.
pub open spec fn skip_of(query: GetContactsQuery) -> int {
    let before = (page_of(query) - 1) * per_page_of(query);
    if before < 0 {
        0
    } else {
        before
    }
}

impl GetContactsQuery {
    /// The number of the page asked for.
    pub fn page(&self) -> (r: i32)
        ensures
            r == page_of(*self),
    {
        match self.page {
            Some(n) => n,
            None => 1,
        }
    }

    /// The number of contacts on a page.
    pub fn per_page(&self) -> (r: i32)
        ensures
            r == per_page_of(*self),
    {
        match self.per_page {
            Some(n) => n,
            None => 20,
        }
    }

    /// What to hand a listing for this page: how many contacts to pass over,
    /// and how many to hand out.
    pub fn window(&self) -> (r: (Option<u64>, Option<i32>))
        ensures
            r.0 matches Some(skip) && skip == skip_of(*self),
            r.1 == Some(per_page_of(*self) as i32),
    {
        let page: i64 = self.page() as i64;
        let per_page: i64 = self.per_page() as i64;
        let pages: i64 = page - 1;
        assert(-0x8000_0001 <= pages <= 0x7fff_fffe);
        assert(-0x4000_0000_8000_0000 <= pages * per_page <= 0x4000_0000_8000_0000)
            by (nonlinear_arith)
            requires
                -0x8000_0001 <= pages <= 0x7fff_fffe,
                -0x8000_0000 <= per_page <= 0x7fff_ffff,
        ;
        let before: i64 = pages * per_page;
        let skip: u64 = if before < 0 {
            0
        } else {
            before as u64
        };
        (Some(skip), Some(self.per_page()))
    }
}

/// The changes that a request asks for in a contact: a new name, a new email
/// address, or both.
#[derive(Debug)]
pub struct UpdateContactBody {
    pub name: Option<String>,
    pub email: Option<String>,
}

impl UpdateContactBody {
    /// The command that asks for these changes in the contact with the
    /// identifier, which is taken as a text.
    pub fn command(self, contact_id: String) -> (r: UpdateContact)
        ensures
            r.id@ == IdView::Text(contact_id@),
            text_view(r.name) == text_view(self.name),
            text_view(r.email) == text_view(self.email),
    {
        UpdateContact { id: IdType::String(contact_id), name: self.name, email: self.email }
    }
}

} // verus!
