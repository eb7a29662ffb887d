//! Page selection of listing requests.

use vstd::prelude::*;

verus! {

/// Page selection of a listing request.
#[derive(Debug, Clone, Copy, PartialEq, Eq, Structural)]
pub struct PaginationQuery {
    pub page: Option<u32>,
    pub limit: Option<u32>,
}

impl PaginationQuery {
    /// The page asked for, 1 when absent or below 1.
    pub open spec fn page_of(&self) -> u32 {
        match self.page {
            Some(p) => if p > 1 { p } else { 1 },
            None => 1,
        }
    }

    /// The page size asked for, 20 when absent or 0.
    pub open spec fn limit_of(&self) -> u32 {
        match self.limit {
            Some(l) => if l > 0 { l } else { 20 },
            None => 20,
        }
    }

    pub fn page(&self) -> (r: u32)
        ensures
            r == self.page_of(),
    {
        let page = match self.page {
            Some(p) => p,
            None => 1,
        };
        if page > 1 { page } else { 1 }
    }

    pub fn limit(&self) -> (r: u32)
        ensures
            r == self.limit_of(),
    {
        let limit = match self.limit {
            Some(l) => l,
            None => 20,
        };
        if limit > 0 { limit } else { 20 }
    }

    /// How many items come before the page.
    pub fn skip(&self) -> (r: u32)
        requires
            (self.page_of() - 1) * self.limit_of() <= u32::MAX,
        ensures
            r == (self.page_of() - 1) * self.limit_of(),
    {
        let p = self.page();
        let l = self.limit();
        (p - 1) * l
    }
}

/// One page of a listing.
#[derive(Debug, Clone)]
pub struct PaginationResponseDto<T> {
    pub total_docs: u32,
    pub total_pages: u32,
    pub page: u32,
    pub limit: u32,
    pub docs: Vec<T>,
}

impl<T> PaginationResponseDto<T> {
    /// The first page, of the default size, of an empty listing.
    pub fn empty() -> (r: Self)
        ensures
            r.page == 1 && r.limit == 20 && r.total_docs == 0 && r.total_pages == 0 && r.docs@.len() == 0,
    {
        PaginationResponseDto { page: 1, limit: 20, total_docs: 0, total_pages: 0, docs: Vec::new() }
    }
}

} // verus!
