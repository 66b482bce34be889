//! Page arithmetic for list endpoints.

use vstd::prelude::*;

verus! {

/// Page shown when the request names none.
pub const DEFAULT_PAGE: i64 = 1;

/// Page size used when the request names none.
pub const DEFAULT_PER_PAGE: i64 = 30;

/// Largest page size a request can ask for.
pub const MAX_PER_PAGE: i64 = 100;

/// The paging part of a list request, as the client sent it.
#[derive(Debug, Clone, Copy)]
pub struct PaginationParams {
    pub page: Option<i64>,
    pub per_page: Option<i64>,
}

impl PaginationParams {
    /// The page to show: the requested one, the first when none is requested
    /// or the requested number is below one.
    pub open spec fn spec_page(&self) -> int {
        match self.page {
            Some(p) if p >= 1 => p as int,
            _ => 1,
        }
    }

    /// The page size: the requested one brought into `1..=MAX_PER_PAGE`, the
    /// default when none is requested.
    pub open spec fn spec_per_page(&self) -> int {
        match self.per_page {
            Some(n) => if n < 1 {
                1
            } else if n > MAX_PER_PAGE {
                MAX_PER_PAGE as int
            } else {
                n as int
            },
            None => DEFAULT_PER_PAGE as int,
        }
    }

    /// Number of rows that precede the page.
    pub open spec fn spec_offset(&self) -> int {
        (self.spec_page() - 1) * self.spec_per_page()
    }

    /// The offset is the number of rows on the pages before, which hold at
    /// most `MAX_PER_PAGE` rows each; so it fits the integer type for every
    /// page up to `i64::MAX / MAX_PER_PAGE`.
    pub proof fn lemma_offset_bound(&self)
        ensures
            0 <= self.spec_offset() <= (self.spec_page() - 1) * MAX_PER_PAGE,
            self.spec_page() <= i64::MAX / MAX_PER_PAGE ==> self.spec_offset() <= i64::MAX,
    {
        let before = self.spec_page() - 1;
        let size = self.spec_per_page();
        assert(0 <= before * size <= before * 100) by (nonlinear_arith)
            requires
                before >= 0,
                1 <= size <= 100,
        ;
    }

    /// The page to show, counted from one.
    pub fn page(&self) -> (page: i64)
        ensures
            page == self.spec_page(),
            page >= 1,
    {
        match self.page {
            Some(p) => if p >= 1 {
                p
            } else {
                DEFAULT_PAGE
            },
            None => DEFAULT_PAGE,
        }
    }

    /// The number of rows on a page.
    pub fn per_page(&self) -> (per_page: i64)
        ensures
            per_page == self.spec_per_page(),
            1 <= per_page <= MAX_PER_PAGE,
    {
        match self.per_page {
            Some(n) => if n < 1 {
                1
            } else if n > MAX_PER_PAGE {
                MAX_PER_PAGE
            } else {
                n
            },
            None => DEFAULT_PER_PAGE,
        }
    }

    /// The number of rows to skip to reach the page. The product has to fit
    /// the integer type.
    pub fn offset(&self) -> (offset: i64)
        requires
            self.spec_offset() <= i64::MAX,
        ensures
            offset == self.spec_offset(),
            offset >= 0,
    {
        let before = self.page() - 1;
        let size = self.per_page();
        assert(0 <= before * size == self.spec_offset()) by (nonlinear_arith)
            requires
                before == self.spec_page() - 1,
                size == self.spec_per_page(),
                before >= 0,
                size >= 1,
        ;
        before * size
    }
}

} // verus!
