use vstd::prelude::*;

verus! {

pub const DEFAULT_PAGE_SIZE: u32 = 10;
pub const DEFAULT_PAGE_OFFSET: u32 = 0;

/// A page request: at most `size` resources, after skipping `offset` of them.
#[derive(Clone, Copy, Debug, PartialEq, Eq, Structural)]
pub struct Page {
    pub size: u32,
    pub offset: u32,
}

impl Default for Page {
    fn default() -> (r: Page)
        ensures
            r.size == DEFAULT_PAGE_SIZE,
            r.offset == DEFAULT_PAGE_OFFSET,
    {
        Page { size: DEFAULT_PAGE_SIZE, offset: DEFAULT_PAGE_OFFSET }
    }
}

/// The value of an optional query parameter, or its default when absent.
pub open spec fn or_default(v: Option<u32>, d: u32) -> u32 {
    match v {
        Some(x) => x,
        None => d,
    }
}

impl Page {
    /// The page that a query asks for, where each absent parameter takes its default.
    pub fn from_query(size: Option<u32>, offset: Option<u32>) -> (r: Page)
        ensures
            r.size == or_default(size, DEFAULT_PAGE_SIZE),
            r.offset == or_default(offset, DEFAULT_PAGE_OFFSET),
            size is None ==> r.size == DEFAULT_PAGE_SIZE,
            offset is None ==> r.offset == DEFAULT_PAGE_OFFSET,
    {
        let size: u32 = match size {
            Some(s) => s,
            None => DEFAULT_PAGE_SIZE,
        };
        let offset: u32 = match offset {
            Some(o) => o,
            None => DEFAULT_PAGE_OFFSET,
        };
        Page { size, offset }
    }

    /// First index of the page within a collection of `len` items.
    pub open spec fn spec_start(self, len: nat) -> nat {
        if (self.offset as nat) < len { self.offset as nat } else { len }
    }

    /// One past the last index of the page within a collection of `len` items.
    pub open spec fn spec_end(self, len: nat) -> nat {
        if (self.offset as nat) + (self.size as nat) < len {
            (self.offset as nat) + (self.size as nat)
        } else {
            len
        }
    }

    /// The bounds of the page within a collection of `len` items.
    pub fn window(&self, len: usize) -> (r: (usize, usize))
        ensures
            r.0 as nat == self.spec_start(len as nat),
            r.1 as nat == self.spec_end(len as nat),
            r.0 <= r.1 <= len,
    {
        let start: usize = if (self.offset as usize) < len { self.offset as usize } else { len };
        let rest: usize = len - start;
        let end: usize = if (self.size as usize) < rest { start + self.size as usize } else { len };
        (start, end)
    }
}

} // verus!
