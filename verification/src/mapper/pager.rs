use vstd::prelude::*;

verus! {

/// The bank sizes that cartridge memory is split into.
#[derive(Copy, Clone, PartialEq, Eq, Structural, Debug)]
pub enum PageSize {
    OneKb,
    FourKb,
    EightKb,
    SixteenKb,
}

impl PageSize {
    pub open spec fn bytes(self) -> nat {
        match self {
            PageSize::OneKb => 0x0400,
            PageSize::FourKb => 0x1000,
            PageSize::EightKb => 0x2000,
            PageSize::SixteenKb => 0x4000,
        }
    }

    pub fn value(&self) -> (r: usize)
        ensures
            r == self.bytes(),
    {
        match *self {
            PageSize::OneKb => 0x0400,
            PageSize::FourKb => 0x1000,
            PageSize::EightKb => 0x2000,
            PageSize::SixteenKb => 0x4000,
        }
    }
}

/// A page of a bank-switched memory, counted from the start or from the end.
#[derive(Copy, Clone, PartialEq, Eq, Structural, Debug)]
pub enum Page {
    First(PageSize),
    FromNth(usize, PageSize),
    Last(PageSize),
    FromEnd(usize, PageSize),
}

impl Page {
    pub open spec fn size(self) -> PageSize {
        match self {
            Page::First(s) => s,
            Page::FromNth(_, s) => s,
            Page::Last(s) => s,
            Page::FromEnd(_, s) => s,
        }
    }
}

/// Memory addressed by page and offset within the page.
pub struct Pager {
    pub data: Vec<u8>,
}

/// Number of the last page of a memory of `len` bytes split into pages of `size` bytes.
pub open spec fn last_page(len: nat, size: PageSize) -> int {
    len as int / size.bytes() as int - 1
}

/// The page number that `page` designates in a memory of `len` bytes.
pub open spec fn page_number(len: nat, page: Page) -> int {
    match page {
        Page::First(_) => 0,
        Page::FromNth(n, _) => n as int,
        Page::Last(s) => last_page(len, s),
        Page::FromEnd(n, s) => last_page(len, s) - n,
    }
}

/// The conditions under which paged indexing succeeds: the page size divides the
/// memory, the offset does not exceed a page and the page lies in the memory.
pub open spec fn page_index_ok(len: nat, page: Page, offset: u16) -> bool {
    let s = page.size().bytes();
    &&& len % s == 0
    &&& len >= s
    &&& offset <= s
    &&& 0 <= page_number(len, page) <= last_page(len, page.size())
}

/// The byte index that a page and an offset designate.
pub open spec fn page_index(len: nat, page: Page, offset: u16) -> int {
    page_number(len, page) * page.size().bytes() + offset
}

proof fn lemma_page_bound(nth: int, size: int, len: int, q: int)
    by (nonlinear_arith)
    requires
        size > 0,
        len == q * size,
        0 <= nth <= q - 1,
    ensures
        0 <= nth * size <= len - size,
{
}

/// A page and offset that a memory holding `data` can read and write.
pub open spec fn can_access(data: Seq<u8>, page: Page, offset: u16) -> bool {
    &&& page_index_ok(data.len(), page, offset)
    &&& page_index(data.len(), page, offset) < data.len()
}

/// The byte that a page and an offset designate in `data`.
pub open spec fn paged_read(data: Seq<u8>, page: Page, offset: u16) -> u8 {
    data[page_index(data.len(), page, offset)]
}

/// `data` after writing `value` at the byte that a page and an offset designate.
pub open spec fn paged_write(data: Seq<u8>, page: Page, offset: u16, value: u8) -> Seq<u8> {
    data.update(page_index(data.len(), page, offset), value)
}

impl Pager {
    pub open spec fn len(&self) -> nat {
        self.data@.len()
    }

    pub fn new(data: Vec<u8>) -> (r: Pager)
        ensures
            r.data@ == data@,
    {
        Pager { data }
    }

    pub fn read(&self, page: Page, offset: u16) -> (r: u8)
        requires
            can_access(self.data@, page, offset),
        ensures
            r == paged_read(self.data@, page, offset),
    {
        let idx = self.index(page, offset);
        self.data[idx]
    }

    pub fn write(&mut self, page: Page, offset: u16, value: u8)
        requires
            can_access(old(self).data@, page, offset),
        ensures
            final(self).data@ == paged_write(old(self).data@, page, offset, value),
    {
        let idx = self.index(page, offset);
        self.data.set(idx, value);
    }

    /// Whether a paged read or write at `page` and `offset` can be served.
    pub fn accessible(&self, page: Page, offset: u16) -> (r: bool)
        ensures
            r == can_access(self.data@, page, offset),
    {
        let size = match page {
            Page::First(s) => s,
            Page::FromNth(_, s) => s,
            Page::Last(s) => s,
            Page::FromEnd(_, s) => s,
        };
        let s = size.value();
        let total = self.data.len();
        if total % s != 0 || total < s || offset as usize > s {
            return false;
        }
        let last = total / s - 1;
        let nth: usize = match page {
            Page::First(_) => 0,
            Page::FromNth(n, _) => n,
            Page::Last(_) => last,
            Page::FromEnd(n, _) => {
                if n > last {
                    return false;
                }
                last - n
            },
        };
        if nth > last {
            return false;
        }
        proof {
            let len = total as int;
            let q = len / s as int;
            vstd::arithmetic::div_mod::lemma_fundamental_div_mod(len, s as int);
            assert(len == q * s) by (nonlinear_arith)
                requires
                    len == s * q + len % (s as int),
                    len % (s as int) == 0,
            ;
            lemma_page_bound(nth as int, s as int, len, q);
        }
        nth * s + (offset as usize) < total
    }

    fn page_count(&self, size: PageSize) -> (r: usize)
        requires
            self.len() % size.bytes() == 0,
            self.len() >= size.bytes(),
        ensures
            r == last_page(self.len(), size),
    {
        let s = size.value();
        self.data.len() / s - 1
    }

    fn index(&self, page: Page, offset: u16) -> (r: usize)
        requires
            page_index_ok(self.len(), page, offset),
        ensures
            r == page_index(self.len(), page, offset),
            r <= self.len(),
    {
        let size = match page {
            Page::First(s) => s,
            Page::FromNth(_, s) => s,
            Page::Last(s) => s,
            Page::FromEnd(_, s) => s,
        };
        let nth: usize = match page {
            Page::First(_) => 0,
            Page::FromNth(n, _) => n,
            Page::Last(_) => self.page_count(size),
            Page::FromEnd(n, _) => self.page_count(size) - n,
        };
        let s = size.value();
        let total = self.data.len();
        proof {
            let len = self.len() as int;
            let q = len / s as int;
            vstd::arithmetic::div_mod::lemma_fundamental_div_mod(len, s as int);
            assert(len == q * s) by (nonlinear_arith)
                requires
                    len == s * q + len % (s as int),
                    len % (s as int) == 0,
            ;
            lemma_page_bound(nth as int, s as int, len, q);
        }
        nth * s + offset as usize
    }
}


/// Law: what a paged write stores, a paged read of the same page and offset gives back, and
/// the memory keeps its size.
pub proof fn lemma_paged_write_read(data: Seq<u8>, page: Page, offset: u16, value: u8)
    requires
        can_access(data, page, offset),
    ensures
        paged_read(paged_write(data, page, offset, value), page, offset) == value,
        paged_write(data, page, offset, value).len() == data.len(),
{
}

/// Law: a page and an offset inside the page can be accessed exactly when the memory is a
/// whole, non-empty number of pages and the page is one of them; the byte is then at the
/// page's start plus the offset. `First` is page 0, `FromNth(n)` page n, `Last` the last page
/// and `FromEnd(n)` the page n before the last.
pub proof fn lemma_page_access(data: Seq<u8>, page: Page, offset: u16)
    requires
        offset < page.size().bytes(),
    ensures
        ({
            let size = page.size().bytes() as int;
            let pages = data.len() as int / size;
            let n: int = match page {
                Page::First(_) => 0,
                Page::FromNth(k, _) => k as int,
                Page::Last(_) => pages - 1,
                Page::FromEnd(k, _) => pages - 1 - k,
            };
            &&& can_access(data, page, offset) == (data.len() as int % size == 0 && pages >= 1 && 0 <= n < pages)
            &&& can_access(data, page, offset) ==> paged_read(data, page, offset) == data[n * size + offset]
        }),
{
    let size = page.size().bytes() as int;
    let len = data.len() as int;
    let pages = len / size;
    let n = page_number(data.len(), page);
    if len % size == 0 && pages >= 1 && 0 <= n < pages {
        assert(len >= size) by (nonlinear_arith)
            requires
                pages >= 1,
                pages == len / size,
                size > 0,
                len >= 0,
        ;
        vstd::arithmetic::div_mod::lemma_fundamental_div_mod(len, size);
        assert(len == size * pages);
        assert(n * size + offset < len) by (nonlinear_arith)
            requires
                0 <= n < pages,
                len == size * pages,
                offset < size,
        ;
    }
    if len % size == 0 && len >= size {
        assert(pages >= 1) by (nonlinear_arith)
            requires
                len >= size,
                pages == len / size,
                size > 0,
        ;
    }
}

} // verus!
