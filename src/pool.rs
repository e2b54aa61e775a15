//! A region allocator: a chain of pages, each handing out consecutive slices of
//! its own buffer. Nothing is freed on its own; `clear` drops every page.
use vstd::prelude::*;

verus! {

/// Allocations are rounded up to a multiple of this: the pointer width of
/// 64-bit targets, which also keeps every allocation pointer-aligned on
/// targets with narrower pointers.
pub const WORD: u32 = 8;

/// Bytes of a platform page that the chain's bookkeeping takes: two words of
/// allocator header and the page record itself, at their 64-bit sizes (an
/// upper bound of what they take with narrower pointers).
pub const PAGE_OVERHEAD: u64 = 40;

/// Platform page size assumed when the platform cannot say.
pub const DEFAULT_PLATFORM_PAGE: u64 = 4096;

/// One page of the chain: `size` bytes, of which the last `avail` are free.
#[derive(Debug)]
pub struct Page {
    pub id: u64,
    pub size: u32,
    pub avail: u32,
    pub data: Vec<u8>,
}

/// Where an allocation lives: the page it was cut from and its offset there.
#[derive(PartialEq, Eq, Structural, Clone, Copy, Debug)]
pub struct PoolPtr {
    pub page: u64,
    pub offset: u32,
}

/// The arena. Pages are kept oldest first; only the newest one is cut from.
/// Page ids are never reused, so a handle from before `clear` stays foreign.
#[allow(non_camel_case_types)]
#[derive(Debug)]
pub struct git_pool {
    pages: Vec<Page>,
    item_size: u32,
    page_size: u32,
    next_id: u64,
}

pub open spec fn round_up(x: int) -> int {
    ((x + WORD - 1) / WORD as int) * WORD as int
}

/// Bytes that `count` items take in a pool of items of `item_size` bytes.
pub open spec fn spec_alloc_size(item_size: u32, count: u32) -> int {
    if item_size > 1 {
        round_up(item_size as int) * count
    } else {
        round_up(count as int)
    }
}

/// Usable bytes of a page, given what the platform reports for its page size.
pub open spec fn spec_page_size(platform: Option<u64>) -> u32 {
    match platform {
        Some(s) if PAGE_OVERHEAD < s && s - PAGE_OVERHEAD <= u32::MAX => (s - PAGE_OVERHEAD) as u32,
        _ => (DEFAULT_PLATFORM_PAGE - PAGE_OVERHEAD) as u32,
    }
}

impl Page {
    pub open spec fn wf(&self) -> bool {
        &&& self.avail <= self.size
        &&& self.data@.len() == self.size
    }

    pub open spec fn holds(&self, p: PoolPtr) -> bool {
        p.page == self.id && p.offset < self.size
    }

    /// Cuts `size` bytes from the free end of the page.
    fn carve(&mut self, size: u32) -> (r: Option<u32>)
        requires
            old(self).wf(),
        ensures
            final(self).wf(),
            final(self).id == old(self).id,
            final(self).size == old(self).size,
            final(self).data == old(self).data,
            old(self).avail < size ==> r.is_none() && final(self).avail == old(self).avail,
            size <= old(self).avail ==> r == Some((old(self).size - old(self).avail) as u32)
                && final(self).avail == old(self).avail - size,
    {
        if self.avail < size {
            return None;
        }
        let offset = self.size - self.avail;
        self.avail = self.avail - size;
        Some(offset)
    }
}

impl git_pool {
    pub closed spec fn wf(&self) -> bool {
        &&& self.item_size >= 1
        &&& forall|i: int| 0 <= i < self.pages@.len() ==> #[trigger] self.pages@[i].wf()
        &&& forall|i: int| 0 <= i < self.pages@.len() ==> #[trigger] self.pages@[i].id < self.next_id
        &&& forall|i: int, j: int|
            0 <= i < j < self.pages@.len() ==> #[trigger] self.pages@[i].id < #[trigger] self.pages@[j].id
    }

    pub closed spec fn spec_pages(&self) -> Seq<Page> {
        self.pages@
    }

    pub closed spec fn spec_item_size(&self) -> u32 {
        self.item_size
    }

    pub closed spec fn spec_page_size_cfg(&self) -> u32 {
        self.page_size
    }

    pub closed spec fn spec_next_id(&self) -> u64 {
        self.next_id
    }

    /// `p` points into one of the pool's pages.
    pub open spec fn in_pool(&self, p: PoolPtr) -> bool {
        exists|i: int| 0 <= i < self.spec_pages().len() && #[trigger] self.spec_pages()[i].holds(p)
    }

    /// Every page of the pool was opened at or after id `mark`.
    pub open spec fn pages_from(&self, mark: u64) -> bool {
        forall|i: int| 0 <= i < self.spec_pages().len() ==> #[trigger] self.spec_pages()[i].id >= mark
    }

    /// An allocation of `size` bytes cannot be cut from the newest page.
    pub open spec fn needs_page(&self, size: u32) -> bool {
        self.spec_pages().len() == 0 || self.spec_pages().last().avail < size
    }

    /// Every byte of the `len` bytes at `p` lies in the pool.
    pub open spec fn range_in_pool(&self, p: PoolPtr, len: u32) -> bool {
        forall|k: u32| k < len ==> #[trigger] self.in_pool(PoolPtr { page: p.page, offset: (p.offset + k) as u32 })
    }

    /// Size of the page that a burst of `size` bytes opens.
    pub open spec fn new_page_size(&self, size: u32) -> u32 {
        if size <= self.spec_page_size_cfg() {
            self.spec_page_size_cfg()
        } else {
            size
        }
    }

    /// Usable bytes of a page for a platform page of `platform` bytes, or of
    /// the default size when the platform does not tell.
    pub fn page_size(platform: Option<u64>) -> (r: u32)
        ensures
            r == spec_page_size(platform),
    {
        match platform {
            Some(s) => {
                if PAGE_OVERHEAD < s && s - PAGE_OVERHEAD <= u32::MAX as u64 {
                    (s - PAGE_OVERHEAD) as u32
                } else {
                    (DEFAULT_PLATFORM_PAGE - PAGE_OVERHEAD) as u32
                }
            },
            None => (DEFAULT_PLATFORM_PAGE - PAGE_OVERHEAD) as u32,
        }
    }

    /// An empty pool of items of `item_size` bytes (1 for a pool of bytes of
    /// varying counts), whose pages hold `page_size` bytes.
    pub fn new(item_size: u32, page_size: u32) -> (r: git_pool)
        requires
            item_size >= 1,
        ensures
            r.wf(),
            r.spec_pages().len() == 0,
            r.spec_item_size() == item_size,
            r.spec_page_size_cfg() == page_size,
            r.spec_next_id() == 0,
    {
        git_pool { pages: Vec::new(), item_size, page_size, next_id: 0 }
    }

    /// Bytes taken by `count` items, rounded up to the pointer width; `None`
    /// where that does not fit in 32 bits.
    pub fn alloc_size(&self, count: u32) -> (r: Option<u32>)
        ensures
            spec_alloc_size(self.spec_item_size(), count) <= u32::MAX ==> r == Some(
                spec_alloc_size(self.spec_item_size(), count) as u32,
            ),
            spec_alloc_size(self.spec_item_size(), count) > u32::MAX ==> r.is_none(),
    {
        let w = WORD as u64;
        if self.item_size > 1 {
            let item = (self.item_size as u64 + w - 1) / w * w;
            assert(item == round_up(self.item_size as int));
            if count == 0 {
                return Some(0);
            }
            if item > u32::MAX as u64 {
                assert(item * count >= item) by (nonlinear_arith)
                    requires count >= 1, item >= 0;
                return None;
            }
            assert(item * count <= u32::MAX * u32::MAX) by (nonlinear_arith)
                requires item <= u32::MAX, count <= u32::MAX;
            let total = item * count as u64;
            if total <= u32::MAX as u64 {
                Some(total as u32)
            } else {
                None
            }
        } else {
            let total = (count as u64 + w - 1) / w * w;
            if total <= u32::MAX as u64 {
                Some(total as u32)
            } else {
                None
            }
        }
    }

    /// The bytes of region `len` bytes long at `p` are all zero.
    pub open spec fn zeroed(&self, p: PoolPtr, len: u32) -> bool {
        exists|i: int|
            0 <= i < self.spec_pages().len() && #[trigger] self.spec_pages()[i].id == p.page
                && p.offset + len <= self.spec_pages()[i].size
                && forall|k: int|
                p.offset <= k < p.offset + len ==> #[trigger] self.spec_pages()[i].data@[k] == 0u8
    }

    /// Opens a page for a burst of `size` bytes: of the configured size, or of
    /// exactly `size` where that is larger. Fails only when page ids run out.
    fn alloc_page(&mut self, size: u32) -> (r: bool)
        requires
            old(self).wf(),
        ensures
            final(self).wf(),
            final(self).item_size == old(self).item_size,
            final(self).page_size == old(self).page_size,
            r == (old(self).next_id < u64::MAX),
            !r ==> *final(self) == *old(self),
            r ==> final(self).pages@ == old(self).pages@.push(final(self).pages@.last()),
            r ==> final(self).pages@.last().id == old(self).next_id,
            r ==> final(self).pages@.last().size == old(self).new_page_size(size),
            r ==> final(self).pages@.last().avail == old(self).new_page_size(size),
            r ==> final(self).next_id == old(self).next_id + 1,
    {
        if self.next_id == u64::MAX {
            return false;
        }
        let new_size: u32 = if size <= self.page_size {
            self.page_size
        } else {
            size
        };
        let data: Vec<u8> = vec![0u8; new_size as usize];
        let page = Page { id: self.next_id, size: new_size, avail: new_size, data };
        self.pages.push(page);
        self.next_id = self.next_id + 1;
        true
    }

    /// Hands out `size` bytes, from the newest page where they fit, else from
    /// a new page. `None` only when a page was needed and none could be made.
    pub fn alloc_bytes(&mut self, size: u32) -> (r: Option<PoolPtr>)
        requires
            old(self).wf(),
        ensures
            final(self).wf(),
            final(self).spec_item_size() == old(self).spec_item_size(),
            final(self).spec_page_size_cfg() == old(self).spec_page_size_cfg(),
            r.is_none() <==> old(self).needs_page(size) && old(self).spec_next_id() == u64::MAX,
            r.is_none() ==> *final(self) == *old(self),
            forall|q: PoolPtr| old(self).in_pool(q) ==> #[trigger] final(self).in_pool(q),
            r matches Some(p) ==> cut_from(*old(self), *final(self), size, p) && final(self).range_in_pool(p, size),
            final(self).spec_next_id() >= old(self).spec_next_id(),
            forall|m: u64| #[trigger] old(self).pages_from(m) && m <= old(self).spec_next_id() ==> final(self).pages_from(m),
            forall|q: PoolPtr| final(self).in_pool(q) ==> q.page < final(self).spec_next_id(),
            forall|i: int|
                0 <= i < final(self).spec_pages().len() && #[trigger] final(self).spec_pages()[i].id
                    >= old(self).spec_next_id() ==> i == final(self).spec_pages().len() - 1,
    {
        let n = self.pages.len();
        let needs = n == 0 || self.pages[n - 1].avail < size;
        if needs {
            if !self.alloc_page(size) {
                return None;
            }
        }
        let ghost mid = self.pages@;
        assert(size <= mid.last().avail);
        let mut page = self.pages.pop().unwrap();
        assert(page == mid.last());
        let off = page.carve(size);
        let id = page.id;
        self.pages.push(page);
        let p = PoolPtr { page: id, offset: off.unwrap() };
        let ghost last = (self.pages.len() - 1) as int;
        assert(mid.last().wf());
        assert(p.offset + size <= page.size);
        assert(self.spec_pages()[last] == page);
        assert(size > 0 ==> self.spec_pages()[last].holds(p));
        assert forall|q: PoolPtr| old(self).in_pool(q) implies #[trigger] self.in_pool(q) by {
            let i = choose|i: int| 0 <= i < old(self).spec_pages().len() && #[trigger] old(self).spec_pages()[i].holds(q);
            assert(self.spec_pages()[i].holds(q));
        }
        assert(cut_from(*old(self), *self, size, p));
        proof {
            lemma_cut_in_pool(*old(self), *self, size, p);
        }
        Some(p)
    }

    /// Whether `p` points into one of the pages, oversized ones included.
    pub fn ptr_in_pool(&self, p: PoolPtr) -> (r: bool)
        ensures
            r == self.in_pool(p),
    {
        let mut i: usize = 0;
        while i < self.pages.len()
            invariant
                0 <= i <= self.pages@.len(),
                forall|j: int| 0 <= j < i ==> !(#[trigger] self.pages@[j]).holds(p),
            decreases self.pages@.len() - i,
        {
            if self.pages[i].id == p.page && p.offset < self.pages[i].size {
                assert(self.spec_pages()[i as int].holds(p));
                return true;
            }
            i = i + 1;
        }
        false
    }

    /// Number of pages in the chain.
    pub fn open_pages(&self) -> (r: usize)
        ensures
            r == self.spec_pages().len(),
    {
        self.pages.len()
    }

    /// Drops every page. Page ids are not reused afterwards.
    pub fn clear(&mut self)
        requires
            old(self).wf(),
        ensures
            final(self).wf(),
            final(self).spec_pages().len() == 0,
            final(self).spec_item_size() == old(self).spec_item_size(),
            final(self).spec_page_size_cfg() == old(self).spec_page_size_cfg(),
            final(self).spec_next_id() == old(self).spec_next_id(),
            forall|q: PoolPtr| !(#[trigger] final(self).in_pool(q)),
    {
        self.pages = Vec::new();
    }

    /// Zeroes `len` bytes from `offset` in the newest page.
    fn zero_last(&mut self, offset: u32, len: u32)
        requires
            old(self).wf(),
            old(self).pages@.len() > 0,
            offset + len <= old(self).pages@.last().size,
        ensures
            final(self).wf(),
            final(self).item_size == old(self).item_size,
            final(self).page_size == old(self).page_size,
            final(self).next_id == old(self).next_id,
            final(self).pages@.len() == old(self).pages@.len(),
            forall|i: int| 0 <= i < old(self).pages@.len() - 1 ==> final(self).pages@[i] == old(self).pages@[i],
            final(self).pages@.last().id == old(self).pages@.last().id,
            final(self).pages@.last().size == old(self).pages@.last().size,
            final(self).pages@.last().avail == old(self).pages@.last().avail,
            forall|k: int| offset <= k < offset + len ==> #[trigger] final(self).pages@.last().data@[k] == 0u8,
    {
        let mut page = self.pages.pop().unwrap();
        let ghost first = page;
        let end = offset + len;
        let mut k: u32 = offset;
        while k < end
            invariant
                offset <= k <= end,
                end <= page.size,
                page.id == first.id,
                page.size == first.size,
                page.avail == first.avail,
                page.data@.len() == first.data@.len(),
                first.wf(),
                forall|m: int| offset <= m < k ==> #[trigger] page.data@[m] == 0u8,
            decreases end - k,
        {
            page.data.set(k as usize, 0u8);
            k = k + 1;
        }
        self.pages.push(page);
    }
}

/// `new` is `old` after `size` bytes were handed out at `p`: from where the
/// newest page's free space began, or from the start of a page opened for
/// them; either way the newest page's free space now begins right after them.
pub open spec fn cut_from(old: git_pool, new: git_pool, size: u32, p: PoolPtr) -> bool {
    let last = new.spec_pages().last();
    &&& new.spec_pages().len() > 0
    &&& p.page == last.id
    &&& p.offset + size == last.size - last.avail
    &&& if old.needs_page(size) {
        &&& p.offset == 0
        &&& last.id == old.spec_next_id()
        &&& last.size == old.new_page_size(size)
        &&& new.spec_pages().len() == old.spec_pages().len() + 1
        &&& forall|i: int| 0 <= i < old.spec_pages().len() ==> #[trigger] new.spec_pages()[i] == old.spec_pages()[i]
    } else {
        let prev = old.spec_pages().last();
        &&& p.offset == prev.size - prev.avail
        &&& last.id == prev.id
        &&& last.size == prev.size
        &&& new.spec_pages().len() == old.spec_pages().len()
        &&& forall|i: int|
            0 <= i < old.spec_pages().len() - 1 ==> #[trigger] new.spec_pages()[i] == old.spec_pages()[i]
    }
}

/// The bytes handed out at `p` lie within the newest page, so all of them
/// are in the pool.
proof fn lemma_cut_in_pool(old: git_pool, new: git_pool, size: u32, p: PoolPtr)
    requires
        new.wf(),
        cut_from(old, new, size, p),
    ensures
        new.range_in_pool(p, size),
{
    let last = new.spec_pages().len() - 1;
    assert(new.spec_pages()[last].wf());
    assert forall|k: u32| k < size implies #[trigger] new.in_pool(PoolPtr { page: p.page, offset: (p.offset + k) as u32 }) by {
        assert(new.spec_pages()[last].holds(PoolPtr { page: p.page, offset: (p.offset + k) as u32 }));
    }
}

/// Two allocations in a row never overlap: the second is on a newer page, or
/// begins where the first ended.
pub proof fn lemma_allocations_disjoint(
    a: git_pool,
    b: git_pool,
    c: git_pool,
    s1: u32,
    p1: PoolPtr,
    s2: u32,
    p2: PoolPtr,
)
    requires
        b.wf(),
        cut_from(a, b, s1, p1),
        cut_from(b, c, s2, p2),
    ensures
        p1.page != p2.page || p1.offset + s1 <= p2.offset,
{
    if b.needs_page(s2) {
        assert(b.spec_pages()[b.spec_pages().len() - 1].id < b.spec_next_id());
    }
}

/// Allocates room for `items` items (bytes, in a pool of item size 1).
pub fn git_pool_malloc(pool: &mut git_pool, items: u32) -> (r: Option<PoolPtr>)
    requires
        old(pool).wf(),
    ensures
        final(pool).wf(),
        spec_alloc_size(old(pool).spec_item_size(), items) > u32::MAX ==> r.is_none() && *final(pool) == *old(pool),
        spec_alloc_size(old(pool).spec_item_size(), items) <= u32::MAX ==> {
            let size = spec_alloc_size(old(pool).spec_item_size(), items) as u32;
            &&& r.is_none() <==> old(pool).needs_page(size) && old(pool).spec_next_id() == u64::MAX
            &&& r matches Some(p) ==> cut_from(*old(pool), *final(pool), size, p) && final(pool).range_in_pool(p, size)
        },
        forall|m: u64| #[trigger] old(pool).pages_from(m) && m <= old(pool).spec_next_id() ==> final(pool).pages_from(m),
        forall|q: PoolPtr| final(pool).in_pool(q) ==> q.page < final(pool).spec_next_id(),
        forall|q: PoolPtr| old(pool).in_pool(q) ==> #[trigger] final(pool).in_pool(q),
{
    match pool.alloc_size(items) {
        Some(size) => pool.alloc_bytes(size),
        None => None,
    }
}


/// Allocates room for `items` items and fills it with zeros.
pub fn git_pool_mallocz(pool: &mut git_pool, items: u32) -> (r: Option<PoolPtr>)
    requires
        old(pool).wf(),
    ensures
        final(pool).wf(),
        spec_alloc_size(old(pool).spec_item_size(), items) > u32::MAX ==> r.is_none() && *final(pool) == *old(pool),
        spec_alloc_size(old(pool).spec_item_size(), items) <= u32::MAX ==> {
            let size = spec_alloc_size(old(pool).spec_item_size(), items) as u32;
            &&& r.is_none() <==> old(pool).needs_page(size) && old(pool).spec_next_id() == u64::MAX
            &&& r matches Some(p) ==> cut_from(*old(pool), *final(pool), size, p) && final(pool).range_in_pool(p, size)
                && final(pool).zeroed(p, size)
        },
        forall|m: u64| #[trigger] old(pool).pages_from(m) && m <= old(pool).spec_next_id() ==> final(pool).pages_from(m),
        forall|q: PoolPtr| final(pool).in_pool(q) ==> q.page < final(pool).spec_next_id(),
        forall|q: PoolPtr| old(pool).in_pool(q) ==> #[trigger] final(pool).in_pool(q),
{
    let size = match pool.alloc_size(items) {
        Some(size) => size,
        None => return None,
    };
    let ghost before = *pool;
    match pool.alloc_bytes(size) {
        Some(p) => {
            let ghost mid = *pool;
            pool.zero_last(p.offset, size);
            let ghost last = pool.pages@.len() - 1;
            assert forall|q: PoolPtr| mid.in_pool(q) implies #[trigger] pool.in_pool(q) by {
                let i = choose|i: int| 0 <= i < mid.spec_pages().len() && #[trigger] mid.spec_pages()[i].holds(q);
                if i < last {
                    assert(pool.spec_pages()[i] == mid.spec_pages()[i]);
                }
                assert(pool.spec_pages()[i].holds(q));
            }
            assert(pool.spec_pages()[last].id == p.page);
            assert(cut_from(before, *pool, size, p));
            proof {
                lemma_cut_in_pool(before, *pool, size, p);
            }
            Some(p)
        },
        None => None,
    }
}

/// A handle taken from a pool before `clear` is not in that pool afterwards,
/// whatever was allocated since: `clear` leaves no page, keeps the next page
/// id, and every later page is opened at or after it, while the handle names
/// an older page.
pub proof fn lemma_cleared_handle_stays_out(before: git_pool, after: git_pool, q: PoolPtr)
    requires
        before.wf(),
        after.wf(),
        before.in_pool(q),
        after.pages_from(before.spec_next_id()),
    ensures
        !after.in_pool(q),
{
    if after.in_pool(q) {
        let i = choose|i: int| 0 <= i < after.spec_pages().len() && #[trigger] after.spec_pages()[i].holds(q);
        assert(after.spec_pages()[i].id >= before.spec_next_id());
    }
}

/// An empty pool of items of `item_size` bytes whose pages hold `page_size`
/// bytes (see `git_pool::page_size`).
pub fn git_pool_init(item_size: u32, page_size: u32) -> (r: git_pool)
    requires
        item_size >= 1,
    ensures
        r.wf(),
        r.spec_pages().len() == 0,
        r.spec_item_size() == item_size,
        r.spec_page_size_cfg() == page_size,
        r.spec_next_id() == 0,
{
    git_pool::new(item_size, page_size)
}

/// Releases every page of the pool.
pub fn git_pool_clear(pool: &mut git_pool)
    requires
        old(pool).wf(),
    ensures
        final(pool).wf(),
        final(pool).spec_pages().len() == 0,
        final(pool).spec_item_size() == old(pool).spec_item_size(),
        final(pool).spec_page_size_cfg() == old(pool).spec_page_size_cfg(),
        final(pool).spec_next_id() == old(pool).spec_next_id(),
        forall|q: PoolPtr| !(#[trigger] final(pool).in_pool(q)),
{
    pool.clear()
}

/// Whether `p` points into the pool.
#[allow(non_snake_case)]
pub fn git_pool__ptr_in_pool(pool: &git_pool, p: PoolPtr) -> (r: bool)
    ensures
        r == pool.in_pool(p),
{
    pool.ptr_in_pool(p)
}

/// Number of pages the pool holds.
#[allow(non_snake_case)]
pub fn git_pool__open_pages(pool: &git_pool) -> (r: usize)
    ensures
        r == pool.spec_pages().len(),
{
    pool.open_pages()
}

} // verus!
