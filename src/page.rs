//! Paging of list results.
use vstd::prelude::*;

verus! {

/// One page of a listing.
#[derive(Debug)]
pub struct Page<T> {
    pub content: Vec<T>,
    /// Number of items in the whole listing.
    pub total: u64,
    /// Index of this page, from 0.
    pub number: u32,
    /// Items per page.
    pub size: u32,
}

/// Sort direction.
#[derive(Clone, Copy, Debug, PartialEq, Eq, Structural)]
pub enum Direction {
    ASC,
    DESC,
}

/// Sort by one property.
#[derive(Debug)]
pub struct Sort {
    pub property: String,
    pub direction: Direction,
}

/// Which page of a listing is asked for.
#[derive(Debug)]
pub struct PageRequest {
    pub page: u32,
    pub size: u32,
    pub sort: Vec<Sort>,
}

impl PageRequest {
    /// Number of items before the page (it must fit a `usize`).
    pub fn offset(&self) -> (r: usize)
        requires
            self.page as int * self.size as int <= usize::MAX,
        ensures
            r == self.page as int * self.size as int,
    {
        (self.page as usize) * (self.size as usize)
    }

    /// Number of items on the page.
    pub fn limit(&self) -> (r: usize)
        ensures
            r == self.size,
    {
        self.size as usize
    }
}

impl<T> Page<T> {
    /// The page `page` asks for, holding `content` out of `total` items.
    pub fn new(content: Vec<T>, total: u64, page: &PageRequest) -> (r: Page<T>)
        ensures
            r.content@ == content@,
            r.total == total,
            r.number == page.page,
            r.size == page.size,
    {
        Page { content, total, number: page.page, size: page.size }
    }

    /// The same page with `mapper` applied to each item.
    pub fn map<B, F>(&self, mapper: F) -> (r: Page<B>)
        where
            F: Fn(&T) -> B,
        requires
            forall|i: int| 0 <= i < self.content@.len() ==> mapper.requires((&self.content@[i],)),
        ensures
            r.content@.len() == self.content@.len(),
            forall|i: int|
                0 <= i < self.content@.len() ==> mapper.ensures(
                    (&self.content@[i],),
                    #[trigger] r.content@[i],
                ),
            r.total == self.total,
            r.number == self.number,
            r.size == self.size,
    {
        let mut content: Vec<B> = Vec::new();
        let mut i: usize = 0;
        while i < self.content.len()
            invariant
                i <= self.content@.len(),
                content@.len() == i,
                forall|j: int| 0 <= j < self.content@.len() ==> mapper.requires((&self.content@[j],)),
                forall|j: int|
                    0 <= j < i ==> mapper.ensures((&self.content@[j],), #[trigger] content@[j]),
            decreases self.content@.len() - i,
        {
            let b = mapper(&self.content[i]);
            content.push(b);
            i = i + 1;
        }
        Page { content, total: self.total, number: self.number, size: self.size }
    }
}

} // verus!
