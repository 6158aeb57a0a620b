//! Pages of a list, and the parameters that ask for them.

use vstd::prelude::*;

verus! {

#[derive(Clone, Copy, Debug, PartialEq, Eq, Structural)]
pub enum SortingDir {
    Asc,
    Desc,
}

/// The name of a search parameter and the values given for it.
#[derive(Debug)]
pub struct SearchParam {
    pub name: String,
    pub values: Vec<String>,
}

/// Which page of a list is meant, how the list is sorted and searched, and how long it is.
#[derive(Debug)]
pub struct Paging {
    pub page: u32,
    pub limit: u32,
    pub sort: String,
    pub dir: SortingDir,
    pub total: u32,
    pub tags: Vec<SearchParam>,
}

/// The paging parameters of a request, each of which may be missing.
#[derive(Debug)]
pub struct PagingParameters {
    pub page: Option<u32>,
    pub limit: Option<u32>,
    pub sort: Option<String>,
    pub dir: Option<SortingDir>,
    pub tags: Option<Vec<SearchParam>>,
}

/// The limit of a page where the request gives none.
pub const DEFAULT_LIMIT: u32 = 100;

impl Paging {
    /// The paging of an unsorted list of which nothing is known yet.
    pub fn new(page: u32, limit: u32) -> (paging: Paging)
        ensures
            paging.page == page,
            paging.limit == limit,
            paging.sort@ == Seq::<char>::empty(),
            paging.dir == SortingDir::Asc,
            paging.total == 0,
            paging.tags@ == Seq::<SearchParam>::empty(),
    {
        Paging { page, limit, sort: String::new(), dir: SortingDir::Asc, total: 0, tags: Vec::new() }
    }

    /// The paging that a request asks for: page 0, a limit of 100, no
    /// sorting, ascending, no search, wherever the request says nothing.
    pub fn from(received: PagingParameters) -> (paging: Paging)
        ensures
            paging.page == match received.page {
                Some(page) => page,
                None => 0,
            },
            paging.limit == match received.limit {
                Some(limit) => limit,
                None => DEFAULT_LIMIT,
            },
            match received.sort {
                Some(sort) => paging.sort == sort,
                None => paging.sort@ == Seq::<char>::empty(),
            },
            paging.dir == match received.dir {
                Some(dir) => dir,
                None => SortingDir::Asc,
            },
            paging.total == 0,
            match received.tags {
                Some(tags) => paging.tags == tags,
                None => paging.tags@ == Seq::<SearchParam>::empty(),
            },
    {
        Paging {
            page: match received.page {
                Some(page) => page,
                None => 0,
            },
            limit: match received.limit {
                Some(limit) => limit,
                None => DEFAULT_LIMIT,
            },
            sort: match received.sort {
                Some(sort) => sort,
                None => String::new(),
            },
            dir: match received.dir {
                Some(dir) => dir,
                None => SortingDir::Asc,
            },
            total: 0,
            tags: match received.tags {
                Some(tags) => tags,
                None => Vec::new(),
            },
        }
    }
}

/// A list with its paging.
#[derive(Debug)]
pub struct Payload<T> {
    pub data: Vec<T>,
    pub paging: Paging,
}

impl<T> Payload<T> {
    /// The whole list as one page: the total and the limit are the length
    /// of the list, cut to 32 bits.
    pub fn new(data: Vec<T>, paging_query: Paging) -> (payload: Payload<T>)
        ensures
            payload.data == data,
            payload.paging == (Paging {
                total: data@.len() as u32,
                limit: data@.len() as u32,
                ..paging_query
            }),
    {
        let total = #[verifier::truncate]
        (data.len() as u32);
        let mut paging = paging_query;
        paging.total = total;
        paging.limit = total;
        Payload { data, paging }
    }

    /// The empty list, with a total of 0.
    pub fn empty(paging: Paging) -> (payload: Payload<T>)
        ensures
            payload.data@ == Seq::<T>::empty(),
            payload.paging == (Paging { total: 0, ..paging }),
    {
        let mut paging = paging;
        paging.total = 0;
        Payload { data: Vec::new(), paging }
    }
}

} // verus!
