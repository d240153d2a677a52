use vstd::prelude::*;
use vstd::string::*;

verus! {

/// A path is absolute when it starts with the delimiter.
pub open spec fn is_absolute(p: Seq<char>) -> bool {
    p.len() > 0 && p[0] == '/'
}

/// The final component of `p` is non-empty: `p` is not empty and does not
/// end with the delimiter.
pub open spec fn has_object_name_spec(p: Seq<char>) -> bool {
    p.len() > 0 && p.last() != '/'
}

/// A directory handed to a listing must name a final component: the
/// empty path and every path that ends in the delimiter are refused, and
/// every other path is accepted.
pub proof fn lemma_listing_refuses_empty_final_component(p: Seq<char>)
    ensures
        !has_object_name_spec(p) <==> (p.len() == 0 || p.last() == '/'),
        !has_object_name_spec(p.push('/')),
        has_object_name_spec(p.push('a')),
{
}

/// `p` with the delimiter appended, unless it already ends with one.
pub open spec fn with_trailing_slash(p: Seq<char>) -> Seq<char> {
    if p.len() > 0 && p.last() == '/' {
        p
    } else {
        p.push('/')
    }
}

/// `segment` appended to `p` as a further component.
pub open spec fn join_spec(p: Seq<char>, segment: Seq<char>) -> Seq<char> {
    if p.len() == 0 {
        segment
    } else {
        with_trailing_slash(p) + segment
    }
}

/// A relative key into the object store, components separated by `/`.
#[derive(Debug)]
pub struct RemotePath {
    inner: String,
}

impl View for RemotePath {
    type V = Seq<char>;

    closed spec fn view(&self) -> Seq<char> {
        self.inner@
    }
}

impl Clone for RemotePath {
    fn clone(&self) -> (r: Self)
        ensures
            r@ == self@,
    {
        RemotePath { inner: self.inner.clone() }
    }
}

impl RemotePath {
    /// A relative path from its text; `None` for an absolute one.
    pub fn from_string(s: &str) -> (r: Option<RemotePath>)
        ensures
            r is Some <==> !is_absolute(s@),
            r matches Some(p) ==> p@ == s@,
    {
        let n = s.unicode_len();
        if n > 0 && s.get_char(0) == '/' {
            None
        } else {
            Some(RemotePath { inner: String::from_str(s) })
        }
    }

    /// A path from text already known to be relative.
    pub fn from_relative(s: &str) -> (r: RemotePath)
        requires
            !is_absolute(s@),
        ensures
            r@ == s@,
    {
        RemotePath { inner: String::from_str(s) }
    }

    /// The path's text.
    pub fn as_str(&self) -> (r: &str)
        ensures
            r@ == self@,
    {
        self.inner.as_str()
    }

    /// Whether the final component is non-empty, as a directory name
    /// given to a listing must be.
    pub fn has_object_name(&self) -> (r: bool)
        ensures
            r == has_object_name_spec(self@),
    {
        let n = self.inner.unicode_len();
        n > 0 && self.inner.get_char(n - 1) != '/'
    }

    /// The path with a trailing delimiter, as a listing prefix.
    pub fn add_trailing_slash(&self) -> (r: RemotePath)
        ensures
            r@ == with_trailing_slash(self@),
    {
        let n = self.inner.unicode_len();
        let mut s = self.inner.clone();
        if !(n > 0 && self.inner.get_char(n - 1) == '/') {
            s.append("/");
            proof {
                reveal_strlit("/");
                assert(s@ =~= self@.push('/'));
            }
        }
        RemotePath { inner: s }
    }

    /// `segment` appended as a further component.
    pub fn join(&self, segment: &str) -> (r: RemotePath)
        ensures
            r@ == join_spec(self@, segment@),
    {
        let n = self.inner.unicode_len();
        if n == 0 {
            RemotePath { inner: String::from_str(segment) }
        } else {
            let mut p = self.add_trailing_slash();
            p.inner.append(segment);
            p
        }
    }
}

/// One object of a listing: its key and its size in bytes.
#[derive(Debug)]
pub struct ListingObject {
    pub key: RemotePath,
    pub size: usize,
}

/// The result of a delimited listing: the objects directly under the
/// prefix, and the common prefixes ("directories") below it.
#[derive(Debug)]
pub struct Listing {
    pub keys: Vec<ListingObject>,
    pub prefixes: Vec<RemotePath>,
}

impl Listing {
    pub fn new() -> (r: Listing)
        ensures
            r.keys@.len() == 0,
            r.prefixes@.len() == 0,
    {
        Listing { keys: Vec::new(), prefixes: Vec::new() }
    }

    /// Merges the next page of a paginated listing: its keys and prefixes
    /// follow those already held, in order.
    pub fn append_page(&mut self, page: Listing)
        ensures
            final(self).keys@ == old(self).keys@ + page.keys@,
            final(self).prefixes@ == old(self).prefixes@ + page.prefixes@,
    {
        let mut page = page;
        self.keys.append(&mut page.keys);
        self.prefixes.append(&mut page.prefixes);
    }
}

/// The files of a listing, with their sizes, in listing order.
pub fn files_in_listing(listing: &Listing) -> (r: Vec<(RemotePath, usize)>)
    ensures
        r@.len() == listing.keys@.len(),
        forall|i: int|
            0 <= i < r@.len() ==> r@[i].0@ == listing.keys@[i].key@ && r@[i].1
                == listing.keys@[i].size,
{
    let mut out: Vec<(RemotePath, usize)> = Vec::new();
    let mut i: usize = 0;
    while i < listing.keys.len()
        invariant
            i <= listing.keys@.len(),
            out@.len() == i,
            forall|j: int|
                0 <= j < i ==> out@[j].0@ == listing.keys@[j].key@ && out@[j].1
                    == listing.keys@[j].size,
        decreases listing.keys@.len() - i,
    {
        let o = &listing.keys[i];
        out.push((o.key.clone(), o.size));
        i = i + 1;
    }
    out
}

/// The children of a listing: its files' keys, then its common prefixes.
pub fn children_in_listing(listing: &Listing) -> (r: Vec<RemotePath>)
    ensures
        r@.len() == listing.keys@.len() + listing.prefixes@.len(),
        forall|i: int| 0 <= i < listing.keys@.len() ==> r@[i]@ == listing.keys@[i].key@,
        forall|i: int|
            0 <= i < listing.prefixes@.len() ==> r@[listing.keys@.len() + i]@
                == listing.prefixes@[i]@,
{
    let mut out: Vec<RemotePath> = Vec::new();
    let mut i: usize = 0;
    while i < listing.keys.len()
        invariant
            i <= listing.keys@.len(),
            out@.len() == i,
            forall|j: int| 0 <= j < i ==> out@[j]@ == listing.keys@[j].key@,
        decreases listing.keys@.len() - i,
    {
        out.push(listing.keys[i].key.clone());
        i = i + 1;
    }
    let nk = i;
    let mut k: usize = 0;
    while k < listing.prefixes.len()
        invariant
            nk == listing.keys@.len(),
            k <= listing.prefixes@.len(),
            out@.len() == nk + k,
            forall|j: int| 0 <= j < nk ==> out@[j]@ == listing.keys@[j].key@,
            forall|j: int| 0 <= j < k ==> out@[nk + j]@ == listing.prefixes@[j]@,
        decreases listing.prefixes@.len() - k,
    {
        out.push(listing.prefixes[k].clone());
        k = k + 1;
    }
    out
}

} // verus!
