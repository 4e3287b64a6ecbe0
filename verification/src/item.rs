//! The feed data model: items, owners, renditions, and pages.

use vstd::prelude::*;

verus! {

/// The account that owns a feed item; the username feeds directory naming.
pub struct Owner {
    pub id: u64,
    pub name: String,
    pub username: String,
}

/// The `"url"` entry of one rendition's metadata: a string, a value of
/// some other shape, or absent. Only this entry is ever interpreted.
pub enum UrlField {
    Url(String),
    WrongType,
    Absent,
}

/// One named rendition of an item's binary representation.
pub struct Rendition {
    pub name: String,
    pub url: UrlField,
}

/// One media item as decoded from a feed page.
pub struct Item {
    pub id: String,
    pub sequence_index: u64,
    pub renditions: Vec<Rendition>,
    pub title: String,
    pub owner: Owner,
    pub created_at: String,
}

/// One decoded feed page: the items it carries and the cursor URL of the
/// next page, absent on the final page.
pub struct Page {
    pub next: Option<String>,
    pub items: Vec<Item>,
}

/// The first rendition named `name`, or `None` when no rendition carries
/// that name.
pub open spec fn find_rendition(rs: Seq<Rendition>, name: Seq<char>) -> Option<Rendition>
    decreases rs.len(),
{
    if rs.len() == 0 {
        None
    } else if rs[0].name@ == name {
        Some(rs[0])
    } else {
        find_rendition(rs.drop_first(), name)
    }
}

/// Looks up the first rendition whose name matches `name`.
pub fn lookup_rendition<'a>(rs: &'a Vec<Rendition>, name: &String) -> (r: Option<&'a Rendition>)
    ensures
        match r {
            Some(rend) => find_rendition(rs@, name@) == Some(*rend),
            None => find_rendition(rs@, name@) is None,
        },
{
    let n = rs.len();
    let mut i: usize = 0;
    proof {
        assert(rs@.skip(0) =~= rs@);
    }
    while i < n
        invariant
            i <= n,
            n == rs@.len(),
            find_rendition(rs@, name@) == find_rendition(rs@.skip(i as int), name@),
        decreases n - i,
    {
        proof {
            assert(rs@.skip(i as int)[0] == rs@[i as int]);
            assert(rs@.skip(i as int).drop_first() =~= rs@.skip(i as int + 1));
        }
        if rs[i].name.eq(name) {
            return Some(&rs[i]);
        }
        i = i + 1;
    }
    proof {
        assert(rs@.skip(n as int) =~= Seq::<Rendition>::empty());
    }
    None
}

} // verus!
