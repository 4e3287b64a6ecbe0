//! Asset location: deriving the binary source URL and file extension of
//! one item from its rendition metadata.

use vstd::prelude::*;
use crate::error::Error;
use crate::error::ErrorModel;
use crate::item::Item;
use crate::item::UrlField;
use crate::item::find_rendition;
use crate::item::lookup_rendition;
use crate::text::last_index_of_char;
use crate::text::rfind_char;

verus! {

/// The URL string of the `"source"` rendition, or `None` when that
/// rendition is absent or its `"url"` entry is not a string.
pub open spec fn source_url_model(item: Item) -> Option<Seq<char>> {
    match find_rendition(item.renditions@, "source"@) {
        Some(r) => match r.url {
            UrlField::Url(u) => Some(u@),
            UrlField::WrongType => None,
            UrlField::Absent => None,
        },
        None => None,
    }
}

/// The substring after the last `'.'` of `url`, or `None` when `url`
/// holds no `'.'`. The value is not validated further.
pub open spec fn ext_model(url: Seq<char>) -> Option<Seq<char>> {
    let i = last_index_of_char(url, '.');
    if i >= 0 {
        Some(url.subrange(i + 1, url.len() as int))
    } else {
        None
    }
}

/// What locating an item's asset yields: its source URL and extension,
/// or a missing-source failure naming the item.
pub open spec fn locate_model(item: Item) -> Result<(Seq<char>, Seq<char>), ErrorModel> {
    match source_url_model(item) {
        Some(u) => match ext_model(u) {
            Some(e) => Ok((u, e)),
            None => Err(ErrorModel::MissingSourceAsset { item_id: item.id@ }),
        },
        None => Err(ErrorModel::MissingSourceAsset { item_id: item.id@ }),
    }
}

/// Derives the binary source URL and file extension of one item.
pub fn locate(item: &Item) -> (r: Result<(String, String), Error>)
    ensures
        match r {
            Ok(p) => locate_model(*item) == Ok::<(Seq<char>, Seq<char>), ErrorModel>(
                (p.0@, p.1@),
            ),
            Err(e) => locate_model(*item) == Err::<(Seq<char>, Seq<char>), ErrorModel>(e.model()),
        },
{
    let source = String::from_str("source");
    match lookup_rendition(&item.renditions, &source) {
        None => Err(Error::MissingSourceAsset { item_id: item.id.clone() }),
        Some(rend) => match &rend.url {
            UrlField::Url(u) => match rfind_char(u.as_str(), '.') {
                None => Err(Error::MissingSourceAsset { item_id: item.id.clone() }),
                Some(i) => {
                    let len = u.as_str().unicode_len();
                    let ext = u.as_str().substring_char(i + 1, len);
                    Ok((u.clone(), String::from_str(ext)))
                },
            },
            UrlField::WrongType => Err(Error::MissingSourceAsset { item_id: item.id.clone() }),
            UrlField::Absent => Err(Error::MissingSourceAsset { item_id: item.id.clone() }),
        },
    }
}

/// An item with no `"source"` rendition, or one whose `"url"` entry is
/// not a string, locates to a missing-source failure naming the item.
pub proof fn lemma_locate_missing_source(item: Item)
    requires
        source_url_model(item) is None,
    ensures
        locate_model(item) == Err::<(Seq<char>, Seq<char>), ErrorModel>(
            ErrorModel::MissingSourceAsset { item_id: item.id@ },
        ),
{
}

} // verus!
