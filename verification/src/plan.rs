//! Path planning: the deterministic destination directory and file name
//! of one item's asset.

use vstd::prelude::*;
use crate::error::Error;
use crate::error::ErrorModel;
use crate::item::Item;
use crate::locate::locate;
use crate::locate::locate_model;
use crate::text::find_char;
use crate::text::first_index_of_char;
use crate::text::remove_char;
use crate::text::strip_char;
use crate::text::u64_to_dec12;
use crate::text::zero_pad12;

verus! {

/// The date part of a creation timestamp: the text before the first
/// `'T'`, with every `'-'` removed; `None` when no `'T'` occurs.
pub open spec fn date_model(created: Seq<char>) -> Option<Seq<char>> {
    let t = first_index_of_char(created, 'T');
    if t >= 0 {
        Some(remove_char(created.take(t), '-'))
    } else {
        None
    }
}

/// The planned file name:
/// `{date}_{username}_{sequence index padded to 12 digits}_{id}.{ext}`.
pub open spec fn file_name_model(
    date: Seq<char>,
    username: Seq<char>,
    index: nat,
    id: Seq<char>,
    ext: Seq<char>,
) -> Seq<char> {
    date + "_"@ + username + "_"@ + zero_pad12(index) + "_"@ + id + "."@ + ext
}

/// The mathematical shape of a plan: destination directory, file name,
/// and full destination path.
pub ghost struct PlanModel {
    pub dir: Seq<char>,
    pub file: Seq<char>,
    pub path: Seq<char>,
}

/// What planning an item yields for a given base directory and
/// extension: the destination layout, or an invalid-timestamp failure
/// naming the item and the raw timestamp.
pub open spec fn plan_model(item: Item, base: Seq<char>, ext: Seq<char>) -> Result<
    PlanModel,
    ErrorModel,
> {
    match date_model(item.created_at@) {
        None => Err(
            ErrorModel::InvalidTimestamp { item_id: item.id@, raw: item.created_at@ },
        ),
        Some(date) => {
            let dir = base + "/"@ + item.owner.username@;
            let file = file_name_model(
                date,
                item.owner.username@,
                item.sequence_index as nat,
                item.id@,
                ext,
            );
            Ok(PlanModel { dir, file, path: dir + "/"@ + file })
        },
    }
}

/// The planned destination of one item's asset.
pub struct Plan {
    pub dir: String,
    pub file: String,
    pub path: String,
}

/// Derives the destination directory and path of one item's asset.
pub fn plan(item: &Item, base_dir: &str, ext: &str) -> (r: Result<Plan, Error>)
    ensures
        match r {
            Ok(p) => plan_model(*item, base_dir@, ext@) == Ok::<PlanModel, ErrorModel>(
                PlanModel { dir: p.dir@, file: p.file@, path: p.path@ },
            ),
            Err(e) => plan_model(*item, base_dir@, ext@) == Err::<PlanModel, ErrorModel>(
                e.model(),
            ),
        },
{
    match find_char(item.created_at.as_str(), 'T') {
        None => Err(
            Error::InvalidTimestamp {
                item_id: item.id.clone(),
                raw: item.created_at.clone(),
            },
        ),
        Some(t) => {
            let raw_date = item.created_at.as_str().substring_char(0, t);
            proof {
                assert(raw_date@ =~= item.created_at@.take(t as int));
            }
            let date = strip_char(raw_date, '-');
            let mut file = date;
            file.append("_");
            file.append(item.owner.username.as_str());
            file.append("_");
            let padded = u64_to_dec12(item.sequence_index);
            file.append(padded.as_str());
            file.append("_");
            file.append(item.id.as_str());
            file.append(".");
            file.append(ext);
            let mut dir = String::from_str(base_dir);
            dir.append("/");
            dir.append(item.owner.username.as_str());
            let mut path = dir.clone();
            path.append("/");
            path.append(file.as_str());
            proof {
                let m = plan_model(*item, base_dir@, ext@)->Ok_0;
                assert(dir@ =~= m.dir);
                assert(file@ =~= m.file);
                assert(path@ =~= m.path);
            }
            Ok(Plan { dir, file, path })
        },
    }
}

/// The resolved inputs of one download task: where the bytes come from
/// and where they go.
pub struct ItemPlan {
    pub source_url: String,
    pub dir: String,
    pub path: String,
}

/// What resolving an item yields: its source URL and destination
/// layout, or the first failure of locating or planning.
pub open spec fn prepare_model(item: Item, base: Seq<char>) -> Result<
    (Seq<char>, PlanModel),
    ErrorModel,
> {
    match locate_model(item) {
        Err(e) => Err(e),
        Ok(located) => match plan_model(item, base, located.1) {
            Err(e) => Err(e),
            Ok(p) => Ok((located.0, p)),
        },
    }
}

/// Resolves one item: locates its source asset, then plans its
/// destination. No network request is implied by a failure here.
pub fn prepare(item: &Item, base_dir: &str) -> (r: Result<ItemPlan, Error>)
    ensures
        match r {
            Ok(p) => prepare_model(*item, base_dir@) matches Ok(m) && m.0 == p.source_url@
                && m.1.dir == p.dir@ && m.1.path == p.path@,
            Err(e) => prepare_model(*item, base_dir@) == Err::<
                (Seq<char>, PlanModel),
                ErrorModel,
            >(e.model()),
        },
{
    match locate(item) {
        Err(e) => Err(e),
        Ok(located) => match plan(item, base_dir, located.1.as_str()) {
            Err(e) => Err(e),
            Ok(p) => Ok(ItemPlan { source_url: located.0, dir: p.dir, path: p.path }),
        },
    }
}

} // verus!
