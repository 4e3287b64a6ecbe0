//! Idempotent resumability: the skip-if-present decision and the law
//! that a second run over an unchanged item set fetches nothing.

use vstd::prelude::*;
use crate::error::Error;
use crate::error::ErrorModel;
use crate::item::Item;
use crate::plan::prepare_model;
use crate::status::is_success_status;
use crate::status::status_is_success;

verus! {

/// What the downloader does with one resolved item once the existence
/// of its destination file is known.
pub enum Transfer {
    /// The destination file is present: no request is made.
    Skip,
    /// The destination file is absent: fetch the asset and write it.
    Download,
}

/// Resumability: a present destination is never re-downloaded.
pub fn transfer_decision(present: bool) -> (t: Transfer)
    ensures
        t == (if present {
            Transfer::Skip
        } else {
            Transfer::Download
        }),
{
    if present {
        Transfer::Skip
    } else {
        Transfer::Download
    }
}

/// Classifies one asset response status: a non-2xx answer fails the
/// item with the failing status and the asset URL it was fetched from.
pub fn asset_status(url: &String, code: u16) -> (r: Result<(), Error>)
    ensures
        match r {
            Ok(u) => is_success_status(code),
            Err(e) => !is_success_status(code) && e.model() == (ErrorModel::ResponseStatus {
                code,
                url: url@,
            }),
        },
{
    if status_is_success(code) {
        Ok(())
    } else {
        Err(Error::ResponseStatus { code, url: url.clone() })
    }
}

/// The destination path an item resolves to, when locating and
/// planning both succeed.
pub open spec fn planned_path(item: Item, base: Seq<char>) -> Option<Seq<char>> {
    match prepare_model(item, base) {
        Ok(p) => Some(p.1.path),
        Err(e) => None,
    }
}

/// One run of the download phase, modelled on destination paths with
/// every fetch succeeding: the files present afterwards and the number
/// of asset requests made.
pub ghost struct RunModel {
    pub present: Set<Seq<char>>,
    pub fetches: nat,
}

/// Folds the batch item by item: an unresolvable item changes nothing,
/// a present destination is skipped, an absent one costs one fetch and
/// appears in the directory.
pub open spec fn run_model(items: Seq<Item>, base: Seq<char>, present: Set<Seq<char>>) -> RunModel
    decreases items.len(),
{
    if items.len() == 0 {
        RunModel { present, fetches: 0 }
    } else {
        let first = match planned_path(items[0], base) {
            None => RunModel { present, fetches: 0 },
            Some(p) => if present.contains(p) {
                RunModel { present, fetches: 0 }
            } else {
                RunModel { present: present.insert(p), fetches: 1 }
            },
        };
        let rest = run_model(items.drop_first(), base, first.present);
        RunModel { present: rest.present, fetches: first.fetches + rest.fetches }
    }
}

/// A file present before a run is still present after it.
proof fn lemma_run_monotone(items: Seq<Item>, base: Seq<char>, s: Set<Seq<char>>, p: Seq<char>)
    requires
        s.contains(p),
    ensures
        run_model(items, base, s).present.contains(p),
    decreases items.len(),
{
    if items.len() > 0 {
        let first = match planned_path(items[0], base) {
            None => s,
            Some(q) => if s.contains(q) {
                s
            } else {
                s.insert(q)
            },
        };
        lemma_run_monotone(items.drop_first(), base, first, p);
    }
}

/// After a run, every resolvable item's destination is present.
proof fn lemma_run_covers(items: Seq<Item>, base: Seq<char>, s: Set<Seq<char>>, k: int, p: Seq<char>)
    requires
        0 <= k < items.len(),
        planned_path(items[k], base) == Some(p),
    ensures
        run_model(items, base, s).present.contains(p),
    decreases items.len(),
{
    let first = match planned_path(items[0], base) {
        None => s,
        Some(q) => if s.contains(q) {
            s
        } else {
            s.insert(q)
        },
    };
    if k == 0 {
        lemma_run_monotone(items.drop_first(), base, first, p);
    } else {
        assert(items.drop_first()[k - 1] == items[k]);
        lemma_run_covers(items.drop_first(), base, first, k - 1, p);
    }
}

/// A run over a directory that already holds every resolvable item's
/// destination fetches nothing and changes nothing.
proof fn lemma_run_idle(items: Seq<Item>, base: Seq<char>, s: Set<Seq<char>>)
    requires
        forall|k: int| 0 <= k < items.len() ==> (match planned_path(#[trigger] items[k], base) {
            Some(p) => s.contains(p),
            None => true,
        }),
    ensures
        run_model(items, base, s) == (RunModel { present: s, fetches: 0 }),
    decreases items.len(),
{
    if items.len() > 0 {
        assert(forall|k: int|
            0 <= k < items.drop_first().len() ==> items.drop_first()[k] == items[k + 1]);
        lemma_run_idle(items.drop_first(), base, s);
    }
}

/// Idempotence law: running the download phase a second time, over the
/// unchanged item set and the directory the first run left behind,
/// makes no asset request and leaves the file set as it was.
pub proof fn lemma_second_run_idle(items: Seq<Item>, base: Seq<char>, present: Set<Seq<char>>)
    ensures
        ({
            let first = run_model(items, base, present);
            let second = run_model(items, base, first.present);
            second.fetches == 0 && second.present == first.present
        }),
{
    let first = run_model(items, base, present);
    assert forall|k: int|
        0 <= k < items.len() implies (match planned_path(#[trigger] items[k], base) {
        Some(p) => first.present.contains(p),
        None => true,
    }) by {
        match planned_path(items[k], base) {
            Some(p) => lemma_run_covers(items, base, present, k, p),
            None => {},
        }
    }
    lemma_run_idle(items, base, first.present);
}

} // verus!
