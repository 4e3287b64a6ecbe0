//! Pagination: the cursor-following fetch phase that accumulates the
//! complete item list before any download begins.
//!
//! The surrounding application performs the page requests; the
//! [`Paginator`] decides, answer by answer, whether the run goes on,
//! ends, or fails. The whole phase is modelled by [`fetch_fold`], and
//! the pagination laws are proved over that model.

use vstd::prelude::*;
use crate::error::Error;
use crate::error::ErrorModel;
use crate::item::Item;
use crate::item::Page;
use crate::status::is_success_status;
use crate::status::status_is_success;
use crate::text::dec_digits;
use crate::text::u64_to_dec;

verus! {

/// One decoded page at the model level.
pub ghost struct PageModel {
    pub next: Option<Seq<char>>,
    pub items: Seq<Item>,
}

impl Page {
    /// The model of this page: every string replaced by its view.
    pub open spec fn model(self) -> PageModel {
        PageModel {
            next: match self.next {
                Some(u) => Some(u@),
                None => None,
            },
            items: self.items@,
        }
    }
}

/// The answer the transport gives to one page request: a response with
/// its status and, when the body decoded, the page; or a network-level
/// failure.
pub enum PageFetch {
    Response { status: u16, page: Option<Page> },
    Transport { detail: String },
}

/// The model of a [`PageFetch`].
pub ghost enum PageFetchModel {
    Response { status: u16, page: Option<PageModel> },
    Transport { detail: Seq<char> },
}

impl PageFetch {
    /// The model of this answer: every string replaced by its view.
    pub open spec fn model(self) -> PageFetchModel {
        match self {
            PageFetch::Response { status, page } => PageFetchModel::Response {
                status,
                page: match page {
                    Some(p) => Some(p.model()),
                    None => None,
                },
            },
            PageFetch::Transport { detail } => PageFetchModel::Transport { detail: detail@ },
        }
    }
}

/// The models of a recorded answer sequence.
pub open spec fn models_of(rs: Seq<PageFetch>) -> Seq<PageFetchModel> {
    rs.map_values(|pf: PageFetch| pf.model())
}

/// How a pagination run ends.
pub ghost enum FetchModel {
    /// The recorded answers ran out before the cursor chain ended.
    Exhausted,
    /// The cursor chain ended; every page's items, in page order.
    Done { items: Seq<Item>, requests: nat },
    /// A fatal page-fetch error; the partial item list is discarded.
    Failed { err: ErrorModel, requests: nat },
}

/// The pagination loop as a fold: starting at `url` with `acc` items
/// accumulated and `n` requests issued, consume one answer per request
/// until an answer fails or ends the cursor chain.
pub open spec fn fetch_fold(
    rs: Seq<PageFetchModel>,
    url: Seq<char>,
    acc: Seq<Item>,
    n: nat,
) -> FetchModel
    decreases rs.len(),
{
    if rs.len() == 0 {
        FetchModel::Exhausted
    } else {
        match rs[0] {
            PageFetchModel::Transport { detail } => FetchModel::Failed {
                err: ErrorModel::Transport { detail },
                requests: n + 1,
            },
            PageFetchModel::Response { status, page } => if !is_success_status(status) {
                FetchModel::Failed {
                    err: ErrorModel::ResponseStatus { code: status, url },
                    requests: n + 1,
                }
            } else {
                match page {
                    None => FetchModel::Failed { err: ErrorModel::Decode, requests: n + 1 },
                    Some(p) => match p.next {
                        None => FetchModel::Done { items: acc + p.items, requests: n + 1 },
                        Some(u) => fetch_fold(rs.drop_first(), u, acc + p.items, n + 1),
                    },
                }
            },
        }
    }
}

/// What a whole run yields from a seed URL over recorded answers.
pub open spec fn fetch_all_model(rs: Seq<PageFetchModel>, seed: Seq<char>) -> FetchModel {
    fetch_fold(rs, seed, Seq::empty(), 0)
}

/// The feed seed URL of one account.
pub open spec fn seed_url_model(member: nat) -> Seq<char> {
    "https://giphy.com/api/v4/channels/"@ + dec_digits(member) + "/feed"@
}

/// Renders the feed seed URL of one account.
pub fn seed_url(member: u64) -> (s: String)
    ensures
        s@ == seed_url_model(member as nat),
{
    let mut s = String::from_str("https://giphy.com/api/v4/channels/");
    let d = u64_to_dec(member);
    s.append(d.as_str());
    s.append("/feed");
    proof {
        assert(s@ =~= seed_url_model(member as nat));
    }
    s
}

/// The pagination state machine: the items accumulated so far, the URL
/// the next request must go to, and the number of requests issued.
pub struct Paginator {
    pub items: Vec<Item>,
    pub url: String,
    pub requests: usize,
}

impl Paginator {
    /// Starts a run at the seed URL with nothing accumulated.
    pub fn new(seed: String) -> (p: Paginator)
        ensures
            p.items@ == Seq::<Item>::empty(),
            p.url == seed,
            p.requests == 0,
    {
        Paginator { items: Vec::new(), url: seed, requests: 0 }
    }

    /// The URL the next page request must be issued to.
    pub fn current_url(&self) -> (u: &String)
        ensures
            u == &self.url,
    {
        &self.url
    }

    /// Classifies one response status: a non-2xx answer aborts the whole
    /// run with the failing status and the URL it was fetched from.
    pub fn check_status(&self, code: u16) -> (r: Result<(), Error>)
        ensures
            match r {
                Ok(u) => is_success_status(code),
                Err(e) => !is_success_status(code) && e.model() == ErrorModel::ResponseStatus {
                    code,
                    url: self.url@,
                },
            },
    {
        if status_is_success(code) {
            Ok(())
        } else {
            Err(Error::ResponseStatus { code, url: self.url.clone() })
        }
    }

    /// Accepts one decoded page: appends its items in order, counts the
    /// request, and follows the cursor. Returns true when the absent
    /// cursor ended the chain.
    pub fn accept_page(&mut self, page: Page) -> (done: bool)
        requires
            old(self).requests < usize::MAX,
        ensures
            final(self).items@ == old(self).items@ + page.items@,
            final(self).requests == old(self).requests + 1,
            match page.next {
                Some(u) => !done && final(self).url == u,
                None => done && final(self).url == old(self).url,
            },
    {
        let mut page = page;
        self.items.append(&mut page.items);
        self.requests = self.requests + 1;
        match page.next {
            Some(u) => {
                self.url = u;
                false
            },
            None => true,
        }
    }

    /// Hands the accumulated items out once the chain has ended.
    pub fn into_items(self) -> (v: Vec<Item>)
        ensures
            v@ == self.items@,
    {
        self.items
    }
}

/// How a replayed pagination run ended.
pub enum FetchRun {
    /// The recorded answers ran out before the cursor chain ended.
    Exhausted,
    /// The complete item list, in page order.
    Done(Vec<Item>),
    /// The fatal page-fetch error; no items are handed out.
    Failed(Error),
}

/// Runs the whole pagination loop over a recorded sequence of answers,
/// one answer per request, and reports the outcome together with the
/// number of requests issued.
#[verifier::loop_isolation(false)]
pub fn fetch_all_from(seed: String, responses: Vec<PageFetch>) -> (r: (FetchRun, usize))
    ensures
        ({
            let m = fetch_all_model(models_of(responses@), seed@);
            match r.0 {
                FetchRun::Exhausted => m is Exhausted && r.1 == responses@.len(),
                FetchRun::Done(items) => m == FetchModel::Done {
                    items: items@,
                    requests: r.1 as nat,
                },
                FetchRun::Failed(e) => m == FetchModel::Failed {
                    err: e.model(),
                    requests: r.1 as nat,
                },
            }
        }),
{
    let total = responses.len();
    let ghost all = models_of(responses@);
    let mut rest = responses;
    let mut pag = Paginator::new(seed);
    proof {
        assert(all.len() == total);
    }
    loop
        invariant
            pag.requests + rest@.len() == all.len(),
            all.len() <= usize::MAX,
            fetch_all_model(all, seed@) == fetch_fold(
                models_of(rest@),
                pag.url@,
                pag.items@,
                pag.requests as nat,
            ),
        decreases rest@.len(),
    {
        if rest.len() == 0 {
            proof {
                assert(models_of(rest@) =~= Seq::<PageFetchModel>::empty());
            }
            return (FetchRun::Exhausted, pag.requests);
        }
        let ghost prev = rest@;
        let pf = rest.remove(0);
        proof {
            assert(models_of(rest@) =~= models_of(prev).drop_first());
            assert(models_of(prev)[0] == pf.model());
        }
        match pf {
            PageFetch::Transport { detail } => {
                return (FetchRun::Failed(Error::Transport { detail }), pag.requests + 1);
            },
            PageFetch::Response { status, page } => {
                match pag.check_status(status) {
                    Err(e) => {
                        return (FetchRun::Failed(e), pag.requests + 1);
                    },
                    Ok(u) => {
                        match page {
                            None => {
                                return (FetchRun::Failed(Error::Decode), pag.requests + 1);
                            },
                            Some(p) => {
                                let done = pag.accept_page(p);
                                if done {
                                    let n = pag.requests;
                                    return (FetchRun::Done(pag.into_items()), n);
                                }
                            },
                        }
                    },
                }
            },
        }
    }
}

/// An answer that carries a decoded page under a success status.
pub open spec fn is_good_response(pf: PageFetchModel) -> bool {
    match pf {
        PageFetchModel::Response { status, page } => is_success_status(status) && page is Some,
        PageFetchModel::Transport { detail } => false,
    }
}

/// An answer whose status refuses the request.
pub open spec fn is_bad_status(pf: PageFetchModel) -> bool {
    match pf {
        PageFetchModel::Response { status, page } => !is_success_status(status),
        PageFetchModel::Transport { detail } => false,
    }
}

/// The page carried by a good answer.
pub open spec fn page_of(pf: PageFetchModel) -> PageModel
    recommends
        is_good_response(pf),
{
    match pf {
        PageFetchModel::Response { status, page } => match page {
            Some(p) => p,
            None => arbitrary(),
        },
        PageFetchModel::Transport { detail } => arbitrary(),
    }
}

/// The status carried by a response answer.
pub open spec fn status_of(pf: PageFetchModel) -> u16
    recommends
        pf is Response,
{
    match pf {
        PageFetchModel::Response { status, page } => status,
        PageFetchModel::Transport { detail } => arbitrary(),
    }
}

/// All pages' items, concatenated in page order.
pub open spec fn concat_items(rs: Seq<PageFetchModel>) -> Seq<Item>
    decreases rs.len(),
{
    if rs.len() == 0 {
        Seq::empty()
    } else {
        page_of(rs[0]).items + concat_items(rs.drop_first())
    }
}

/// The URL request `k` goes to: the seed for the first request, then
/// each previous page's cursor.
pub open spec fn chain_url(rs: Seq<PageFetchModel>, seed: Seq<char>, k: int) -> Seq<char>
    decreases k,
{
    if k <= 0 {
        seed
    } else {
        chain_url(
            rs.drop_first(),
            match page_of(rs[0]).next {
                Some(u) => u,
                None => arbitrary(),
            },
            k - 1,
        )
    }
}

proof fn lemma_fold_all_pages(rs: Seq<PageFetchModel>, url: Seq<char>, acc: Seq<Item>, n: nat)
    requires
        rs.len() > 0,
        forall|k: int| 0 <= k < rs.len() ==> is_good_response(#[trigger] rs[k]),
        forall|k: int| 0 <= k < rs.len() - 1 ==> (page_of(#[trigger] rs[k]).next is Some),
        (page_of(rs[rs.len() - 1]).next is None),
    ensures
        fetch_fold(rs, url, acc, n) == (FetchModel::Done {
            items: acc + concat_items(rs),
            requests: n + rs.len(),
        }),
    decreases rs.len(),
{
    let p = page_of(rs[0]);
    if rs.len() == 1 {
        assert(concat_items(rs.drop_first()) =~= Seq::<Item>::empty());
        assert(acc + (p.items + Seq::<Item>::empty()) =~= acc + p.items);
    } else {
        let rest = rs.drop_first();
        assert(forall|k: int| 0 <= k < rest.len() ==> rest[k] == rs[k + 1]);
        let next = match p.next {
            Some(u) => u,
            None => arbitrary(),
        };
        lemma_fold_all_pages(rest, next, acc + p.items, n + 1);
        assert((acc + p.items) + concat_items(rest) =~= acc + (p.items + concat_items(rest)));
    }
}

/// Pagination law: when every answer is a decoded page under a success
/// status and only the last page ends the cursor chain, the run
/// succeeds with the concatenation of all pages' items in page order,
/// after exactly one request per page.
pub proof fn lemma_fetch_all_pages(rs: Seq<PageFetchModel>, seed: Seq<char>)
    requires
        rs.len() > 0,
        forall|k: int| 0 <= k < rs.len() ==> is_good_response(#[trigger] rs[k]),
        forall|k: int| 0 <= k < rs.len() - 1 ==> (page_of(#[trigger] rs[k]).next is Some),
        (page_of(rs[rs.len() - 1]).next is None),
    ensures
        fetch_all_model(rs, seed) == (FetchModel::Done {
            items: concat_items(rs),
            requests: rs.len(),
        }),
{
    lemma_fold_all_pages(rs, seed, Seq::empty(), 0);
    assert(Seq::<Item>::empty() + concat_items(rs) =~= concat_items(rs));
}

proof fn lemma_fold_stops_on_bad_status(
    rs: Seq<PageFetchModel>,
    url: Seq<char>,
    acc: Seq<Item>,
    n: nat,
    k: int,
)
    requires
        0 <= k < rs.len(),
        forall|j: int| 0 <= j < k ==> is_good_response(#[trigger] rs[j]) && (page_of(
            rs[j],
        ).next is Some),
        is_bad_status(rs[k]),
    ensures
        fetch_fold(rs, url, acc, n) == (FetchModel::Failed {
            err: ErrorModel::ResponseStatus {
                code: status_of(rs[k]),
                url: chain_url(rs, url, k),
            },
            requests: (n + k + 1) as nat,
        }),
    decreases k,
{
    if k == 0 {
    } else {
        let rest = rs.drop_first();
        assert(forall|j: int| 0 <= j < rest.len() ==> rest[j] == rs[j + 1]);
        let p = page_of(rs[0]);
        let next = match p.next {
            Some(u) => u,
            None => arbitrary(),
        };
        lemma_fold_stops_on_bad_status(rest, next, acc + p.items, n + 1, k - 1);
    }
}

/// Pagination law: the first non-2xx answer ends the run at once with
/// the failing status and the URL it was fetched from; exactly the
/// requests up to and including it are issued, whatever answers would
/// have followed.
pub proof fn lemma_fetch_stops_on_bad_status(rs: Seq<PageFetchModel>, seed: Seq<char>, k: int)
    requires
        0 <= k < rs.len(),
        forall|j: int| 0 <= j < k ==> is_good_response(#[trigger] rs[j]) && (page_of(
            rs[j],
        ).next is Some),
        is_bad_status(rs[k]),
    ensures
        fetch_all_model(rs, seed) == (FetchModel::Failed {
            err: ErrorModel::ResponseStatus {
                code: status_of(rs[k]),
                url: chain_url(rs, seed, k),
            },
            requests: (k + 1) as nat,
        }),
{
    lemma_fold_stops_on_bad_status(rs, seed, Seq::empty(), 0, k);
}

} // verus!
