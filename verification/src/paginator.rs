//! Fetching a listing page by page.
//!
//! A [`Paginator`] stands for a fetch that has one request due. The caller
//! sends that request and hands back what came of it; the paginator then
//! either has the next request due, or hands over the whole batch, or
//! reports the failure. A batch is handed over only when the fetch has come
//! to its end, so a fetch that fails leaves nothing behind.

use vstd::prelude::*;
use vstd::string::*;
use vstd::arithmetic::div_mod::{lemma_div_is_ordered, lemma_div_multiples_vanish};
use crate::http::{bearer_authorization, bearer_value, header_text_allowed};
use crate::saved_item::{Page, SavedItem};
use crate::text::{decimal, decimal_string};

verus! {

/// The count of items at which the fetch of a saved listing stops asking for
/// pages.
pub const FETCH_CAP: usize = 1000;

/// The number of items that the fetch of a saved listing asks for per page.
pub const PAGE_SIZE: usize = 100;

/// Why a fetch gave no batch.
#[derive(Debug, Clone, Copy, PartialEq, Eq)]
pub enum FetchError {
    /// The token cannot be sent in a header; no request was made.
    InvalidToken,
    /// A page request failed, in transport or because its body was not a page.
    PageFailed,
}

/// What came of one page request.
#[derive(Debug, Clone, PartialEq)]
pub enum PageEvent {
    /// The page arrived.
    Arrived(Page),
    /// The request failed, or what arrived was not a page.
    Failed,
}

/// One page request: a `GET` of `url` with the two headers.
#[derive(Debug, Clone, PartialEq)]
pub struct PageRequest {
    pub url: String,
    pub user_agent: String,
    pub authorization: String,
}

/// How far a fetch has come: the items gathered so far, in order, and the
/// cursor that the next request continues from.
pub struct Progress {
    pub gathered: Seq<SavedItem>,
    pub cursor: Option<String>,
}

/// Where a fetch stands after an event.
pub enum Outcome {
    /// Another request is due.
    Continue(Progress),
    /// The fetch is complete, with this batch.
    Done(Seq<SavedItem>),
    /// The fetch failed; nothing of it is kept.
    Failed(FetchError),
}

/// The user agent that listing requests carry.
pub open spec fn listing_user_agent() -> Seq<char> {
    "taskmaster/0.2"@
}

/// The address of one page of a user's saved listing.
pub open spec fn page_url(username: Seq<char>, page_size: nat, cursor: Option<String>) -> Seq<
    char,
> {
    let first = "https://oauth.reddit.com/user/"@ + username + "/saved?limit="@ + decimal(
        page_size,
    );
    match cursor {
        Some(after) => first + "&after="@ + after@,
        None => first,
    }
}

/// A fetch that has not asked for anything yet.
pub open spec fn fresh() -> Progress {
    Progress { gathered: Seq::empty(), cursor: None }
}

/// One step of a fetch. A page's items are appended in the order given. The
/// fetch then ends if the page names no next cursor or the count has reached
/// the cap; the cap is looked at between pages only.
pub open spec fn step(progress: Progress, cap: nat, event: PageEvent) -> Outcome {
    match event {
        PageEvent::Failed => Outcome::Failed(FetchError::PageFailed),
        PageEvent::Arrived(page) => {
            let gathered = progress.gathered + page.children@;
            if page.after is None || gathered.len() >= cap {
                Outcome::Done(gathered)
            } else {
                Outcome::Continue(Progress { gathered, cursor: page.after })
            }
        },
    }
}

/// Where a fetch stands after its requests were answered by `events` in
/// turn. Events after the one that ends the fetch are never asked for.
pub open spec fn run(progress: Progress, cap: nat, events: Seq<PageEvent>) -> Outcome
    decreases events.len(),
{
    if events.len() == 0 {
        Outcome::Continue(progress)
    } else {
        match step(progress, cap, events[0]) {
            Outcome::Continue(next) => run(next, cap, events.drop_first()),
            ended => ended,
        }
    }
}

/// The number of requests that `events` answered before the fetch ended or
/// the events ran out.
pub open spec fn requests_answered(progress: Progress, cap: nat, events: Seq<PageEvent>) -> nat
    decreases events.len(),
{
    if events.len() == 0 {
        0
    } else {
        match step(progress, cap, events[0]) {
            Outcome::Continue(next) => 1 + requests_answered(next, cap, events.drop_first()),
            _ => 1,
        }
    }
}

/// The items of the pages among `events`, page after page.
pub open spec fn arrived_items(events: Seq<PageEvent>) -> Seq<SavedItem>
    decreases events.len(),
{
    if events.len() == 0 {
        Seq::empty()
    } else {
        match events[0] {
            PageEvent::Arrived(page) => page.children@ + arrived_items(events.drop_first()),
            PageEvent::Failed => arrived_items(events.drop_first()),
        }
    }
}

/// The number of items that the event carries.
pub open spec fn items_in(event: PageEvent) -> nat {
    match event {
        PageEvent::Arrived(page) => page.children@.len(),
        PageEvent::Failed => 0,
    }
}

/// `a` divided by `b`, rounded up.
pub open spec fn ceil_div(a: nat, b: nat) -> nat {
    ((a + b - 1) / (b as int)) as nat
}

/// The batch of a fetch is its pages' items in the order of the requests,
/// each page's items in the order the server gave them: nothing is moved,
/// dropped or merged.
pub proof fn lemma_batch_is_pages_in_order(progress: Progress, cap: nat, events: Seq<PageEvent>)
    ensures
        requests_answered(progress, cap, events) <= events.len(),
        match run(progress, cap, events) {
            Outcome::Done(batch) => batch == progress.gathered + arrived_items(
                events.take(requests_answered(progress, cap, events) as int),
            ),
            Outcome::Continue(reached) => reached.gathered == progress.gathered + arrived_items(
                events,
            ) && requests_answered(progress, cap, events) == events.len(),
            Outcome::Failed(error) => error == FetchError::PageFailed,
        },
    decreases events.len(),
{
    if events.len() == 0 {
        assert(progress.gathered + arrived_items(events) =~= progress.gathered);
    } else {
        let rest = events.drop_first();
        let k = requests_answered(progress, cap, events);
        match step(progress, cap, events[0]) {
            Outcome::Continue(next) => {
                lemma_batch_is_pages_in_order(next, cap, rest);
                let k_rest = requests_answered(next, cap, rest);
                assert(events.take(k as int).drop_first() =~= rest.take(k_rest as int));
                assert(events.take(k as int)[0] == events[0]);
                match run(next, cap, rest) {
                    Outcome::Done(batch) => {
                        assert(batch =~= progress.gathered + arrived_items(events.take(k as int)));
                    },
                    Outcome::Continue(reached) => {
                        assert(reached.gathered =~= progress.gathered + arrived_items(events));
                    },
                    Outcome::Failed(_) => {},
                }
            },
            Outcome::Done(batch) => {
                assert(events.take(1).drop_first() =~= Seq::<PageEvent>::empty());
                assert(events.take(1)[0] == events[0]);
                assert(arrived_items(events.take(1).drop_first()) =~= Seq::<SavedItem>::empty());
                assert(batch =~= progress.gathered + arrived_items(events.take(1)));
            },
            Outcome::Failed(_) => {},
        }
    }
}

/// A fetch goes on only while the server names a next page and the count is
/// below the cap: every answer before the last one of a completed fetch was a
/// page with a cursor that left the count below the cap, and the last one was
/// a page without a cursor or one that brought the count to the cap. So a
/// fetch ends with the first page that exhausts the listing, whatever the
/// count, and goes at most one page beyond the cap.
pub proof fn lemma_fetch_stops_in_time(progress: Progress, cap: nat, events: Seq<PageEvent>)
    requires
        run(progress, cap, events) is Done,
    ensures
        1 <= requests_answered(progress, cap, events) <= events.len(),
        forall|j: int|
            0 <= j < requests_answered(progress, cap, events) - 1 ==> {
                &&& (#[trigger] events[j]) matches PageEvent::Arrived(page)
                &&& page.after is Some
                &&& progress.gathered.len() + arrived_items(events.take(j + 1)).len() < cap
            },
        ({
            let last = events[requests_answered(progress, cap, events) - 1];
            &&& last matches PageEvent::Arrived(page)
            &&& (page.after is None || run(progress, cap, events)->Done_0.len() >= cap)
        }),
    decreases events.len(),
{
    let rest = events.drop_first();
    let k = requests_answered(progress, cap, events);
    match step(progress, cap, events[0]) {
        Outcome::Continue(next) => {
            lemma_fetch_stops_in_time(next, cap, rest);
            let k_rest = requests_answered(next, cap, rest);
            assert forall|j: int| 0 <= j < k - 1 implies {
                &&& (#[trigger] events[j]) matches PageEvent::Arrived(page)
                &&& page.after is Some
                &&& progress.gathered.len() + arrived_items(events.take(j + 1)).len() < cap
            } by {
                assert(events.take(j + 1).drop_first() =~= rest.take(j));
                assert(events.take(j + 1)[0] == events[0]);
                if j == 0 {
                    assert(arrived_items(rest.take(0)) =~= Seq::<SavedItem>::empty());
                } else {
                    assert(events[j] == rest[j - 1]);
                }
            }
            assert(events[k - 1] == rest[k_rest - 1]);
        },
        Outcome::Done(_) => {},
        Outcome::Failed(_) => {},
    }
}

/// Where every page that is followed by another request is a full one, a
/// completed fetch makes no more than `cap / page_size`, rounded up, and one
/// requests.
pub proof fn lemma_request_bound(cap: nat, page_size: nat, events: Seq<PageEvent>)
    requires
        page_size > 0,
        run(fresh(), cap, events) is Done,
        forall|j: int|
            0 <= j < requests_answered(fresh(), cap, events) - 1 ==> items_in(
                #[trigger] events[j],
            ) >= page_size,
    ensures
        requests_answered(fresh(), cap, events) <= ceil_div(cap, page_size) + 1,
{
    let k = requests_answered(fresh(), cap, events);
    lemma_fetch_stops_in_time(fresh(), cap, events);
    if k >= 2 {
        lemma_full_pages_add_up(events.take(k - 1), page_size);
        let before_last = arrived_items(events.take(k - 1)).len();
        assert(before_last < cap) by {
            assert(events[k - 2] is Arrived);
        }
        let full = (k - 1) * page_size;
        assert(full <= cap + page_size - 1);
        assert(full / (page_size as int) == k - 1) by {
            lemma_div_multiples_vanish(k - 1, page_size as int);
            assert(full == page_size * (k - 1)) by (nonlinear_arith)
                requires
                    full == (k - 1) * page_size,
            ;
        }
        lemma_div_is_ordered(full as int, cap + page_size - 1, page_size as int);
    }
}

/// Pages that each hold `page_size` items or more hold at least that many
/// times their number together.
pub proof fn lemma_full_pages_add_up(events: Seq<PageEvent>, page_size: nat)
    requires
        forall|j: int| 0 <= j < events.len() ==> items_in(#[trigger] events[j]) >= page_size,
    ensures
        arrived_items(events).len() >= events.len() * page_size,
    decreases events.len(),
{
    if events.len() > 0 {
        let rest = events.drop_first();
        assert forall|j: int| 0 <= j < rest.len() implies items_in(#[trigger] rest[j])
            >= page_size by {
            assert(rest[j] == events[j + 1]);
        }
        lemma_full_pages_add_up(rest, page_size);
        assert(items_in(events[0]) >= page_size);
        assert(events.len() * page_size == rest.len() * page_size + page_size)
            by (nonlinear_arith)
            requires
                events.len() == rest.len() + 1,
        ;
    } else {
        assert(events.len() * page_size == 0) by (nonlinear_arith)
            requires
                events.len() == 0,
        ;
    }
}

/// `started` is the beginning of a fetch of `username`'s listing with this
/// token: a fetch that has asked for nothing yet, or the refusal of a token
/// that no header can carry.
pub open spec fn begins_fetch(
    started: Result<Paginator, FetchError>,
    token: Seq<char>,
    username: Seq<char>,
    cap: nat,
    page_size: nat,
) -> bool {
    match started {
        Ok(paginator) => {
            &&& header_text_allowed(bearer_value(token))
            &&& paginator.progress() == fresh()
            &&& paginator.cap() == cap
            &&& paginator.page_size() == page_size
            &&& paginator.account() == username
            &&& paginator.authorization() == bearer_value(token)
        },
        Err(error) => error == FetchError::InvalidToken && !header_text_allowed(
            bearer_value(token),
        ),
    }
}

/// A fetch with one request due.
#[derive(Debug)]
pub struct Paginator {
    username: String,
    authorization: String,
    cap: usize,
    page_size: usize,
    items: Vec<SavedItem>,
    cursor: Option<String>,
}

/// What a fetch has become after an event.
#[derive(Debug)]
pub enum FetchStep {
    /// Another request is due.
    Continue(Paginator),
    /// The fetch is complete, with this batch.
    Done(Vec<SavedItem>),
    /// The fetch failed; nothing of it is kept.
    Failed(FetchError),
}

impl Paginator {
    /// How far the fetch has come.
    pub closed spec fn progress(&self) -> Progress {
        Progress { gathered: self.items@, cursor: self.cursor }
    }

    /// The count at which the fetch stops asking.
    pub closed spec fn cap(&self) -> nat {
        self.cap as nat
    }

    /// The number of items asked for per page.
    pub closed spec fn page_size(&self) -> nat {
        self.page_size as nat
    }

    /// The user whose listing is fetched.
    pub closed spec fn account(&self) -> Seq<char> {
        self.username@
    }

    /// The value of the `Authorization` header of every request.
    pub closed spec fn authorization(&self) -> Seq<char> {
        self.authorization@
    }

    /// The fetch is that of `other`, wherever it has come to.
    pub open spec fn same_fetch(&self, other: &Paginator) -> bool {
        &&& self.cap() == other.cap()
        &&& self.page_size() == other.page_size()
        &&& self.account() == other.account()
        &&& self.authorization() == other.authorization()
    }

    /// Begins a fetch of `username`'s listing. Nothing is asked for yet. A
    /// token that no header can carry is refused here, before any request.
    pub fn start(access_token: &str, username: &str, cap: usize, page_size: usize) -> (started:
        Result<Paginator, FetchError>)
        ensures
            begins_fetch(started, access_token@, username@, cap as nat, page_size as nat),
    {
        match bearer_authorization(access_token) {
            Some(authorization) => {
                let paginator = Paginator {
                    username: String::from_str(username),
                    authorization,
                    cap,
                    page_size,
                    items: Vec::new(),
                    cursor: None,
                };
                assert(paginator.progress().gathered =~= fresh().gathered);
                Ok(paginator)
            },
            None => Err(FetchError::InvalidToken),
        }
    }

    /// The request that is due.
    pub fn request(&self) -> (request: PageRequest)
        ensures
            request.url@ == page_url(self.account(), self.page_size(), self.progress().cursor),
            request.user_agent@ == listing_user_agent(),
            request.authorization@ == self.authorization(),
    {
        let mut url = String::from_str("https://oauth.reddit.com/user/");
        url.append(self.username.as_str());
        url.append("/saved?limit=");
        let limit = decimal_string(self.page_size);
        url.append(limit.as_str());
        match &self.cursor {
            Some(after) => {
                url.append("&after=");
                url.append(after.as_str());
            },
            None => {},
        }
        PageRequest {
            url,
            user_agent: String::from_str("taskmaster/0.2"),
            authorization: self.authorization.clone(),
        }
    }

    /// Takes what came of the request that was due.
    pub fn advance(self, event: PageEvent) -> (next: FetchStep)
        ensures
            match step(self.progress(), self.cap(), event) {
                Outcome::Continue(reached) => next matches FetchStep::Continue(paginator)
                    && paginator.progress() == reached && paginator.same_fetch(&self),
                Outcome::Done(batch) => next matches FetchStep::Done(items) && items@ == batch,
                Outcome::Failed(error) => next == FetchStep::Failed(error),
            },
    {
        match event {
            PageEvent::Failed => FetchStep::Failed(FetchError::PageFailed),
            PageEvent::Arrived(page) => {
                let Paginator { username, authorization, cap, page_size, items, cursor } = self;
                let Page { children, after } = page;
                let mut items = items;
                let mut children = children;
                items.append(&mut children);
                if after.is_none() || items.len() >= cap {
                    FetchStep::Done(items)
                } else {
                    FetchStep::Continue(
                        Paginator { username, authorization, cap, page_size, items, cursor: after },
                    )
                }
            },
        }
    }
}

} // verus!
