//! Removing every item of a batch from the saved listing, one request at a
//! time.
//!
//! A [`BulkMutator`] stands for a removal that has one item's attempt due.
//! The caller reports progress where a message is given, sends the request
//! where there is one, waits out the delay, and hands back the reply; the
//! mutator notes the outcome and moves to the next item. No outcome ends the
//! run: it ends when every item has had its attempt.

use vstd::prelude::*;
use vstd::string::*;
use crate::http::{
    bearer_authorization,
    bearer_value,
    header_text_allowed,
    is_success_status,
    status_is_success,
    HttpReply,
};
use crate::saved_item::SavedItem;
use crate::text::{decimal, decimal_string};

verus! {

/// Why one item's removal failed.
#[derive(Debug, Clone, Copy, PartialEq, Eq)]
pub enum UnsaveError {
    /// The token cannot be sent in a header; no request was made.
    InvalidToken,
    /// The item has no name to address the removal to; no request was made.
    MissingName,
    /// The request failed in transport.
    Transport,
    /// The server answered with a status outside the 2xx class.
    Rejected { status: u16 },
}

/// One removal request: a `POST` to `url` with the two headers and a form
/// body of the single field `id`.
#[derive(Debug, Clone, PartialEq)]
pub struct UnsaveRequest {
    pub url: String,
    pub user_agent: String,
    pub authorization: String,
    pub id: String,
}

/// What is due for one item.
#[derive(Debug, PartialEq)]
pub struct Attempt {
    /// The progress line to show before the attempt, on every tenth item.
    pub progress: Option<String>,
    /// The request to send, or why there is none to send.
    pub request: Result<UnsaveRequest, UnsaveError>,
    /// How long to wait after the attempt, whatever came of it.
    pub delay_ms: u64,
}

/// The outcome of every attempt of a run, in batch order.
#[derive(Debug, PartialEq)]
pub struct UnsaveReport {
    pub outcomes: Vec<Result<(), UnsaveError>>,
}

/// The wait after each attempt, in milliseconds.
pub const UNSAVE_DELAY_MS: u64 = 100;

/// The number of items between two progress lines.
pub const PROGRESS_INTERVAL: usize = 10;

/// The address that removals are sent to.
pub open spec fn unsave_endpoint() -> Seq<char> {
    "https://oauth.reddit.com/api/unsave"@
}

/// The user agent that removal requests carry.
pub open spec fn unsave_user_agent() -> Seq<char> {
    "taskmaster/0.2"@
}

/// The progress line shown when `processed` of `total` items are behind.
pub open spec fn progress_text(processed: nat, total: nat) -> Seq<char> {
    decimal(processed) + "/"@ + decimal(total) + " items processed"@
}

/// The progress line due before the item at `position`, if any: one on every
/// tenth item, the first included.
pub open spec fn progress_at(position: nat, total: nat) -> Option<Seq<char>> {
    if position % (PROGRESS_INTERVAL as nat) == 0 {
        Some(progress_text(position, total))
    } else {
        None
    }
}

/// Why no request can be made for the item of this name, if that is so.
pub open spec fn unsendable(token: Seq<char>, name: Seq<char>) -> Option<UnsaveError> {
    if !header_text_allowed(bearer_value(token)) {
        Some(UnsaveError::InvalidToken)
    } else if name.len() == 0 {
        Some(UnsaveError::MissingName)
    } else {
        None
    }
}

/// `request` is what removes the item of this name with this token: the
/// request to send, or the reason why none can be made.
pub open spec fn removes(
    request: Result<UnsaveRequest, UnsaveError>,
    token: Seq<char>,
    name: Seq<char>,
) -> bool {
    match request {
        Ok(request) => {
            &&& unsendable(token, name) is None
            &&& request.url@ == unsave_endpoint()
            &&& request.user_agent@ == unsave_user_agent()
            &&& request.authorization@ == bearer_value(token)
            &&& request.id@ == name
        },
        Err(error) => unsendable(token, name) == Some(error),
    }
}

/// The outcome of one item's attempt. Where no request could be made, the
/// reply plays no part.
pub open spec fn attempt_outcome(token: Seq<char>, name: Seq<char>, reply: HttpReply) -> Result<
    (),
    UnsaveError,
> {
    match unsendable(token, name) {
        Some(error) => Err(error),
        None => match reply {
            HttpReply::Failed => Err(UnsaveError::Transport),
            HttpReply::Received { status, body } => if is_success_status(status) {
                Ok(())
            } else {
                Err(UnsaveError::Rejected { status })
            },
        },
    }
}

/// The outcomes noted once `replies` have been handed back in turn, starting
/// from `noted`. Replies beyond the last item are never asked for.
pub open spec fn outcomes_after(
    token: Seq<char>,
    items: Seq<SavedItem>,
    noted: Seq<Result<(), UnsaveError>>,
    replies: Seq<HttpReply>,
) -> Seq<Result<(), UnsaveError>>
    decreases replies.len(),
{
    if replies.len() == 0 || noted.len() >= items.len() {
        noted
    } else {
        outcomes_after(
            token,
            items,
            noted.push(attempt_outcome(token, items[noted.len() as int].name@, replies[0])),
            replies.drop_first(),
        )
    }
}

/// The sum of the waits of a run over a batch, in milliseconds.
pub open spec fn scheduled_delay_ms(items: Seq<SavedItem>) -> nat {
    items.len() * (UNSAVE_DELAY_MS as nat)
}

/// The number of failures among `outcomes`.
pub open spec fn failure_count(outcomes: Seq<Result<(), UnsaveError>>) -> nat
    decreases outcomes.len(),
{
    if outcomes.len() == 0 {
        0
    } else if outcomes.last() is Err {
        failure_count(outcomes.drop_last()) + 1
    } else {
        failure_count(outcomes.drop_last())
    }
}

/// A run makes one attempt for every item, in batch order, whatever the
/// replies are: once as many replies as items have come back, each item has
/// its outcome at its own place, decided by its own reply alone, and with
/// fewer replies the run has noted exactly those. The waits of a run add up
/// to the delay times the number of items, which is no less than the delay
/// times one less.
pub proof fn lemma_every_item_is_attempted_once(
    token: Seq<char>,
    items: Seq<SavedItem>,
    replies: Seq<HttpReply>,
)
    ensures
        outcomes_after(token, items, Seq::empty(), replies).len() == if replies.len()
            <= items.len() {
            replies.len()
        } else {
            items.len()
        },
        forall|i: int|
            0 <= i < outcomes_after(token, items, Seq::empty(), replies).len()
                ==> #[trigger] outcomes_after(token, items, Seq::empty(), replies)[i]
                == attempt_outcome(token, items[i].name@, replies[i]),
        scheduled_delay_ms(items) >= (items.len() - 1) * UNSAVE_DELAY_MS,
{
    lemma_outcomes_extend(token, items, Seq::empty(), replies);
    assert(scheduled_delay_ms(items) >= (items.len() - 1) * UNSAVE_DELAY_MS) by (nonlinear_arith)
        requires
            scheduled_delay_ms(items) == items.len() * (UNSAVE_DELAY_MS as nat),
    ;
}

/// Handing back more replies keeps what was noted and adds one outcome per
/// reply, each decided by the item at its place, until every item has one.
pub proof fn lemma_outcomes_extend(
    token: Seq<char>,
    items: Seq<SavedItem>,
    noted: Seq<Result<(), UnsaveError>>,
    replies: Seq<HttpReply>,
)
    requires
        noted.len() <= items.len(),
    ensures
        outcomes_after(token, items, noted, replies).len() == if noted.len() + replies.len()
            <= items.len() {
            noted.len() + replies.len()
        } else {
            items.len()
        },
        forall|i: int|
            0 <= i < noted.len() ==> #[trigger] outcomes_after(token, items, noted, replies)[i]
                == noted[i],
        forall|i: int|
            noted.len() <= i < outcomes_after(token, items, noted, replies).len()
                ==> #[trigger] outcomes_after(token, items, noted, replies)[i] == attempt_outcome(
                token,
                items[i].name@,
                replies[i - noted.len()],
            ),
    decreases replies.len(),
{
    if replies.len() == 0 || noted.len() >= items.len() {
    } else {
        let next = noted.push(attempt_outcome(token, items[noted.len() as int].name@, replies[0]));
        let rest = replies.drop_first();
        lemma_outcomes_extend(token, items, next, rest);
        let all = outcomes_after(token, items, noted, replies);
        assert(all == outcomes_after(token, items, next, rest));
        assert forall|i: int| 0 <= i < noted.len() implies #[trigger] all[i] == noted[i] by {
            assert(next[i] == noted[i]);
        }
        assert forall|i: int| noted.len() <= i < all.len() implies #[trigger] all[i]
            == attempt_outcome(token, items[i].name@, replies[i - noted.len()]) by {
            if i == noted.len() {
                assert(all[i] == next[i]);
            } else {
                assert(rest[i - next.len()] == replies[i - noted.len()]);
            }
        }
    }
}

/// A removal run with one item's attempt due.
#[derive(Debug)]
pub struct BulkMutator {
    access_token: String,
    items: Vec<SavedItem>,
    outcomes: Vec<Result<(), UnsaveError>>,
}

/// What a run has become after an attempt.
#[derive(Debug)]
pub enum UnsaveStep {
    /// The next item's attempt is due.
    Next(BulkMutator),
    /// Every item has had its attempt.
    Done(UnsaveReport),
}

impl UnsaveStep {
    /// The step is the beginning of a run over `items` with this token: the
    /// first item's attempt is due, or the batch is empty and the run done.
    pub open spec fn begins(&self, token: Seq<char>, items: Seq<SavedItem>) -> bool {
        match *self {
            UnsaveStep::Next(mutator) => {
                &&& items.len() > 0
                &&& mutator.token() == token
                &&& mutator.batch() == items
                &&& mutator.noted() == Seq::<Result<(), UnsaveError>>::empty()
            },
            UnsaveStep::Done(report) => {
                &&& items.len() == 0
                &&& report.outcomes@ == Seq::<Result<(), UnsaveError>>::empty()
            },
        }
    }
}

impl UnsaveReport {
    /// The number of attempts that failed.
    pub fn failed(&self) -> (count: usize)
        ensures
            count == failure_count(self.outcomes@),
    {
        let mut count: usize = 0;
        let mut i: usize = 0;
        while i < self.outcomes.len()
            invariant
                i <= self.outcomes.len(),
                count <= i,
                count == failure_count(self.outcomes@.take(i as int)),
            decreases self.outcomes.len() - i,
        {
            proof {
                assert(self.outcomes@.take(i as int + 1).drop_last() =~= self.outcomes@.take(
                    i as int,
                ));
            }
            if self.outcomes[i].is_err() {
                count = count + 1;
            }
            i = i + 1;
        }
        assert(self.outcomes@.take(i as int) =~= self.outcomes@);
        count
    }
}

impl BulkMutator {
    #[verifier::type_invariant]
    spec fn attempt_is_due(&self) -> bool {
        self.outcomes@.len() < self.items@.len()
    }

    /// The token that the requests present.
    pub closed spec fn token(&self) -> Seq<char> {
        self.access_token@
    }

    /// The batch that the run goes over.
    pub closed spec fn batch(&self) -> Seq<SavedItem> {
        self.items@
    }

    /// The outcomes noted so far: those of the items before the one that is
    /// due.
    pub closed spec fn noted(&self) -> Seq<Result<(), UnsaveError>> {
        self.outcomes@
    }

    /// The item whose attempt is due.
    pub open spec fn due(&self) -> SavedItem {
        self.batch()[self.noted().len() as int]
    }

    /// Begins a run over `items`. An empty batch is done at once.
    pub fn start(access_token: &str, items: Vec<SavedItem>) -> (begun: UnsaveStep)
        ensures
            begun.begins(access_token@, items@),
    {
        if items.len() == 0 {
            UnsaveStep::Done(UnsaveReport { outcomes: Vec::new() })
        } else {
            UnsaveStep::Next(
                BulkMutator {
                    access_token: String::from_str(access_token),
                    items,
                    outcomes: Vec::new(),
                },
            )
        }
    }

    /// The name of the item whose attempt is due.
    pub fn due_name(&self) -> (name: &str)
        ensures
            self.noted().len() < self.batch().len(),
            name@ == self.due().name@,
    {
        proof {
            use_type_invariant(self);
        }
        self.items[self.outcomes.len()].name.as_str()
    }

    /// What is due for the item at hand.
    pub fn attempt(&self) -> (attempt: Attempt)
        ensures
            self.noted().len() < self.batch().len(),
            attempt.progress.deep_view() == progress_at(self.noted().len(), self.batch().len()),
            removes(attempt.request, self.token(), self.due().name@),
            attempt.delay_ms == UNSAVE_DELAY_MS,
    {
        proof {
            use_type_invariant(self);
        }
        let position = self.outcomes.len();
        let progress = if position % PROGRESS_INTERVAL == 0 {
            let mut line = decimal_string(position);
            line.append("/");
            let total = decimal_string(self.items.len());
            line.append(total.as_str());
            line.append(" items processed");
            Some(line)
        } else {
            None
        };
        let request = unsave_request(
            self.access_token.as_str(),
            self.items[position].name.as_str(),
        );
        Attempt { progress, request, delay_ms: UNSAVE_DELAY_MS }
    }

    /// Notes the outcome of the attempt that was due and moves on. The
    /// outcome is handed back beside the next step, for the caller to log.
    /// For an attempt that had no request to send, `reply` is not looked at.
    pub fn record(self, reply: &HttpReply) -> (recorded: (Result<(), UnsaveError>, UnsaveStep))
        ensures
            self.noted().len() < self.batch().len(),
            recorded.0 == attempt_outcome(self.token(), self.due().name@, *reply),
            ({
                let noted = self.noted().push(recorded.0);
                match recorded.1 {
                    UnsaveStep::Next(mutator) => {
                        &&& noted.len() < self.batch().len()
                        &&& mutator.token() == self.token()
                        &&& mutator.batch() == self.batch()
                        &&& mutator.noted() == noted
                    },
                    UnsaveStep::Done(report) => {
                        &&& noted.len() == self.batch().len()
                        &&& report.outcomes@ == noted
                    },
                }
            }),
    {
        proof {
            use_type_invariant(&self);
        }
        let BulkMutator { access_token, items, outcomes } = self;
        let mut outcomes = outcomes;
        let position = outcomes.len();
        let outcome = unsave_outcome(access_token.as_str(), items[position].name.as_str(), reply);
        outcomes.push(outcome);
        if outcomes.len() == items.len() {
            (outcome, UnsaveStep::Done(UnsaveReport { outcomes }))
        } else {
            (outcome, UnsaveStep::Next(BulkMutator { access_token, items, outcomes }))
        }
    }
}

/// Builds the removal request for the item of this name, or says why none
/// can be made.
pub fn unsave_request(access_token: &str, item_name: &str) -> (request: Result<
    UnsaveRequest,
    UnsaveError,
>)
    ensures
        removes(request, access_token@, item_name@),
{
    match bearer_authorization(access_token) {
        None => Err(UnsaveError::InvalidToken),
        Some(authorization) => {
            if item_name.is_empty() {
                Err(UnsaveError::MissingName)
            } else {
                Ok(
                    UnsaveRequest {
                        url: String::from_str("https://oauth.reddit.com/api/unsave"),
                        user_agent: String::from_str("taskmaster/0.2"),
                        authorization,
                        id: String::from_str(item_name),
                    },
                )
            }
        },
    }
}

/// Decides the outcome of one item's attempt from what came back.
pub fn unsave_outcome(access_token: &str, item_name: &str, reply: &HttpReply) -> (outcome: Result<
    (),
    UnsaveError,
>)
    ensures
        outcome == attempt_outcome(access_token@, item_name@, *reply),
{
    if bearer_authorization(access_token).is_none() {
        Err(UnsaveError::InvalidToken)
    } else if item_name.is_empty() {
        Err(UnsaveError::MissingName)
    } else {
        match reply {
            HttpReply::Failed => Err(UnsaveError::Transport),
            HttpReply::Received { status, body } => {
                if status_is_success(*status) {
                    Ok(())
                } else {
                    Err(UnsaveError::Rejected { status: *status })
                }
            },
        }
    }
}

} // verus!
