//! The run as a whole: authenticate, fetch, write down, ask, and remove or
//! skip.
//!
//! A [`Workflow`] is told what happened and answers with what to do next.
//! The caller does what it is told and reports the result as the next event.
//! An event that does not belong to the state the run is in changes nothing.

use vstd::prelude::*;
use vstd::string::*;
use crate::auth::{
    token_from_reply,
    token_of_reply,
    token_request,
    AuthError,
    Credentials,
    TokenRequest,
};
use crate::http::{bearer_value, header_text_allowed, HttpReply};
use crate::paginator::{begins_fetch, FetchError, Paginator, FETCH_CAP, PAGE_SIZE};
use crate::persist::{
    file_content,
    file_output,
    lemma_urls_of_concatenation,
    permalink_count,
    permalink_urls,
    FileOutput,
};
use crate::prompt::{answer_in, question_line, question_text, read_answer, retry_notice};
use crate::saved_item::SavedItem;
use crate::unsave::{
    attempt_outcome,
    lemma_every_item_is_attempted_once,
    outcomes_after,
    BulkMutator,
    UnsaveReport,
    UnsaveStep,
};

verus! {

/// The states of a run.
#[derive(Debug, Clone, Copy, PartialEq, Eq)]
pub enum WorkflowState {
    Idle,
    Authenticating,
    Paginating,
    Persisting,
    AwaitingConfirmation,
    Mutating,
    Skipped,
    Done,
    Failed,
}

/// Why a run was given up.
#[derive(Debug, Clone, Copy, PartialEq, Eq)]
pub enum WorkflowError {
    /// No token was obtained.
    Auth(AuthError),
    /// No batch was retrieved.
    Fetch(FetchError),
    /// The file could not be written.
    Persist,
}

/// What the caller reports to a run.
#[derive(Debug)]
pub enum WorkflowEvent {
    /// The run is asked to begin.
    Invoked,
    /// What came back from the token endpoint.
    TokenReply(HttpReply),
    /// The fetch came to its end with this batch.
    BatchRetrieved(Vec<SavedItem>),
    /// The fetch failed.
    FetchFailed(FetchError),
    /// The file was written.
    FileWritten,
    /// The file could not be written.
    WriteFailed,
    /// The line that the user typed in answer to the question.
    Answer(String),
    /// The user has been told that nothing is removed.
    Acknowledged,
    /// The removal went over the whole batch.
    MutationCompleted(UnsaveReport),
}

/// What a run tells the caller to do.
#[derive(Debug)]
pub enum WorkflowAction {
    /// Send the token request and report the reply.
    Authenticate(TokenRequest),
    /// Carry the fetch to its end and report the batch or the failure.
    Fetch(Paginator),
    /// Write the file and report whether that worked.
    Write(FileOutput),
    /// Show the notice, if any, put the question, and report the answer.
    Ask { notice: Option<String>, question: String },
    /// Carry the removal to its end and report it.
    Unsave(UnsaveStep),
    /// Tell the user that nothing is removed, and acknowledge.
    ReportSkipped,
    /// The run is over.
    Finish,
    /// The run is given up, for this reason.
    Abort(WorkflowError),
    /// The event does not belong here; there is nothing to do.
    Ignore,
}

/// The question that guards the removal.
pub open spec fn removal_question() -> Seq<char> {
    "Would you like to unsave all these items from your Reddit account?"@
}

/// The token that a reply from the token endpoint gives the run, or why the
/// run is given up: no token, or one that no request can carry.
pub open spec fn token_outcome(reply: HttpReply) -> Result<Seq<char>, WorkflowError> {
    match token_of_reply(reply) {
        Ok(token) => if header_text_allowed(bearer_value(token)) {
            Ok(token)
        } else {
            Err(WorkflowError::Fetch(FetchError::InvalidToken))
        },
        Err(error) => Err(WorkflowError::Auth(error)),
    }
}

/// The state that follows `state` on `event`. A run that offers no removal
/// is done once its file is written.
pub open spec fn next_state(state: WorkflowState, event: WorkflowEvent, offers_removal: bool)
    -> WorkflowState {
    match (state, event) {
        (WorkflowState::Idle, WorkflowEvent::Invoked) => WorkflowState::Authenticating,
        (WorkflowState::Authenticating, WorkflowEvent::TokenReply(reply)) => if token_outcome(
            reply,
        ) is Ok {
            WorkflowState::Paginating
        } else {
            WorkflowState::Failed
        },
        (WorkflowState::Paginating, WorkflowEvent::BatchRetrieved(_)) => WorkflowState::Persisting,
        (WorkflowState::Paginating, WorkflowEvent::FetchFailed(_)) => WorkflowState::Failed,
        (WorkflowState::Persisting, WorkflowEvent::FileWritten) => if offers_removal {
            WorkflowState::AwaitingConfirmation
        } else {
            WorkflowState::Done
        },
        (WorkflowState::AwaitingConfirmation, WorkflowEvent::Answer(line)) => match answer_in(
            line@,
        ) {
            Some(true) => WorkflowState::Mutating,
            Some(false) => WorkflowState::Skipped,
            None => WorkflowState::AwaitingConfirmation,
        },
        (WorkflowState::Skipped, WorkflowEvent::Acknowledged) => WorkflowState::Done,
        (WorkflowState::Mutating, WorkflowEvent::MutationCompleted(_)) => WorkflowState::Done,
        _ => state,
    }
}

/// A run fails only while it authenticates or fetches.
pub proof fn lemma_failure_comes_from_fetching(
    state: WorkflowState,
    event: WorkflowEvent,
    offers_removal: bool,
)
    requires
        next_state(state, event, offers_removal) == WorkflowState::Failed,
        state != WorkflowState::Failed,
    ensures
        state == WorkflowState::Authenticating || state == WorkflowState::Paginating,
{
}

/// A run that is done or has failed stays as it is.
pub proof fn lemma_ended_runs_stay(
    state: WorkflowState,
    event: WorkflowEvent,
    offers_removal: bool,
)
    requires
        state == WorkflowState::Done || state == WorkflowState::Failed,
    ensures
        next_state(state, event, offers_removal) == state,
{
}

/// Every request has its place in a run: a token is asked for only when the
/// run begins, pages are fetched only with a token that was acquired, the
/// file is written only for a batch that was retrieved, and the removal
/// begins only on an answer that affirms.
pub proof fn lemma_actions_have_their_place(
    before: Workflow,
    event: WorkflowEvent,
    after: Workflow,
    action: WorkflowAction,
)
    requires
        Workflow::carried_out(before, event, after, action),
    ensures
        action is Authenticate ==> before.state() == WorkflowState::Idle && event is Invoked,
        action is Fetch ==> {
            &&& before.state() == WorkflowState::Authenticating
            &&& event matches WorkflowEvent::TokenReply(reply)
            &&& token_outcome(reply) is Ok
        },
        action is Write ==> before.state() == WorkflowState::Paginating && event is BatchRetrieved,
        action is Unsave ==> {
            &&& before.state() == WorkflowState::AwaitingConfirmation
            &&& event matches WorkflowEvent::Answer(line)
            &&& answer_in(line@) == Some(true)
        },
{
}

/// What is written down and what is removed are chosen differently: an item
/// without a permalink adds nothing to the file, which reads as if the item
/// were not in the batch, and yet the removal makes its attempt for that
/// item like for any other.
pub proof fn lemma_item_without_permalink_is_still_removed(
    token: Seq<char>,
    items: Seq<SavedItem>,
    replies: Seq<HttpReply>,
    i: int,
)
    requires
        0 <= i < items.len(),
        items[i].permalink is None,
    ensures
        permalink_urls(items) == permalink_urls(items.remove(i)),
        file_content(items) == file_content(items.remove(i)),
        replies.len() >= items.len() ==> outcomes_after(
            token,
            items,
            Seq::empty(),
            replies,
        ).len() == items.len(),
        i < replies.len() ==> outcomes_after(token, items, Seq::empty(), replies)[i]
            == attempt_outcome(token, items[i].name@, replies[i]),
{
    let front = items.take(i);
    let one = seq![items[i]];
    let back = items.skip(i + 1);
    assert(items =~= front + one + back);
    assert(items.remove(i) =~= front + back);
    lemma_urls_of_concatenation(front + one, back);
    lemma_urls_of_concatenation(front, one);
    lemma_urls_of_concatenation(front, back);
    assert(permalink_urls(one) =~= Seq::<Seq<char>>::empty()) by {
        assert(one.drop_last() =~= Seq::<SavedItem>::empty());
        assert(permalink_urls(one.drop_last()) =~= Seq::<Seq<char>>::empty());
    }
    assert(permalink_urls(front) + permalink_urls(one) =~= permalink_urls(front));
    lemma_every_item_is_attempted_once(token, items, replies);
}

/// One run.
#[derive(Debug)]
pub struct Workflow {
    credentials: Credentials,
    user_agent: String,
    filename: String,
    offers_removal: bool,
    state: WorkflowState,
    access_token: String,
    batch: Vec<SavedItem>,
}

impl Workflow {
    /// The state the run is in.
    pub closed spec fn state(&self) -> WorkflowState {
        self.state
    }

    /// Whether the run asks about a removal once the file is written.
    pub closed spec fn offers_removal(&self) -> bool {
        self.offers_removal
    }

    /// The secrets that the run authenticates with.
    pub closed spec fn credentials(&self) -> Credentials {
        self.credentials
    }

    /// The user agent of the token request.
    pub closed spec fn user_agent(&self) -> Seq<char> {
        self.user_agent@
    }

    /// The name of the file that the run writes.
    pub closed spec fn filename(&self) -> Seq<char> {
        self.filename@
    }

    /// The token that the run holds; empty until one is acquired.
    pub closed spec fn token(&self) -> Seq<char> {
        self.access_token@
    }

    /// The batch that the run holds; empty until one is retrieved, and again
    /// once it is handed over for removal.
    pub closed spec fn batch(&self) -> Seq<SavedItem> {
        self.batch@
    }

    /// The run is the one that `other` is, wherever it has come to.
    pub open spec fn same_run(&self, other: &Workflow) -> bool {
        &&& self.offers_removal() == other.offers_removal()
        &&& self.credentials() == other.credentials()
        &&& self.user_agent() == other.user_agent()
        &&& self.filename() == other.filename()
    }

    /// The run holds what `other` holds.
    pub open spec fn holds_what(&self, other: &Workflow) -> bool {
        &&& self.token() == other.token()
        &&& self.batch() == other.batch()
    }

    /// `action` is what the run `before` tells the caller on `event`, and
    /// `after` holds what the run then holds.
    pub open spec fn carried_out(
        before: Workflow,
        event: WorkflowEvent,
        after: Workflow,
        action: WorkflowAction,
    ) -> bool {
        match (before.state(), event) {
            (WorkflowState::Idle, WorkflowEvent::Invoked) => {
                &&& action matches WorkflowAction::Authenticate(request)
                &&& request.asks_for(before.credentials(), before.user_agent())
                &&& after.holds_what(&before)
            },
            (WorkflowState::Authenticating, WorkflowEvent::TokenReply(reply)) => match token_outcome(
                reply,
            ) {
                Ok(token) => {
                    &&& action matches WorkflowAction::Fetch(paginator)
                    &&& begins_fetch(
                        Ok(paginator),
                        token,
                        before.credentials().username@,
                        FETCH_CAP as nat,
                        PAGE_SIZE as nat,
                    )
                    &&& after.token() == token
                    &&& after.batch() == before.batch()
                },
                Err(error) => action == WorkflowAction::Abort(error) && after.holds_what(&before),
            },
            (WorkflowState::Paginating, WorkflowEvent::BatchRetrieved(items)) => {
                &&& action matches WorkflowAction::Write(output)
                &&& output.filename@ == before.filename()
                &&& output.content@ == file_content(items@)
                &&& output.count == permalink_count(items@)
                &&& after.token() == before.token()
                &&& after.batch() == items@
            },
            (WorkflowState::Paginating, WorkflowEvent::FetchFailed(error)) => {
                &&& action == WorkflowAction::Abort(WorkflowError::Fetch(error))
                &&& after.holds_what(&before)
            },
            (WorkflowState::Persisting, WorkflowEvent::FileWritten) => {
                &&& after.holds_what(&before)
                &&& if before.offers_removal() {
                    &&& action matches WorkflowAction::Ask { notice, question }
                    &&& notice is None
                    &&& question@ == question_line(removal_question())
                } else {
                    action == WorkflowAction::Finish
                }
            },
            (WorkflowState::Persisting, WorkflowEvent::WriteFailed) => {
                &&& action == WorkflowAction::Abort(WorkflowError::Persist)
                &&& after.holds_what(&before)
            },
            (WorkflowState::AwaitingConfirmation, WorkflowEvent::Answer(line)) => match answer_in(
                line@,
            ) {
                Some(true) => {
                    &&& action matches WorkflowAction::Unsave(begun)
                    &&& begun.begins(before.token(), before.batch())
                    &&& after.token() == before.token()
                    &&& after.batch() == Seq::<SavedItem>::empty()
                },
                Some(false) => action == WorkflowAction::ReportSkipped && after.holds_what(&before),
                None => {
                    &&& action matches WorkflowAction::Ask { notice, question }
                    &&& notice matches Some(shown)
                    &&& shown@ == retry_notice()
                    &&& question@ == question_line(removal_question())
                    &&& after.holds_what(&before)
                },
            },
            (WorkflowState::Skipped, WorkflowEvent::Acknowledged) => {
                &&& action == WorkflowAction::Finish
                &&& after.holds_what(&before)
            },
            (WorkflowState::Mutating, WorkflowEvent::MutationCompleted(_)) => {
                &&& action == WorkflowAction::Finish
                &&& after.holds_what(&before)
            },
            _ => action == WorkflowAction::Ignore && after.holds_what(&before),
        }
    }

    /// A run that has not begun.
    pub fn new(credentials: Credentials, user_agent: &str, filename: &str, offers_removal: bool)
        -> (run: Workflow)
        ensures
            run.state() == WorkflowState::Idle,
            run.offers_removal() == offers_removal,
            run.credentials() == credentials,
            run.user_agent() == user_agent@,
            run.filename() == filename@,
            run.token() == Seq::<char>::empty(),
            run.batch() == Seq::<SavedItem>::empty(),
    {
        Workflow {
            credentials,
            user_agent: String::from_str(user_agent),
            filename: String::from_str(filename),
            offers_removal,
            state: WorkflowState::Idle,
            access_token: String::new(),
            batch: Vec::new(),
        }
    }

    /// The state the run is in.
    pub fn current_state(&self) -> (state: WorkflowState)
        ensures
            state == self.state(),
    {
        self.state
    }

    /// Whether the run is over: done, or failed.
    pub fn is_over(&self) -> (over: bool)
        ensures
            over == (self.state() == WorkflowState::Done || self.state() == WorkflowState::Failed),
    {
        match self.state {
            WorkflowState::Done => true,
            WorkflowState::Failed => true,
            _ => false,
        }
    }

    /// Takes an event and says what to do next.
    pub fn handle(&mut self, event: WorkflowEvent) -> (action: WorkflowAction)
        ensures
            final(self).state() == next_state(old(self).state(), event, old(self).offers_removal()),
            final(self).same_run(old(self)),
            Workflow::carried_out(*old(self), event, *final(self), action),
    {
        match self.state {
            WorkflowState::Idle => match event {
                WorkflowEvent::Invoked => {
                    self.state = WorkflowState::Authenticating;
                    WorkflowAction::Authenticate(
                        token_request(&self.credentials, self.user_agent.as_str()),
                    )
                },
                _ => WorkflowAction::Ignore,
            },
            WorkflowState::Authenticating => match event {
                WorkflowEvent::TokenReply(reply) => match token_from_reply(&reply) {
                    Ok(token) => match Paginator::start(
                        token.as_str(),
                        self.credentials.username.as_str(),
                        FETCH_CAP,
                        PAGE_SIZE,
                    ) {
                        Ok(paginator) => {
                            self.access_token = token;
                            self.state = WorkflowState::Paginating;
                            WorkflowAction::Fetch(paginator)
                        },
                        Err(error) => {
                            self.state = WorkflowState::Failed;
                            WorkflowAction::Abort(WorkflowError::Fetch(error))
                        },
                    },
                    Err(error) => {
                        self.state = WorkflowState::Failed;
                        WorkflowAction::Abort(WorkflowError::Auth(error))
                    },
                },
                _ => WorkflowAction::Ignore,
            },
            WorkflowState::Paginating => match event {
                WorkflowEvent::BatchRetrieved(items) => {
                    let output = file_output(&items, self.filename.as_str());
                    self.batch = items;
                    self.state = WorkflowState::Persisting;
                    WorkflowAction::Write(output)
                },
                WorkflowEvent::FetchFailed(error) => {
                    self.state = WorkflowState::Failed;
                    WorkflowAction::Abort(WorkflowError::Fetch(error))
                },
                _ => WorkflowAction::Ignore,
            },
            WorkflowState::Persisting => match event {
                WorkflowEvent::FileWritten => {
                    if self.offers_removal {
                        self.state = WorkflowState::AwaitingConfirmation;
                        WorkflowAction::Ask { notice: None, question: removal_question_text() }
                    } else {
                        self.state = WorkflowState::Done;
                        WorkflowAction::Finish
                    }
                },
                WorkflowEvent::WriteFailed => WorkflowAction::Abort(WorkflowError::Persist),
                _ => WorkflowAction::Ignore,
            },
            WorkflowState::AwaitingConfirmation => match event {
                WorkflowEvent::Answer(line) => match read_answer(line.as_str()) {
                    Some(true) => {
                        let mut batch: Vec<SavedItem> = Vec::new();
                        std::mem::swap(&mut batch, &mut self.batch);
                        self.state = WorkflowState::Mutating;
                        WorkflowAction::Unsave(
                            BulkMutator::start(self.access_token.as_str(), batch),
                        )
                    },
                    Some(false) => {
                        self.state = WorkflowState::Skipped;
                        WorkflowAction::ReportSkipped
                    },
                    None => WorkflowAction::Ask {
                        notice: Some(String::from_str("Please enter 'y' or 'n'")),
                        question: removal_question_text(),
                    },
                },
                _ => WorkflowAction::Ignore,
            },
            WorkflowState::Mutating => match event {
                WorkflowEvent::MutationCompleted(_) => {
                    self.state = WorkflowState::Done;
                    WorkflowAction::Finish
                },
                _ => WorkflowAction::Ignore,
            },
            WorkflowState::Skipped => match event {
                WorkflowEvent::Acknowledged => {
                    self.state = WorkflowState::Done;
                    WorkflowAction::Finish
                },
                _ => WorkflowAction::Ignore,
            },
            WorkflowState::Done => WorkflowAction::Ignore,
            WorkflowState::Failed => WorkflowAction::Ignore,
        }
    }
}

/// Builds the line that asks about the removal.
pub fn removal_question_text() -> (line: String)
    ensures
        line@ == question_line(removal_question()),
{
    question_text("Would you like to unsave all these items from your Reddit account?")
}

} // verus!
