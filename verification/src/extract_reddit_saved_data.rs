//! Extraction of the saved listing with the offer to remove what was
//! extracted.

use vstd::prelude::*;
use vstd::string::*;
use crate::auth::{credentials_from, first_missing, token_request, ConfigError, Credentials, TokenRequest};
use crate::paginator::{begins_fetch, FetchError, Paginator, FETCH_CAP, PAGE_SIZE};
use crate::persist::{file_content, file_output, permalink_count, FileOutput};
use crate::unsave::{removes, unsave_request, BulkMutator, UnsaveError, UnsaveRequest, UnsaveStep};
use crate::workflow::{Workflow, WorkflowState};

pub use crate::saved_item::SavedItem;

verus! {

/// The user agent of this extraction's token request.
pub open spec fn extract_user_agent() -> Seq<char> {
    "taskmaster/0.3"@
}

/// An account whose saved listing is extracted and, if the user says so,
/// emptied.
#[derive(Debug)]
pub struct ExtractRedditSavedData {
    credentials: Credentials,
}

impl ExtractRedditSavedData {
    /// The secrets of the account.
    pub closed spec fn credentials(&self) -> Credentials {
        self.credentials
    }

    /// Takes the four secrets as they were found in the environment. All four
    /// are needed; the first that is missing is named.
    pub fn from_env(
        client_id: Option<String>,
        client_secret: Option<String>,
        username: Option<String>,
        password: Option<String>,
    ) -> (account: Result<Self, ConfigError>)
        ensures
            match account {
                Ok(account) => {
                    &&& client_id == Some(account.credentials().client_id)
                    &&& client_secret == Some(account.credentials().client_secret)
                    &&& username == Some(account.credentials().username)
                    &&& password == Some(account.credentials().password)
                },
                Err(error) => first_missing(client_id, client_secret, username, password) == Some(
                    error,
                ),
            },
    {
        match credentials_from(client_id, client_secret, username, password) {
            Ok(credentials) => Ok(ExtractRedditSavedData { credentials }),
            Err(error) => Err(error),
        }
    }

    /// The request that asks for a token. What comes back is read by
    /// [`crate::auth::token_from_reply`].
    pub fn authenticate(&self) -> (request: TokenRequest)
        ensures
            request.asks_for(self.credentials(), extract_user_agent()),
    {
        token_request(&self.credentials, "taskmaster/0.3")
    }

    /// Begins the fetch of the account's saved listing: pages of
    /// [`PAGE_SIZE`] items, until the listing is exhausted or [`FETCH_CAP`]
    /// items are gathered.
    pub fn fetch_saved_items(&self, access_token: &str) -> (started: Result<Paginator, FetchError>)
        ensures
            begins_fetch(
                started,
                access_token@,
                self.credentials().username@,
                FETCH_CAP as nat,
                PAGE_SIZE as nat,
            ),
    {
        Paginator::start(access_token, self.credentials.username.as_str(), FETCH_CAP, PAGE_SIZE)
    }

    /// Prepares the file of a batch: the URL of every item that carries a
    /// permalink, one per line.
    pub fn save_to_file(items: &Vec<SavedItem>, filename: &str) -> (output: FileOutput)
        ensures
            output.filename@ == filename@,
            output.content@ == file_content(items@),
            output.count == permalink_count(items@),
    {
        file_output(items, filename)
    }

    /// The request that removes one item, or why none can be made. What comes
    /// back is read by [`crate::unsave::unsave_outcome`].
    pub fn unsave_item(&self, access_token: &str, item_name: &str) -> (request: Result<
        UnsaveRequest,
        UnsaveError,
    >)
        ensures
            removes(request, access_token@, item_name@),
    {
        unsave_request(access_token, item_name)
    }

    /// Begins the removal of every item of a batch.
    pub fn unsave_all_items(&self, access_token: &str, items: Vec<SavedItem>) -> (begun: UnsaveStep)
        ensures
            begun.begins(access_token@, items@),
    {
        BulkMutator::start(access_token, items)
    }

    /// Begins a run that extracts the listing into `filename` and then offers
    /// to remove what was extracted.
    pub fn extract(self, filename: &str) -> (run: Workflow)
        ensures
            run.state() == WorkflowState::Idle,
            run.offers_removal(),
            run.credentials() == self.credentials(),
            run.user_agent() == extract_user_agent(),
            run.filename() == filename@,
            run.token() == Seq::<char>::empty(),
            run.batch() == Seq::<SavedItem>::empty(),
    {
        Workflow::new(self.credentials, "taskmaster/0.3", filename, true)
    }
}

} // verus!
