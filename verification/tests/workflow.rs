use taskmaster::auth::{AuthError, Credentials};
use taskmaster::extract_reddit_saved_data::ExtractRedditSavedData;
use taskmaster::fetch_reddit_saved_data::FetchRedditSavedData;
use taskmaster::http::HttpReply;
use taskmaster::paginator::{FetchError, FETCH_CAP, PAGE_SIZE};
use taskmaster::saved_item::SavedItem;
use taskmaster::unsave::{UnsaveReport, UnsaveStep};
use taskmaster::workflow::{
    removal_question_text, Workflow, WorkflowAction, WorkflowError, WorkflowEvent, WorkflowState,
};

fn run_credentials() -> Credentials {
    Credentials {
        client_id: "id".to_string(),
        client_secret: "secret".to_string(),
        username: "carol".to_string(),
        password: "pass".to_string(),
    }
}

fn run_item(name: &str, permalink: Option<&str>) -> SavedItem {
    SavedItem {
        title: None,
        permalink: permalink.map(|p| p.to_string()),
        url: None,
        subreddit: "test".to_string(),
        created_utc_bits: 0f64.to_bits(),
        id: "x".to_string(),
        name: name.to_string(),
        is_self_post: None,
        body: None,
        link_title: None,
        link_permalink: None,
    }
}

fn token_reply(body: &str) -> WorkflowEvent {
    WorkflowEvent::TokenReply(HttpReply::Received { status: 200, body: body.as_bytes().to_vec() })
}

fn run_batch() -> Vec<SavedItem> {
    vec![
        run_item("t3_abc", Some("/r/test/comments/abc/")),
        run_item("t1_nil", None),
        run_item("t3_def", Some("(r/test/comments/def/)")),
    ]
}

/// A run that has written its file and waits for the next event.
fn run_up_to_written(offers_removal: bool) -> Workflow {
    let mut run = Workflow::new(run_credentials(), "agent", "saved.txt", offers_removal);
    assert!(matches!(run.handle(WorkflowEvent::Invoked), WorkflowAction::Authenticate(_)));
    assert!(matches!(
        run.handle(token_reply("{\"access_token\": \"tok\"}")),
        WorkflowAction::Fetch(_)
    ));
    assert!(matches!(
        run.handle(WorkflowEvent::BatchRetrieved(run_batch())),
        WorkflowAction::Write(_)
    ));
    assert_eq!(run.current_state(), WorkflowState::Persisting);
    run
}

#[test]
fn new_run_is_idle() {
    let run = Workflow::new(run_credentials(), "agent", "saved.txt", true);
    assert_eq!(run.current_state(), WorkflowState::Idle);
    assert!(!run.is_over());
}

#[test]
fn invocation_asks_for_a_token() {
    let mut run = Workflow::new(run_credentials(), "agent/9", "saved.txt", true);
    match run.handle(WorkflowEvent::Invoked) {
        WorkflowAction::Authenticate(request) => {
            assert_eq!(request.url, "https://www.reddit.com/api/v1/access_token");
            assert_eq!(request.user_agent, "agent/9");
            assert_eq!(request.basic_user, "id");
            assert_eq!(request.basic_password, "secret");
            assert_eq!(request.grant_type, "password");
            assert_eq!(request.username, "carol");
            assert_eq!(request.password, "pass");
        }
        other => panic!("a token should be asked for, not {:?}", other),
    }
    assert_eq!(run.current_state(), WorkflowState::Authenticating);
}

#[test]
fn reply_without_token_fails_the_run_before_any_page_or_file() {
    let mut run = Workflow::new(run_credentials(), "agent", "saved.txt", true);
    run.handle(WorkflowEvent::Invoked);
    let action = run.handle(token_reply("{\"error\": \"invalid_grant\"}"));
    assert!(matches!(action, WorkflowAction::Abort(WorkflowError::Auth(AuthError::MissingToken))));
    assert_eq!(run.current_state(), WorkflowState::Failed);
    assert!(run.is_over());
    assert!(matches!(
        run.handle(WorkflowEvent::BatchRetrieved(run_batch())),
        WorkflowAction::Ignore
    ));
    assert!(matches!(run.handle(WorkflowEvent::FileWritten), WorkflowAction::Ignore));
    assert!(matches!(run.handle(WorkflowEvent::Invoked), WorkflowAction::Ignore));
    assert!(matches!(run.handle(WorkflowEvent::Answer("y".to_string())), WorkflowAction::Ignore));
    assert_eq!(run.current_state(), WorkflowState::Failed);
}

#[test]
fn failed_token_exchange_fails_the_run() {
    let mut run = Workflow::new(run_credentials(), "agent", "saved.txt", true);
    run.handle(WorkflowEvent::Invoked);
    let action = run.handle(WorkflowEvent::TokenReply(HttpReply::Failed));
    assert!(matches!(action, WorkflowAction::Abort(WorkflowError::Auth(AuthError::Transport))));
    assert_eq!(run.current_state(), WorkflowState::Failed);
}

#[test]
fn unreadable_token_reply_fails_the_run() {
    let mut run = Workflow::new(run_credentials(), "agent", "saved.txt", true);
    run.handle(WorkflowEvent::Invoked);
    let action = run.handle(token_reply("<html>502</html>"));
    assert!(matches!(
        action,
        WorkflowAction::Abort(WorkflowError::Auth(AuthError::UnreadableResponse))
    ));
    assert_eq!(run.current_state(), WorkflowState::Failed);
}

#[test]
fn token_that_no_header_carries_fails_the_fetch() {
    let mut run = Workflow::new(run_credentials(), "agent", "saved.txt", true);
    run.handle(WorkflowEvent::Invoked);
    let action = run.handle(token_reply("{\"access_token\": \"line\\nbreak\"}"));
    assert!(matches!(
        action,
        WorkflowAction::Abort(WorkflowError::Fetch(FetchError::InvalidToken))
    ));
    assert_eq!(run.current_state(), WorkflowState::Failed);
}

#[test]
fn token_begins_the_fetch_of_the_users_listing() {
    let mut run = Workflow::new(run_credentials(), "agent", "saved.txt", true);
    run.handle(WorkflowEvent::Invoked);
    match run.handle(token_reply("{\"access_token\": \"tok\"}")) {
        WorkflowAction::Fetch(paginator) => {
            let request = paginator.request();
            assert_eq!(request.url, "https://oauth.reddit.com/user/carol/saved?limit=100");
            assert_eq!(request.authorization, "Bearer tok");
        }
        other => panic!("the fetch should begin, not {:?}", other),
    }
    assert_eq!(run.current_state(), WorkflowState::Paginating);
    assert_eq!(FETCH_CAP, 1000);
    assert_eq!(PAGE_SIZE, 100);
}

#[test]
fn failed_fetch_fails_the_run_without_a_file() {
    let mut run = Workflow::new(run_credentials(), "agent", "saved.txt", true);
    run.handle(WorkflowEvent::Invoked);
    run.handle(token_reply("{\"access_token\": \"tok\"}"));
    let action = run.handle(WorkflowEvent::FetchFailed(FetchError::PageFailed));
    assert!(matches!(action, WorkflowAction::Abort(WorkflowError::Fetch(FetchError::PageFailed))));
    assert_eq!(run.current_state(), WorkflowState::Failed);
    assert!(matches!(run.handle(WorkflowEvent::FileWritten), WorkflowAction::Ignore));
}

#[test]
fn retrieved_batch_is_written_down() {
    let mut run = Workflow::new(run_credentials(), "agent", "saved.txt", true);
    run.handle(WorkflowEvent::Invoked);
    run.handle(token_reply("{\"access_token\": \"tok\"}"));
    match run.handle(WorkflowEvent::BatchRetrieved(run_batch())) {
        WorkflowAction::Write(output) => {
            assert_eq!(output.filename, "saved.txt");
            assert_eq!(
                output.content,
                "https://old.reddit.com/r/test/comments/abc/\nhttps://old.reddit.com/r/test/comments/def/"
            );
            assert_eq!(output.count, 2);
        }
        other => panic!("the file should be written, not {:?}", other),
    }
    assert_eq!(run.current_state(), WorkflowState::Persisting);
}

#[test]
fn empty_batch_is_written_down_too() {
    let mut run = Workflow::new(run_credentials(), "agent", "saved.txt", true);
    run.handle(WorkflowEvent::Invoked);
    run.handle(token_reply("{\"access_token\": \"tok\"}"));
    match run.handle(WorkflowEvent::BatchRetrieved(Vec::new())) {
        WorkflowAction::Write(output) => {
            assert_eq!(output.content, "");
            assert_eq!(output.count, 0);
        }
        other => panic!("the file should be written, not {:?}", other),
    }
    assert_eq!(run.current_state(), WorkflowState::Persisting);
}

#[test]
fn written_file_leads_to_the_question() {
    let mut run = run_up_to_written(true);
    match run.handle(WorkflowEvent::FileWritten) {
        WorkflowAction::Ask { notice, question } => {
            assert_eq!(notice, None);
            assert_eq!(
                question,
                "Would you like to unsave all these items from your Reddit account? (y/n): "
            );
            assert_eq!(question, removal_question_text());
        }
        other => panic!("the question should be put, not {:?}", other),
    }
    assert_eq!(run.current_state(), WorkflowState::AwaitingConfirmation);
}

#[test]
fn failed_write_halts_the_run_where_it_is() {
    let mut run = run_up_to_written(true);
    let action = run.handle(WorkflowEvent::WriteFailed);
    assert!(matches!(action, WorkflowAction::Abort(WorkflowError::Persist)));
    assert_eq!(run.current_state(), WorkflowState::Persisting);
}

#[test]
fn unrecognized_answer_asks_again_and_declining_skips() {
    let mut run = run_up_to_written(true);
    let mut shown = 0;
    if let WorkflowAction::Ask { .. } = run.handle(WorkflowEvent::FileWritten) {
        shown += 1;
    }
    match run.handle(WorkflowEvent::Answer("maybe".to_string())) {
        WorkflowAction::Ask { notice, question } => {
            shown += 1;
            assert_eq!(notice.as_deref(), Some("Please enter 'y' or 'n'"));
            assert_eq!(question, removal_question_text());
        }
        other => panic!("the question should be put again, not {:?}", other),
    }
    assert_eq!(run.current_state(), WorkflowState::AwaitingConfirmation);
    let action = run.handle(WorkflowEvent::Answer("n".to_string()));
    assert!(matches!(action, WorkflowAction::ReportSkipped));
    assert_eq!(shown, 2);
    assert_eq!(run.current_state(), WorkflowState::Skipped);
    assert!(!run.is_over());
    assert!(matches!(run.handle(WorkflowEvent::Answer("y".to_string())), WorkflowAction::Ignore));
    assert!(matches!(run.handle(WorkflowEvent::Acknowledged), WorkflowAction::Finish));
    assert_eq!(run.current_state(), WorkflowState::Done);
    assert!(run.is_over());
    assert!(matches!(run.handle(WorkflowEvent::Answer("y".to_string())), WorkflowAction::Ignore));
}

#[test]
fn question_is_put_again_for_as_long_as_no_answer_comes() {
    let mut run = run_up_to_written(true);
    run.handle(WorkflowEvent::FileWritten);
    for line in ["", "what", "yep", "0", "  ", "nah"] {
        let action = run.handle(WorkflowEvent::Answer(line.to_string()));
        assert!(matches!(action, WorkflowAction::Ask { notice: Some(_), .. }));
        assert_eq!(run.current_state(), WorkflowState::AwaitingConfirmation);
    }
    assert!(matches!(
        run.handle(WorkflowEvent::Answer(" Yes\n".to_string())),
        WorkflowAction::Unsave(_)
    ));
}

#[test]
fn affirming_hands_the_whole_batch_to_the_removal() {
    let mut run = run_up_to_written(true);
    run.handle(WorkflowEvent::FileWritten);
    let mut names = Vec::new();
    match run.handle(WorkflowEvent::Answer("YES\n".to_string())) {
        WorkflowAction::Unsave(mut step) => {
            assert_eq!(run.current_state(), WorkflowState::Mutating);
            let report = loop {
                step = match step {
                    UnsaveStep::Next(mutator) => {
                        let attempt = mutator.attempt();
                        let request = attempt.request.unwrap();
                        assert_eq!(request.authorization, "Bearer tok");
                        names.push(request.id);
                        mutator.record(&HttpReply::Received { status: 200, body: Vec::new() }).1
                    }
                    UnsaveStep::Done(report) => break report,
                };
            };
            assert_eq!(names, vec!["t3_abc", "t1_nil", "t3_def"]);
            assert_eq!(report.outcomes, vec![Ok(()), Ok(()), Ok(())]);
            let action = run.handle(WorkflowEvent::MutationCompleted(report));
            assert!(matches!(action, WorkflowAction::Finish));
        }
        other => panic!("the removal should begin, not {:?}", other),
    }
    assert_eq!(run.current_state(), WorkflowState::Done);
    assert!(run.is_over());
}

#[test]
fn affirming_an_empty_batch_is_done_without_attempts() {
    let mut run = Workflow::new(run_credentials(), "agent", "saved.txt", true);
    run.handle(WorkflowEvent::Invoked);
    run.handle(token_reply("{\"access_token\": \"tok\"}"));
    run.handle(WorkflowEvent::BatchRetrieved(Vec::new()));
    run.handle(WorkflowEvent::FileWritten);
    match run.handle(WorkflowEvent::Answer("y".to_string())) {
        WorkflowAction::Unsave(UnsaveStep::Done(report)) => {
            assert!(report.outcomes.is_empty());
            assert!(matches!(
                run.handle(WorkflowEvent::MutationCompleted(report)),
                WorkflowAction::Finish
            ));
        }
        other => panic!("the removal should be done at once, not {:?}", other),
    }
    assert_eq!(run.current_state(), WorkflowState::Done);
}

#[test]
fn run_without_removal_is_done_once_written() {
    let mut run = run_up_to_written(false);
    assert!(matches!(run.handle(WorkflowEvent::FileWritten), WorkflowAction::Finish));
    assert_eq!(run.current_state(), WorkflowState::Done);
}

#[test]
fn events_out_of_place_change_nothing() {
    let mut run = Workflow::new(run_credentials(), "agent", "saved.txt", true);
    assert!(matches!(run.handle(WorkflowEvent::FileWritten), WorkflowAction::Ignore));
    assert!(matches!(run.handle(token_reply("{\"access_token\": \"t\"}")), WorkflowAction::Ignore));
    assert!(matches!(run.handle(WorkflowEvent::Acknowledged), WorkflowAction::Ignore));
    assert!(matches!(
        run.handle(WorkflowEvent::MutationCompleted(UnsaveReport { outcomes: Vec::new() })),
        WorkflowAction::Ignore
    ));
    assert_eq!(run.current_state(), WorkflowState::Idle);
    run.handle(WorkflowEvent::Invoked);
    assert!(matches!(run.handle(WorkflowEvent::Invoked), WorkflowAction::Ignore));
    assert!(matches!(
        run.handle(WorkflowEvent::FetchFailed(FetchError::PageFailed)),
        WorkflowAction::Ignore
    ));
    assert!(matches!(run.handle(WorkflowEvent::WriteFailed), WorkflowAction::Ignore));
    assert_eq!(run.current_state(), WorkflowState::Authenticating);
}

#[test]
fn extraction_offers_the_removal() {
    let account = ExtractRedditSavedData::from_env(
        Some("id".to_string()),
        Some("secret".to_string()),
        Some("carol".to_string()),
        Some("pass".to_string()),
    )
    .unwrap();
    let mut run = account.extract("reddit_saved_items.json");
    assert_eq!(run.current_state(), WorkflowState::Idle);
    match run.handle(WorkflowEvent::Invoked) {
        WorkflowAction::Authenticate(request) => assert_eq!(request.user_agent, "taskmaster/0.3"),
        other => panic!("a token should be asked for, not {:?}", other),
    }
    run.handle(token_reply("{\"access_token\": \"tok\"}"));
    match run.handle(WorkflowEvent::BatchRetrieved(run_batch())) {
        WorkflowAction::Write(output) => assert_eq!(output.filename, "reddit_saved_items.json"),
        other => panic!("the file should be written, not {:?}", other),
    }
    assert!(matches!(run.handle(WorkflowEvent::FileWritten), WorkflowAction::Ask { .. }));
}

#[test]
fn plain_fetch_offers_no_removal() {
    let account = FetchRedditSavedData::from_env(
        Some("id".to_string()),
        Some("secret".to_string()),
        Some("carol".to_string()),
        Some("pass".to_string()),
    )
    .unwrap();
    let mut run = account.fetch_and_save("out.txt");
    match run.handle(WorkflowEvent::Invoked) {
        WorkflowAction::Authenticate(request) => assert_eq!(request.user_agent, "taskmaster/0.2"),
        other => panic!("a token should be asked for, not {:?}", other),
    }
    run.handle(token_reply("{\"access_token\": \"tok\"}"));
    run.handle(WorkflowEvent::BatchRetrieved(run_batch()));
    assert!(matches!(run.handle(WorkflowEvent::FileWritten), WorkflowAction::Finish));
    assert_eq!(run.current_state(), WorkflowState::Done);
}
