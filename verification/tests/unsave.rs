use taskmaster::extract_reddit_saved_data::ExtractRedditSavedData;
use taskmaster::http::HttpReply;
use taskmaster::saved_item::SavedItem;
use taskmaster::unsave::{
    unsave_outcome, unsave_request, Attempt, BulkMutator, UnsaveError, UnsaveReport, UnsaveStep,
    PROGRESS_INTERVAL, UNSAVE_DELAY_MS,
};

fn unsave_item_named(name: &str, permalink: Option<&str>) -> SavedItem {
    SavedItem {
        title: None,
        permalink: permalink.map(|p| p.to_string()),
        url: None,
        subreddit: "test".to_string(),
        created_utc_bits: 0f64.to_bits(),
        id: "x".to_string(),
        name: name.to_string(),
        is_self_post: None,
        body: None,
        link_title: None,
        link_permalink: None,
    }
}

fn status(code: u16) -> HttpReply {
    HttpReply::Received { status: code, body: Vec::new() }
}

/// Carries a run to its end, answering the attempts with `replies` in turn.
fn drive_removal(
    token: &str,
    items: Vec<SavedItem>,
    replies: Vec<HttpReply>,
) -> (Vec<Attempt>, UnsaveReport) {
    let mut attempts = Vec::new();
    let mut replies = replies.into_iter();
    let mut step = BulkMutator::start(token, items);
    loop {
        step = match step {
            UnsaveStep::Next(mutator) => {
                attempts.push(mutator.attempt());
                mutator.record(&replies.next().expect("a reply for every item")).1
            }
            UnsaveStep::Done(report) => return (attempts, report),
        };
    }
}

#[test]
fn item_is_named_when_its_name_is_not_empty() {
    assert!(unsave_item_named("t3_a", None).is_named());
    assert!(unsave_item_named(" ", None).is_named());
    assert!(!unsave_item_named("", None).is_named());
}

#[test]
fn due_item_is_known_by_name() {
    let items = vec![unsave_item_named("t3_a", None), unsave_item_named("", None)];
    match BulkMutator::start("tok", items) {
        UnsaveStep::Next(mutator) => {
            assert_eq!(mutator.due_name(), "t3_a");
            match mutator.record(&status(200)).1 {
                UnsaveStep::Next(mutator) => assert_eq!(mutator.due_name(), ""),
                other => panic!("an attempt should be due, not {:?}", other),
            }
        }
        other => panic!("an attempt should be due, not {:?}", other),
    }
}

#[test]
fn removal_request_addresses_the_item_by_name() {
    let request = unsave_request("tok", "t3_abc").unwrap();
    assert_eq!(request.url, "https://oauth.reddit.com/api/unsave");
    assert_eq!(request.user_agent, "taskmaster/0.2");
    assert_eq!(request.authorization, "Bearer tok");
    assert_eq!(request.id, "t3_abc");
}

#[test]
fn item_without_a_name_has_no_request() {
    assert_eq!(unsave_request("tok", ""), Err(UnsaveError::MissingName));
    assert_eq!(unsave_outcome("tok", "", &status(200)), Err(UnsaveError::MissingName));
}

#[test]
fn unsendable_token_has_no_request() {
    assert_eq!(unsave_request("to\nk", "t3_abc"), Err(UnsaveError::InvalidToken));
    assert_eq!(unsave_request("to\nk", ""), Err(UnsaveError::InvalidToken));
    assert_eq!(unsave_outcome("to\nk", "t3_abc", &status(200)), Err(UnsaveError::InvalidToken));
}

#[test]
fn outcome_goes_by_the_status_class() {
    assert_eq!(unsave_outcome("tok", "t3_a", &status(200)), Ok(()));
    assert_eq!(unsave_outcome("tok", "t3_a", &status(204)), Ok(()));
    assert_eq!(unsave_outcome("tok", "t3_a", &status(299)), Ok(()));
    assert_eq!(
        unsave_outcome("tok", "t3_a", &status(199)),
        Err(UnsaveError::Rejected { status: 199 })
    );
    assert_eq!(
        unsave_outcome("tok", "t3_a", &status(300)),
        Err(UnsaveError::Rejected { status: 300 })
    );
    assert_eq!(
        unsave_outcome("tok", "t3_a", &status(429)),
        Err(UnsaveError::Rejected { status: 429 })
    );
    assert_eq!(unsave_outcome("tok", "t3_a", &HttpReply::Failed), Err(UnsaveError::Transport));
}

#[test]
fn body_of_the_reply_plays_no_part() {
    let reply = HttpReply::Received { status: 200, body: b"{\"error\": 1}".to_vec() };
    assert_eq!(unsave_outcome("tok", "t3_a", &reply), Ok(()));
}

#[test]
fn recorded_outcome_is_handed_back_for_logging() {
    let items = vec![unsave_item_named("t3_a", None), unsave_item_named("t3_b", None)];
    match BulkMutator::start("tok", items) {
        UnsaveStep::Next(mutator) => {
            let (outcome, next) = mutator.record(&status(503));
            assert_eq!(outcome, Err(UnsaveError::Rejected { status: 503 }));
            match next {
                UnsaveStep::Next(mutator) => {
                    assert_eq!(mutator.attempt().request.unwrap().id, "t3_b");
                    let (outcome, next) = mutator.record(&status(200));
                    assert_eq!(outcome, Ok(()));
                    match next {
                        UnsaveStep::Done(report) => assert_eq!(
                            report.outcomes,
                            vec![Err(UnsaveError::Rejected { status: 503 }), Ok(())]
                        ),
                        other => panic!("the run should be done, not {:?}", other),
                    }
                }
                other => panic!("an attempt should be due, not {:?}", other),
            }
        }
        other => panic!("an attempt should be due, not {:?}", other),
    }
}

#[test]
fn empty_batch_is_done_at_once() {
    match BulkMutator::start("tok", Vec::new()) {
        UnsaveStep::Done(report) => {
            assert!(report.outcomes.is_empty());
            assert_eq!(report.failed(), 0);
        }
        other => panic!("nothing should be due, not {:?}", other),
    }
}

#[test]
fn every_item_is_attempted_once_whatever_fails() {
    let items = vec![
        unsave_item_named("t3_a", Some("/r/a/")),
        unsave_item_named("t1_b", None),
        unsave_item_named("", Some("/r/c/")),
        unsave_item_named("t3_d", None),
        unsave_item_named("t3_e", Some("/r/e/")),
    ];
    let replies = vec![status(500), HttpReply::Failed, status(200), status(200), status(403)];
    let (attempts, report) = drive_removal("tok", items, replies);
    assert_eq!(attempts.len(), 5);
    let ids: Vec<Option<String>> =
        attempts.iter().map(|a| a.request.as_ref().ok().map(|r| r.id.clone())).collect();
    assert_eq!(
        ids,
        vec![
            Some("t3_a".to_string()),
            Some("t1_b".to_string()),
            None,
            Some("t3_d".to_string()),
            Some("t3_e".to_string()),
        ]
    );
    assert_eq!(attempts[2].request, Err(UnsaveError::MissingName));
    assert_eq!(
        report.outcomes,
        vec![
            Err(UnsaveError::Rejected { status: 500 }),
            Err(UnsaveError::Transport),
            Err(UnsaveError::MissingName),
            Ok(()),
            Err(UnsaveError::Rejected { status: 403 }),
        ]
    );
    assert_eq!(report.failed(), 4);
}

#[test]
fn all_failures_still_cover_the_whole_batch() {
    let items: Vec<SavedItem> =
        (0..7).map(|n| unsave_item_named(&format!("t3_{}", n), None)).collect();
    let replies = (0..7).map(|_| HttpReply::Failed).collect();
    let (attempts, report) = drive_removal("tok", items, replies);
    assert_eq!(attempts.len(), 7);
    assert_eq!(report.outcomes.len(), 7);
    assert_eq!(report.failed(), 7);
}

#[test]
fn unsendable_token_fails_every_item_without_a_request() {
    let items = vec![unsave_item_named("t3_a", None), unsave_item_named("t3_b", None)];
    let (attempts, report) = drive_removal("bad\u{7f}", items, vec![status(200), status(200)]);
    assert_eq!(attempts.len(), 2);
    assert!(attempts.iter().all(|a| a.request == Err(UnsaveError::InvalidToken)));
    assert_eq!(
        report.outcomes,
        vec![Err(UnsaveError::InvalidToken), Err(UnsaveError::InvalidToken)]
    );
}

#[test]
fn every_attempt_is_followed_by_the_delay() {
    let items: Vec<SavedItem> =
        (0..4).map(|n| unsave_item_named(&format!("t3_{}", n), None)).collect();
    let replies = vec![status(200), status(500), HttpReply::Failed, status(200)];
    let (attempts, _) = drive_removal("tok", items, replies);
    assert_eq!(UNSAVE_DELAY_MS, 100);
    assert!(attempts.iter().all(|a| a.delay_ms == 100));
    let total: u64 = attempts.iter().map(|a| a.delay_ms).sum();
    assert_eq!(total, 400);
    assert!(total >= (4 - 1) * 100);
}

#[test]
fn progress_is_shown_on_every_tenth_item() {
    let items: Vec<SavedItem> =
        (0..25).map(|n| unsave_item_named(&format!("t3_{}", n), None)).collect();
    let replies = (0..25).map(|_| status(200)).collect();
    let (attempts, report) = drive_removal("tok", items, replies);
    assert_eq!(PROGRESS_INTERVAL, 10);
    assert_eq!(report.failed(), 0);
    for (index, attempt) in attempts.iter().enumerate() {
        match index {
            0 => assert_eq!(attempt.progress.as_deref(), Some("0/25 items processed")),
            10 => assert_eq!(attempt.progress.as_deref(), Some("10/25 items processed")),
            20 => assert_eq!(attempt.progress.as_deref(), Some("20/25 items processed")),
            _ => assert_eq!(attempt.progress, None),
        }
    }
}

#[test]
fn single_item_shows_progress_first() {
    let (attempts, report) =
        drive_removal("tok", vec![unsave_item_named("t3_a", None)], vec![status(200)]);
    assert_eq!(attempts.len(), 1);
    assert_eq!(attempts[0].progress.as_deref(), Some("0/1 items processed"));
    assert_eq!(report.outcomes, vec![Ok(())]);
}

#[test]
fn account_removes_through_the_same_requests() {
    let account = ExtractRedditSavedData::from_env(
        Some("id".to_string()),
        Some("secret".to_string()),
        Some("bob".to_string()),
        Some("pass".to_string()),
    )
    .unwrap();
    assert_eq!(account.unsave_item("tok", "t3_a"), unsave_request("tok", "t3_a"));
    assert_eq!(account.unsave_item("tok", ""), Err(UnsaveError::MissingName));
    match account.unsave_all_items("tok", vec![unsave_item_named("t3_a", None)]) {
        UnsaveStep::Next(mutator) => {
            assert_eq!(mutator.attempt().request.unwrap().id, "t3_a");
        }
        other => panic!("an attempt should be due, not {:?}", other),
    }
    assert!(matches!(account.unsave_all_items("tok", Vec::new()), UnsaveStep::Done(_)));
}
