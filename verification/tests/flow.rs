use cle_albert::encrypt_api_key;
use cle_albert::error::RenewalError;
use cle_albert::flow::{
    is_storable, key_file_path, react, stored_credential, strip_last, strip_line_endings, Action,
    Event, API_URL, KEY_FILENAME,
};
use cle_albert::renewal::{IssuedKey, RemoteReply};

fn file(contents: &str) -> Event {
    Event::FileRead {
        contents: Some(contents.to_string()),
    }
}

fn replied(status: u16, token: Option<&str>) -> Event {
    Event::Replied {
        reply: RemoteReply::Answered {
            status,
            body: token.map(|t| IssuedKey {
                id: 7,
                token: t.to_string(),
            }),
        },
    }
}

fn renew(credential: &str) -> Action {
    Action::Renew {
        credential: credential.to_string(),
    }
}

fn fail(e: RenewalError) -> Action {
    Action::Finish { outcome: Err(e) }
}

#[test]
fn constants_name_the_service_and_the_default_file() {
    assert_eq!(API_URL, "https://albert.api.etalab.gouv.fr/tokens");
    assert_eq!(KEY_FILENAME, "albertine.key");
}

#[test]
fn key_file_path_defaults_to_the_fixed_name() {
    assert_eq!(key_file_path(None), "albertine.key");
}

#[test]
fn key_file_path_takes_the_named_file() {
    assert_eq!(key_file_path(Some("/tmp/k.key".to_string())), "/tmp/k.key");
    assert_eq!(key_file_path(Some(String::new())), "");
}

#[test]
fn strip_last_removes_one_matching_character() {
    assert_eq!(strip_last("abc\n", '\n'), "abc");
    assert_eq!(strip_last("abc\n\n", '\n'), "abc\n");
    assert_eq!(strip_last("abc", '\n'), "abc");
    assert_eq!(strip_last("abc\r", '\n'), "abc\r");
    assert_eq!(strip_last("\n", '\n'), "");
    assert_eq!(strip_last("", '\n'), "");
    assert_eq!(strip_last("é€", '€'), "é");
}

#[test]
fn stored_file_gives_back_the_key_as_credential() {
    let stored = encrypt_api_key("secret123");
    assert_eq!(stored, "WU9JWE9eGxgZ");
    assert_eq!(react(file(&stored)), renew("secret123"));
}

#[test]
fn stored_file_may_end_in_one_newline() {
    assert_eq!(react(file("WU9JWE9eGxgZ\n")), renew("secret123"));
}

#[test]
fn stored_file_with_two_newlines_is_invalid() {
    assert_eq!(
        react(file("WU9JWE9eGxgZ\n\n")),
        fail(RenewalError::InvalidStoredKey)
    );
}

#[test]
fn stored_file_with_crlf_is_invalid() {
    assert_eq!(
        react(file("WU9JWE9eGxgZ\r\n")),
        fail(RenewalError::InvalidStoredKey)
    );
}

#[test]
fn empty_file_stops_before_the_service_is_asked() {
    assert_eq!(react(file("")), fail(RenewalError::EmptyStoredKey));
}

#[test]
fn file_with_only_a_newline_is_empty() {
    assert_eq!(react(file("\n")), fail(RenewalError::EmptyStoredKey));
}

#[test]
fn unreadable_file_stops_the_run() {
    assert_eq!(
        react(Event::FileRead { contents: None }),
        fail(RenewalError::StorageUnreadable)
    );
}

#[test]
fn file_that_is_not_base64_is_invalid() {
    assert_eq!(
        react(file("not base64!!")),
        fail(RenewalError::InvalidStoredKey)
    );
}

#[test]
fn file_that_does_not_hold_utf8_is_invalid() {
    assert_eq!(react(file("1Q==")), fail(RenewalError::InvalidStoredKey));
}

#[test]
fn line_ending_of_the_key_is_not_sent() {
    assert_eq!(react(file(&encrypt_api_key("abc\r\n"))), renew("abc"));
    assert_eq!(react(file(&encrypt_api_key("abc\n"))), renew("abc"));
    assert_eq!(react(file(&encrypt_api_key("abc\r"))), renew("abc"));
    assert_eq!(react(file(&encrypt_api_key("abc"))), renew("abc"));
}

#[test]
fn every_trailing_line_ending_is_dropped() {
    assert_eq!(react(file(&encrypt_api_key("k\n\n"))), renew("k"));
    assert_eq!(react(file(&encrypt_api_key("k\n\r"))), renew("k"));
    assert_eq!(react(file(&encrypt_api_key("k\r\r"))), renew("k"));
    assert_eq!(react(file(&encrypt_api_key("k\r\n\r\n"))), renew("k"));
    assert_eq!(react(file(&encrypt_api_key("k\n\n\n\r\r\n"))), renew("k"));
}

#[test]
fn line_endings_inside_the_key_stay() {
    assert_eq!(react(file(&encrypt_api_key("a\nb"))), renew("a\nb"));
    assert_eq!(react(file(&encrypt_api_key("a\r\nb\r\n"))), renew("a\r\nb"));
    assert_eq!(react(file(&encrypt_api_key("\nk"))), renew("\nk"));
}

#[test]
fn other_white_space_at_the_end_stays() {
    assert_eq!(react(file(&encrypt_api_key("k \n"))), renew("k "));
    assert_eq!(react(file(&encrypt_api_key("k\t"))), renew("k\t"));
    assert_eq!(react(file(&encrypt_api_key("k\n "))), renew("k\n "));
}

#[test]
fn credential_never_ends_in_a_line_ending() {
    let tails = ["", "\n", "\r", "\r\n", "\n\r", "\n\n", "\r\r\n\n\r"];
    for head in ["k", "a\nb", "clé", "x y"] {
        for tail in tails {
            let key = format!("{}{}", head, tail);
            match react(file(&encrypt_api_key(&key))) {
                Action::Renew { credential } => {
                    assert_eq!(credential, head);
                    assert!(!credential.ends_with('\n') && !credential.ends_with('\r'));
                }
                other => panic!("expected a request, got {:?}", other),
            }
        }
    }
}

#[test]
fn strip_line_endings_removes_all_of_them_at_the_end() {
    assert_eq!(strip_line_endings("abc\r\n"), "abc");
    assert_eq!(strip_line_endings("abc\n\n"), "abc");
    assert_eq!(strip_line_endings("abc\n\r\n\r"), "abc");
    assert_eq!(strip_line_endings("abc"), "abc");
    assert_eq!(strip_line_endings("a\nbc"), "a\nbc");
    assert_eq!(strip_line_endings("\r\n"), "");
    assert_eq!(strip_line_endings(""), "");
    assert_eq!(strip_line_endings("é€\n"), "é€");
}

#[test]
fn key_that_is_only_a_line_ending_gives_an_empty_credential() {
    assert_eq!(react(file(&encrypt_api_key("\n"))), renew(""));
    assert_eq!(react(file(&encrypt_api_key("\r\n"))), renew(""));
    assert_eq!(react(file(&encrypt_api_key("\n\n\r"))), renew(""));
}

#[test]
fn stored_credential_reports_each_failure() {
    assert_eq!(stored_credential(None), Err(RenewalError::StorageUnreadable));
    assert_eq!(
        stored_credential(Some(String::new())),
        Err(RenewalError::EmptyStoredKey)
    );
    assert_eq!(
        stored_credential(Some("%%%".to_string())),
        Err(RenewalError::InvalidStoredKey)
    );
    assert_eq!(
        stored_credential(Some("S0hJ\n".to_string())),
        Ok("abc".to_string())
    );
    assert_eq!(
        stored_credential(Some(encrypt_api_key("abc\n\n"))),
        Ok("abc".to_string())
    );
}

#[test]
fn issued_key_is_persisted_in_its_stored_form() {
    let action = react(replied(200, Some("abc999")));
    assert_eq!(
        action,
        Action::Persist {
            contents: encrypt_api_key("abc999")
        }
    );
    assert_eq!(
        action,
        Action::Persist {
            contents: "S0hJExMT".to_string()
        }
    );
    assert_eq!(
        react(Event::Written { done: true }),
        Action::Finish { outcome: Ok(()) }
    );
}

#[test]
fn refusal_stops_the_run_and_writes_nothing() {
    assert_eq!(react(replied(401, None)), fail(RenewalError::RemoteRejected));
    assert_eq!(
        react(replied(403, Some("abc999"))),
        fail(RenewalError::RemoteRejected)
    );
}

#[test]
fn success_without_a_key_stops_the_run() {
    assert_eq!(
        react(replied(200, None)),
        fail(RenewalError::ResponseMalformed)
    );
}

#[test]
fn unanswered_request_stops_the_run() {
    assert_eq!(
        react(Event::Replied {
            reply: RemoteReply::Unreachable
        }),
        fail(RenewalError::RemoteUnreachable)
    );
}

#[test]
fn failed_write_is_reported() {
    assert_eq!(
        react(Event::Written { done: false }),
        fail(RenewalError::StorageWriteFailed)
    );
}

#[test]
fn ordinary_events_are_storable() {
    assert!(is_storable(&file("WU9JWE9eGxgZ")));
    assert!(is_storable(&replied(200, Some("abc999"))));
    assert!(is_storable(&replied(401, None)));
    assert!(is_storable(&Event::Written { done: true }));
}

#[test]
fn persisted_contents_are_read_back_by_the_next_run() {
    for token in ["abc999", "t", "clé 🔑", "with-dash_and.dot"] {
        match react(replied(200, Some(token))) {
            Action::Persist { contents } => {
                assert_eq!(react(file(&contents)), renew(token));
                assert_eq!(react(file(&format!("{}\n", contents))), renew(token));
            }
            other => panic!("expected a write, got {:?}", other),
        }
    }
}

#[test]
fn persisted_token_with_line_endings_is_read_back_without_them() {
    match react(replied(200, Some("abc999\n\n"))) {
        Action::Persist { contents } => {
            assert_eq!(contents, encrypt_api_key("abc999\n\n"));
            assert_eq!(react(file(&contents)), renew("abc999"));
        }
        other => panic!("expected a write, got {:?}", other),
    }
}

#[test]
fn empty_issued_token_leaves_an_empty_file() {
    match react(replied(200, Some(""))) {
        Action::Persist { contents } => {
            assert_eq!(contents, "");
            assert_eq!(react(file(&contents)), fail(RenewalError::EmptyStoredKey));
        }
        other => panic!("expected a write, got {:?}", other),
    }
}

/// Drives a whole run against a file and a service that are plain values.
fn run(disk: &mut Option<String>, service: Option<(u16, Option<&str>)>) -> (Result<(), RenewalError>, Vec<String>) {
    let mut sent: Vec<String> = Vec::new();
    let mut event = Event::FileRead {
        contents: disk.clone(),
    };
    loop {
        assert!(is_storable(&event));
        match react(event) {
            Action::Renew { credential } => {
                sent.push(credential);
                event = match service {
                    Some((status, token)) => replied(status, token),
                    None => Event::Replied {
                        reply: RemoteReply::Unreachable,
                    },
                };
            }
            Action::Persist { contents } => {
                *disk = Some(contents);
                event = Event::Written { done: true };
            }
            Action::Finish { outcome } => return (outcome, sent),
        }
    }
}

#[test]
fn whole_run_renews_and_rewrites_the_file() {
    let mut disk = Some("WU9JWE9eGxgZ\n".to_string());
    let (outcome, sent) = run(&mut disk, Some((200, Some("abc999"))));
    assert_eq!(outcome, Ok(()));
    assert_eq!(sent, vec!["secret123".to_string()]);
    assert_eq!(disk, Some("S0hJExMT".to_string()));
}

#[test]
fn whole_run_on_refusal_leaves_the_file() {
    let mut disk = Some("WU9JWE9eGxgZ".to_string());
    let (outcome, sent) = run(&mut disk, Some((401, None)));
    assert_eq!(outcome, Err(RenewalError::RemoteRejected));
    assert_eq!(sent, vec!["secret123".to_string()]);
    assert_eq!(disk, Some("WU9JWE9eGxgZ".to_string()));
}

#[test]
fn whole_run_on_empty_file_asks_nothing() {
    let mut disk = Some(String::new());
    let (outcome, sent) = run(&mut disk, Some((200, Some("abc999"))));
    assert_eq!(outcome, Err(RenewalError::EmptyStoredKey));
    assert!(sent.is_empty());
    assert_eq!(disk, Some(String::new()));
}

#[test]
fn whole_run_without_a_file_asks_nothing() {
    let mut disk = None;
    let (outcome, sent) = run(&mut disk, Some((200, Some("abc999"))));
    assert_eq!(outcome, Err(RenewalError::StorageUnreadable));
    assert!(sent.is_empty());
    assert_eq!(disk, None);
}

#[test]
fn whole_run_without_an_answer_leaves_the_file() {
    let mut disk = Some("WU9JWE9eGxgZ".to_string());
    let (outcome, _) = run(&mut disk, None);
    assert_eq!(outcome, Err(RenewalError::RemoteUnreachable));
    assert_eq!(disk, Some("WU9JWE9eGxgZ".to_string()));
}

#[test]
fn two_runs_in_a_row_present_the_key_issued_by_the_first() {
    let mut disk = Some("WU9JWE9eGxgZ".to_string());
    let (first, _) = run(&mut disk, Some((200, Some("abc999"))));
    assert_eq!(first, Ok(()));
    let (second, sent) = run(&mut disk, Some((200, Some("next"))));
    assert_eq!(second, Ok(()));
    assert_eq!(sent, vec!["abc999".to_string()]);
    assert_eq!(disk, Some(encrypt_api_key("next")));
}
