use rumba::api::ai::{ask_chat_id, ask_fallback, ask_message_id, ask_quota, ask_start, AskLimit};
use rumba::api::ai_help::{Admission, Refusal};

#[test]
fn ask_limit_from_count() {
    let l = AskLimit::from_count(5);
    assert_eq!((l.count, l.remaining, l.limit), (5, 0, 5));
    assert!(ask_quota(true, 9).quota.is_none());
    assert_eq!(ask_quota(false, 0).quota.unwrap().remaining, 5);
}

#[test]
fn a_single_message_starts_a_new_conversation() {
    assert_eq!(ask_chat_id(Some(7), 1), None);
    assert_eq!(ask_chat_id(Some(7), 3), Some(7));
    assert_eq!(ask_message_id(3), 3);
    assert_eq!(ask_message_id(usize::MAX), 0);
}

#[test]
fn fallback_answer_apologises_and_stops() {
    let f = ask_fallback(9, 2, None);
    assert_eq!(f.meta.chat_id, 9);
    assert_eq!(f.meta.message_id, 2);
    assert!(f.meta.sources.is_empty());
    assert_eq!(f.apology.choices[0].delta.content, "Sorry, I don't know how to help with that.");
    assert_eq!(f.stop.choices[0].finish_reason.as_deref(), Some("stop"));
    assert_eq!(f.stop.id, 1);
}

#[test]
fn ask_start_checks_quota_before_services() {
    assert_eq!(ask_start(false, None, true), Err(Refusal::PaymentRequired));
    assert_eq!(ask_start(false, Some(2), true), Ok(Admission::Counted(2)));
}
