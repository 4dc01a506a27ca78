use rumba::api::ai_help::preparation_refunds;
use rumba::ai::error::AIError;
use rumba::api::ai_help::AnswerLog;
use rumba::api::ai_help::{help_ids, AIHelpLog, AIHelpLogMessage};
use rumba::api::common::Timestamp;
use rumba::ai::helpers::{ChatMessage, Role};
use rumba::api::ai_help::{
    admission, ai_help_start, answer_quota, default_meta_big_int, history_enabled, qa_check_for_error_trigger,
    quota, status_for_finish_reason, stream_end, AIHelpLimit, Admission, AiHelpMessageStatus, ChunkChoice,
    Refusal, ResponseContext, AI_HELP_LIMIT,
};
use rumba::api::error::ApiError;
use rumba::api::settings::Settings;

#[test]
fn limit_counts_what_is_left() {
    let l = AIHelpLimit::from_count(2);
    assert_eq!((l.count, l.remaining, l.limit), (2, 3, 5));
    assert_eq!(l.count + l.remaining, l.limit);
    let over = AIHelpLimit::from_count(7);
    assert_eq!(over.remaining, -2);
}

#[test]
fn subscribers_have_no_quota() {
    assert!(quota(true, 0).quota.is_none());
    let q = quota(false, 1).quota.unwrap();
    assert_eq!((q.count, q.remaining, q.limit), (1, AI_HELP_LIMIT - 1, AI_HELP_LIMIT));
}

#[test]
fn admission_and_refusals() {
    assert_eq!(admission(true, None), Admission::Unlimited);
    assert_eq!(admission(false, Some(3)), Admission::Counted(3));
    assert_eq!(admission(false, None), Admission::PaymentRequired);
    assert_eq!(ai_help_start(false, None, false), Err(Refusal::PaymentRequired));
    assert_eq!(ai_help_start(false, Some(1), false), Err(Refusal::NotImplemented));
    assert_eq!(ai_help_start(true, None, true), Ok(Admission::Unlimited));
    assert_eq!(answer_quota(Admission::Counted(4)).unwrap().remaining, 1);
    assert!(answer_quota(Admission::Unlimited).is_none());
}

#[test]
fn history_follows_the_settings() {
    let s = Settings { locale_override: None, mdnplus_newsletter: false, no_ads: false, ai_help_history: true };
    assert!(history_enabled(&Some(s)));
    assert!(!history_enabled(&None));
}

#[test]
fn qa_trigger_fires_on_the_last_user_message() {
    let messages = vec![
        ChatMessage::new(Role::User, "magic".to_string()),
        ChatMessage::new(Role::Assistant, "answer".to_string()),
    ];
    assert!(matches!(qa_check_for_error_trigger(&messages, Some("magic")), Err(ApiError::Artificial)));
    assert!(qa_check_for_error_trigger(&messages, Some("other")).is_ok());
    assert!(qa_check_for_error_trigger(&messages, None).is_ok());
}

#[test]
fn big_ints_that_do_not_fit_are_dropped() {
    assert_eq!(default_meta_big_int(Some(12)), Some(12));
    assert_eq!(default_meta_big_int(Some(i64::MAX as u128)), Some(i64::MAX));
    assert_eq!(default_meta_big_int(Some(i64::MAX as u128 + 1)), None);
    assert_eq!(default_meta_big_int(None), None);
}

#[test]
fn finish_reasons_map_to_statuses() {
    assert_eq!(status_for_finish_reason(Some("length")), AiHelpMessageStatus::FinishedTooLong);
    assert_eq!(status_for_finish_reason(Some("stop")), AiHelpMessageStatus::Success);
    assert_eq!(status_for_finish_reason(Some("content_filter")), AiHelpMessageStatus::FinishedContentFilter);
    assert_eq!(status_for_finish_reason(Some("other")), AiHelpMessageStatus::Unknown);
    assert_eq!(status_for_finish_reason(None), AiHelpMessageStatus::FinishedNoReason);
}

#[test]
fn response_context_counts_bytes_and_keeps_the_last_status() {
    let mut ctx = ResponseContext::new();
    ctx.observe(&ChunkChoice { content: Some("Hé".to_string()), finish_reason: None });
    assert_eq!(ctx.len, 3);
    assert_eq!(ctx.status, AiHelpMessageStatus::FinishedNoReason);
    ctx.observe(&ChunkChoice { content: Some("llo".to_string()), finish_reason: Some("stop".to_string()) });
    assert_eq!(ctx.len, 6);
    assert_eq!(ctx.status, AiHelpMessageStatus::Success);
    assert_eq!(stream_end(ctx, None), (AiHelpMessageStatus::Success, false));
    assert_eq!(stream_end(ctx, Some(AiHelpMessageStatus::Unknown)), (AiHelpMessageStatus::Unknown, true));
}

#[test]
fn answers_are_logged_with_their_texts() {
    let mut log = AnswerLog::new();
    log.push_chunk(Some(ChunkChoice { content: Some("Hel".into()), finish_reason: None }));
    log.push_chunk(None);
    log.push_chunk(Some(ChunkChoice { content: Some("lo".into()), finish_reason: Some("stop".into()) }));
    assert!(log.has_finish_reason);
    let m = log.response_message();
    assert_eq!(m.role, Role::Assistant);
    assert_eq!(m.content.as_deref(), Some("Hello"));
}

#[test]
fn history_ids_and_logs() {
    let ids = help_ids(None, 10, 11, Some(9));
    assert_eq!((ids.chat_id, ids.message_id, ids.parent_id), (10, 11, Some(9)));
    assert_eq!(help_ids(Some(3), 10, 11, None).chat_id, 3);
    let t = Timestamp { seconds: 1, nanos: 0 };
    let m = AIHelpLogMessage::new(ids, vec![], t, ChatMessage::new(Role::User, "q".into()), None);
    assert!(m.metadata.quota.is_none());
    let log = AIHelpLog::from_messages(vec![m]);
    assert_eq!(log.chat_id, 10);
    assert_eq!(AIHelpLog::from_messages(vec![]).chat_id, 0);
}

#[test]
fn a_failed_preparation_that_is_on_us_gives_the_question_back_once() {
    assert_eq!(preparation_refunds(None), 0);
    assert_eq!(preparation_refunds(Some(AIError::FlaggedError)), 0);
    assert_eq!(preparation_refunds(Some(AIError::NoUserPrompt)), 1);
    assert_eq!(preparation_refunds(Some(AIError::OpenAIError)), 1);
}
