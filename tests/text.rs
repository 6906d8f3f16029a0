use mail_tm::inspect::extract_link;
use mail_tm::list::{contains_verification_email, From, HydraMember, ListMessages};
use mail_tm::messages::{self, Message};
use mail_tm::text::{contains_str, text_after_last};

fn message_with_text(text: &str) -> Message {
    Message {
        context: "/contexts/Message".to_string(),
        id: "/messages/m1".to_string(),
        type_field: "Message".to_string(),
        id2: "m1".to_string(),
        account_id: "/accounts/a1".to_string(),
        msg_id: "<m1@example.com>".to_string(),
        from: messages::From { address: "x@y.z".to_string(), name: "X".to_string() },
        to: vec![],
        cc: vec![],
        bcc: vec![],
        subject: "Verify".to_string(),
        seen: false,
        flagged: false,
        verification_results: vec![],
        retention: false,
        retention_date: 0,
        text: text.to_string(),
        html: vec![],
        has_attachments: false,
        attachments: vec![],
        download_url: String::new(),
        size: 0,
        created_at: String::new(),
        updated_at: String::new(),
    }
}

fn member_from(address: &str) -> HydraMember {
    HydraMember {
        id: "/messages/m1".to_string(),
        type_field: "Message".to_string(),
        id2: "m1".to_string(),
        account_id: "/accounts/a1".to_string(),
        msgid: "<m1@example.com>".to_string(),
        from: From { address: address.to_string(), name: String::new() },
        to: vec![],
        subject: String::new(),
        intro: String::new(),
        seen: false,
        has_attachments: false,
        download_url: String::new(),
        size: 0,
        created_at: String::new(),
        updated_at: String::new(),
    }
}

fn page(members: Vec<HydraMember>) -> ListMessages {
    let n = members.len() as i64;
    ListMessages {
        context: "/contexts/Message".to_string(),
        id: "/messages".to_string(),
        type_field: "hydra:Collection".to_string(),
        hydra_member: members,
        hydra_total_items: n,
    }
}

#[test]
fn contains_str_cases() {
    assert!(contains_str("hello world", "o w"));
    assert!(contains_str("abc", ""));
    assert!(contains_str("abc", "abc"));
    assert!(!contains_str("abc", "abcd"));
    assert!(!contains_str("", "a"));
    assert!(!contains_str("aXbXc", "XX"));
}

#[test]
fn text_after_last_cases() {
    assert_eq!(text_after_last("a,b,c", ","), "c");
    assert_eq!(text_after_last("no separator", ","), "no separator");
    assert_eq!(text_after_last("ends with,", ","), "");
    assert_eq!(text_after_last("caf\u{e9}::\u{e9}t\u{e9}", "::"), "\u{e9}t\u{e9}");
}

#[test]
fn extract_link_takes_text_after_last_marker() {
    let message = message_with_text("Hi\nEmail: old\nEmail: https://click.example.com/ls?upn=x");
    assert_eq!(extract_link(message), "https://click.example.com/ls?upn=x");
}

#[test]
fn extract_link_without_marker_keeps_text() {
    assert_eq!(extract_link(message_with_text("no link here")), "no link here");
}

#[test]
fn verification_email_found() {
    let messages = page(vec![member_from("a@b.c"), member_from("noreply@discord.com")]);
    assert!(contains_verification_email(messages));
}

#[test]
fn verification_email_absent() {
    assert!(!contains_verification_email(page(vec![member_from("a@b.c")])));
    assert!(!contains_verification_email(page(vec![])));
}
