use mail_sender::mail_list::MailList;
use mail_sender::mail_sender::{send_allowed, MailSender, MailSenderError, OutboundMessage, Recipient};
use mail_sender::other_mail_list::OtherMailList;
use mail_sender::person::Person;

fn person(name: &str, mail: &str) -> Person {
    Person { name: name.to_string(), mail: mail.to_string() }
}

fn names_and_mails(m: &MailSender) -> Vec<(String, String)> {
    m.recipient_list()
        .iter()
        .map(|r| (r.name().clone(), r.mail().clone()))
        .collect()
}

/// A send attempt as the shell drives it: merge and check, then build
/// the message and hand it to the recording stub transport.
fn send_via_stub(
    m: &mut MailSender,
    extra: Vec<Person>,
    sender_name: &str,
    sender_mail: &str,
    title: &str,
    body: Vec<u8>,
    stub: &mut Vec<OutboundMessage>,
) -> Result<(), MailSenderError> {
    m.prepare_send(&extra)?;
    let msg = m.compose(sender_name, sender_mail, title, body)?;
    stub.push(msg);
    Ok(())
}

#[test]
fn add_rejects_unparsable_address_and_keeps_sequence() {
    let mut m = MailSender::new();
    assert_eq!(m.add_person(person("A", "not-an-email")), Err(MailSenderError::InvalidAddress));
    assert_eq!(m.add_person(person("B", "")), Err(MailSenderError::InvalidAddress));
    assert_eq!(m.add_person(person("C", "missing-domain@")), Err(MailSenderError::InvalidAddress));
    assert_eq!(m.recipient_list().len(), 0);
    assert!(!m.person_list_is_valid());
}

#[test]
fn add_accepts_wellformed_address() {
    let mut m = MailSender::new();
    assert_eq!(m.add_person(person("Alice", "alice@x.com")), Ok(()));
    assert_eq!(names_and_mails(&m), vec![("Alice".to_string(), "alice@x.com".to_string())]);
}

#[test]
fn add_then_remove_identical_pair_restores_prior_state() {
    let mut m = MailSender::new();
    m.add_person(person("Bob", "bob@y.org")).unwrap();
    let before = names_and_mails(&m);
    m.add_person(person("Alice", "alice@x.com")).unwrap();
    m.remove_person(person("Alice", "alice@x.com"));
    assert_eq!(names_and_mails(&m), before);
}

#[test]
fn remove_of_pair_never_added_is_a_no_op() {
    let mut m = MailSender::new();
    m.add_person(person("Alice", "alice@x.com")).unwrap();
    m.add_person(person("Bob", "bob@y.org")).unwrap();
    let before = names_and_mails(&m);
    m.remove_person(person("Carol", "carol@z.net"));
    assert_eq!(names_and_mails(&m), before);
    // A matching address under another name matches nothing either.
    m.remove_person(person("Alicia", "alice@x.com"));
    assert_eq!(names_and_mails(&m), before);
}

#[test]
fn remove_strips_every_matching_duplicate() {
    let mut m = MailSender::new();
    m.add_person(person("Alice", "alice@x.com")).unwrap();
    m.add_person(person("Bob", "bob@y.org")).unwrap();
    m.add_person(person("Alice", "alice@x.com")).unwrap();
    m.remove_person(person("Alice", "alice@x.com"));
    assert_eq!(names_and_mails(&m), vec![("Bob".to_string(), "bob@y.org".to_string())]);
}

#[test]
fn send_with_no_recipients_fails_before_transport() {
    let mut m = MailSender::new();
    m.record_file("report.pdf".to_string(), true).unwrap();
    let mut stub: Vec<OutboundMessage> = Vec::new();
    let r = send_via_stub(&mut m, vec![], "Me", "me@w.com", "weekly", vec![1], &mut stub);
    assert_eq!(r, Err(MailSenderError::NoRecipients));
    assert_eq!(stub.len(), 0);
}

#[test]
fn send_with_no_attachment_fails_before_transport() {
    let mut m = MailSender::new();
    m.add_person(person("Alice", "alice@x.com")).unwrap();
    let mut stub: Vec<OutboundMessage> = Vec::new();
    let r = send_via_stub(&mut m, vec![], "Me", "me@w.com", "weekly", vec![1], &mut stub);
    assert_eq!(r, Err(MailSenderError::NoFile));
    assert_eq!(stub.len(), 0);
}

#[test]
fn set_attachment_failure_leaves_previous_attachment_untouched() {
    let mut m = MailSender::new();
    m.record_file("first.pdf".to_string(), true).unwrap();
    let r = m.add_file("no-such-file-anywhere-truly.bin".to_string());
    assert_eq!(r, Err(MailSenderError::InvalidFilePath));
    assert_eq!(m.attachment_path(), Some(&"first.pdf".to_string()));
    assert!(m.file_is_valid());
}

#[test]
fn add_file_accepts_an_existing_regular_file() {
    let mut m = MailSender::new();
    assert_eq!(m.add_file("/bin/sh".to_string()), Ok(()));
    assert_eq!(m.attachment_path(), Some(&"/bin/sh".to_string()));
}

#[test]
fn successful_send_hands_one_message_with_expected_fields() {
    let roster = MailList::new(vec![Some(person("Alice", "alice@x.com")), None]);
    let alice = roster.load_person(0).unwrap();

    let mut m = MailSender::new();
    m.add_person(alice).unwrap();
    m.record_file("report.pdf".to_string(), true).unwrap();

    let mut stub: Vec<OutboundMessage> = Vec::new();
    let r = send_via_stub(
        &mut m,
        vec![],
        "The Office",
        "office@w.com",
        "weekly report",
        vec![0x25, 0x50, 0x44, 0x46],
        &mut stub,
    );
    assert_eq!(r, Ok(()));
    assert_eq!(stub.len(), 1);
    let msg = &stub[0];
    let to: Vec<String> = msg.to.iter().map(|r| r.mail().clone()).collect();
    assert_eq!(to, vec!["alice@x.com".to_string()]);
    assert_eq!(msg.to[0].name(), "Alice");
    assert_eq!(msg.attachment_name, "report.pdf");
    assert_eq!(msg.subject, "weekly report");
    assert_eq!(msg.sender_name, "The Office");
    assert_eq!(msg.sender_mail, "office@w.com");
    assert_eq!(msg.content_type, "application/pdf");
    assert_eq!(msg.body, vec![0x25, 0x50, 0x44, 0x46]);
}

#[test]
fn invalid_adhoc_entry_aborts_send_before_transport_and_merges_nothing() {
    let mut m = MailSender::new();
    m.add_person(person("Alice", "alice@x.com")).unwrap();
    m.record_file("report.pdf".to_string(), true).unwrap();

    let mut stub: Vec<OutboundMessage> = Vec::new();
    let extra = vec![person("Dan", "dan@ok.com"), person("", "not-an-email")];
    let r = send_via_stub(&mut m, extra, "Me", "me@w.com", "weekly", vec![1], &mut stub);
    assert_eq!(r, Err(MailSenderError::InvalidAddress));
    assert_eq!(stub.len(), 0);
    // The whole batch is rejected: the valid entry before the bad one
    // was not merged either.
    assert_eq!(names_and_mails(&m), vec![("Alice".to_string(), "alice@x.com".to_string())]);
}

#[test]
fn valid_adhoc_entries_are_merged_into_the_session_in_order() {
    let mut m = MailSender::new();
    m.add_person(person("Alice", "alice@x.com")).unwrap();
    m.record_file("report.pdf".to_string(), true).unwrap();
    let extra = vec![person("Dan", "dan@ok.com"), person("Eve", "eve@ok.com")];
    assert_eq!(m.prepare_send(&extra), Ok(()));
    assert_eq!(
        names_and_mails(&m),
        vec![
            ("Alice".to_string(), "alice@x.com".to_string()),
            ("Dan".to_string(), "dan@ok.com".to_string()),
            ("Eve".to_string(), "eve@ok.com".to_string()),
        ]
    );
}

#[test]
fn predicates_are_stable_under_repetition() {
    let mut m = MailSender::new();
    for _ in 0..5 {
        assert!(!m.person_list_is_valid());
        assert!(!m.file_is_valid());
    }
    m.add_person(person("Alice", "alice@x.com")).unwrap();
    m.record_file("report.pdf".to_string(), true).unwrap();
    for _ in 0..5 {
        assert!(m.person_list_is_valid());
        assert!(m.file_is_valid());
    }
    assert_eq!(names_and_mails(&m), vec![("Alice".to_string(), "alice@x.com".to_string())]);
}

#[test]
fn compose_reports_bad_sender_address_as_invalid_message() {
    let mut m = MailSender::new();
    m.add_person(person("Alice", "alice@x.com")).unwrap();
    m.record_file("report.pdf".to_string(), true).unwrap();
    let r = m.compose("Me", "not-an-email", "weekly", vec![]);
    assert!(matches!(r, Err(MailSenderError::InvalidMessage)));
}

#[test]
fn compose_checks_recipients_then_attachment() {
    let m = MailSender::new();
    assert!(matches!(
        m.compose("Me", "me@w.com", "t", vec![]),
        Err(MailSenderError::NoRecipients)
    ));
    let mut m2 = MailSender::new();
    m2.add_person(person("Alice", "alice@x.com")).unwrap();
    assert!(matches!(m2.compose("Me", "me@w.com", "t", vec![]), Err(MailSenderError::NoFile)));
}

#[test]
fn attachment_name_is_the_file_name_under_the_path() {
    let mut m = MailSender::new();
    m.add_person(person("Alice", "alice@x.com")).unwrap();
    m.record_file("reports/2024/summary.pdf".to_string(), true).unwrap();
    let msg = m.compose("Me", "me@w.com", "t", vec![]).unwrap();
    assert_eq!(msg.attachment_name, "summary.pdf");
}

#[test]
fn unknown_extension_falls_back_to_generic_binary_type() {
    let mut m = MailSender::new();
    m.add_person(person("Alice", "alice@x.com")).unwrap();
    m.record_file("data.zzqy".to_string(), true).unwrap();
    let msg = m.compose("Me", "me@w.com", "t", vec![]).unwrap();
    assert_eq!(msg.content_type, "application/octet-stream");
}

#[test]
fn clear_resets_the_session() {
    let mut m = MailSender::new();
    m.add_person(person("Alice", "alice@x.com")).unwrap();
    m.record_file("report.pdf".to_string(), true).unwrap();
    m.clear();
    assert_eq!(m.recipient_list().len(), 0);
    assert!(!m.file_is_valid());
    assert_eq!(m.attachment_path(), None);
}

#[test]
fn failed_send_leaves_state_for_a_retry() {
    let mut m = MailSender::new();
    m.add_person(person("Alice", "alice@x.com")).unwrap();
    // No attachment yet: the attempt fails, the recipients stay.
    assert_eq!(m.prepare_send(&vec![]), Err(MailSenderError::NoFile));
    assert_eq!(names_and_mails(&m), vec![("Alice".to_string(), "alice@x.com".to_string())]);
    // After mending the problem the retry succeeds with the same data.
    m.record_file("report.pdf".to_string(), true).unwrap();
    assert_eq!(m.prepare_send(&vec![]), Ok(()));
}

#[test]
fn send_rule_mirrors_the_shell() {
    let mut m = MailSender::new();
    let others = OtherMailList::default();
    // No attachment: never allowed.
    assert!(!send_allowed(&m, &others));
    m.record_file("report.pdf".to_string(), true).unwrap();
    // Attachment but neither roster picks nor ad-hoc rows: the empty
    // ad-hoc list counts as valid, so a send may go ahead.
    assert!(send_allowed(&m, &others));
    m.add_person(person("Alice", "alice@x.com")).unwrap();
    assert!(send_allowed(&m, &others));
    // A filled ad-hoc row with a bad address blocks the send: the
    // roster route asks for an untouched ad-hoc list.
    let mut bad = OtherMailList::default();
    bad.add_person();
    bad.edit_person("not-an-email", 0);
    assert!(!send_allowed(&m, &bad));
    let mut good = OtherMailList::default();
    good.add_person();
    good.edit_person("dan@ok.com", 0);
    assert!(send_allowed(&m, &good));
}

#[test]
fn error_descriptions_name_each_kind() {
    assert_eq!(MailSenderError::InvalidAddress.describe(), "invalid address");
    assert_eq!(MailSenderError::InvalidFilePath.describe(), "invalid file path");
    assert_eq!(MailSenderError::NoRecipients.describe(), "no recipients");
    assert_eq!(MailSenderError::NoFile.describe(), "no file");
    assert_eq!(MailSenderError::InvalidMessage.describe(), "invalid message");
    assert_eq!(MailSenderError::NoRemoteConnection.describe(), "couldn't open a remote connection");
    assert_eq!(MailSenderError::CouldntSendEmail.describe(), "couldn't send email");
}

#[test]
fn recipient_constructor_validates() {
    let r = Recipient::new("Alice".to_string(), "alice@x.com".to_string()).unwrap();
    assert_eq!(r.name(), "Alice");
    assert_eq!(r.mail(), "alice@x.com");
    assert!(matches!(
        Recipient::new("Bad".to_string(), "not-an-email".to_string()),
        Err(MailSenderError::InvalidAddress)
    ));
}

#[test]
fn newer_attachment_replaces_the_previous_one() {
    let mut m = MailSender::new();
    m.record_file("first.pdf".to_string(), true).unwrap();
    m.record_file("second.pdf".to_string(), true).unwrap();
    assert_eq!(m.attachment_path(), Some(&"second.pdf".to_string()));
}

#[test]
fn send_with_only_adhoc_recipients_goes_through() {
    let mut m = MailSender::new();
    m.record_file("report.pdf".to_string(), true).unwrap();
    let extra = vec![person("Dan", "dan@ok.com")];
    assert_eq!(m.prepare_send(&extra), Ok(()));
    let msg = m.compose("Me", "me@w.com", "t", vec![]).unwrap();
    let to: Vec<String> = msg.to.iter().map(|r| r.mail().clone()).collect();
    assert_eq!(to, vec!["dan@ok.com".to_string()]);
}

#[test]
fn compose_preserves_recipient_order() {
    let mut m = MailSender::new();
    m.add_person(person("Alice", "alice@x.com")).unwrap();
    m.add_person(person("Bob", "bob@y.org")).unwrap();
    m.add_person(person("Carol", "carol@z.net")).unwrap();
    m.record_file("report.pdf".to_string(), true).unwrap();
    let msg = m.compose("Me", "me@w.com", "t", vec![]).unwrap();
    let to: Vec<String> = msg.to.iter().map(|r| r.mail().clone()).collect();
    assert_eq!(
        to,
        vec!["alice@x.com".to_string(), "bob@y.org".to_string(), "carol@z.net".to_string()]
    );
}
