use upload_gateway::app_config::SlackConfig;
use upload_gateway::error::{ErrorKind, ErrorWithStatusAndDesc};
use upload_gateway::project::slack::{
    collect_taken, create_qr_data, QrError, SlackEvent, SlackLinkSender, SlackMessage, SlackStep,
};

const LINK: &str = "https://storage.cloud.google.com/bucket1/abc.txt.gz";

fn sender(qr_code: bool, default_text_before: Option<&str>) -> SlackLinkSender {
    SlackLinkSender::new(SlackConfig {
        token: "xoxb-token".to_string(),
        targets: vec!["C1".to_string(), "C2".to_string()],
        qr_code,
        default_text_before: default_text_before.map(|s| s.to_string()),
    })
}

fn message(channel: &str, thread: &str) -> SlackMessage {
    SlackMessage { channel_id: channel.to_string(), thread_id: thread.to_string() }
}

#[test]
fn sender_keeps_its_configuration() {
    let s = sender(true, Some("See: "));
    assert_eq!(s.token, "xoxb-token");
    assert_eq!(s.targets, vec!["C1".to_string(), "C2".to_string()]);
    assert!(s.qr_code);
    assert_eq!(s.default_text_before, Some("See: ".to_string()));
}

#[test]
fn message_uses_the_words_of_the_request_first() {
    let s = sender(false, Some("Tenant words: "));
    let request = "Custom prefix text from query: ".to_string();
    assert_eq!(
        s.compose(LINK, Some(&request)),
        "Custom prefix text from query: <https://storage.cloud.google.com/bucket1/abc.txt.gz|link>"
    );
}

#[test]
fn message_uses_the_words_of_the_tenant_next() {
    let s = sender(false, Some("Tenant words: "));
    assert_eq!(
        s.compose(LINK, None),
        "Tenant words: <https://storage.cloud.google.com/bucket1/abc.txt.gz|link>"
    );
}

#[test]
fn message_has_words_of_its_own() {
    let s = sender(false, None);
    assert_eq!(
        s.compose(LINK, None),
        "Download file url: <https://storage.cloud.google.com/bucket1/abc.txt.gz|link>"
    );
}

#[test]
fn mirror_starts_with_a_message_for_every_channel() {
    let s = sender(true, None);
    assert_eq!(
        s.post_link(LINK, None, SlackEvent::Start),
        SlackStep::SendMessages {
            text: "Download file url: <https://storage.cloud.google.com/bucket1/abc.txt.gz|link>"
                .to_string(),
            targets: vec!["C1".to_string(), "C2".to_string()],
        }
    );
}

#[test]
fn failed_message_ends_the_mirror() {
    let s = sender(true, None);
    assert_eq!(
        s.post_link(LINK, None, SlackEvent::MessagesSent(Err("channel_not_found".to_string()))),
        SlackStep::Done(Err(ErrorWithStatusAndDesc {
            kind: ErrorKind::UpstreamError,
            desc: "Slack error: channel_not_found".to_string(),
        }))
    );
}

#[test]
fn mirror_without_qr_code_ends_after_the_messages() {
    let s = sender(false, None);
    let sent = vec![Some(message("C1", "1.1")), Some(message("C2", "2.2"))];
    assert_eq!(
        s.post_link(LINK, None, SlackEvent::MessagesSent(Ok(sent))),
        SlackStep::Done(Ok(()))
    );
}

#[test]
fn qr_code_goes_into_the_thread_of_every_taken_message() {
    let s = sender(true, None);
    let sent = vec![Some(message("C1", "1.1")), None, Some(message("C2", "2.2"))];
    match s.post_link(LINK, None, SlackEvent::MessagesSent(Ok(sent))) {
        SlackStep::SendImages { image, threads } => {
            assert_eq!(threads, vec![message("C1", "1.1"), message("C2", "2.2")]);
            assert_eq!(image, create_qr_data(LINK).unwrap());
            assert_eq!(&image[..8], &[0x89, b'P', b'N', b'G', 0x0d, 0x0a, 0x1a, 0x0a]);
        }
        other => panic!("unexpected step {:?}", other),
    }
}

#[test]
fn link_without_qr_code_ends_the_mirror() {
    let s = sender(true, None);
    let long_link = "x".repeat(8000);
    assert_eq!(
        s.post_link(&long_link, None, SlackEvent::MessagesSent(Ok(vec![]))),
        SlackStep::Done(Err(ErrorWithStatusAndDesc {
            kind: ErrorKind::InternalError,
            desc: "QR code create failed".to_string(),
        }))
    );
}

#[test]
fn failed_picture_ends_the_mirror() {
    let s = sender(true, None);
    assert_eq!(
        s.post_link(LINK, None, SlackEvent::ImagesSent(Err("file too big".to_string()))),
        SlackStep::Done(Err(ErrorWithStatusAndDesc {
            kind: ErrorKind::UpstreamError,
            desc: "Slack error: file too big".to_string(),
        }))
    );
    assert_eq!(s.post_link(LINK, None, SlackEvent::ImagesSent(Ok(()))), SlackStep::Done(Ok(())));
}

#[test]
fn taken_messages_keep_their_order() {
    let sent = vec![None, Some(message("A", "1")), None, Some(message("B", "2")), None];
    assert_eq!(collect_taken(&sent), vec![message("A", "1"), message("B", "2")]);
    assert_eq!(collect_taken(&vec![]), Vec::<SlackMessage>::new());
    assert_eq!(collect_taken(&vec![None, None]), Vec::<SlackMessage>::new());
}

#[test]
fn qr_code_is_a_grey_png() {
    let png = create_qr_data("hello").unwrap();
    assert_eq!(&png[..8], &[0x89, b'P', b'N', b'G', 0x0d, 0x0a, 0x1a, 0x0a]);
    assert_eq!(&png[12..16], b"IHDR");
    assert_eq!(png[24], 8);
    assert_eq!(png[25], 0);
    assert_eq!(create_qr_data("hello").unwrap(), png);
    assert_ne!(create_qr_data("world").unwrap(), png);
}

#[test]
fn text_too_long_for_a_qr_code_is_refused() {
    let long = "x".repeat(8000);
    assert_eq!(create_qr_data(&long), Err(QrError::NotEncodable));
}
