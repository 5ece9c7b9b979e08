//! The mirror of a download link into chat channels: a message for each
//! channel and, where configured, a QR code of the link in each message's
//! thread.

use crate::app_config::{SlackConfig, SlackConfigView};
use crate::error::{failure, ErrorKind, ErrorView, ErrorWithStatusAndDesc};
use crate::helpers::text_view;
use crate::outside::{qr_code_png, qr_png};
use crate::text::{clone_texts, texts_of};
use vstd::prelude::*;

verus! {

/// Why no QR code could be made.
#[derive(Debug, Clone, Copy, PartialEq, Eq, Structural)]
pub enum QrError {
    /// The text is too long for a QR code, or the picture could not be
    /// written.
    NotEncodable,
}

/// Makes the PNG picture of the QR code of a text.
pub fn create_qr_data(qr_text: &str) -> (r: Result<Vec<u8>, QrError>)
    ensures
        match r {
            Ok(png) => qr_code_png(qr_text@) == Some(png@),
            Err(_) => qr_code_png(qr_text@) is None,
        },
{
    match qr_png(qr_text) {
        Some(png) => Ok(png),
        None => Err(QrError::NotEncodable),
    }
}

/// A message that the chat service has taken: where it stands.
#[derive(Debug, Clone, PartialEq, Eq)]
pub struct SlackMessage {
    pub channel_id: String,
    pub thread_id: String,
}

/// The mathematical content of a [`SlackMessage`].
pub ghost struct SlackMessageView {
    pub channel_id: Seq<char>,
    pub thread_id: Seq<char>,
}

impl View for SlackMessage {
    type V = SlackMessageView;

    open spec fn view(&self) -> SlackMessageView {
        SlackMessageView { channel_id: self.channel_id@, thread_id: self.thread_id@ }
    }
}

/// The views of a list of messages.
pub open spec fn messages_of(v: Seq<SlackMessage>) -> Seq<SlackMessageView> {
    Seq::new(v.len(), |i: int| v[i]@)
}

/// The views of what the chat service reported for a list of channels.
pub open spec fn results_of(v: Seq<Option<SlackMessage>>) -> Seq<Option<SlackMessageView>> {
    Seq::new(
        v.len(),
        |i: int|
            match v[i] {
                Some(m) => Some(m@),
                None => None,
            },
    )
}

/// The messages that were taken, in the order of their channels: a channel
/// for which the chat service reported no message has none.
pub open spec fn taken_messages(results: Seq<Option<SlackMessageView>>) -> Seq<SlackMessageView>
    decreases results.len(),
{
    if results.len() == 0 {
        Seq::empty()
    } else {
        match results.last() {
            Some(m) => taken_messages(results.drop_last()).push(m),
            None => taken_messages(results.drop_last()),
        }
    }
}

/// The words before the link: those of the request, else those of the
/// tenant, else the gateway's own.
pub open spec fn link_prefix(request: Option<Seq<char>>, tenant: Option<Seq<char>>) -> Seq<char> {
    match request {
        Some(p) => p,
        None => match tenant {
            Some(p) => p,
            None => "Download file url: "@,
        },
    }
}

/// The message that announces a link.
pub open spec fn link_message(prefix: Seq<char>, link: Seq<char>) -> Seq<char> {
    prefix + "<"@ + link + "|link>"@
}

/// What happened while a link was mirrored.
#[derive(Debug, PartialEq, Eq)]
pub enum SlackEvent {
    /// A link is to be mirrored.
    Start,
    /// The messages were sent to all channels at once: the message of each
    /// channel in the order of the channels, or the words of the first
    /// failure.
    MessagesSent(Result<Vec<Option<SlackMessage>>, String>),
    /// The pictures were sent to all threads at once: done, or the words of
    /// the first failure.
    ImagesSent(Result<(), String>),
}

/// The mathematical content of a [`SlackEvent`].
pub ghost enum SlackEventView {
    Start,
    MessagesSent(Result<Seq<Option<SlackMessageView>>, Seq<char>>),
    ImagesSent(Result<(), Seq<char>>),
}

impl View for SlackEvent {
    type V = SlackEventView;

    open spec fn view(&self) -> SlackEventView {
        match *self {
            SlackEvent::Start => SlackEventView::Start,
            SlackEvent::MessagesSent(Ok(results)) => SlackEventView::MessagesSent(
                Ok(results_of(results@)),
            ),
            SlackEvent::MessagesSent(Err(words)) => SlackEventView::MessagesSent(Err(words@)),
            SlackEvent::ImagesSent(Ok(())) => SlackEventView::ImagesSent(Ok(())),
            SlackEvent::ImagesSent(Err(words)) => SlackEventView::ImagesSent(Err(words@)),
        }
    }
}

/// What the mirror does next.
#[derive(Debug, PartialEq, Eq)]
pub enum SlackStep {
    /// Send this text to each of these channels, all at once, and give up at
    /// the first failure.
    SendMessages { text: String, targets: Vec<String> },
    /// Send this picture into each of these threads, all at once, and give up
    /// at the first failure.
    SendImages { image: Vec<u8>, threads: Vec<SlackMessage> },
    /// The mirror is over.
    Done(Result<(), ErrorWithStatusAndDesc>),
}

/// The mathematical content of a [`SlackStep`].
pub ghost enum SlackStepView {
    SendMessages { text: Seq<char>, targets: Seq<Seq<char>> },
    SendImages { image: Seq<u8>, threads: Seq<SlackMessageView> },
    Done(Result<(), ErrorView>),
}

/// The view of an end of the mirror.
pub open spec fn done_view(r: Result<(), ErrorWithStatusAndDesc>) -> Result<(), ErrorView> {
    match r {
        Ok(()) => Ok(()),
        Err(e) => Err(e@),
    }
}

impl View for SlackStep {
    type V = SlackStepView;

    open spec fn view(&self) -> SlackStepView {
        match *self {
            SlackStep::SendMessages { text, targets } => SlackStepView::SendMessages {
                text: text@,
                targets: texts_of(targets@),
            },
            SlackStep::SendImages { image, threads } => SlackStepView::SendImages {
                image: image@,
                threads: messages_of(threads@),
            },
            SlackStep::Done(r) => SlackStepView::Done(done_view(r)),
        }
    }
}

/// What a tenant's mirror is configured to do.
pub ghost struct SenderView {
    /// The token of the chat service.
    pub token: Seq<char>,
    pub targets: Seq<Seq<char>>,
    pub qr_code: bool,
    pub default_text_before: Option<Seq<char>>,
}

/// The mirror that a configuration describes.
pub open spec fn sender_of(config: SlackConfigView) -> SenderView {
    SenderView {
        token: config.token,
        targets: config.targets,
        qr_code: config.qr_code,
        default_text_before: config.default_text_before,
    }
}

/// The next step of the mirror of `link`.
///
/// It starts with the message for every configured channel, in their order.
/// A failed message ends it. After the messages, a tenant with QR codes gets
/// the picture of the link sent into the thread of every message that was
/// taken; a link that has no QR code ends the mirror as a failure. A failed
/// picture ends it as well, with the same words as a failed message.
pub open spec fn slack_step(
    sender: SenderView,
    link: Seq<char>,
    text_prefix: Option<Seq<char>>,
    event: SlackEventView,
) -> SlackStepView {
    match event {
        SlackEventView::Start => SlackStepView::SendMessages {
            text: link_message(link_prefix(text_prefix, sender.default_text_before), link),
            targets: sender.targets,
        },
        SlackEventView::MessagesSent(Err(words)) => SlackStepView::Done(
            Err(failure(ErrorKind::UpstreamError, "Slack error: "@ + words)),
        ),
        SlackEventView::MessagesSent(Ok(results)) => if sender.qr_code {
            match qr_code_png(link) {
                Some(image) => SlackStepView::SendImages {
                    image,
                    threads: taken_messages(results),
                },
                None => SlackStepView::Done(
                    Err(failure(ErrorKind::InternalError, "QR code create failed"@)),
                ),
            }
        } else {
            SlackStepView::Done(Ok(()))
        },
        SlackEventView::ImagesSent(Err(words)) => SlackStepView::Done(
            Err(failure(ErrorKind::UpstreamError, "Slack error: "@ + words)),
        ),
        SlackEventView::ImagesSent(Ok(())) => SlackStepView::Done(Ok(())),
    }
}

/// Picks the messages that were taken.
pub fn collect_taken(results: &Vec<Option<SlackMessage>>) -> (r: Vec<SlackMessage>)
    ensures
        messages_of(r@) == taken_messages(results_of(results@)),
{
    let mut r: Vec<SlackMessage> = Vec::new();
    let mut i: usize = 0;
    let ghost all = results_of(results@);
    assert(all.take(0) =~= Seq::<Option<SlackMessageView>>::empty());
    assert(messages_of(r@) =~= taken_messages(all.take(0)));
    while i < results.len()
        invariant
            i <= results.len(),
            all == results_of(results@),
            messages_of(r@) == taken_messages(all.take(i as int)),
        decreases results.len() - i,
    {
        let ghost before = r@;
        assert(all.take(i + 1).drop_last() =~= all.take(i as int));
        assert(all.take(i + 1).last() == all[i as int]);
        match &results[i] {
            Some(m) => {
                r.push(
                    SlackMessage {
                        channel_id: m.channel_id.clone(),
                        thread_id: m.thread_id.clone(),
                    },
                );
                assert(messages_of(r@) =~= messages_of(before).push(m@));
            },
            None => {},
        }
        i += 1;
    }
    assert(all.take(results.len() as int) =~= all);
    r
}

/// A tenant's mirror into chat.
#[derive(Debug, Clone, PartialEq, Eq)]
pub struct SlackLinkSender {
    /// The token of the chat service.
    pub token: String,
    pub targets: Vec<String>,
    pub qr_code: bool,
    pub default_text_before: Option<String>,
}

impl View for SlackLinkSender {
    type V = SenderView;

    open spec fn view(&self) -> SenderView {
        SenderView {
            token: self.token@,
            targets: texts_of(self.targets@),
            qr_code: self.qr_code,
            default_text_before: text_view(self.default_text_before),
        }
    }
}

impl SlackLinkSender {
    /// The mirror that a tenant's configuration describes.
    pub fn new(config: SlackConfig) -> (r: SlackLinkSender)
        ensures
            r@ == sender_of(config@),
    {
        SlackLinkSender {
            token: config.token,
            targets: config.targets,
            qr_code: config.qr_code,
            default_text_before: config.default_text_before,
        }
    }

    /// Composes the message that announces a link.
    pub fn compose(&self, link: &str, text_prefix: Option<&String>) -> (r: String)
        ensures
            r@ == link_message(
                link_prefix(
                    match text_prefix {
                        Some(p) => Some(p@),
                        None => None,
                    },
                    self@.default_text_before,
                ),
                link@,
            ),
    {
        let mut text = match text_prefix {
            Some(p) => p.clone(),
            None => match &self.default_text_before {
                Some(p) => p.clone(),
                None => String::from_str("Download file url: "),
            },
        };
        text.append("<");
        text.append(link);
        text.append("|link>");
        text
    }

    /// Runs one step of the mirror of a link.
    pub fn post_link(&self, link: &str, text_prefix: Option<&String>, event: SlackEvent) -> (step:
        SlackStep)
        ensures
            step@ == slack_step(
                self@,
                link@,
                match text_prefix {
                    Some(p) => Some(p@),
                    None => None,
                },
                event@,
            ),
    {
        match event {
            SlackEvent::Start => SlackStep::SendMessages {
                text: self.compose(link, text_prefix),
                targets: clone_texts(&self.targets),
            },
            SlackEvent::MessagesSent(Err(words)) => {
                let mut desc = String::from_str("Slack error: ");
                desc.append(words.as_str());
                let e = ErrorWithStatusAndDesc { kind: ErrorKind::UpstreamError, desc };
                SlackStep::Done(Err(e))
            },
            SlackEvent::MessagesSent(Ok(results)) => {
                if self.qr_code {
                    match create_qr_data(link) {
                        Ok(image) => SlackStep::SendImages {
                            image,
                            threads: collect_taken(&results),
                        },
                        Err(_) => SlackStep::Done(
                            Err(
                                ErrorWithStatusAndDesc::new_with_status_desc(
                                    ErrorKind::InternalError,
                                    "QR code create failed",
                                ),
                            ),
                        ),
                    }
                } else {
                    SlackStep::Done(Ok(()))
                }
            },
            SlackEvent::ImagesSent(Err(words)) => {
                let mut desc = String::from_str("Slack error: ");
                desc.append(words.as_str());
                let e = ErrorWithStatusAndDesc { kind: ErrorKind::UpstreamError, desc };
                SlackStep::Done(Err(e))
            },
            SlackEvent::ImagesSent(Ok(())) => SlackStep::Done(Ok(())),
        }
    }
}

} // verus!
