use crate::body::{Body, BodyType};
use crate::codec::{b64_encode, b64_encode_of, escape_html_text, escaped_text};
use crate::email::EmailMessage;
use crate::html::{first_body_tag, splice_into_body, spliced};
use crate::message::{
    recipients_match, wrap_recipients, ComposedAttachment, ComposedMessage, MessageContent,
};
use crate::recipient::Recipient;
use crate::retry::RetryPolicy;
use vstd::prelude::*;
use vstd::string::StringExecFns;

verus! {

/// One attachment of a provider payload: the caller's file re-encoded as
/// name + MIME type + inline base64 content.
#[derive(Clone, Debug)]
pub struct SendEmailRequestAttachment {
    pub name: String,
    /// Base64 text of the content bytes.
    pub content_bytes: String,
    /// MIME type.
    pub content_type: String,
}

/// Whether `p` is the provider encoding of the caller attachment `a`.
pub open spec fn attachment_payload_matches(
    a: ComposedAttachment,
    p: SendEmailRequestAttachment,
) -> bool {
    &&& p.name@ == a.name@
    &&& p.content_type@ == a.content_type@
    &&& p.content_bytes@ == b64_encode_of(a.content@)
}

impl SendEmailRequestAttachment {
    /// Re-encode one caller attachment for the provider.
    pub fn from_attachment(a: &ComposedAttachment) -> (p: SendEmailRequestAttachment)
        ensures
            attachment_payload_matches(*a, p),
    {
        SendEmailRequestAttachment {
            name: a.name.clone(),
            content_bytes: b64_encode(&a.content),
            content_type: a.content_type.clone(),
        }
    }
}

/// The payload that creates a fresh message.
#[derive(Clone, Debug)]
pub struct SendEmailRequestMessage {
    pub subject: String,
    pub body: Body,
    pub from: Recipient,
    pub to_recipients: Vec<Recipient>,
    pub cc_recipients: Vec<Recipient>,
    pub bcc_recipients: Vec<Recipient>,
    pub attachments: Vec<SendEmailRequestAttachment>,
}

/// The payload that partially updates a draft: the spliced body plus the
/// caller's recipient lists, which replace — never merge with — the draft's
/// inherited recipients.
#[derive(Clone, Debug)]
pub struct PatchEmailRequestMessage {
    pub body: Option<Body>,
    pub to_recipients: Vec<Recipient>,
    pub cc_recipients: Vec<Recipient>,
    pub bcc_recipients: Vec<Recipient>,
}

/// Whether `b` is the caller content flattened to a provider body: plain
/// text stays typed Text, markup stays typed Html, and the combined form is
/// flattened to its markup half.
pub open spec fn flattened_matches(c: MessageContent, b: Body) -> bool {
    match c {
        MessageContent::Text { content } => b.content_type is Text && b.content@ == content@,
        MessageContent::Html { content } => b.content_type is Html && b.content@ == content@,
        MessageContent::Combined { text: _, html } => b.content_type is Html && b.content@
            == html@,
    }
}

/// Flatten caller content to the typed body a create payload carries.
pub fn flatten_content(c: &MessageContent) -> (b: Body)
    ensures
        flattened_matches(*c, b),
{
    match c {
        MessageContent::Text { content } => Body {
            content_type: BodyType::Text,
            content: content.clone(),
        },
        MessageContent::Html { content } => Body {
            content_type: BodyType::Html,
            content: content.clone(),
        },
        MessageContent::Combined { text: _, html } => Body {
            content_type: BodyType::Html,
            content: html.clone(),
        },
    }
}

/// The markup a reply inserts into the draft body: plain text is
/// HTML-escaped, markup is inserted verbatim, and the combined form uses its
/// markup half.
pub open spec fn reply_insert_of(c: MessageContent) -> Seq<char> {
    match c {
        MessageContent::Text { content } => escaped_text(content@),
        MessageContent::Html { content } => content@,
        MessageContent::Combined { text: _, html } => html@,
    }
}

/// The markup a reply inserts into the draft body.
pub fn reply_insert(c: &MessageContent) -> (s: String)
    ensures
        s@ == reply_insert_of(*c),
{
    match c {
        MessageContent::Text { content } => escape_html_text(content.as_str()),
        MessageContent::Html { content } => content.clone(),
        MessageContent::Combined { text: _, html } => html.clone(),
    }
}

/// Whether `ps` re-encodes exactly the caller attachments `atts`, in order.
pub open spec fn attachments_match(
    atts: Seq<ComposedAttachment>,
    ps: Seq<SendEmailRequestAttachment>,
) -> bool {
    &&& ps.len() == atts.len()
    &&& forall|i: int| 0 <= i < atts.len() ==> attachment_payload_matches(atts[i], ps[i])
}

/// Re-encode all caller attachments, in caller order.
pub fn encode_attachments(atts: &Vec<ComposedAttachment>) -> (ps: Vec<SendEmailRequestAttachment>)
    ensures
        attachments_match(atts@, ps@),
{
    let mut ps: Vec<SendEmailRequestAttachment> = Vec::new();
    let mut i: usize = 0;
    while i < atts.len()
        invariant
            i <= atts@.len(),
            ps@.len() == i,
            forall|j: int| 0 <= j < i ==> attachment_payload_matches(atts@[j], ps@[j]),
        decreases atts@.len() - i,
    {
        ps.push(SendEmailRequestAttachment::from_attachment(&atts[i]));
        i = i + 1;
    }
    ps
}

/// Whether `p` is the create payload for the caller message `m`: subject,
/// flattened body, resolved sender and recipients, and the attachments
/// re-encoded, in order.
pub open spec fn create_payload_matches(m: ComposedMessage, p: SendEmailRequestMessage) -> bool {
    &&& p.subject@ == m.subject@
    &&& flattened_matches(m.content, p.body)
    &&& crate::message::addr_view(p.from.email_address) == crate::message::addr_view(m.from)
    &&& recipients_match(m.to@, p.to_recipients@)
    &&& recipients_match(m.cc@, p.cc_recipients@)
    &&& recipients_match(m.bcc@, p.bcc_recipients@)
    &&& attachments_match(m.attachments@, p.attachments@)
}

/// Build the payload that creates a fresh message from `m`.
pub fn build_create_payload(m: &ComposedMessage) -> (p: SendEmailRequestMessage)
    ensures
        create_payload_matches(*m, p),
{
    let from = Recipient { email_address: crate::message::clone_address(&m.from) };
    SendEmailRequestMessage {
        subject: m.subject.clone(),
        body: flatten_content(&m.content),
        from,
        to_recipients: wrap_recipients(&m.to),
        cc_recipients: wrap_recipients(&m.cc),
        bcc_recipients: wrap_recipients(&m.bcc),
        attachments: encode_attachments(&m.attachments),
    }
}

/// Whether `p` is the patch for draft body `draft_body` and caller message
/// `m`: the body spliced after the first opening body tag (typed Html), and
/// the caller's recipient lists replacing the draft's.
pub open spec fn patch_payload_matches(
    m: ComposedMessage,
    draft_body: Seq<char>,
    p: PatchEmailRequestMessage,
) -> bool {
    &&& (p.body matches Some(b) && b.content_type is Html && b.content@ == spliced(
        draft_body,
        reply_insert_of(m.content),
        first_body_tag(draft_body),
    ))
    &&& recipients_match(m.to@, p.to_recipients@)
    &&& recipients_match(m.cc@, p.cc_recipients@)
    &&& recipients_match(m.bcc@, p.bcc_recipients@)
}

/// The path of the message `id`.
pub open spec fn message_path(id: Seq<char>) -> Seq<char> {
    "/me/messages/"@ + id
}

/// Build "/me/messages/{id}".
pub fn message_url(id: &str) -> (url: String)
    ensures
        url@ == message_path(id@),
{
    let mut url = "/me/messages/".to_owned();
    url.append(id);
    url
}

/// Build "/me/messages/{id}/createReply".
pub fn create_reply_url(id: &str) -> (url: String)
    ensures
        url@ == message_path(id@) + "/createReply"@,
{
    let mut url = message_url(id);
    url.append("/createReply");
    url
}

/// Build "/me/messages/{id}/send".
pub fn send_url(id: &str) -> (url: String)
    ensures
        url@ == message_path(id@) + "/send"@,
{
    let mut url = message_url(id);
    url.append("/send");
    url
}

/// How the compose workflow can fail.
#[derive(Clone, Copy, Debug, PartialEq, Eq, Structural)]
pub enum ComposeError {
    /// The credential was rejected and could not be refreshed. Fatal, not
    /// retried.
    AuthError,
    /// A status in the retry set, surfaced once attempts were exhausted.
    TransientHttpError { status: u16 },
    /// A response failed to decode as the expected shape, or an event did
    /// not answer the outstanding call. Surfaced immediately, no retry.
    ProtocolError,
    /// The reply draft's body was not HTML. Raised before any further side
    /// effect.
    ValidationError,
    /// The reply draft's body held no opening body tag to splice into.
    /// Raised before any patch or send; the draft stays un-sent.
    MalformedDraftBody,
}

/// Where the workflow stands. Each awaiting state has exactly one call out.
#[derive(Clone, Debug)]
pub enum ComposeState {
    /// Nothing issued yet.
    Init,
    /// The create-message call is out.
    AwaitingCreate,
    /// The create-reply call is out.
    AwaitingReplyDraft,
    /// The upload of attachment `next_attachment` is out; uploads run one at
    /// a time, in caller order.
    UploadingAttachments { draft: EmailMessage, next_attachment: usize },
    /// The patch of the draft's body and recipients is out.
    AwaitingPatch { draft: EmailMessage },
    /// The send call is out.
    AwaitingSend { message: EmailMessage },
    /// The message was sent and handed back through the finishing action
    /// (stale relative to server state, returned for caller bookkeeping).
    Sent,
    /// The workflow failed; whatever server-side state was already created
    /// (draft, uploaded attachments) is left as is — no compensating delete.
    Failed { error: ComposeError },
}

/// What the driver reports back: the parsed outcome of the one outstanding
/// call.
#[derive(Clone, Debug)]
pub enum ComposeEvent {
    /// The create call returned this message.
    MessageCreated { message: EmailMessage },
    /// The create-reply call returned this draft.
    ReplyDraftCreated { draft: EmailMessage },
    /// The outstanding attachment upload completed.
    AttachmentUploaded,
    /// The patch call returned this updated message.
    DraftPatched { message: EmailMessage },
    /// The send call completed.
    SendCompleted,
    /// The outstanding call failed with this error.
    CallFailed { error: ComposeError },
}

/// What the driver must do next. Exactly the network actions carry a call.
#[derive(Clone, Debug)]
pub enum ComposeAction {
    /// POST the create-message payload.
    CreateMessage { payload: SendEmailRequestMessage },
    /// POST create-reply against the parent message.
    CreateReplyDraft { parent_id: String },
    /// POST one attachment to the draft's attachment endpoint.
    UploadAttachment { draft_id: String, payload: SendEmailRequestAttachment },
    /// PATCH the draft's body and recipients.
    PatchDraft { draft_id: String, payload: PatchEmailRequestMessage },
    /// POST to the send endpoint, through the pipeline with this retry
    /// policy attached.
    SendMessage { message_id: String, retry: RetryPolicy },
    /// The workflow is done; hand `message` back.
    Finish { message: EmailMessage },
    /// The workflow failed; surface `error`.
    Fail { error: ComposeError },
}

/// Whether `a` asks the driver to put a call on the wire.
pub open spec fn is_network_action(a: ComposeAction) -> bool {
    match a {
        ComposeAction::CreateMessage { .. } => true,
        ComposeAction::CreateReplyDraft { .. } => true,
        ComposeAction::UploadAttachment { .. } => true,
        ComposeAction::PatchDraft { .. } => true,
        ComposeAction::SendMessage { .. } => true,
        ComposeAction::Finish { .. } => false,
        ComposeAction::Fail { .. } => false,
    }
}

/// Whether the pair (state, action) reports exactly the failure `e`.
pub open spec fn failed_with(s: ComposeState, a: ComposeAction, e: ComposeError) -> bool {
    &&& s == (ComposeState::Failed { error: e })
    &&& a == (ComposeAction::Fail { error: e })
}

/// What follows once the draft is validated and all uploads are done: no
/// opening body tag fails with MalformedDraftBody before any patch or send;
/// otherwise the spliced patch goes out.
pub open spec fn patch_phase_matches(
    m: ComposedMessage,
    draft: EmailMessage,
    s: ComposeState,
    a: ComposeAction,
) -> bool {
    if first_body_tag(draft.body.content@) == -1 {
        failed_with(s, a, ComposeError::MalformedDraftBody)
    } else {
        &&& (s matches ComposeState::AwaitingPatch { draft: d } && d == draft)
        &&& (a matches ComposeAction::PatchDraft { draft_id, payload } && draft_id@ == draft.id@
            && patch_payload_matches(m, draft.body.content@, payload))
    }
}

fn patch_phase(message: &ComposedMessage, draft: EmailMessage) -> (r: (ComposeState, ComposeAction))
    ensures
        patch_phase_matches(*message, draft, r.0, r.1),
{
    let insert = reply_insert(&message.content);
    match splice_into_body(draft.body.content.as_str(), insert.as_str()) {
        None => (
            ComposeState::Failed { error: ComposeError::MalformedDraftBody },
            ComposeAction::Fail { error: ComposeError::MalformedDraftBody },
        ),
        Some(new_body) => {
            let payload = PatchEmailRequestMessage {
                body: Some(Body { content_type: BodyType::Html, content: new_body }),
                to_recipients: wrap_recipients(&message.to),
                cc_recipients: wrap_recipients(&message.cc),
                bcc_recipients: wrap_recipients(&message.bcc),
            };
            let draft_id = draft.id.clone();
            (
                ComposeState::AwaitingPatch { draft },
                ComposeAction::PatchDraft { draft_id, payload },
            )
        },
    }
}

fn send_phase(message: EmailMessage) -> (r: (ComposeState, ComposeAction))
    ensures
        (r.0 matches ComposeState::AwaitingSend { message: m } && m == message),
        (r.1 matches ComposeAction::SendMessage { message_id, retry } && message_id@ == message.id@
            && retry.is_default_send()),
{
    let message_id = message.id.clone();
    (
        ComposeState::AwaitingSend { message },
        ComposeAction::SendMessage { message_id, retry: RetryPolicy::default_send() },
    )
}

/// The stateful compose-and-send sequence for one caller message. The
/// workflow never touches the network itself: `start` and `step` hand the
/// driver one action at a time, and the driver reports each call's outcome
/// as an event; within one workflow no call is issued before its
/// predecessor completes.
#[derive(Clone, Debug)]
pub struct ComposeWorkflow {
    pub message: ComposedMessage,
    pub state: ComposeState,
}

impl ComposeWorkflow {
    /// Internal well-formedness: while uploads run, the index points at a
    /// real attachment.
    pub open spec fn wf(&self) -> bool {
        match self.state {
            ComposeState::UploadingAttachments { draft: _, next_attachment } => next_attachment
                < self.message.attachments@.len(),
            _ => true,
        }
    }

    /// Begin the workflow: a reply posts create-reply against the parent
    /// id; a fresh message posts the full create payload.
    pub fn start(message: ComposedMessage) -> (r: (ComposeWorkflow, ComposeAction))
        ensures
            r.0.message == message,
            r.0.wf(),
            match message.reply_to_message_id {
                Some(id) => {
                    &&& r.0.state is AwaitingReplyDraft
                    &&& (r.1 matches ComposeAction::CreateReplyDraft { parent_id } && parent_id@
                        == id@)
                },
                None => {
                    &&& r.0.state is AwaitingCreate
                    &&& (r.1 matches ComposeAction::CreateMessage { payload }
                        && create_payload_matches(message, payload))
                },
            },
    {
        match &message.reply_to_message_id {
            Some(id) => {
                let parent_id = id.clone();
                (
                    ComposeWorkflow { message, state: ComposeState::AwaitingReplyDraft },
                    ComposeAction::CreateReplyDraft { parent_id },
                )
            },
            None => {
                let payload = build_create_payload(&message);
                (
                    ComposeWorkflow { message, state: ComposeState::AwaitingCreate },
                    ComposeAction::CreateMessage { payload },
                )
            },
        }
    }

    /// One transition of the workflow. The contract pins every transition;
    /// in particular: a reply draft whose body is not HTML fails with
    /// ValidationError before any further call; a validated draft with no
    /// opening body tag fails with MalformedDraftBody before any patch or
    /// send; attachment uploads run sequentially in caller order and the
    /// first failure aborts the rest, with no rollback of completed ones; a
    /// failed workflow stays failed and never asks for another network call.
    pub fn step(self, event: ComposeEvent) -> (r: (ComposeWorkflow, ComposeAction))
        requires
            self.wf(),
        ensures
            r.0.wf(),
            r.0.message == self.message,
            (r.0.state matches ComposeState::Failed { .. }) ==> !is_network_action(r.1),
            match (self.state, event) {
                (
                    ComposeState::AwaitingCreate,
                    ComposeEvent::MessageCreated { message },
                ) => {
                    &&& (r.0.state matches ComposeState::AwaitingSend { message: m } && m
                        == message)
                    &&& (r.1 matches ComposeAction::SendMessage { message_id, retry }
                        && message_id@ == message.id@ && retry.is_default_send())
                },
                (
                    ComposeState::AwaitingReplyDraft,
                    ComposeEvent::ReplyDraftCreated { draft },
                ) => {
                    if !(draft.body.content_type is Html) {
                        failed_with(r.0.state, r.1, ComposeError::ValidationError)
                    } else if self.message.attachments@.len() > 0 {
                        &&& (r.0.state matches ComposeState::UploadingAttachments {
                            draft: d,
                            next_attachment,
                        } && d == draft && next_attachment == 0)
                        &&& (r.1 matches ComposeAction::UploadAttachment { draft_id, payload }
                            && draft_id@ == draft.id@ && attachment_payload_matches(
                            self.message.attachments@[0],
                            payload,
                        ))
                    } else {
                        patch_phase_matches(self.message, draft, r.0.state, r.1)
                    }
                },
                (
                    ComposeState::UploadingAttachments { draft, next_attachment },
                    ComposeEvent::AttachmentUploaded,
                ) => {
                    if next_attachment + 1 < self.message.attachments@.len() {
                        &&& (r.0.state matches ComposeState::UploadingAttachments {
                            draft: d,
                            next_attachment: n,
                        } && d == draft && n == next_attachment + 1)
                        &&& (r.1 matches ComposeAction::UploadAttachment { draft_id, payload }
                            && draft_id@ == draft.id@ && attachment_payload_matches(
                            self.message.attachments@[next_attachment + 1],
                            payload,
                        ))
                    } else {
                        patch_phase_matches(self.message, draft, r.0.state, r.1)
                    }
                },
                (
                    ComposeState::AwaitingPatch { .. },
                    ComposeEvent::DraftPatched { message },
                ) => {
                    &&& (r.0.state matches ComposeState::AwaitingSend { message: m } && m
                        == message)
                    &&& (r.1 matches ComposeAction::SendMessage { message_id, retry }
                        && message_id@ == message.id@ && retry.is_default_send())
                },
                (ComposeState::AwaitingSend { message }, ComposeEvent::SendCompleted) => {
                    &&& r.0.state is Sent
                    &&& (r.1 matches ComposeAction::Finish { message: m } && m == message)
                },
                (ComposeState::Sent, _) => {
                    &&& r.0.state is Sent
                    &&& r.1 == (ComposeAction::Fail { error: ComposeError::ProtocolError })
                },
                (ComposeState::Failed { error }, _) => failed_with(r.0.state, r.1, error),
                (_, ComposeEvent::CallFailed { error }) => failed_with(r.0.state, r.1, error),
                _ => failed_with(r.0.state, r.1, ComposeError::ProtocolError),
            },
    {
        let ComposeWorkflow { message, state } = self;
        match (state, event) {
            (ComposeState::AwaitingCreate, ComposeEvent::MessageCreated { message: created }) => {
                let (s, a) = send_phase(created);
                (ComposeWorkflow { message, state: s }, a)
            },
            (ComposeState::AwaitingReplyDraft, ComposeEvent::ReplyDraftCreated { draft }) => {
                match draft.body.content_type {
                    BodyType::Text => (
                        ComposeWorkflow {
                            message,
                            state: ComposeState::Failed { error: ComposeError::ValidationError },
                        },
                        ComposeAction::Fail { error: ComposeError::ValidationError },
                    ),
                    BodyType::Html => {
                        if message.attachments.len() > 0 {
                            let draft_id = draft.id.clone();
                            let payload = SendEmailRequestAttachment::from_attachment(
                                &message.attachments[0],
                            );
                            (
                                ComposeWorkflow {
                                    message,
                                    state: ComposeState::UploadingAttachments {
                                        draft,
                                        next_attachment: 0,
                                    },
                                },
                                ComposeAction::UploadAttachment { draft_id, payload },
                            )
                        } else {
                            let (s, a) = patch_phase(&message, draft);
                            (ComposeWorkflow { message, state: s }, a)
                        }
                    },
                }
            },
            (
                ComposeState::UploadingAttachments { draft, next_attachment },
                ComposeEvent::AttachmentUploaded,
            ) => {
                let total = message.attachments.len();
                let n = next_attachment + 1;
                if n < total {
                    let draft_id = draft.id.clone();
                    let payload = SendEmailRequestAttachment::from_attachment(
                        &message.attachments[n],
                    );
                    (
                        ComposeWorkflow {
                            message,
                            state: ComposeState::UploadingAttachments {
                                draft,
                                next_attachment: n,
                            },
                        },
                        ComposeAction::UploadAttachment { draft_id, payload },
                    )
                } else {
                    let (s, a) = patch_phase(&message, draft);
                    (ComposeWorkflow { message, state: s }, a)
                }
            },
            (ComposeState::AwaitingPatch { draft: _ }, ComposeEvent::DraftPatched {
                message: patched,
            }) => {
                let (s, a) = send_phase(patched);
                (ComposeWorkflow { message, state: s }, a)
            },
            (ComposeState::AwaitingSend { message: sent }, ComposeEvent::SendCompleted) => {
                (
                    ComposeWorkflow { message, state: ComposeState::Sent },
                    ComposeAction::Finish { message: sent },
                )
            },
            (ComposeState::Sent, _) => (
                ComposeWorkflow { message, state: ComposeState::Sent },
                ComposeAction::Fail { error: ComposeError::ProtocolError },
            ),
            (ComposeState::Failed { error }, _) => (
                ComposeWorkflow { message, state: ComposeState::Failed { error } },
                ComposeAction::Fail { error },
            ),
            (_, ComposeEvent::CallFailed { error }) => (
                ComposeWorkflow { message, state: ComposeState::Failed { error } },
                ComposeAction::Fail { error },
            ),
            _ => (
                ComposeWorkflow {
                    message,
                    state: ComposeState::Failed { error: ComposeError::ProtocolError },
                },
                ComposeAction::Fail { error: ComposeError::ProtocolError },
            ),
        }
    }
}

} // verus!
