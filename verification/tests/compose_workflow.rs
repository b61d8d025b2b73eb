use msgraph_mail::body::{Body, BodyType};
use msgraph_mail::compose::{
    flatten_content, reply_insert, ComposeAction, ComposeError, ComposeEvent, ComposeState,
    ComposeWorkflow, SendEmailRequestAttachment,
};
use msgraph_mail::email::{EmailMessage, Flag};
use msgraph_mail::html::splice_into_body;
use msgraph_mail::message::{ComposedAttachment, ComposedMessage, MessageContent};
use msgraph_mail::recipient::{EmailAddress, Recipient};

fn addr(a: &str) -> EmailAddress {
    EmailAddress { name: None, address: a.to_string() }
}

fn provider_message(id: &str, body_type: BodyType, body: &str) -> EmailMessage {
    EmailMessage {
        etag: String::new(),
        body: Body { content_type: body_type, content: body.to_string() },
        body_preview: String::new(),
        categories: Vec::new(),
        to_recipients: Vec::new(),
        cc_recipients: Vec::new(),
        bcc_recipients: Vec::new(),
        change_key: String::new(),
        conversation_id: String::new(),
        conversation_index: String::new(),
        created_date_time: String::new(),
        flag: Flag { flag_status: "notFlagged".to_string() },
        from: None,
        has_attachments: false,
        id: id.to_string(),
        importance: String::new(),
        inference_classification: String::new(),
        internet_message_id: String::new(),
        is_delivery_receipt_requested: None,
        is_draft: true,
        is_read: false,
        is_read_receipt_requested: false,
        last_modified_date_time: String::new(),
        parent_folder_id: String::new(),
        received_date_time: String::new(),
        reply_to: Vec::new(),
        sender: None,
        sent_date_time: String::new(),
        subject: String::new(),
        web_link: String::new(),
    }
}

fn composed(content: MessageContent, reply_to: Option<&str>) -> ComposedMessage {
    ComposedMessage {
        subject: "Hello".to_string(),
        from: addr("me@example.com"),
        to: vec![addr("to@example.com")],
        cc: Vec::new(),
        bcc: Vec::new(),
        content,
        attachments: Vec::new(),
        reply_to_message_id: reply_to.map(|s| s.to_string()),
    }
}

#[test]
fn splice_preserves_trailing_content() {
    let out = splice_into_body("<html><body>Hi</body></html>", "<p>New</p>").unwrap();
    assert_eq!(out, "<html><body><p>New</p>Hi</body></html>");
}

#[test]
fn splice_uses_the_first_tag() {
    let out = splice_into_body("<body>a<body>b", "X").unwrap();
    assert_eq!(out, "<body>Xa<body>b");
}

#[test]
fn splice_without_tag_reports_nothing() {
    assert!(splice_into_body("<html>no anchor</html>", "X").is_none());
    assert!(splice_into_body("", "X").is_none());
    assert!(splice_into_body("<body", "X").is_none());
}

#[test]
fn text_content_is_escaped_when_inserted() {
    let s = reply_insert(&MessageContent::Text { content: "a > b && a < c".to_string() });
    assert_eq!(s, "a &gt; b &amp;&amp; a &lt; c");
}

#[test]
fn html_content_is_inserted_verbatim() {
    let s = reply_insert(&MessageContent::Html { content: "<p>&amp;</p>".to_string() });
    assert_eq!(s, "<p>&amp;</p>");
}

#[test]
fn combined_content_uses_its_html_half() {
    let c = MessageContent::Combined { text: "plain".to_string(), html: "<p>rich</p>".to_string() };
    assert_eq!(reply_insert(&c), "<p>rich</p>");
    let b = flatten_content(&c);
    assert!(matches!(b.content_type, BodyType::Html));
    assert_eq!(b.content, "<p>rich</p>");
}

#[test]
fn attachment_payload_is_base64() {
    let a = ComposedAttachment {
        name: "data.bin".to_string(),
        content_type: "application/octet-stream".to_string(),
        content: vec![1, 2, 3],
    };
    let p = SendEmailRequestAttachment::from_attachment(&a);
    assert_eq!(p.name, "data.bin");
    assert_eq!(p.content_type, "application/octet-stream");
    assert_eq!(p.content_bytes, "AQID");
}

#[test]
fn new_message_path_creates_then_sends() {
    let m = composed(MessageContent::Text { content: "body text".to_string(), }, None);
    let (w, action) = ComposeWorkflow::start(m);
    let payload = match action {
        ComposeAction::CreateMessage { payload } => payload,
        _ => panic!("expected a create action"),
    };
    assert_eq!(payload.subject, "Hello");
    assert!(matches!(payload.body.content_type, BodyType::Text));
    assert_eq!(payload.body.content, "body text");
    assert_eq!(payload.from.email_address.address, "me@example.com");
    assert_eq!(payload.to_recipients.len(), 1);
    assert_eq!(payload.to_recipients[0].email_address.address, "to@example.com");
    assert!(payload.attachments.is_empty());

    let created = provider_message("MSG-1", BodyType::Text, "body text");
    let (w, action) = w.step(ComposeEvent::MessageCreated { message: created });
    match action {
        ComposeAction::SendMessage { message_id, retry } => {
            assert_eq!(message_id, "MSG-1");
            assert_eq!(retry.max_attempts, 10);
            assert_eq!(retry.backoff_delay_ms, 1000);
            assert_eq!(retry.retryable_statuses, vec![429, 408, 425, 404]);
        },
        _ => panic!("expected a send action"),
    }
    let (w, action) = w.step(ComposeEvent::SendCompleted);
    match action {
        ComposeAction::Finish { message } => assert_eq!(message.id, "MSG-1"),
        _ => panic!("expected the finishing action"),
    }
    assert!(matches!(w.state, ComposeState::Sent));
}

#[test]
fn reply_path_uploads_patches_and_sends() {
    let mut m = composed(MessageContent::Text { content: "a<b".to_string() }, Some("PARENT"));
    m.attachments = vec![
        ComposedAttachment {
            name: "one".to_string(),
            content_type: "text/plain".to_string(),
            content: vec![1, 2, 3],
        },
        ComposedAttachment {
            name: "two".to_string(),
            content_type: "text/plain".to_string(),
            content: vec![255, 0],
        },
    ];
    let (w, action) = ComposeWorkflow::start(m);
    match &action {
        ComposeAction::CreateReplyDraft { parent_id } => assert_eq!(parent_id, "PARENT"),
        _ => panic!("expected a create-reply action"),
    }

    let draft = provider_message("DRAFT-1", BodyType::Html, "<html><body>Old</body></html>");
    let (w, action) = w.step(ComposeEvent::ReplyDraftCreated { draft });
    match &action {
        ComposeAction::UploadAttachment { draft_id, payload } => {
            assert_eq!(draft_id, "DRAFT-1");
            assert_eq!(payload.name, "one");
            assert_eq!(payload.content_bytes, "AQID");
        },
        _ => panic!("expected the first upload"),
    }

    let (w, action) = w.step(ComposeEvent::AttachmentUploaded);
    match &action {
        ComposeAction::UploadAttachment { draft_id, payload } => {
            assert_eq!(draft_id, "DRAFT-1");
            assert_eq!(payload.name, "two");
            assert_eq!(payload.content_bytes, "/wA=");
        },
        _ => panic!("expected the second upload"),
    }

    let (w, action) = w.step(ComposeEvent::AttachmentUploaded);
    match &action {
        ComposeAction::PatchDraft { draft_id, payload } => {
            assert_eq!(draft_id, "DRAFT-1");
            let body = payload.body.as_ref().unwrap();
            assert!(matches!(body.content_type, BodyType::Html));
            assert_eq!(body.content, "<html><body>a&lt;bOld</body></html>");
            assert_eq!(payload.to_recipients.len(), 1);
            assert_eq!(payload.to_recipients[0].email_address.address, "to@example.com");
            assert!(payload.cc_recipients.is_empty());
            assert!(payload.bcc_recipients.is_empty());
        },
        _ => panic!("expected the patch"),
    }

    let patched = provider_message("DRAFT-1", BodyType::Html, "patched");
    let (w, action) = w.step(ComposeEvent::DraftPatched { message: patched });
    match &action {
        ComposeAction::SendMessage { message_id, retry } => {
            assert_eq!(message_id, "DRAFT-1");
            assert_eq!(retry.max_attempts, 10);
        },
        _ => panic!("expected the send"),
    }
    let (w, action) = w.step(ComposeEvent::SendCompleted);
    assert!(matches!(action, ComposeAction::Finish { .. }));
    assert!(matches!(w.state, ComposeState::Sent));
}

#[test]
fn plain_text_draft_fails_validation_before_any_further_call() {
    let m = composed(MessageContent::Html { content: "<p>x</p>".to_string() }, Some("PARENT"));
    let (w, _) = ComposeWorkflow::start(m);
    let draft = provider_message("DRAFT-1", BodyType::Text, "plain draft");
    let (w, action) = w.step(ComposeEvent::ReplyDraftCreated { draft });
    assert!(matches!(action, ComposeAction::Fail { error: ComposeError::ValidationError }));
    assert!(matches!(
        w.state,
        ComposeState::Failed { error: ComposeError::ValidationError }
    ));
    let (w, action) = w.step(ComposeEvent::AttachmentUploaded);
    assert!(matches!(action, ComposeAction::Fail { error: ComposeError::ValidationError }));
    assert!(matches!(
        w.state,
        ComposeState::Failed { error: ComposeError::ValidationError }
    ));
}

#[test]
fn draft_without_body_tag_fails_before_patch_or_send() {
    let m = composed(MessageContent::Text { content: "x".to_string() }, Some("PARENT"));
    let (w, _) = ComposeWorkflow::start(m);
    let draft = provider_message("DRAFT-1", BodyType::Html, "<html>no anchor</html>");
    let (w, action) = w.step(ComposeEvent::ReplyDraftCreated { draft });
    assert!(matches!(action, ComposeAction::Fail { error: ComposeError::MalformedDraftBody }));
    let (_, action) = w.step(ComposeEvent::SendCompleted);
    assert!(matches!(action, ComposeAction::Fail { error: ComposeError::MalformedDraftBody }));
}

#[test]
fn upload_failure_aborts_remaining_uploads() {
    let mut m = composed(MessageContent::Text { content: "x".to_string() }, Some("PARENT"));
    m.attachments = vec![
        ComposedAttachment {
            name: "one".to_string(),
            content_type: "text/plain".to_string(),
            content: vec![1],
        },
        ComposedAttachment {
            name: "two".to_string(),
            content_type: "text/plain".to_string(),
            content: vec![2],
        },
    ];
    let (w, _) = ComposeWorkflow::start(m);
    let draft = provider_message("DRAFT-1", BodyType::Html, "<body></body>");
    let (w, _) = w.step(ComposeEvent::ReplyDraftCreated { draft });
    let failure = ComposeError::TransientHttpError { status: 429 };
    let (w, action) = w.step(ComposeEvent::CallFailed { error: failure });
    assert!(matches!(
        action,
        ComposeAction::Fail { error: ComposeError::TransientHttpError { status: 429 } }
    ));
    let (_, action) = w.step(ComposeEvent::AttachmentUploaded);
    assert!(matches!(
        action,
        ComposeAction::Fail { error: ComposeError::TransientHttpError { status: 429 } }
    ));
}

#[test]
fn mismatched_event_is_a_protocol_error() {
    let m = composed(MessageContent::Text { content: "x".to_string() }, None);
    let (w, _) = ComposeWorkflow::start(m);
    let (w, action) = w.step(ComposeEvent::SendCompleted);
    assert!(matches!(action, ComposeAction::Fail { error: ComposeError::ProtocolError }));
    assert!(matches!(w.state, ComposeState::Failed { error: ComposeError::ProtocolError }));
}

#[test]
fn auth_failure_is_surfaced_unchanged() {
    let m = composed(MessageContent::Text { content: "x".to_string() }, None);
    let (w, _) = ComposeWorkflow::start(m);
    let (_, action) = w.step(ComposeEvent::CallFailed { error: ComposeError::AuthError });
    assert!(matches!(action, ComposeAction::Fail { error: ComposeError::AuthError }));
}

#[test]
fn recipients_replace_the_drafts_inherited_lists() {
    let mut m = composed(MessageContent::Html { content: "<p>n</p>".to_string() }, Some("P"));
    m.to = vec![addr("only@example.com")];
    let (w, _) = ComposeWorkflow::start(m);
    let mut draft = provider_message("D", BodyType::Html, "<body>q</body>");
    draft.to_recipients = vec![
        Recipient { email_address: addr("inherited1@example.com") },
        Recipient { email_address: addr("inherited2@example.com") },
    ];
    let (_, action) = w.step(ComposeEvent::ReplyDraftCreated { draft });
    match action {
        ComposeAction::PatchDraft { payload, .. } => {
            assert_eq!(payload.to_recipients.len(), 1);
            assert_eq!(payload.to_recipients[0].email_address.address, "only@example.com");
        },
        _ => panic!("expected the patch"),
    }
}
