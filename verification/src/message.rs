use crate::body::BodyType;
use crate::email::EmailMessage;
use crate::recipient::{EmailAddress, Recipient};
use vstd::prelude::*;

verus! {

/// What a mailbox is, mathematically: its optional display name and its
/// address, as character sequences.
pub open spec fn addr_view(a: EmailAddress) -> (Option<Seq<char>>, Seq<char>) {
    (
        match a.name {
            Some(n) => Some(n@),
            None => None,
        },
        a.address@,
    )
}

/// Whether `rs` wraps exactly the mailboxes `addrs`, in order.
pub open spec fn recipients_match(addrs: Seq<EmailAddress>, rs: Seq<Recipient>) -> bool {
    &&& rs.len() == addrs.len()
    &&& forall|i: int|
        0 <= i < addrs.len() ==> addr_view(rs[i].email_address) == addr_view(addrs[i])
}

/// Copy one mailbox, field by field.
pub fn clone_address(a: &EmailAddress) -> (r: EmailAddress)
    ensures
        addr_view(r) == addr_view(*a),
{
    let name = match &a.name {
        Some(n) => Some(n.clone()),
        None => None,
    };
    EmailAddress { name, address: a.address.clone() }
}

/// Wrap each mailbox as the provider's payloads carry it, in order.
pub fn wrap_recipients(addrs: &Vec<EmailAddress>) -> (rs: Vec<Recipient>)
    ensures
        recipients_match(addrs@, rs@),
{
    let mut rs: Vec<Recipient> = Vec::new();
    let mut i: usize = 0;
    while i < addrs.len()
        invariant
            i <= addrs@.len(),
            rs@.len() == i,
            forall|j: int| 0 <= j < i ==> addr_view(rs@[j].email_address) == addr_view(addrs@[j]),
        decreases addrs@.len() - i,
    {
        rs.push(Recipient { email_address: clone_address(&addrs[i]) });
        i = i + 1;
    }
    rs
}

/// Unwrap recipients back to plain mailboxes, in order.
pub fn unwrap_recipients(rs: Vec<Recipient>) -> (addrs: Vec<EmailAddress>)
    ensures
        recipients_match(addrs@, rs@),
{
    let mut addrs: Vec<EmailAddress> = Vec::new();
    let mut rest = rs;
    let ghost all = rest@;
    while rest.len() > 0
        invariant
            addrs@.len() + rest@.len() == all.len(),
            rest@ == all.skip(addrs@.len() as int),
            forall|j: int|
                0 <= j < addrs@.len() ==> addr_view(all[j].email_address) == addr_view(addrs@[j]),
        decreases rest@.len(),
    {
        let ghost before = rest@;
        let r = rest.remove(0);
        proof {
            assert(rest@ =~= before.skip(1));
            assert(rest@ =~= all.skip(addrs@.len() as int + 1));
        }
        addrs.push(r.email_address);
    }
    addrs
}

/// The content a caller supplies for a message body: plain text, markup, or
/// both at once (a combined form whose markup half is what the provider
/// receives).
#[derive(Clone, Debug)]
pub enum MessageContent {
    Text { content: String },
    Html { content: String },
    Combined { text: String, html: String },
}

/// An attachment a caller supplies: a file name, a MIME type and the raw
/// content bytes.
#[derive(Clone, Debug)]
pub struct ComposedAttachment {
    pub name: String,
    pub content_type: String,
    pub content: Vec<u8>,
}

/// A caller-supplied message: the immutable input of the compose workflow.
/// When `reply_to_message_id` is present the workflow replies to that
/// message, splicing the new content above the quoted history; otherwise it
/// creates and sends a fresh message.
#[derive(Clone, Debug)]
pub struct ComposedMessage {
    pub subject: String,
    pub from: EmailAddress,
    pub to: Vec<EmailAddress>,
    pub cc: Vec<EmailAddress>,
    pub bcc: Vec<EmailAddress>,
    pub content: MessageContent,
    pub attachments: Vec<ComposedAttachment>,
    pub reply_to_message_id: Option<String>,
}

impl EmailMessage {
    /// Repackage a fetched message as input for a new composition: sender,
    /// recipients, subject and body carry over (the body keeping its declared
    /// type); attachments and the reply marker start empty.
    pub fn to_composed(self) -> (m: ComposedMessage)
        requires
            self.from is Some,
        ensures
            m.subject == self.subject,
            addr_view(m.from) == addr_view(self.from.unwrap().email_address),
            recipients_match(m.to@, self.to_recipients@),
            recipients_match(m.cc@, self.cc_recipients@),
            recipients_match(m.bcc@, self.bcc_recipients@),
            match m.content {
                MessageContent::Text { content } => self.body.content_type is Text && content
                    == self.body.content,
                MessageContent::Html { content } => self.body.content_type is Html && content
                    == self.body.content,
                MessageContent::Combined { .. } => false,
            },
            m.attachments@.len() == 0,
            m.reply_to_message_id is None,
    {
        let from = match self.from {
            Some(r) => r.email_address,
            None => vstd::pervasive::unreached(),
        };
        let content = match self.body.content_type {
            BodyType::Text => MessageContent::Text { content: self.body.content },
            BodyType::Html => MessageContent::Html { content: self.body.content },
        };
        ComposedMessage {
            subject: self.subject,
            from,
            to: unwrap_recipients(self.to_recipients),
            cc: unwrap_recipients(self.cc_recipients),
            bcc: unwrap_recipients(self.bcc_recipients),
            content,
            attachments: Vec::new(),
            reply_to_message_id: None,
        }
    }
}

} // verus!
