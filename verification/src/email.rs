use crate::body::Body;
use crate::recipient::Recipient;
use vstd::prelude::*;

verus! {

/// The follow-up flag of a message.
#[derive(Clone, Debug)]
pub struct Flag {
    pub flag_status: String,
}

/// A message as the provider returns it. Timestamps are kept as the provider
/// sends them, as text; the client reads none of them. The compose workflow
/// reads only `id` and `body`.
#[derive(Clone, Debug)]
pub struct EmailMessage {
    pub etag: String,
    pub body: Body,
    pub body_preview: String,
    pub categories: Vec<String>,
    pub to_recipients: Vec<Recipient>,
    pub cc_recipients: Vec<Recipient>,
    pub bcc_recipients: Vec<Recipient>,
    pub change_key: String,
    pub conversation_id: String,
    pub conversation_index: String,
    pub created_date_time: String,
    pub flag: Flag,
    pub from: Option<Recipient>,
    pub has_attachments: bool,
    pub id: String,
    pub importance: String,
    pub inference_classification: String,
    pub internet_message_id: String,
    pub is_delivery_receipt_requested: Option<bool>,
    pub is_draft: bool,
    pub is_read: bool,
    pub is_read_receipt_requested: bool,
    pub last_modified_date_time: String,
    pub parent_folder_id: String,
    pub received_date_time: String,
    pub reply_to: Vec<Recipient>,
    pub sender: Option<Recipient>,
    pub sent_date_time: String,
    pub subject: String,
    pub web_link: String,
}

} // verus!
