use crate::http::{HttpMethod, RequestPlan};
use vstd::prelude::*;
use vstd::string::StringExecFns;

verus! {

/// A request for the attachment listing of one message. When `next` holds a
/// provider-issued continuation link, the next fetch uses it verbatim.
#[derive(Clone, Debug)]
pub struct ListAttachmentsRequest {
    pub id: String,
    pub next: Option<String>,
}

/// The attachment-listing path for the message `id`.
pub open spec fn attachments_path(id: Seq<char>) -> Seq<char> {
    "/me/messages/"@ + id + "/attachments"@
}

/// Build "/me/messages/{id}/attachments".
pub fn attachments_url(id: &str) -> (url: String)
    ensures
        url@ == attachments_path(id@),
{
    let mut url = "/me/messages/".to_owned();
    url.append(id);
    url.append("/attachments");
    url
}

impl ListAttachmentsRequest {
    pub fn new(message_id: String) -> (r: ListAttachmentsRequest)
        ensures
            r.id == message_id,
            r.next is None,
    {
        ListAttachmentsRequest { id: message_id, next: None }
    }

    /// Continue from a provider-issued link.
    pub fn next(self, next: String) -> (r: ListAttachmentsRequest)
        ensures
            r.id == self.id,
            r.next == Some(next),
    {
        ListAttachmentsRequest { next: Some(next), ..self }
    }

    /// The call this request stands for: the continuation link verbatim when
    /// one is present, else the attachment listing of the message.
    pub fn build_plan(&self) -> (p: RequestPlan)
        ensures
            p.method is Get,
            p.query@.len() == 0,
            p.headers@.len() == 0,
            match self.next {
                Some(n) => p.url@ == n@,
                None => p.url@ == attachments_path(self.id@),
            },
    {
        let url = match &self.next {
            Some(n) => n.clone(),
            None => attachments_url(self.id.as_str()),
        };
        RequestPlan { method: HttpMethod::Get, url, query: Vec::new(), headers: Vec::new() }
    }
}

} // verus!
