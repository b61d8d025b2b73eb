use crate::codec::{b64_decode, b64_decode_of};
use vstd::prelude::*;

verus! {

/// A file attachment as the provider returns it. `content_bytes` is the
/// base64 text of the content; the timestamp is kept as the provider sends
/// it, as text.
#[derive(Clone, Debug)]
pub struct Attachment {
    pub odata_media_content_type: String,
    pub odata_type: String,
    /// Base64-encoded content.
    pub content_bytes: String,
    pub content_id: Option<String>,
    pub content_location: Option<String>,
    pub content_type: String,
    pub id: String,
    pub is_inline: bool,
    pub last_modified_date_time: String,
    pub name: String,
    pub size: u64,
}

impl Attachment {
    /// The decoded content, or nothing when `content_bytes` is not the
    /// base64 text the provider promises.
    pub fn bytes(&self) -> (r: Option<Vec<u8>>)
        ensures
            match r {
                Some(bytes) => b64_decode_of(self.content_bytes@) == Some(bytes@),
                None => b64_decode_of(self.content_bytes@) is None,
            },
    {
        b64_decode(self.content_bytes.as_str())
    }
}

} // verus!
