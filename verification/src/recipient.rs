use vstd::prelude::*;
use vstd::std_specs::convert::FromSpecImpl;

verus! {

/// A mailbox: an optional display name and the address itself.
#[derive(Clone, Debug)]
pub struct EmailAddress {
    pub name: Option<String>,
    pub address: String,
}

/// A recipient as the provider's payloads carry it: a wrapped address.
#[derive(Clone, Debug)]
pub struct Recipient {
    pub email_address: EmailAddress,
}

impl From<EmailAddress> for Recipient {
    fn from(email_address: EmailAddress) -> (r: Recipient) {
        Recipient { email_address }
    }
}

impl FromSpecImpl<EmailAddress> for Recipient {
    open spec fn obeys_from_spec() -> bool {
        true
    }

    open spec fn from_spec(email_address: EmailAddress) -> Recipient {
        Recipient { email_address }
    }
}

impl From<Recipient> for EmailAddress {
    fn from(recipient: Recipient) -> (a: EmailAddress) {
        recipient.email_address
    }
}

impl FromSpecImpl<Recipient> for EmailAddress {
    open spec fn obeys_from_spec() -> bool {
        true
    }

    open spec fn from_spec(recipient: Recipient) -> EmailAddress {
        recipient.email_address
    }
}

} // verus!
