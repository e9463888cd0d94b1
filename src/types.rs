//! The webhook secret and the kinds of webhook event.

use vstd::prelude::*;
use vstd::string::*;
use vstd::utf8::encode_utf8;
use crate::error::Error;
use crate::text::str_equal;

verus! {

/// The shared secret that signs webhook deliveries; never empty.
pub struct WebhookSecret(Vec<u8>);

impl Clone for WebhookSecret {
    fn clone(&self) -> (r: Self)
        ensures
            r@ == self@,
    {
        proof {
            use_type_invariant(self);
        }
        WebhookSecret(self.0.clone())
    }
}

impl View for WebhookSecret {
    type V = Seq<u8>;

    closed spec fn view(&self) -> Seq<u8> {
        self.0@
    }
}

impl WebhookSecret {
    /// The secret made of the UTF-8 bytes of `secret`; an empty secret is refused.
    pub fn new(secret: String) -> (r: Result<Self, Error>)
        ensures
            encode_utf8(secret@).len() == 0 <==> r matches Err(Error::EmptyWebhookSecret),
            encode_utf8(secret@).len() > 0 ==> r is Ok,
            r matches Ok(w) ==> w@ == encode_utf8(secret@),
    {
        let bytes = secret.as_str().as_bytes_vec();
        if bytes.len() == 0 {
            return Err(Error::EmptyWebhookSecret);
        }
        Ok(WebhookSecret(bytes))
    }

    /// The bytes of the secret.
    pub fn as_bytes(&self) -> (r: &[u8])
        ensures
            r@ == self@,
            r@.len() > 0,
    {
        proof {
            use_type_invariant(self);
        }
        self.0.as_slice()
    }

    #[verifier::type_invariant]
    spec fn nonempty(self) -> bool {
        self.0@.len() > 0
    }
}

/// The kind of a webhook event, from its event-type header.
#[derive(Debug, PartialEq, Eq)]
pub enum WebhookEventType {
    Ping,
    PullRequest,
    Other(String),
}

impl WebhookEventType {
    /// `ping` and `pull_request` name their kinds; any other name is kept as it is.
    pub fn from_str(event_type: &str) -> (r: Self)
        ensures
            match r {
                WebhookEventType::Ping => event_type@ == "ping"@,
                WebhookEventType::PullRequest => event_type@ == "pull_request"@,
                WebhookEventType::Other(s) => s@ == event_type@ && event_type@ != "ping"@
                    && event_type@ != "pull_request"@,
            },
    {
        if str_equal(event_type, "ping") {
            WebhookEventType::Ping
        } else if str_equal(event_type, "pull_request") {
            WebhookEventType::PullRequest
        } else {
            WebhookEventType::Other(event_type.to_owned())
        }
    }
}

} // verus!
