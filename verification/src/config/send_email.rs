//! The email notifier, as far as the library goes: what is sent, and an
//! outbox that stands for the transport. Delivery itself is the caller's.

use vstd::prelude::*;
use crate::models::api::describe;

verus! {

/// One message handed to the notifier.
#[derive(Debug, PartialEq, Eq)]
pub struct Mail {
    pub email: String,
    pub subject: String,
    pub message: String,
}

/// Mathematical value of a [`Mail`].
pub struct MailView {
    pub email: Seq<char>,
    pub subject: Seq<char>,
    pub message: Seq<char>,
}

impl View for Mail {
    type V = MailView;

    open spec fn view(&self) -> MailView {
        MailView { email: self.email@, subject: self.subject@, message: self.message@ }
    }
}

/// The values of a list of messages.
pub open spec fn outbox_view(outbox: Seq<Mail>) -> Seq<MailView> {
    outbox.map_values(|m: Mail| m@)
}

/// The message that carries the reset code `code` to `email`.
pub open spec fn reset_mail(email: Seq<char>, code: Seq<char>) -> MailView {
    MailView { email, subject: "Forgot password"@, message: "Your code is: "@ + code }
}

impl Mail {
    /// The message that carries the reset code `code` to `email`.
    pub fn reset_code(email: &String, code: &String) -> (mail: Mail)
        ensures
            mail@ == reset_mail(email@, code@),
    {
        Mail {
            email: email.clone(),
            subject: String::from_str("Forgot password"),
            message: describe("Your code is: ", code.as_str()),
        }
    }
}

/// Hands a message to the notifier: it is appended to `outbox`. Sending is
/// best effort and never fails the request that asked for it.
pub fn send_email(outbox: &mut Vec<Mail>, email: String, subject: String, message: String)
    ensures
        outbox_view(final(outbox)@) == outbox_view(old(outbox)@).push(
            MailView { email: email@, subject: subject@, message: message@ },
        ),
{
    outbox.push(Mail { email, subject, message });
    assert(outbox_view(outbox@) =~= outbox_view(old(outbox)@).push(
        MailView { email: email@, subject: subject@, message: message@ },
    ));
}

} // verus!
