use vstd::prelude::*;

use crate::text::{contains_str, contains_text};

verus! {

/// A page of message summaries in the service's older list form.
#[derive(Debug, Clone, PartialEq)]
pub struct ListMessages {
    pub context: String,
    pub id: String,
    pub type_field: String,
    pub hydra_member: Vec<HydraMember>,
    pub hydra_total_items: i64,
}

/// The summary of a message, as message lists give it.
#[derive(Debug, Clone, PartialEq)]
pub struct HydraMember {
    pub id: String,
    pub type_field: String,
    pub id2: String,
    pub account_id: String,
    pub msgid: String,
    pub from: From,
    pub to: Vec<To>,
    pub subject: String,
    pub intro: String,
    pub seen: bool,
    pub has_attachments: bool,
    pub download_url: String,
    pub size: i64,
    pub created_at: String,
    pub updated_at: String,
}

/// The sender of a message.
#[derive(Debug, Clone, PartialEq)]
pub struct From {
    pub address: String,
    pub name: String,
}

/// A recipient of a message.
#[derive(Debug, Clone, PartialEq)]
pub struct To {
    pub address: String,
    pub name: String,
}

/// The address that sends verification mail.
pub const VERIFICATION_SENDER: &'static str = "noreply@discord.com";

/// Some message of the page was sent from an address that contains the
/// verification sender's address.
pub open spec fn has_verification_email(members: Seq<HydraMember>) -> bool {
    exists|i: int|
        0 <= i < members.len() && contains_text(
            #[trigger] members[i].from.address@,
            VERIFICATION_SENDER@,
        )
}

/// Whether some message of the page comes from the verification sender.
pub fn contains_verification_email(messages: ListMessages) -> (r: bool)
    ensures
        r == has_verification_email(messages.hydra_member@),
{
    let mut i: usize = 0;
    while i < messages.hydra_member.len()
        invariant
            i <= messages.hydra_member@.len(),
            forall|k: int|
                0 <= k < i ==> !contains_text(
                    #[trigger] messages.hydra_member@[k].from.address@,
                    VERIFICATION_SENDER@,
                ),
        decreases messages.hydra_member@.len() - i,
    {
        if contains_str(messages.hydra_member[i].from.address.as_str(), VERIFICATION_SENDER) {
            return true;
        }
        i += 1;
    }
    false
}

} // verus!
