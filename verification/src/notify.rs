//! Composing the outgoing notification message.

use vstd::prelude::*;
use vstd::string::*;
use crate::model::{Attachment, Billing, MessageField, NotificationMessage, ServiceBilling};
use crate::text::{dollars_text, format_dollars};

verus! {

/// What one attachment of the message says.
#[verifier::ext_equal]
pub ghost struct AttachmentModel {
    pub title: Seq<char>,
    pub rows: Seq<(Seq<char>, Seq<char>)>,
}

/// What the whole message says, with every string read as its character
/// sequence.
#[verifier::ext_equal]
pub ghost struct MessageModel {
    pub display_name: Seq<char>,
    pub icon_hint: Seq<char>,
    pub text: Seq<char>,
    pub attachments: Seq<AttachmentModel>,
}

pub open spec fn model_of_field(f: MessageField) -> (Seq<char>, Seq<char>) {
    (f.label@, f.value@)
}

pub open spec fn models_of_fields(fs: Seq<MessageField>) -> Seq<(Seq<char>, Seq<char>)> {
    fs.map_values(|f: MessageField| model_of_field(f))
}

pub open spec fn model_of_attachment(a: Attachment) -> AttachmentModel {
    AttachmentModel { title: a.title@, rows: models_of_fields(a.fields@) }
}

pub open spec fn model_of_message(m: NotificationMessage) -> MessageModel {
    MessageModel {
        display_name: m.display_name@,
        icon_hint: m.icon_hint@,
        text: m.text@,
        attachments: m.attachments@.map_values(|a: Attachment| model_of_attachment(a)),
    }
}

/// Billing rows as (name, cents) pairs.
pub open spec fn rows_of_services(s: Seq<ServiceBilling>) -> Seq<(Seq<char>, u64)> {
    s.map_values(|b: ServiceBilling| (b.name@, b.cost_cents))
}

/// Rows rendered for display: the name, and the cost as dollars text.
pub open spec fn rendered_rows(rows: Seq<(Seq<char>, u64)>) -> Seq<(Seq<char>, Seq<char>)> {
    rows.map_values(|r: (Seq<char>, u64)| (r.0, dollars_text(r.1 as int)))
}

/// The fixed sender name on every outgoing message.
pub open spec fn display_name_text() -> Seq<char> {
    "AWS Billing Notification"@
}

/// The fixed icon hint on every outgoing message.
pub open spec fn icon_hint_text() -> Seq<char> {
    ":money_with_wings:"@
}

/// The fixed title of the per-service attachment.
pub open spec fn attachment_title_text() -> Seq<char> {
    "each service"@
}

/// The fixed text template around the total.
pub open spec fn message_text(total_cents: int) -> Seq<char> {
    "今月の請求額は "@ + dollars_text(total_cents) + " です"@
}

/// The message composed for a computed billing: fixed sender and icon,
/// the templated text carrying the total, and one attachment holding a
/// row per service, in the order the services were computed.
pub open spec fn composed_message(total_cents: u64, rows: Seq<(Seq<char>, u64)>) -> MessageModel {
    MessageModel {
        display_name: display_name_text(),
        icon_hint: icon_hint_text(),
        text: message_text(total_cents as int),
        attachments: seq![
            AttachmentModel { title: attachment_title_text(), rows: rendered_rows(rows) },
        ],
    }
}

/// Composes the notification for a computed billing aggregate.
pub fn compose_message(billing: &Billing) -> (m: NotificationMessage)
    ensures
        model_of_message(m) == composed_message(
            billing.total_cents,
            rows_of_services(billing.services@),
        ),
{
    let total_cents = billing.total_cents;
    let services = &billing.services;
    let mut text = String::from_str("今月の請求額は ");
    let total_str = format_dollars(total_cents);
    text.append(total_str.as_str());
    text.append(" です");
    let mut fields: Vec<MessageField> = Vec::new();
    let mut i: usize = 0;
    proof {
        assert(models_of_fields(fields@) =~= rendered_rows(
            rows_of_services(services@.take(0)),
        ));
    }
    while i < services.len()
        invariant
            i <= services.len(),
            models_of_fields(fields@) == rendered_rows(rows_of_services(services@.take(i as int))),
            text@ == message_text(total_cents as int),
        decreases services.len() - i,
    {
        let b = &services[i];
        let ghost before = fields@;
        let value = format_dollars(b.cost_cents);
        fields.push(MessageField { label: b.name.clone(), value });
        proof {
            assert(models_of_fields(fields@) =~= models_of_fields(before).push(
                (b.name@, dollars_text(b.cost_cents as int)),
            ));
            assert(rendered_rows(rows_of_services(services@.take(i as int + 1))) =~= rendered_rows(
                rows_of_services(services@.take(i as int)),
            ).push((b.name@, dollars_text(b.cost_cents as int))));
        }
        i += 1;
    }
    proof {
        assert(services@.take(services@.len() as int) =~= services@);
    }
    let mut attachments: Vec<Attachment> = Vec::new();
    attachments.push(Attachment { title: String::from_str("each service"), fields });
    let m = NotificationMessage {
        display_name: String::from_str("AWS Billing Notification"),
        icon_hint: String::from_str(":money_with_wings:"),
        text,
        attachments,
    };
    proof {
        assert(m.attachments@.map_values(|a: Attachment| model_of_attachment(a))
            =~= composed_message(total_cents, rows_of_services(services@)).attachments);
        assert(model_of_message(m) =~= composed_message(total_cents, rows_of_services(services@)));
    }
    m
}

} // verus!
