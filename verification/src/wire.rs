//! The shape in which an event crosses the boundary: a record of two fields,
//! the discriminator that names the variant and the payload that carries the
//! variant's fields.

use crate::argument::{argument_views, Argument, ArgumentView, ArgValue, ArgValueView};
use crate::event::{DownloadEvent, DownloadEventView};
use crate::schema::{event_schema, VariantView};
use vstd::prelude::*;
use vstd::string::*;

verus! {

/// The name of the field that holds the discriminator.
pub const DISCRIMINATOR_FIELD: &'static str = "event";

/// The name of the field that holds the payload.
pub const PAYLOAD_FIELD: &'static str = "data";

/// The variant of the event schema that declares the event.
pub open spec fn variant_of(event: DownloadEventView) -> VariantView {
    match event {
        DownloadEventView::Started { .. } => event_schema()[0],
        DownloadEventView::Progress { .. } => event_schema()[1],
        DownloadEventView::Finished { .. } => event_schema()[2],
    }
}

/// The payload of an event: its fields by name, in the declared order.
pub open spec fn payload_of(event: DownloadEventView) -> Seq<ArgumentView> {
    match event {
        DownloadEventView::Started { url, session_id, content_length } => seq![
            ArgumentView { name: "url"@, value: ArgValueView::Text(url) },
            ArgumentView { name: "sessionId"@, value: ArgValueView::Number(session_id) },
            ArgumentView { name: "contentLength"@, value: ArgValueView::Number(content_length) },
        ],
        DownloadEventView::Progress { session_id, chunk_length } => seq![
            ArgumentView { name: "sessionId"@, value: ArgValueView::Number(session_id) },
            ArgumentView { name: "chunkLength"@, value: ArgValueView::Number(chunk_length) },
        ],
        DownloadEventView::Finished { session_id } => seq![
            ArgumentView { name: "sessionId"@, value: ArgValueView::Number(session_id) },
        ],
    }
}

/// Every event travels as its schema declares it: its discriminator is the
/// tag of its variant, and its payload holds the variant's fields, one for
/// one, under the declared names and with values of the declared types.
pub proof fn lemma_payload_matches_schema(event: DownloadEventView)
    ensures
        variant_of(event).tag == event.tag(),
        payload_of(event).len() == variant_of(event).fields.len(),
        forall|i: int|
            0 <= i < payload_of(event).len() ==> {
                &&& (#[trigger] payload_of(event)[i]).name == variant_of(event).fields[i].name
                &&& payload_of(event)[i].value.kind() == Some(variant_of(event).fields[i].kind)
            },
{
}

/// A number under a name.
fn number(name: &str, value: u64) -> (argument: Argument)
    ensures
        argument@ == (ArgumentView { name: name@, value: ArgValueView::Number(value) }),
{
    Argument { name: String::from_str(name), value: ArgValue::Number(value) }
}

/// The payload of an event: its fields by name, in the declared order.
pub fn payload(event: &DownloadEvent) -> (fields: Vec<Argument>)
    ensures
        argument_views(fields@) == payload_of(event@),
{
    let fields: Vec<Argument> = match event {
        DownloadEvent::Started { url, session_id, content_length } => vec![
            Argument { name: String::from_str("url"), value: ArgValue::Text(url.clone()) },
            number("sessionId", *session_id),
            number("contentLength", *content_length),
        ],
        DownloadEvent::Progress { session_id, chunk_length } => vec![
            number("sessionId", *session_id),
            number("chunkLength", *chunk_length),
        ],
        DownloadEvent::Finished { session_id } => vec![number("sessionId", *session_id)],
    };
    proof {
        assert(argument_views(fields@) =~= payload_of(event@));
    }
    fields
}

} // verus!
