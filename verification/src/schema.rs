//! The declared shape of commands and events: names, field names and field
//! types. It is pure metadata, available without running any handler.

use vstd::prelude::*;
use vstd::string::*;

verus! {

/// The type of one value that crosses the boundary.
#[derive(Debug, Clone, Copy, PartialEq, Eq, Structural)]
pub enum ValueKind {
    /// A string.
    Text,
    /// An unsigned whole number.
    Number,
    /// A boolean.
    Flag,
}

/// One named, typed field: a parameter of a command or a field of an event.
#[derive(Debug, PartialEq, Eq)]
pub struct Field {
    pub name: String,
    pub kind: ValueKind,
}

/// The mathematical value of a [`Field`].
pub ghost struct FieldView {
    pub name: Seq<char>,
    pub kind: ValueKind,
}

impl View for Field {
    type V = FieldView;

    open spec fn view(&self) -> FieldView {
        FieldView { name: self.name@, kind: self.kind }
    }
}

impl Clone for Field {
    fn clone(&self) -> (copy: Self)
        ensures
            copy@ == self@,
    {
        Field { name: self.name.clone(), kind: self.kind }
    }
}

/// The views of a list of fields, in order.
pub open spec fn field_views(fields: Seq<Field>) -> Seq<FieldView> {
    fields.map_values(|f: Field| f@)
}

/// One variant of the event union as the client sees it: the discriminator
/// value and the fields of the payload, in order.
#[derive(Debug, PartialEq, Eq)]
pub struct Variant {
    pub tag: String,
    pub fields: Vec<Field>,
}

/// The mathematical value of a [`Variant`].
pub ghost struct VariantView {
    pub tag: Seq<char>,
    pub fields: Seq<FieldView>,
}

impl View for Variant {
    type V = VariantView;

    open spec fn view(&self) -> VariantView {
        VariantView { tag: self.tag@, fields: field_views(self.fields@) }
    }
}

/// The views of a list of variants, in order.
pub open spec fn variant_views(variants: Seq<Variant>) -> Seq<VariantView> {
    variants.map_values(|v: Variant| v@)
}

/// The declared shape of a download event: its three variants with their
/// fields, the names in camel case.
pub open spec fn event_schema() -> Seq<VariantView> {
    seq![
        VariantView {
            tag: "started"@,
            fields: seq![
                FieldView { name: "url"@, kind: ValueKind::Text },
                FieldView { name: "sessionId"@, kind: ValueKind::Number },
                FieldView { name: "contentLength"@, kind: ValueKind::Number },
            ],
        },
        VariantView {
            tag: "progress"@,
            fields: seq![
                FieldView { name: "sessionId"@, kind: ValueKind::Number },
                FieldView { name: "chunkLength"@, kind: ValueKind::Number },
            ],
        },
        VariantView {
            tag: "finished"@,
            fields: seq![FieldView { name: "sessionId"@, kind: ValueKind::Number }],
        },
    ]
}

/// A field of the given name and type.
pub fn field(name: &str, kind: ValueKind) -> (field: Field)
    ensures
        field@ == (FieldView { name: name@, kind }),
{
    Field { name: String::from_str(name), kind }
}

/// The declared shape of a download event, for whoever writes client stubs.
pub fn event_variants() -> (variants: Vec<Variant>)
    ensures
        variant_views(variants@) == event_schema(),
{
    let started = Variant {
        tag: String::from_str("started"),
        fields: vec![
            field("url", ValueKind::Text),
            field("sessionId", ValueKind::Number),
            field("contentLength", ValueKind::Number),
        ],
    };
    let progress = Variant {
        tag: String::from_str("progress"),
        fields: vec![
            field("sessionId", ValueKind::Number),
            field("chunkLength", ValueKind::Number),
        ],
    };
    let finished = Variant {
        tag: String::from_str("finished"),
        fields: vec![field("sessionId", ValueKind::Number)],
    };
    proof {
        assert(started@.fields =~= event_schema()[0].fields);
        assert(progress@.fields =~= event_schema()[1].fields);
        assert(finished@.fields =~= event_schema()[2].fields);
    }
    let variants: Vec<Variant> = vec![started, progress, finished];
    proof {
        assert(variant_views(variants@) =~= event_schema());
    }
    variants
}

} // verus!
