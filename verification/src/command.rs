//! The operations that can be registered as commands, what each declares, and
//! the decoding of raw arguments into a typed call.

use crate::argument::{
    argument_views, conforms, decode, decoded, Argument, ArgumentDecodeError, ArgValue,
    ArgValueView, ArgumentView,
};
use crate::schema::{field_views, Field, FieldView, ValueKind};
use vstd::prelude::*;
use vstd::string::*;

verus! {

/// A handler that a command name can be bound to.
#[derive(Debug, Clone, Copy, PartialEq, Eq, Structural)]
pub enum Operation {
    /// Answers with a greeting for the given name. Emits no events.
    Greet,
    /// Streams the lifecycle of a download over the invocation's channel and
    /// returns nothing.
    Download,
}

impl Operation {
    /// The parameters that the operation declares.
    pub open spec fn parameter_schema(self) -> Seq<FieldView> {
        match self {
            Operation::Greet => seq![FieldView { name: "name"@, kind: ValueKind::Text }],
            Operation::Download => seq![FieldView { name: "url"@, kind: ValueKind::Text }],
        }
    }

    /// Whether the operation conveys its result over a channel.
    pub open spec fn streams(self) -> bool {
        self is Download
    }

    /// The type of the value that the operation returns; `None` for an
    /// operation that returns nothing.
    pub open spec fn result_kind(self) -> Option<ValueKind> {
        match self {
            Operation::Greet => Some(ValueKind::Text),
            Operation::Download => None,
        }
    }

    /// The parameters that the operation declares, in order.
    pub fn parameters(&self) -> (parameters: Vec<Field>)
        ensures
            field_views(parameters@) == self.parameter_schema(),
    {
        let name = match self {
            Operation::Greet => String::from_str("name"),
            Operation::Download => String::from_str("url"),
        };
        let parameters: Vec<Field> = vec![Field { name, kind: ValueKind::Text }];
        proof {
            assert(field_views(parameters@) =~= self.parameter_schema());
        }
        parameters
    }

    /// Whether the operation conveys its result over a channel.
    pub fn is_streaming(&self) -> (streaming: bool)
        ensures
            streaming == self.streams(),
    {
        match self {
            Operation::Greet => false,
            Operation::Download => true,
        }
    }

    /// The type of the value that the operation returns, if it returns one.
    pub fn result(&self) -> (kind: Option<ValueKind>)
        ensures
            kind == self.result_kind(),
    {
        match self {
            Operation::Greet => Some(ValueKind::Text),
            Operation::Download => None,
        }
    }
}

/// A decoded invocation: the operation with its typed arguments.
#[derive(Debug, PartialEq, Eq)]
pub enum Call {
    Greet { name: String },
    Download { url: String },
}

/// The mathematical value of a [`Call`].
pub ghost enum CallView {
    Greet { name: Seq<char> },
    Download { url: Seq<char> },
}

impl View for Call {
    type V = CallView;

    open spec fn view(&self) -> CallView {
        match self {
            Call::Greet { name } => CallView::Greet { name: name@ },
            Call::Download { url } => CallView::Download { url: url@ },
        }
    }
}

/// The text that a value carries; the empty text for a value of another type.
pub open spec fn text_of(value: ArgValueView) -> Seq<char> {
    match value {
        ArgValueView::Text(text) => text,
        _ => Seq::<char>::empty(),
    }
}

/// The call that raw arguments decode to for an operation: `None` when they do
/// not conform to its declared parameters, else the operation with the values
/// supplied under its parameters' names.
pub open spec fn call_of(operation: Operation, arguments: Seq<ArgumentView>) -> Option<CallView> {
    if !conforms(arguments, operation.parameter_schema()) {
        None
    } else {
        let values = decoded(arguments, operation.parameter_schema());
        match operation {
            Operation::Greet => Some(CallView::Greet { name: text_of(values[0]) }),
            Operation::Download => Some(CallView::Download { url: text_of(values[0]) }),
        }
    }
}

/// Decodes the raw arguments of an invocation of `operation` against the
/// parameters it declares. Fails with [`ArgumentDecodeError`] exactly when a
/// declared parameter is missing or has a value of another type.
pub fn decode_call(operation: Operation, arguments: &Vec<Argument>) -> (outcome: Result<
    Call,
    ArgumentDecodeError,
>)
    ensures
        match outcome {
            Ok(call) => call_of(operation, argument_views(arguments@)) == Some(call@),
            Err(_) => call_of(operation, argument_views(arguments@)) is None,
        },
{
    let parameters = operation.parameters();
    let values = decode(arguments, &parameters)?;
    assert(values@.len() == 1 && values@[0]@ == decoded(
        argument_views(arguments@),
        operation.parameter_schema(),
    )[0]) by {
        assert(values@.map_values(|v: ArgValue| v@).len() == 1);
        assert(values@.map_values(|v: ArgValue| v@)[0] == values@[0]@);
    }
    assert(operation.parameter_schema()[0].kind == ValueKind::Text);
    match &values[0] {
        ArgValue::Text(text) => {
            match operation {
                Operation::Greet => Ok(Call::Greet { name: text.clone() }),
                Operation::Download => Ok(Call::Download { url: text.clone() }),
            }
        },
        _ => Err(ArgumentDecodeError),
    }
}

} // verus!
