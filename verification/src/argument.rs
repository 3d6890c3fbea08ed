//! Raw arguments of an invocation and their decoding against the parameters
//! that a command declares.

use crate::schema::{field_views, Field, FieldView, ValueKind};
use vstd::prelude::*;

verus! {

/// One raw value as the caller supplied it.
#[derive(Debug, PartialEq, Eq)]
pub enum ArgValue {
    Text(String),
    Number(u64),
    Flag(bool),
    /// An explicit "no value". It has no type and satisfies no parameter.
    Null,
}

/// The mathematical value of an [`ArgValue`].
pub ghost enum ArgValueView {
    Text(Seq<char>),
    Number(u64),
    Flag(bool),
    Null,
}

impl ArgValueView {
    /// The type of the value; `Null` has none.
    pub open spec fn kind(self) -> Option<ValueKind> {
        match self {
            ArgValueView::Text(_) => Some(ValueKind::Text),
            ArgValueView::Number(_) => Some(ValueKind::Number),
            ArgValueView::Flag(_) => Some(ValueKind::Flag),
            ArgValueView::Null => None,
        }
    }
}

impl View for ArgValue {
    type V = ArgValueView;

    open spec fn view(&self) -> ArgValueView {
        match self {
            ArgValue::Text(s) => ArgValueView::Text(s@),
            ArgValue::Number(n) => ArgValueView::Number(*n),
            ArgValue::Flag(b) => ArgValueView::Flag(*b),
            ArgValue::Null => ArgValueView::Null,
        }
    }
}

impl Clone for ArgValue {
    fn clone(&self) -> (copy: Self)
        ensures
            copy@ == self@,
    {
        match self {
            ArgValue::Text(s) => ArgValue::Text(s.clone()),
            ArgValue::Number(n) => ArgValue::Number(*n),
            ArgValue::Flag(b) => ArgValue::Flag(*b),
            ArgValue::Null => ArgValue::Null,
        }
    }
}

impl ArgValue {
    /// The type of the value; `Null` has none.
    pub fn kind(&self) -> (kind: Option<ValueKind>)
        ensures
            kind == self@.kind(),
    {
        match self {
            ArgValue::Text(_) => Some(ValueKind::Text),
            ArgValue::Number(_) => Some(ValueKind::Number),
            ArgValue::Flag(_) => Some(ValueKind::Flag),
            ArgValue::Null => None,
        }
    }
}

/// One raw argument: a name and the value supplied under it.
#[derive(Debug, PartialEq, Eq)]
pub struct Argument {
    pub name: String,
    pub value: ArgValue,
}

/// The mathematical value of an [`Argument`].
pub ghost struct ArgumentView {
    pub name: Seq<char>,
    pub value: ArgValueView,
}

impl View for Argument {
    type V = ArgumentView;

    open spec fn view(&self) -> ArgumentView {
        ArgumentView { name: self.name@, value: self.value@ }
    }
}

/// The views of a list of arguments, in order.
pub open spec fn argument_views(arguments: Seq<Argument>) -> Seq<ArgumentView> {
    arguments.map_values(|a: Argument| a@)
}

/// The views of a list of values, in order.
pub open spec fn value_views(values: Seq<ArgValue>) -> Seq<ArgValueView> {
    values.map_values(|v: ArgValue| v@)
}

/// The value supplied under `name`: that of the first argument so named, if
/// there is one.
pub open spec fn lookup(arguments: Seq<ArgumentView>, name: Seq<char>) -> Option<ArgValueView>
    decreases arguments.len(),
{
    if arguments.len() == 0 {
        None
    } else if arguments[0].name == name {
        Some(arguments[0].value)
    } else {
        lookup(arguments.skip(1), name)
    }
}

/// Whether the arguments satisfy one parameter: a value is supplied under its
/// name, and it has the declared type.
pub open spec fn satisfies(arguments: Seq<ArgumentView>, parameter: FieldView) -> bool {
    match lookup(arguments, parameter.name) {
        Some(value) => value.kind() == Some(parameter.kind),
        None => false,
    }
}

/// Whether the arguments decode against the declared parameters: they satisfy
/// every one of them. Arguments that no parameter names are ignored.
pub open spec fn conforms(arguments: Seq<ArgumentView>, parameters: Seq<FieldView>) -> bool {
    forall|i: int| 0 <= i < parameters.len() ==> satisfies(arguments, #[trigger] parameters[i])
}

/// The decoded arguments: for each declared parameter, in order, the value
/// supplied under its name.
pub open spec fn decoded(arguments: Seq<ArgumentView>, parameters: Seq<FieldView>) -> Seq<
    ArgValueView,
> {
    Seq::new(parameters.len(), |i: int| lookup(arguments, parameters[i].name).unwrap())
}

/// The failure to decode raw arguments: a declared parameter is missing, or
/// its value has another type than declared.
#[derive(Debug, Clone, Copy, PartialEq, Eq)]
pub struct ArgumentDecodeError;

/// Finds the value supplied under `name`.
pub fn find<'a>(arguments: &'a Vec<Argument>, name: &String) -> (value: Option<&'a ArgValue>)
    ensures
        match value {
            Some(v) => lookup(argument_views(arguments@), name@) == Some(v@),
            None => lookup(argument_views(arguments@), name@) is None,
        },
{
    let ghost all = argument_views(arguments@);
    let mut i: usize = 0;
    proof {
        assert(all.skip(0) =~= all);
    }
    while i < arguments.len()
        invariant
            0 <= i <= arguments.len(),
            all == argument_views(arguments@),
            lookup(all, name@) == lookup(all.skip(i as int), name@),
        decreases arguments.len() - i,
    {
        proof {
            assert(all.skip(i as int)[0] == arguments@[i as int]@);
            assert(all.skip(i as int).skip(1) =~= all.skip(i as int + 1));
        }
        if arguments[i].name == *name {
            return Some(&arguments[i].value);
        }
        i += 1;
    }
    None
}

/// Decodes raw arguments against declared parameters.
///
/// Succeeds exactly when the arguments conform, and then returns, for each
/// parameter in order, the value supplied under its name. Fails with
/// [`ArgumentDecodeError`] when a parameter is missing or has a value of
/// another type.
pub fn decode(arguments: &Vec<Argument>, parameters: &Vec<Field>) -> (outcome: Result<
    Vec<ArgValue>,
    ArgumentDecodeError,
>)
    ensures
        match outcome {
            Ok(values) => {
                &&& conforms(argument_views(arguments@), field_views(parameters@))
                &&& value_views(values@) == decoded(
                    argument_views(arguments@),
                    field_views(parameters@),
                )
            },
            Err(_) => !conforms(argument_views(arguments@), field_views(parameters@)),
        },
{
    let ghost raw = argument_views(arguments@);
    let ghost declared = field_views(parameters@);
    let mut values: Vec<ArgValue> = Vec::new();
    let mut i: usize = 0;
    while i < parameters.len()
        invariant
            0 <= i <= parameters.len(),
            raw == argument_views(arguments@),
            declared == field_views(parameters@),
            values@.len() == i,
            forall|j: int| 0 <= j < i ==> satisfies(raw, #[trigger] declared[j]),
            forall|j: int|
                0 <= j < i ==> (#[trigger] values@[j])@ == lookup(raw, declared[j].name).unwrap(),
        decreases parameters.len() - i,
    {
        let parameter = &parameters[i];
        assert(declared[i as int] == parameter@);
        match find(arguments, &parameter.name) {
            Some(value) => {
                match value.kind() {
                    Some(kind) => {
                        if kind != parameter.kind {
                            return Err(ArgumentDecodeError);
                        }
                    },
                    None => {
                        return Err(ArgumentDecodeError);
                    },
                }
                values.push(value.clone());
            },
            None => {
                return Err(ArgumentDecodeError);
            },
        }
        i += 1;
    }
    proof {
        assert(value_views(values@) =~= decoded(raw, declared));
    }
    Ok(values)
}

} // verus!
