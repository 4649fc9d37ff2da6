use vstd::prelude::*;

use crate::text::text_is;

verus! {

/// A game effect decided for one player turn.
#[derive(Debug, Clone, PartialEq, Eq)]
pub enum Action {
    NewScene { name: String, desc: String },
    AddToInventory { item: String, message: String },
    RemoveFromInventory { item: String, message: String },
    Information { message: String },
    EndGame { message: String },
}

/// Abstract value of an `Action`.
pub enum ActionView {
    NewScene { name: Seq<char>, desc: Seq<char> },
    AddToInventory { item: Seq<char>, message: Seq<char> },
    RemoveFromInventory { item: Seq<char>, message: Seq<char> },
    Information { message: Seq<char> },
    EndGame { message: Seq<char> },
}

impl View for Action {
    type V = ActionView;

    open spec fn view(&self) -> ActionView {
        match self {
            Action::NewScene { name, desc } => ActionView::NewScene { name: name@, desc: desc@ },
            Action::AddToInventory { item, message } => ActionView::AddToInventory {
                item: item@,
                message: message@,
            },
            Action::RemoveFromInventory { item, message } => ActionView::RemoveFromInventory {
                item: item@,
                message: message@,
            },
            Action::Information { message } => ActionView::Information { message: message@ },
            Action::EndGame { message } => ActionView::EndGame { message: message@ },
        }
    }
}

/// Why a reply could not be read as an action.
#[derive(Debug, Clone, Copy, PartialEq, Eq, Structural)]
pub enum ActionError {
    /// The text is not a YAML mapping whose values are all scalars.
    Malformed,
    /// The mapping has no `type` field.
    MissingType,
    /// The `type` field names no kind of action.
    UnknownType,
    /// A field that the named kind of action needs is absent.
    MissingField,
}

/// Abstract value of a list of text fields.
pub open spec fn field_views(v: Seq<(String, String)>) -> Seq<(Seq<char>, Seq<char>)> {
    v.map_values(|p: (String, String)| (p.0@, p.1@))
}

/// The value of the first field named `key`.
pub open spec fn field_value(fields: Seq<(Seq<char>, Seq<char>)>, key: Seq<char>) -> Option<
    Seq<char>,
>
    decreases fields.len(),
{
    if fields.len() == 0 {
        None
    } else if fields[0].0 == key {
        Some(fields[0].1)
    } else {
        field_value(fields.drop_first(), key)
    }
}

/// An action of two fields, `a` and `b`, built by `make` when both are present.
pub open spec fn with_two_fields(
    fields: Seq<(Seq<char>, Seq<char>)>,
    a: Seq<char>,
    b: Seq<char>,
    make: spec_fn(Seq<char>, Seq<char>) -> ActionView,
) -> Result<ActionView, ActionError> {
    match (field_value(fields, a), field_value(fields, b)) {
        (Some(x), Some(y)) => Ok(make(x, y)),
        _ => Err(ActionError::MissingField),
    }
}

/// An action of one field, `a`, built by `make` when it is present.
pub open spec fn with_one_field(
    fields: Seq<(Seq<char>, Seq<char>)>,
    a: Seq<char>,
    make: spec_fn(Seq<char>) -> ActionView,
) -> Result<ActionView, ActionError> {
    match field_value(fields, a) {
        Some(x) => Ok(make(x)),
        None => Err(ActionError::MissingField),
    }
}

/// The action that a list of text fields describes: the `type` field names the
/// kind, and the kind's own fields must all be present. Other fields are ignored.
pub open spec fn action_of_fields(fields: Seq<(Seq<char>, Seq<char>)>) -> Result<
    ActionView,
    ActionError,
> {
    match field_value(fields, "type"@) {
        None => Err(ActionError::MissingType),
        Some(t) => if t == "NewScene"@ {
            with_two_fields(
                fields,
                "name"@,
                "desc"@,
                |x: Seq<char>, y: Seq<char>| ActionView::NewScene { name: x, desc: y },
            )
        } else if t == "AddToInventory"@ {
            with_two_fields(
                fields,
                "item"@,
                "message"@,
                |x: Seq<char>, y: Seq<char>| ActionView::AddToInventory { item: x, message: y },
            )
        } else if t == "RemoveFromInventory"@ {
            with_two_fields(
                fields,
                "item"@,
                "message"@,
                |x: Seq<char>, y: Seq<char>| ActionView::RemoveFromInventory { item: x, message: y },
            )
        } else if t == "Information"@ {
            with_one_field(fields, "message"@, |x: Seq<char>| ActionView::Information { message: x })
        } else if t == "EndGame"@ {
            with_one_field(fields, "message"@, |x: Seq<char>| ActionView::EndGame { message: x })
        } else {
            Err(ActionError::UnknownType)
        },
    }
}

/// Abstract value of a parse result.
pub open spec fn result_view(r: Result<Action, ActionError>) -> Result<ActionView, ActionError> {
    match r {
        Ok(a) => Ok(a@),
        Err(e) => Err(e),
    }
}

/// The action that a YAML text describes.
pub open spec fn decode_yaml(s: Seq<char>) -> Result<ActionView, ActionError> {
    match yaml_text_mapping(s) {
        None => Err(ActionError::Malformed),
        Some(f) => action_of_fields(f),
    }
}

/// The fields, in key order, of the YAML mapping that the text holds, each
/// scalar value read as text; `None` where the text holds no such mapping.
pub uninterp spec fn yaml_text_mapping(s: Seq<char>) -> Option<Seq<(Seq<char>, Seq<char>)>>;

#[verifier::external_type_specification]
#[verifier::external_body]
pub struct ExYamlError(serde_yaml::Error);

/// Relies on `serde_yaml::from_str` read into a `BTreeMap<String, String>`,
/// whose entries are then listed in key order.
#[verifier::external_body]
fn parse_text_mapping(s: &str) -> (r: Result<Vec<(String, String)>, serde_yaml::Error>)
    ensures
        r is Ok <==> yaml_text_mapping(s@) is Some,
        r is Ok ==> field_views(r->Ok_0@) == yaml_text_mapping(s@)->0,
{
    match serde_yaml::from_str::<std::collections::BTreeMap<String, String>>(s) {
        Ok(m) => Ok(m.into_iter().collect()),
        Err(e) => Err(e),
    }
}

/// Looks up the first field named `key`.
fn find_field(fields: &Vec<(String, String)>, key: &str) -> (r: Option<String>)
    ensures
        r is Some ==> field_value(field_views(fields@), key@) == Some(r->0@),
        r is None ==> field_value(field_views(fields@), key@) is None,
{
    let ghost all = field_views(fields@);
    let wanted = String::from_str(key);
    let mut i: usize = 0;
    assert(all.skip(0) =~= all);
    while i < fields.len()
        invariant
            i <= fields.len(),
            all == field_views(fields@),
            wanted@ == key@,
            field_value(all, key@) == field_value(all.skip(i as int), key@),
        decreases fields.len() - i,
    {
        let ghost rest = all.skip(i as int);
        assert(rest[0] == all[i as int]);
        if fields[i].0 == wanted {
            return Some(fields[i].1.clone());
        }
        assert(rest.drop_first() =~= all.skip(i + 1));
        i = i + 1;
    }
    None
}

impl Action {
    /// A copy of the action.
    pub fn duplicate(&self) -> (r: Action)
        ensures
            r@ == self@,
    {
        match self {
            Action::NewScene { name, desc } => Action::NewScene { name: name.clone(), desc: desc.clone() },
            Action::AddToInventory { item, message } => Action::AddToInventory {
                item: item.clone(),
                message: message.clone(),
            },
            Action::RemoveFromInventory { item, message } => Action::RemoveFromInventory {
                item: item.clone(),
                message: message.clone(),
            },
            Action::Information { message } => Action::Information { message: message.clone() },
            Action::EndGame { message } => Action::EndGame { message: message.clone() },
        }
    }

    /// Reads an action from its text fields.
    pub fn from_fields(fields: &Vec<(String, String)>) -> (r: Result<Action, ActionError>)
        ensures
            result_view(r) == action_of_fields(field_views(fields@)),
    {
        let kind = match find_field(fields, "type") {
            Some(t) => t,
            None => return Err(ActionError::MissingType),
        };
        if text_is(kind.as_str(), "NewScene") {
            match (find_field(fields, "name"), find_field(fields, "desc")) {
                (Some(name), Some(desc)) => Ok(Action::NewScene { name, desc }),
                _ => Err(ActionError::MissingField),
            }
        } else if text_is(kind.as_str(), "AddToInventory") {
            match (find_field(fields, "item"), find_field(fields, "message")) {
                (Some(item), Some(message)) => Ok(Action::AddToInventory { item, message }),
                _ => Err(ActionError::MissingField),
            }
        } else if text_is(kind.as_str(), "RemoveFromInventory") {
            match (find_field(fields, "item"), find_field(fields, "message")) {
                (Some(item), Some(message)) => Ok(Action::RemoveFromInventory { item, message }),
                _ => Err(ActionError::MissingField),
            }
        } else if text_is(kind.as_str(), "Information") {
            match find_field(fields, "message") {
                Some(message) => Ok(Action::Information { message }),
                None => Err(ActionError::MissingField),
            }
        } else if text_is(kind.as_str(), "EndGame") {
            match find_field(fields, "message") {
                Some(message) => Ok(Action::EndGame { message }),
                None => Err(ActionError::MissingField),
            }
        } else {
            Err(ActionError::UnknownType)
        }
    }

    /// Reads an action from a YAML mapping, strictly: an unknown `type` or a
    /// missing field is an error, never a guess.
    pub fn from_yaml(yaml: &str) -> (r: Result<Action, ActionError>)
        ensures
            result_view(r) == decode_yaml(yaml@),
    {
        match parse_text_mapping(yaml) {
            Ok(fields) => Action::from_fields(&fields),
            Err(_) => Err(ActionError::Malformed),
        }
    }
}

} // verus!
