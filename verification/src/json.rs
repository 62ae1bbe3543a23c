//! Structured data as it comes out of a manifest file, and the reading of
//! a manifest from it.
//!
//! A manifest is an object with one field `services`: a list of objects,
//! each with a `name`, a `program` (or, where that is absent, a `path`) and
//! a list `args` of strings. Fields that are not named here are ignored.

use vstd::prelude::*;
use vstd::string::StringExecFns;
use crate::manifest::{Manifest, ServiceDescriptor, ServiceModel};
use crate::text::{digits, render_digits};

verus! {

/// A value of structured data. A number is kept as its text.
#[derive(Debug, PartialEq, Eq)]
pub enum Json {
    Null,
    Bool(bool),
    Number(String),
    Text(String),
    Array(Vec<Json>),
    Object(Vec<Member>),
}

/// One field of an object.
#[derive(Debug, PartialEq, Eq)]
pub struct Member {
    pub key: String,
    pub value: Json,
}

/// The value of the first field of the given name, if there is one.
pub open spec fn lookup(members: Seq<Member>, key: Seq<char>) -> Option<Json>
    decreases members.len(),
{
    if members.len() == 0 {
        None
    } else if members[0].key@ == key {
        Some(members[0].value)
    } else {
        lookup(members.skip(1), key)
    }
}

/// The texts of a list whose items are all strings.
pub open spec fn strings_of(items: Seq<Json>) -> Option<Seq<Seq<char>>> {
    if forall|i: int| 0 <= i < items.len() ==> (#[trigger] items[i]) is Text {
        Some(Seq::new(items.len(), |i: int| items[i]->Text_0@))
    } else {
        None
    }
}

/// The text of a field that must be a string.
pub open spec fn text_field(members: Seq<Member>, key: Seq<char>) -> Option<Seq<char>> {
    match lookup(members, key) {
        Some(Json::Text(text)) => Some(text@),
        _ => None,
    }
}

/// The program of a service: its field `program`, or its field `path`
/// where it has no field `program`.
pub open spec fn program_of(members: Seq<Member>) -> Option<Seq<char>> {
    if lookup(members, "program"@) is Some {
        text_field(members, "program"@)
    } else {
        text_field(members, "path"@)
    }
}

/// The arguments of a service: its field `args`, a list of strings.
pub open spec fn args_of(members: Seq<Member>) -> Option<Seq<Seq<char>>> {
    match lookup(members, "args"@) {
        Some(Json::Array(items)) => strings_of(items@),
        _ => None,
    }
}

/// The service that a value describes, if it describes one.
pub open spec fn service_of(json: Json) -> Option<ServiceModel> {
    match json {
        Json::Object(members) => {
            if text_field(members@, "name"@) is Some && program_of(members@) is Some && args_of(
                members@,
            ) is Some {
                Some(
                    ServiceModel {
                        name: text_field(members@, "name"@)->Some_0,
                        program: program_of(members@)->Some_0,
                        args: args_of(members@)->Some_0,
                    },
                )
            } else {
                None
            }
        },
        _ => None,
    }
}

/// Why a value is not a manifest.
#[derive(Clone, Copy, Debug, PartialEq, Eq, Structural)]
pub enum ManifestError {
    /// The value is not an object.
    NotAnObject,
    /// The object has no field `services`.
    MissingServices,
    /// The field `services` is not a list.
    MalformedServices,
    /// The item of `services` at this place, counted from zero, does not
    /// describe a service.
    MalformedService(usize),
}

/// Whether `count` is how far the items describe services: every item
/// before it does, and it is the end of the list or the first item that
/// does not.
pub open spec fn services_end(items: Seq<Json>, count: int) -> bool {
    &&& 0 <= count <= items.len()
    &&& forall|i: int| 0 <= i < count ==> service_of(#[trigger] items[i]) is Some
    &&& count < items.len() ==> service_of(items[count]) is None
}

/// The services of a list of items, where all of them describe one; else
/// the place of the first that does not.
pub open spec fn services_of(items: Seq<Json>) -> Result<Seq<ServiceModel>, ManifestError> {
    if forall|i: int| 0 <= i < items.len() ==> service_of(#[trigger] items[i]) is Some {
        Ok(Seq::new(items.len(), |i: int| service_of(items[i])->Some_0))
    } else {
        Err(
            ManifestError::MalformedService(
                (choose|count: int| services_end(items, count) && count < items.len()) as usize,
            ),
        )
    }
}

/// The manifest that a value holds, or why it holds none.
pub open spec fn manifest_of(json: Json) -> Result<Seq<ServiceModel>, ManifestError> {
    match json {
        Json::Object(members) => match lookup(members@, "services"@) {
            None => Err(ManifestError::MissingServices),
            Some(Json::Array(items)) => services_of(items@),
            Some(_) => Err(ManifestError::MalformedServices),
        },
        _ => Err(ManifestError::NotAnObject),
    }
}

/// What the log says of a value that is not a manifest.
pub open spec fn describe(error: ManifestError) -> Seq<char> {
    match error {
        ManifestError::NotAnObject => "expected an object with a field `services`"@,
        ManifestError::MissingServices => "missing field `services`"@,
        ManifestError::MalformedServices => "field `services` is not a list"@,
        ManifestError::MalformedService(place) => "item "@ + digits(place as nat)
            + " of `services` does not describe a service"@,
    }
}

/// Finds the first field of the given name.
pub fn find<'a>(members: &'a Vec<Member>, key: &str) -> (out: Option<&'a Json>)
    ensures
        match out {
            Some(value) => lookup(members@, key@) == Some(*value),
            None => lookup(members@, key@) is None,
        },
{
    let wanted = String::from_str(key);
    let mut at: usize = 0;
    assert(members@.skip(0) =~= members@);
    while at < members.len()
        invariant
            at <= members@.len(),
            wanted@ == key@,
            lookup(members@, key@) == lookup(members@.skip(at as int), key@),
        decreases members@.len() - at,
    {
        let rest = Ghost(members@.skip(at as int));
        assert(rest@[0] == members@[at as int]);
        assert(rest@.skip(1) =~= members@.skip(at + 1));
        if members[at].key == wanted {
            return Some(&members[at].value);
        }
        at = at + 1;
    }
    assert(members@.skip(at as int).len() == 0);
    None
}

fn find_text(members: &Vec<Member>, key: &str) -> (out: Option<String>)
    ensures
        crate::log::text_of(out) == text_field(members@, key@),
{
    match find(members, key) {
        Some(Json::Text(text)) => Some(text.clone()),
        _ => None,
    }
}

/// Copies a list of strings out of a list of values: `None` where one of
/// them is no string.
pub fn read_strings(items: &Vec<Json>) -> (out: Option<Vec<String>>)
    ensures
        match out {
            Some(strings) => strings_of(items@) == Some(crate::manifest::texts(strings@)),
            None => strings_of(items@) is None,
        },
{
    let mut out: Vec<String> = Vec::new();
    let mut at: usize = 0;
    while at < items.len()
        invariant
            at <= items@.len(),
            out@.len() == at,
            forall|i: int| 0 <= i < at ==> (#[trigger] items@[i]) is Text,
            forall|i: int| 0 <= i < at ==> (#[trigger] out@[i])@ == items@[i]->Text_0@,
        decreases items@.len() - at,
    {
        match &items[at] {
            Json::Text(text) => {
                out.push(text.clone());
            },
            _ => {
                assert(!(items@[at as int] is Text));
                return None;
            },
        }
        at = at + 1;
    }
    assert(crate::manifest::texts(out@) =~= strings_of(items@)->Some_0);
    Some(out)
}

/// Reads one service: `None` where the value does not describe one.
pub fn read_service(json: &Json) -> (out: Option<ServiceDescriptor>)
    ensures
        match out {
            Some(service) => service_of(*json) == Some(service@),
            None => service_of(*json) is None,
        },
{
    let members = match json {
        Json::Object(members) => members,
        _ => {
            return None;
        },
    };
    let name = match find_text(members, "name") {
        Some(name) => name,
        None => {
            return None;
        },
    };
    let program = match find(members, "program") {
        Some(Json::Text(text)) => text.clone(),
        Some(_) => {
            return None;
        },
        None => match find_text(members, "path") {
            Some(text) => text,
            None => {
                return None;
            },
        },
    };
    let args = match find(members, "args") {
        Some(Json::Array(items)) => match read_strings(items) {
            Some(args) => args,
            None => {
                return None;
            },
        },
        _ => {
            return None;
        },
    };
    Some(ServiceDescriptor { name, program, args })
}

/// Reads a manifest: its services in the order of the list, or why the
/// value holds none.
pub fn read_manifest(json: &Json) -> (out: Result<Manifest, ManifestError>)
    ensures
        match out {
            Ok(manifest) => manifest_of(*json) == Ok::<Seq<ServiceModel>, ManifestError>(
                manifest@,
            ),
            Err(error) => manifest_of(*json) == Err::<Seq<ServiceModel>, ManifestError>(error),
        },
{
    let members = match json {
        Json::Object(members) => members,
        _ => {
            return Err(ManifestError::NotAnObject);
        },
    };
    let items = match find(members, "services") {
        None => {
            return Err(ManifestError::MissingServices);
        },
        Some(Json::Array(items)) => items,
        Some(_) => {
            return Err(ManifestError::MalformedServices);
        },
    };
    let mut services: Vec<ServiceDescriptor> = Vec::new();
    let mut at: usize = 0;
    while at < items.len()
        invariant
            at <= items@.len(),
            services@.len() == at,
            manifest_of(*json) == services_of(items@),
            forall|i: int| 0 <= i < at ==> service_of(#[trigger] items@[i]) is Some,
            forall|i: int| 0 <= i < at ==> Some((#[trigger] services@[i])@) == service_of(items@[i]),
        decreases items@.len() - at,
    {
        match read_service(&items[at]) {
            Some(service) => {
                services.push(service);
            },
            None => {
                proof {
                    assert(service_of(items@[at as int]) is None);
                    assert(services_end(items@, at as int) && at < items@.len());
                    let chosen = choose|count: int|
                        services_end(items@, count) && count < items@.len();
                    lemma_services_end_unique(items@, at as int, chosen);
                }
                return Err(ManifestError::MalformedService(at));
            },
        }
        at = at + 1;
    }
    let manifest = Manifest { services };
    assert(manifest@ =~= services_of(items@)->Ok_0);
    Ok(manifest)
}

/// The items of a list stop describing services in one place only.
pub proof fn lemma_services_end_unique(items: Seq<Json>, a: int, b: int)
    requires
        services_end(items, a),
        services_end(items, b),
    ensures
        a == b,
{
    if a < b {
        assert(service_of(items[a]) is Some);
    } else if b < a {
        assert(service_of(items[b]) is Some);
    }
}

impl ManifestError {
    /// The text of this error for the log.
    pub fn describe(&self) -> (out: String)
        ensures
            out@ == describe(*self),
    {
        match self {
            ManifestError::NotAnObject => String::from_str(
                "expected an object with a field `services`",
            ),
            ManifestError::MissingServices => String::from_str("missing field `services`"),
            ManifestError::MalformedServices => String::from_str("field `services` is not a list"),
            ManifestError::MalformedService(place) => {
                let mut out = String::from_str("item ");
                let number = render_digits(*place as u64);
                out.append(number.as_str());
                out.append(" of `services` does not describe a service");
                out
            },
        }
    }
}

} // verus!
