use vstd::prelude::*;
use vstd::string::*;

use crate::lens_store::LensSnapshot;

verus! {

broadcast use vstd::string::group_string_axioms;

/// The string member `key` of the JSON object that `json` spells, as
/// `serde_json` reads it: `None` when `json` is not JSON, is not an object,
/// lacks `key`, or holds something other than a string under it.
pub uninterp spec fn json_string_member(json: Seq<char>, key: Seq<char>) -> Option<Seq<char>>;

/// `serde_json::from_str::<Value>`, then `Value::get` with a key, then
/// `Value::as_str`: reads one string member of a JSON object text. The result
/// is named, not described; it depends on the two texts alone.
#[verifier::external_body]
fn string_member(json: &str, key: &str) -> (member: Option<String>)
    ensures
        member matches Some(m) ==> json_string_member(json@, key@) == Some(m@),
        member is None ==> json_string_member(json@, key@) is None,
{
    let value: serde_json::Value = serde_json::from_str(json).ok()?;
    value.get(key)?.as_str().map(|m| m.to_owned())
}

/// A member that is missing counts as the empty text.
pub open spec fn member_or_empty(member: Option<Seq<char>>) -> Seq<char> {
    match member {
        Some(m) => m,
        None => Seq::empty(),
    }
}

/// The text of a member read as a `String`; a missing member counts as empty.
pub open spec fn string_or_empty(member: Option<String>) -> Seq<char> {
    match member {
        Some(m) => m@,
        None => Seq::empty(),
    }
}

/// The lens that a `lens_upsert` call asks for, from the members that its
/// arguments hold; a missing member counts as empty.
pub fn lens_from_members(
    id: Option<String>,
    name: Option<String>,
    icon: Option<String>,
    html: Option<String>,
) -> (lens: LensSnapshot)
    ensures
        lens.id@ == string_or_empty(id),
        lens.name@ == string_or_empty(name),
        lens.icon@ == string_or_empty(icon),
        lens.html@ == string_or_empty(html),
{
    LensSnapshot {
        id: or_empty(id),
        name: or_empty(name),
        icon: or_empty(icon),
        html: or_empty(html),
    }
}

fn or_empty(member: Option<String>) -> (s: String)
    ensures
        s@ == string_or_empty(member),
{
    match member {
        Some(m) => m,
        None => String::new(),
    }
}

/// The lens that a `lens_upsert` call's JSON arguments ask for: the string
/// members `id`, `name`, `icon` and `html`, each empty when missing.
pub open spec fn requested_lens(
    arguments_json: Seq<char>,
) -> (Seq<char>, Seq<char>, Seq<char>, Seq<char>) {
    (
        member_or_empty(json_string_member(arguments_json, "id"@)),
        member_or_empty(json_string_member(arguments_json, "name"@)),
        member_or_empty(json_string_member(arguments_json, "icon"@)),
        member_or_empty(json_string_member(arguments_json, "html"@)),
    )
}

/// Reads the lens that a `lens_upsert` call's JSON arguments ask for.
pub fn lens_arguments(arguments_json: &str) -> (lens: LensSnapshot)
    ensures
        (lens.id@, lens.name@, lens.icon@, lens.html@) == requested_lens(arguments_json@),
{
    let id = string_member(arguments_json, "id");
    let name = string_member(arguments_json, "name");
    let icon = string_member(arguments_json, "icon");
    let html = string_member(arguments_json, "html");
    lens_from_members(id, name, icon, html)
}

/// The compact JSON text that `serde_json` writes for an object of three
/// members: `flag_key` holding the boolean `flag`, then `first_key` and
/// `second_key` holding strings, put into a `serde_json::Map` in that order.
pub uninterp spec fn json_object_text(
    flag_key: Seq<char>,
    flag: bool,
    first_key: Seq<char>,
    first: Seq<char>,
    second_key: Seq<char>,
    second: Seq<char>,
) -> Seq<char>;

/// `serde_json::Map::insert` three times, then `Value::Object(..).to_string()`:
/// the JSON text of a three-member object. The text (member order, escaping)
/// is named, not described; it depends on the six values alone.
#[verifier::external_body]
fn json_object(
    flag_key: &str,
    flag: bool,
    first_key: &str,
    first: &str,
    second_key: &str,
    second: &str,
) -> (text: String)
    ensures
        text@ == json_object_text(flag_key@, flag, first_key@, first@, second_key@, second@),
{
    let mut members = serde_json::Map::new();
    members.insert(flag_key.to_owned(), serde_json::Value::Bool(flag));
    members.insert(first_key.to_owned(), serde_json::Value::String(first.to_owned()));
    members.insert(second_key.to_owned(), serde_json::Value::String(second.to_owned()));
    serde_json::Value::Object(members).to_string()
}

/// What the model hears back once a lens is saved: the JSON object with
/// `ok` true, the lens `id`, and the message `Lens saved and displayed`.
pub open spec fn saved_report_text(id: Seq<char>) -> Seq<char> {
    json_object_text("ok"@, true, "id"@, id, "message"@, "Lens saved and displayed"@)
}

/// Writes what the model hears back once the lens `id` is saved.
pub fn saved_report(id: &str) -> (text: String)
    ensures
        text@ == saved_report_text(id@),
{
    json_object("ok", true, "id", id, "message", "Lens saved and displayed")
}

} // verus!
