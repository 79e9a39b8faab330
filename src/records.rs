//! Records whose `payload` member holds JSON text: playlists and playlist memberships.
use vstd::prelude::*;
use crate::json::{
    JsonValue, JsonKind, JsonNumber, JsonSyntaxError, kind_of, lookup, member, as_u32,
    json_parse, parse_json, find_member, json_kind,
};

verus! {

/// A member of the JSON held in `payload`.
#[derive(Clone, Copy, Debug, PartialEq, Eq, Structural)]
pub enum NestedField {
    Name,
    PlaylistId,
    LocalId,
}

/// Why one element of a source array was skipped.
#[derive(Clone, Debug, PartialEq)]
pub enum RecordError {
    /// The element is no JSON object.
    NotAnObject(JsonKind),
    /// The element has no `payload` member.
    MissingPayload,
    /// The element has no `id` member.
    MissingId,
    /// `payload` holds no string.
    PayloadNotString(JsonKind),
    /// `id` holds no string.
    IdNotString(JsonKind),
    /// The text held in `payload` is not JSON.
    PayloadNotJson { payload: String, error: JsonSyntaxError },
    /// The JSON in `payload` has no such member (or is no object).
    MissingNestedField(NestedField),
    /// The member of the JSON in `payload` has the wrong kind.
    NestedFieldWrongType { field: NestedField, found: JsonKind },
}

/// A playlist the user may choose.
#[derive(Clone, Debug, PartialEq, Eq)]
pub struct PlaylistEntry {
    pub name: String,
    pub id: String,
}

/// One row of the membership file: an audio id in a playlist.
#[derive(Clone, Debug, PartialEq, Eq)]
pub struct MembershipRecord {
    pub playlist_id: String,
    pub audio_id: u32,
}

pub open spec fn key_payload() -> Seq<char> {
    "payload"@
}

pub open spec fn key_id() -> Seq<char> {
    "id"@
}

pub open spec fn key_name() -> Seq<char> {
    "Name"@
}

pub open spec fn key_playlist_id() -> Seq<char> {
    "PlaylistId"@
}

pub open spec fn key_local_id() -> Seq<char> {
    "LocalId"@
}

/// What a playlist array element decodes to.
pub open spec fn playlist_record(v: JsonValue) -> Result<PlaylistEntry, RecordError> {
    match v {
        JsonValue::Object(fields) => match (lookup(fields@, key_payload()), lookup(fields@, key_id())) {
            (None, _) => Err(RecordError::MissingPayload),
            (_, None) => Err(RecordError::MissingId),
            (Some(JsonValue::Str(payload)), Some(JsonValue::Str(id))) => match json_parse(payload@) {
                Err(e) => Err(RecordError::PayloadNotJson { payload, error: e }),
                Ok(nested) => match member(nested, key_name()) {
                    None => Err(RecordError::MissingNestedField(NestedField::Name)),
                    Some(JsonValue::Str(name)) => Ok(PlaylistEntry { name, id }),
                    Some(other) => Err(RecordError::NestedFieldWrongType { field: NestedField::Name, found: kind_of(other) }),
                },
            },
            (Some(JsonValue::Str(_)), Some(other)) => Err(RecordError::IdNotString(kind_of(other))),
            (Some(other), _) => Err(RecordError::PayloadNotString(kind_of(other))),
        },
        _ => Err(RecordError::NotAnObject(kind_of(v))),
    }
}

/// What a membership array element decodes to.
pub open spec fn membership_record(v: JsonValue) -> Result<MembershipRecord, RecordError> {
    match v {
        JsonValue::Object(fields) => match lookup(fields@, key_payload()) {
            None => Err(RecordError::MissingPayload),
            Some(JsonValue::Str(payload)) => match json_parse(payload@) {
                Err(e) => Err(RecordError::PayloadNotJson { payload, error: e }),
                Ok(nested) => match (member(nested, key_playlist_id()), member(nested, key_local_id())) {
                    (None, _) => Err(RecordError::MissingNestedField(NestedField::PlaylistId)),
                    (_, None) => Err(RecordError::MissingNestedField(NestedField::LocalId)),
                    (Some(JsonValue::Str(pid)), Some(local)) => match as_u32(local) {
                        Some(n) => Ok(MembershipRecord { playlist_id: pid, audio_id: n }),
                        None => Err(RecordError::NestedFieldWrongType { field: NestedField::LocalId, found: kind_of(local) }),
                    },
                    (Some(other), _) => Err(RecordError::NestedFieldWrongType { field: NestedField::PlaylistId, found: kind_of(other) }),
                },
            },
            Some(other) => Err(RecordError::PayloadNotString(kind_of(other))),
        },
        _ => Err(RecordError::NotAnObject(kind_of(v))),
    }
}

/// The member `key` of the object that `nested` is, by position.
fn nested_member(nested: &JsonValue, key: &str) -> (r: Option<usize>)
    ensures
        match r {
            Some(i) => nested is Object && i < nested->Object_0@.len()
                && member(*nested, key@) == Some(nested->Object_0@[i as int].1),
            None => member(*nested, key@) is None,
        },
{
    match nested {
        JsonValue::Object(fields) => find_member(fields, key),
        _ => None,
    }
}

/// Decodes one element of the playlist array.
pub fn decode_playlist(v: &JsonValue) -> (r: Result<PlaylistEntry, RecordError>)
    ensures
        r == playlist_record(*v),
{
    let fields = match v {
        JsonValue::Object(fields) => fields,
        _ => return Err(RecordError::NotAnObject(json_kind(v))),
    };
    let pi = find_member(fields, "payload");
    let ii = find_member(fields, "id");
    let (pi, ii) = match (pi, ii) {
        (None, _) => return Err(RecordError::MissingPayload),
        (_, None) => return Err(RecordError::MissingId),
        (Some(pi), Some(ii)) => (pi, ii),
    };
    let payload = match &fields[pi].1 {
        JsonValue::Str(s) => s,
        other => return Err(RecordError::PayloadNotString(json_kind(other))),
    };
    let id = match &fields[ii].1 {
        JsonValue::Str(s) => s,
        other => return Err(RecordError::IdNotString(json_kind(other))),
    };
    let nested = match parse_json(payload.as_str()) {
        Err(e) => return Err(RecordError::PayloadNotJson { payload: payload.clone(), error: e }),
        Ok(nested) => nested,
    };
    match nested_member(&nested, "Name") {
        None => Err(RecordError::MissingNestedField(NestedField::Name)),
        Some(ni) => {
            let nf = match &nested {
                JsonValue::Object(nf) => nf,
                _ => return Err(RecordError::MissingNestedField(NestedField::Name)),
            };
            match &nf[ni].1 {
                JsonValue::Str(name) => Ok(PlaylistEntry { name: name.clone(), id: id.clone() }),
                other => Err(RecordError::NestedFieldWrongType { field: NestedField::Name, found: json_kind(other) }),
            }
        },
    }
}

/// The unsigned 32-bit integer a value holds, if it holds one.
fn json_u32(v: &JsonValue) -> (r: Option<u32>)
    ensures
        r == as_u32(*v),
{
    match v {
        JsonValue::Number(JsonNumber::Unsigned(n)) => if *n <= 0xffff_ffffu64 {
            Some(*n as u32)
        } else {
            None
        },
        _ => None,
    }
}

/// Decodes one element of the membership array.
pub fn decode_membership(v: &JsonValue) -> (r: Result<MembershipRecord, RecordError>)
    ensures
        r == membership_record(*v),
{
    let fields = match v {
        JsonValue::Object(fields) => fields,
        _ => return Err(RecordError::NotAnObject(json_kind(v))),
    };
    let pi = match find_member(fields, "payload") {
        None => return Err(RecordError::MissingPayload),
        Some(pi) => pi,
    };
    let payload = match &fields[pi].1 {
        JsonValue::Str(s) => s,
        other => return Err(RecordError::PayloadNotString(json_kind(other))),
    };
    let nested = match parse_json(payload.as_str()) {
        Err(e) => return Err(RecordError::PayloadNotJson { payload: payload.clone(), error: e }),
        Ok(nested) => nested,
    };
    let (ki, li) = match (nested_member(&nested, "PlaylistId"), nested_member(&nested, "LocalId")) {
        (None, _) => return Err(RecordError::MissingNestedField(NestedField::PlaylistId)),
        (_, None) => return Err(RecordError::MissingNestedField(NestedField::LocalId)),
        (Some(ki), Some(li)) => (ki, li),
    };
    let nf = match &nested {
        JsonValue::Object(nf) => nf,
        _ => return Err(RecordError::MissingNestedField(NestedField::PlaylistId)),
    };
    match &nf[ki].1 {
        JsonValue::Str(pid) => match json_u32(&nf[li].1) {
            Some(n) => Ok(MembershipRecord { playlist_id: pid.clone(), audio_id: n }),
            None => Err(RecordError::NestedFieldWrongType { field: NestedField::LocalId, found: json_kind(&nf[li].1) }),
        },
        other => Err(RecordError::NestedFieldWrongType { field: NestedField::PlaylistId, found: json_kind(other) }),
    }
}

} // verus!
