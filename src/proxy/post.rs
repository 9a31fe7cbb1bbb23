use vstd::prelude::*;

use crate::bytes::{
    bytes_eq, decimal, decimal_bytes, eq_ignore_ascii_case, eq_ignore_case, is_prefix,
    starts_with, to_vec,
};
use crate::json::{member, member_of, parse, parsed_json, JsonValue};

verus! {

pub open spec fn action_key() -> Seq<u8> {
    seq![97u8, 99, 116, 105, 111, 110]
}

pub open spec fn params_key() -> Seq<u8> {
    seq![112u8, 97, 114, 97, 109, 115]
}

pub open spec fn note_key() -> Seq<u8> {
    seq![110u8, 111, 116, 101]
}

pub open spec fn fields_key() -> Seq<u8> {
    seq![102u8, 105, 101, 108, 100, 115]
}

/// `addNote`
pub open spec fn add_note() -> Seq<u8> {
    seq![97u8, 100, 100, 78, 111, 116, 101]
}

/// `updateNoteFields`
pub open spec fn update_note_fields() -> Seq<u8> {
    seq![117u8, 112, 100, 97, 116, 101, 78, 111, 116, 101, 70, 105, 101, 108, 100, 115]
}

/// `[sound:`
pub open spec fn sound_start() -> Seq<u8> {
    seq![91u8, 115, 111, 117, 110, 100, 58]
}

/// `]`
pub open spec fn sound_end() -> u8 {
    93u8
}

/// `content-length`
pub open spec fn content_length() -> Seq<u8> {
    seq![99u8, 111, 110, 116, 101, 110, 116, 45, 108, 101, 110, 103, 116, 104]
}

/// Why a POST body could not be read as a JSON-RPC envelope.
#[derive(Debug, PartialEq, Eq, Structural, Clone, Copy)]
pub enum EnvelopeError {
    /// The body is not one JSON text.
    NotJson,
    /// The body has no `action` member.
    MissingAction,
    /// The `action` member is not a string.
    ActionNotString,
}

/// The action that an envelope names.
pub open spec fn action_of(v: JsonValue) -> Result<Seq<u8>, EnvelopeError> {
    match member_of(v, action_key()) {
        None => Err(EnvelopeError::MissingAction),
        Some(JsonValue::Str(a)) => Ok(a@),
        Some(_) => Err(EnvelopeError::ActionNotString),
    }
}

/// The actions whose parameters carry a note with fields.
pub open spec fn is_note_action(a: Seq<u8>) -> bool {
    a == add_note() || a == update_note_fields()
}

/// The entries of `params.note.fields`, or none where that path does not lead
/// to an object.
pub open spec fn note_fields_of(v: JsonValue) -> Seq<(Vec<u8>, JsonValue)> {
    match member_of(v, params_key()) {
        Some(p) => match member_of(p, note_key()) {
            Some(n) => match member_of(n, fields_key()) {
                Some(JsonValue::Object(entries)) => entries@,
                _ => seq![],
            },
            None => seq![],
        },
        None => seq![],
    }
}

/// The file name that a sound reference `[sound:<name>]` names.
pub open spec fn sound_name(s: Seq<u8>) -> Option<Seq<u8>> {
    if is_prefix(sound_start(), s) && s.len() > sound_start().len() && s.last() == sound_end() {
        Some(s.subrange(sound_start().len() as int, s.len() - 1))
    } else {
        None
    }
}

/// The media file `name` inside `dir`.
pub open spec fn media_path(dir: Seq<u8>, name: Seq<u8>) -> Seq<u8> {
    dir + seq![47u8] + name
}

/// The media file that one field value refers to, if it is a sound reference.
pub open spec fn field_target(value: JsonValue, dir: Seq<u8>) -> Option<Seq<u8>> {
    match value {
        JsonValue::Str(s) => match sound_name(s@) {
            Some(name) => Some(media_path(dir, name)),
            None => None,
        },
        _ => None,
    }
}

/// The media files that the fields refer to, in the order of the fields.
pub open spec fn field_targets(fields: Seq<(Vec<u8>, JsonValue)>, dir: Seq<u8>) -> Seq<Seq<u8>>
    decreases fields.len(),
{
    if fields.len() == 0 {
        seq![]
    } else {
        let rest = field_targets(fields.drop_last(), dir);
        match field_target(fields.last().1, dir) {
            Some(p) => rest.push(p),
            None => rest,
        }
    }
}

/// The files to normalise before an envelope is forwarded.
pub open spec fn normalization_targets(v: JsonValue, dir: Seq<u8>) -> Result<Seq<Seq<u8>>, EnvelopeError> {
    match action_of(v) {
        Err(e) => Err(e),
        Ok(a) => Ok(
            if is_note_action(a) {
                field_targets(note_fields_of(v), dir)
            } else {
                seq![]
            },
        ),
    }
}

pub open spec fn paths_view(paths: Seq<Vec<u8>>) -> Seq<Seq<u8>> {
    paths.map_values(|p: Vec<u8>| p@)
}

/// Field values that are no sound reference never lead to a normalisation:
/// where no field refers to a sound file, nothing is normalised.
pub proof fn lemma_plain_fields_untouched(fields: Seq<(Vec<u8>, JsonValue)>, dir: Seq<u8>)
    requires
        forall|i: int| 0 <= i < fields.len() ==> field_target(#[trigger] fields[i].1, dir) is None,
    ensures
        field_targets(fields, dir) == Seq::<Seq<u8>>::empty(),
    decreases fields.len(),
{
    if fields.len() > 0 {
        let rest = fields.drop_last();
        assert forall|i: int| 0 <= i < rest.len() implies field_target(#[trigger] rest[i].1, dir) is None by {
            assert(rest[i] == fields[i]);
        }
        lemma_plain_fields_untouched(rest, dir);
        assert(field_target(fields[fields.len() - 1].1, dir) is None);
    }
}

/// A note with one field `[sound:<name>]` leads to exactly one
/// normalisation, of the file `<name>` inside the media directory.
pub proof fn lemma_sound_reference_resolves(
    field_name: Vec<u8>,
    value: Vec<u8>,
    name: Seq<u8>,
    dir: Seq<u8>,
)
    requires
        value@ == sound_start() + name + seq![sound_end()],
    ensures
        sound_name(value@) == Some(name),
        field_targets(seq![(field_name, JsonValue::Str(value))], dir) == seq![media_path(dir, name)],
{
    let s = value@;
    assert(s.subrange(0, sound_start().len() as int) =~= sound_start());
    assert(s.subrange(sound_start().len() as int, s.len() - 1) =~= name);
    let fields = seq![(field_name, JsonValue::Str(value))];
    assert(fields.drop_last() =~= Seq::<(Vec<u8>, JsonValue)>::empty());
    assert(field_targets(fields.drop_last(), dir) == Seq::<Seq<u8>>::empty());
    assert(field_targets(fields, dir) =~= seq![media_path(dir, name)]);
}

/// An envelope whose action is not `addNote` or `updateNoteFields` leads to
/// no normalisation at all.
pub proof fn lemma_other_actions_normalize_nothing(v: JsonValue, dir: Seq<u8>)
    requires
        action_of(v) is Ok,
        !is_note_action(action_of(v)->Ok_0),
    ensures
        normalization_targets(v, dir) == Ok::<Seq<Seq<u8>>, EnvelopeError>(Seq::<Seq<u8>>::empty()),
{
}

fn action_key_bytes() -> (r: Vec<u8>)
    ensures
        r@ == action_key(),
{
    let r = vec![97u8, 99, 116, 105, 111, 110];
    assert(r@ =~= action_key());
    r
}

fn params_key_bytes() -> (r: Vec<u8>)
    ensures
        r@ == params_key(),
{
    let r = vec![112u8, 97, 114, 97, 109, 115];
    assert(r@ =~= params_key());
    r
}

fn note_key_bytes() -> (r: Vec<u8>)
    ensures
        r@ == note_key(),
{
    let r = vec![110u8, 111, 116, 101];
    assert(r@ =~= note_key());
    r
}

fn fields_key_bytes() -> (r: Vec<u8>)
    ensures
        r@ == fields_key(),
{
    let r = vec![102u8, 105, 101, 108, 100, 115];
    assert(r@ =~= fields_key());
    r
}

fn sound_start_bytes() -> (r: Vec<u8>)
    ensures
        r@ == sound_start(),
{
    let r = vec![91u8, 115, 111, 117, 110, 100, 58];
    assert(r@ =~= sound_start());
    r
}

/// Whether an action carries a note whose fields may refer to sound files.
pub fn note_action(a: &[u8]) -> (r: bool)
    ensures
        r == is_note_action(a@),
{
    let add = vec![97u8, 100, 100, 78, 111, 116, 101];
    let update = vec![117u8, 112, 100, 97, 116, 101, 78, 111, 116, 101, 70, 105, 101, 108, 100, 115];
    assert(add@ =~= add_note());
    assert(update@ =~= update_note_fields());
    bytes_eq(a, add.as_slice()) || bytes_eq(a, update.as_slice())
}

/// The media file that a field value refers to, when the value has the shape
/// `[sound:<name>]`: `<name>` joined to `dir` with a `/`.
pub fn process_sound_field(field_value: &[u8], dir: &[u8]) -> (r: Option<Vec<u8>>)
    ensures
        match sound_name(field_value@) {
            Some(name) => r is Some && r->0@ == media_path(dir@, name),
            None => r is None,
        },
{
    let start = sound_start_bytes();
    let n = field_value.len();
    if !starts_with(field_value, start.as_slice()) || n <= start.len() || field_value[n - 1] != 93u8 {
        return None;
    }
    let mut path = to_vec(dir);
    path.push(47u8);
    let mut i: usize = start.len();
    while i < n - 1
        invariant
            start@.len() <= i <= n - 1,
            n == field_value@.len(),
            path@ == dir@ + seq![47u8] + field_value@.subrange(start@.len() as int, i as int),
        decreases n - 1 - i,
    {
        path.push(field_value[i]);
        i = i + 1;
        assert(field_value@.subrange(start@.len() as int, i as int) =~= field_value@.subrange(
            start@.len() as int,
            i - 1,
        ).push(field_value@[i - 1]));
    }
    Some(path)
}

/// The media files that the note fields refer to, in the order of the fields.
/// Fields that are no sound reference are passed over.
pub fn process_note_fields(fields: &Vec<(Vec<u8>, JsonValue)>, dir: &[u8]) -> (r: Vec<Vec<u8>>)
    ensures
        paths_view(r@) == field_targets(fields@, dir@),
{
    let mut r: Vec<Vec<u8>> = Vec::new();
    let mut i: usize = 0;
    while i < fields.len()
        invariant
            i <= fields@.len(),
            paths_view(r@) == field_targets(fields@.subrange(0, i as int), dir@),
        decreases fields@.len() - i,
    {
        let ghost before = r@;
        let e = &fields[i];
        assert(fields@.subrange(0, i + 1).drop_last() =~= fields@.subrange(0, i as int));
        assert(fields@.subrange(0, i + 1).last() == fields@[i as int]);
        match &e.1 {
            JsonValue::Str(s) => {
                match process_sound_field(s.as_slice(), dir) {
                    Some(p) => {
                        r.push(p);
                        assert(paths_view(r@) =~= paths_view(before).push(r@.last()@));
                    },
                    None => {},
                }
            },
            _ => {},
        }
        i = i + 1;
    }
    assert(fields@.subrange(0, fields@.len() as int) =~= fields@);
    r
}

/// Reads the action of an envelope and lists the media files to normalise
/// before it is forwarded: those of the note fields for `addNote` and
/// `updateNoteFields`, none for any other action.
pub fn modify_body(v: &JsonValue, dir: &[u8]) -> (r: Result<Vec<Vec<u8>>, EnvelopeError>)
    ensures
        match normalization_targets(*v, dir@) {
            Ok(paths) => r is Ok && paths_view(r->Ok_0@) == paths,
            Err(e) => r == Err::<Vec<Vec<u8>>, EnvelopeError>(e),
        },
{
    let key = action_key_bytes();
    let action = match member(v, key.as_slice()) {
        None => return Err(EnvelopeError::MissingAction),
        Some(JsonValue::Str(a)) => a,
        Some(_) => return Err(EnvelopeError::ActionNotString),
    };
    if !note_action(action.as_slice()) {
        let r: Vec<Vec<u8>> = Vec::new();
        assert(paths_view(r@) =~= Seq::<Seq<u8>>::empty());
        return Ok(r);
    }
    let pk = params_key_bytes();
    let nk = note_key_bytes();
    let fk = fields_key_bytes();
    let empty: Vec<(Vec<u8>, JsonValue)> = Vec::new();
    let fields = match member(v, pk.as_slice()) {
        Some(p) => match member(p, nk.as_slice()) {
            Some(n) => match member(n, fk.as_slice()) {
                Some(JsonValue::Object(entries)) => entries,
                _ => &empty,
            },
            None => &empty,
        },
        None => &empty,
    };
    assert(empty@ =~= Seq::<(Vec<u8>, JsonValue)>::empty());
    Ok(process_note_fields(fields, dir))
}

/// What the interceptor does with one POST body: the media files to normalise
/// first, then the body to forward.
#[derive(Debug)]
pub struct PostPlan {
    pub normalize: Vec<Vec<u8>>,
    pub forward_body: Vec<u8>,
}

/// Plans one intercepted POST. The envelope is only read, never altered, so
/// the body that goes on to the backend is the body that came in.
pub fn handle(body: Vec<u8>, dir: &[u8]) -> (r: Result<PostPlan, EnvelopeError>)
    ensures
        match parsed_json(body@) {
            None => r == Err::<PostPlan, EnvelopeError>(EnvelopeError::NotJson),
            Some(v) => match normalization_targets(v, dir@) {
                Ok(paths) => r is Ok && paths_view(r->Ok_0.normalize@) == paths
                    && r->Ok_0.forward_body@ == body@,
                Err(e) => r == Err::<PostPlan, EnvelopeError>(e),
            },
        },
{
    let parsed = parse(body.as_slice());
    match parsed {
        None => Err(EnvelopeError::NotJson),
        Some(v) => match modify_body(&v, dir) {
            Ok(normalize) => Ok(PostPlan { normalize, forward_body: body }),
            Err(e) => Err(e),
        },
    }
}

/// One header line: its name as written, with its case, and its value.
#[derive(Debug)]
pub struct Header {
    pub name: Vec<u8>,
    pub value: Vec<u8>,
}

/// The value that a header carries on the rebuilt request: the body's length
/// for `Content-Length` in any case, the original value otherwise.
pub open spec fn outbound_value(name: Seq<u8>, value: Seq<u8>, body_len: nat) -> Seq<u8> {
    if eq_ignore_case(name, content_length()) {
        decimal(body_len)
    } else {
        value
    }
}

/// The headers of the rebuilt request: every original header in its order
/// and with its name as written, with `Content-Length` set to the new body's
/// length rather than copied.
pub fn outbound_headers(headers: &Vec<Header>, body_len: u64) -> (r: Vec<Header>)
    ensures
        r@.len() == headers@.len(),
        forall|i: int|
            0 <= i < r@.len() ==> (#[trigger] r@[i]).name@ == headers@[i].name@ && r@[i].value@
                == outbound_value(headers@[i].name@, headers@[i].value@, body_len as nat),
{
    let cl = vec![99u8, 111, 110, 116, 101, 110, 116, 45, 108, 101, 110, 103, 116, 104];
    assert(cl@ =~= content_length());
    let mut r: Vec<Header> = Vec::new();
    let mut i: usize = 0;
    while i < headers.len()
        invariant
            i <= headers@.len(),
            cl@ == content_length(),
            r@.len() == i,
            forall|j: int|
                0 <= j < i ==> (#[trigger] r@[j]).name@ == headers@[j].name@ && r@[j].value@
                    == outbound_value(headers@[j].name@, headers@[j].value@, body_len as nat),
        decreases headers@.len() - i,
    {
        let h = &headers[i];
        let value = if eq_ignore_ascii_case(h.name.as_slice(), cl.as_slice()) {
            decimal_bytes(body_len)
        } else {
            to_vec(h.value.as_slice())
        };
        r.push(Header { name: to_vec(h.name.as_slice()), value });
        i = i + 1;
    }
    r
}

} // verus!
