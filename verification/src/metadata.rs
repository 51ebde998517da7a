//! The parsed metadata record carried inside the container, recovered from a
//! JSON object and re-serialized to JSON text for the final result. JSON
//! itself is handled by serde_json behind trusted wrappers whose results are
//! named as pure functions of the text, so that parse success and the
//! extracted field values are part of the verified contract.

use vstd::prelude::*;

verus! {

#[verifier::external_type_specification]
#[verifier::external_body]
pub struct ExJsonValue(serde_json::Value);

/// The metadata fields of one track. Field names in the JSON text use
/// camelCase; an artist is a (name, id) pair.
pub struct Metadata {
    pub format: String,
    pub music_id: u64,
    pub music_name: String,
    pub artist: Vec<(String, u64)>,
    pub album: String,
    pub album_id: u64,
    pub album_pic_doc_id: u128,
    pub album_pic: String,
    pub mv_id: u64,
    pub flag: u64,
    pub bitrate: u64,
    pub duration: u64,
    pub trans_names: Vec<String>,
}

/// The string under `key` of the JSON object in `s`: a pure function of the
/// text, `None` where the text does not parse, the key is absent, or the
/// value is not a string.
pub uninterp spec fn json_field_str_spec(s: Seq<char>, key: Seq<char>) -> Option<Seq<char>>;

/// The u64 under `key` of the JSON object in `s`.
pub uninterp spec fn json_field_u64_spec(s: Seq<char>, key: Seq<char>) -> Option<u64>;

/// The u128 under `key` of the JSON object in `s`.
pub uninterp spec fn json_field_u128_spec(s: Seq<char>, key: Seq<char>) -> Option<u128>;

/// The length of the array under `key` of the JSON object in `s`.
pub uninterp spec fn json_field_array_len_spec(s: Seq<char>, key: Seq<char>) -> Option<usize>;

/// The string at index `i` of the array under `key`.
pub uninterp spec fn json_elem_str_spec(s: Seq<char>, key: Seq<char>, i: int) -> Option<Seq<char>>;

/// The length of the array at index `i` of the array under `key`.
pub uninterp spec fn json_elem_array_len_spec(s: Seq<char>, key: Seq<char>, i: int) -> Option<
    usize,
>;

/// The string at index `j` of the array at index `i` of the array under `key`.
pub uninterp spec fn json_elem_elem_str_spec(s: Seq<char>, key: Seq<char>, i: int, j: int) -> Option<
    Seq<char>,
>;

/// The u64 at index `j` of the array at index `i` of the array under `key`.
pub uninterp spec fn json_elem_elem_u64_spec(s: Seq<char>, key: Seq<char>, i: int, j: int) -> Option<
    u64,
>;

/// Relies on serde_json::from_str::<Value>, Value::get and Value::as_str:
/// deterministic in the text and the key.
#[verifier::external_body]
fn json_field_str(s: &str, key: &str) -> (r: Option<String>)
    ensures
        (match r {
            Some(v) => json_field_str_spec(s@, key@) == Some(v@),
            None => json_field_str_spec(s@, key@) is None,
        }),
{
    let root: serde_json::Value = serde_json::from_str(s).ok()?;
    Some(root.get(key)?.as_str()?.to_owned())
}

/// Relies on serde_json::from_str::<Value>, Value::get and Value::as_u64:
/// `Some` exactly for integer numbers that fit in a u64.
#[verifier::external_body]
fn json_field_u64(s: &str, key: &str) -> (r: Option<u64>)
    ensures
        r == json_field_u64_spec(s@, key@),
{
    let root: serde_json::Value = serde_json::from_str(s).ok()?;
    root.get(key)?.as_u64()
}

/// Relies on serde_json::from_str::<Value>, Value::get, Value::as_number and
/// Number::as_u128: `Some` exactly for integer numbers that fit in a u128.
#[verifier::external_body]
fn json_field_u128(s: &str, key: &str) -> (r: Option<u128>)
    ensures
        r == json_field_u128_spec(s@, key@),
{
    let root: serde_json::Value = serde_json::from_str(s).ok()?;
    root.get(key)?.as_number()?.as_u128()
}

/// Relies on serde_json::from_str::<Value>, Value::get and Value::as_array:
/// the length of the array under the key.
#[verifier::external_body]
fn json_field_array_len(s: &str, key: &str) -> (r: Option<usize>)
    ensures
        r == json_field_array_len_spec(s@, key@),
{
    let root: serde_json::Value = serde_json::from_str(s).ok()?;
    Some(root.get(key)?.as_array()?.len())
}

/// Relies on serde_json::from_str::<Value>, Value::get, Value::as_array and
/// Value::as_str: the string at one index of the array under the key.
#[verifier::external_body]
fn json_elem_str(s: &str, key: &str, i: usize) -> (r: Option<String>)
    ensures
        (match r {
            Some(v) => json_elem_str_spec(s@, key@, i as int) == Some(v@),
            None => json_elem_str_spec(s@, key@, i as int) is None,
        }),
{
    let root: serde_json::Value = serde_json::from_str(s).ok()?;
    Some(root.get(key)?.as_array()?.get(i)?.as_str()?.to_owned())
}

/// Relies on serde_json::from_str::<Value>, Value::get and Value::as_array:
/// the length of the inner array at one index of the array under the key.
#[verifier::external_body]
fn json_elem_array_len(s: &str, key: &str, i: usize) -> (r: Option<usize>)
    ensures
        r == json_elem_array_len_spec(s@, key@, i as int),
{
    let root: serde_json::Value = serde_json::from_str(s).ok()?;
    Some(root.get(key)?.as_array()?.get(i)?.as_array()?.len())
}

/// Relies on serde_json::from_str::<Value>, Value::get, Value::as_array and
/// Value::as_str: the string inside a nested array element.
#[verifier::external_body]
fn json_elem_elem_str(s: &str, key: &str, i: usize, j: usize) -> (r: Option<String>)
    ensures
        (match r {
            Some(v) => json_elem_elem_str_spec(s@, key@, i as int, j as int) == Some(v@),
            None => json_elem_elem_str_spec(s@, key@, i as int, j as int) is None,
        }),
{
    let root: serde_json::Value = serde_json::from_str(s).ok()?;
    Some(root.get(key)?.as_array()?.get(i)?.as_array()?.get(j)?.as_str()?.to_owned())
}

/// Relies on serde_json::from_str::<Value>, Value::get, Value::as_array and
/// Value::as_u64: the u64 inside a nested array element.
#[verifier::external_body]
fn json_elem_elem_u64(s: &str, key: &str, i: usize, j: usize) -> (r: Option<u64>)
    ensures
        r == json_elem_elem_u64_spec(s@, key@, i as int, j as int),
{
    let root: serde_json::Value = serde_json::from_str(s).ok()?;
    root.get(key)?.as_array()?.get(i)?.as_array()?.get(j)?.as_u64()
}

/// One artist entry of the JSON text: an array of exactly a name and an id.
pub open spec fn artist_entry_ok(s: Seq<char>, i: int) -> bool {
    &&& json_elem_array_len_spec(s, "artist"@, i) == Some(2usize)
    &&& json_elem_elem_str_spec(s, "artist"@, i, 0) is Some
    &&& json_elem_elem_u64_spec(s, "artist"@, i, 1) is Some
}

/// When the JSON text parses as a complete Metadata record: every field is
/// present with its expected type, every artist entry is a (name, id) pair,
/// and every translated name is a string.
pub open spec fn metadata_text_ok(s: Seq<char>) -> bool {
    &&& json_field_str_spec(s, "format"@) is Some
    &&& json_field_u64_spec(s, "musicId"@) is Some
    &&& json_field_str_spec(s, "musicName"@) is Some
    &&& json_field_array_len_spec(s, "artist"@) is Some
    &&& (forall|i: int|
        0 <= i < json_field_array_len_spec(s, "artist"@)->Some_0 ==> #[trigger] artist_entry_ok(
            s,
            i,
        ))
    &&& json_field_str_spec(s, "album"@) is Some
    &&& json_field_u64_spec(s, "albumId"@) is Some
    &&& json_field_u128_spec(s, "albumPicDocId"@) is Some
    &&& json_field_str_spec(s, "albumPic"@) is Some
    &&& json_field_u64_spec(s, "mvId"@) is Some
    &&& json_field_u64_spec(s, "flag"@) is Some
    &&& json_field_u64_spec(s, "bitrate"@) is Some
    &&& json_field_u64_spec(s, "duration"@) is Some
    &&& json_field_array_len_spec(s, "transNames"@) is Some
    &&& (forall|i: int|
        0 <= i < json_field_array_len_spec(s, "transNames"@)->Some_0 ==> (
        #[trigger] json_elem_str_spec(s, "transNames"@, i)) is Some)
}

/// The record holds exactly the values that the JSON text carries.
pub open spec fn metadata_matches(m: Metadata, s: Seq<char>) -> bool {
    &&& Some(m.format@) == json_field_str_spec(s, "format"@)
    &&& Some(m.music_id) == json_field_u64_spec(s, "musicId"@)
    &&& Some(m.music_name@) == json_field_str_spec(s, "musicName"@)
    &&& Some(m.artist@.len() as usize) == json_field_array_len_spec(s, "artist"@)
    &&& (forall|i: int|
        0 <= i < m.artist@.len() ==> Some(m.artist@[i].0@) == #[trigger] json_elem_elem_str_spec(
            s,
            "artist"@,
            i,
            0,
        ) && Some(m.artist@[i].1) == json_elem_elem_u64_spec(s, "artist"@, i, 1))
    &&& Some(m.album@) == json_field_str_spec(s, "album"@)
    &&& Some(m.album_id) == json_field_u64_spec(s, "albumId"@)
    &&& Some(m.album_pic_doc_id) == json_field_u128_spec(s, "albumPicDocId"@)
    &&& Some(m.album_pic@) == json_field_str_spec(s, "albumPic"@)
    &&& Some(m.mv_id) == json_field_u64_spec(s, "mvId"@)
    &&& Some(m.flag) == json_field_u64_spec(s, "flag"@)
    &&& Some(m.bitrate) == json_field_u64_spec(s, "bitrate"@)
    &&& Some(m.duration) == json_field_u64_spec(s, "duration"@)
    &&& Some(m.trans_names@.len() as usize) == json_field_array_len_spec(s, "transNames"@)
    &&& (forall|i: int|
        0 <= i < m.trans_names@.len() ==> Some(m.trans_names@[i]@) == #[trigger] json_elem_str_spec(
            s,
            "transNames"@,
            i,
        ))
}

/// Parses the decrypted metadata JSON text into a Metadata record; `None`
/// exactly where a field is absent or has the wrong shape.
pub fn parse_metadata(s: &str) -> (r: Option<Metadata>)
    ensures
        r is Some <==> metadata_text_ok(s@),
        r matches Some(m) ==> metadata_matches(m, s@),
{
    let format = match json_field_str(s, "format") {
        Some(x) => x,
        None => return None,
    };
    let music_id = match json_field_u64(s, "musicId") {
        Some(x) => x,
        None => return None,
    };
    let music_name = match json_field_str(s, "musicName") {
        Some(x) => x,
        None => return None,
    };
    let artist_n = match json_field_array_len(s, "artist") {
        Some(n) => n,
        None => return None,
    };
    let mut artist: Vec<(String, u64)> = Vec::new();
    let mut i: usize = 0;
    while i < artist_n
        invariant
            i <= artist_n,
            json_field_array_len_spec(s@, "artist"@) == Some(artist_n),
            artist@.len() == i,
            forall|k: int| 0 <= k < i ==> #[trigger] artist_entry_ok(s@, k),
            forall|k: int|
                0 <= k < i ==> Some(artist@[k].0@) == #[trigger] json_elem_elem_str_spec(
                    s@,
                    "artist"@,
                    k,
                    0,
                ) && Some(artist@[k].1) == json_elem_elem_u64_spec(s@, "artist"@, k, 1),
        decreases artist_n - i,
    {
        let entry_len = match json_elem_array_len(s, "artist", i) {
            Some(n) => n,
            None => {
                proof {
                    assert(!artist_entry_ok(s@, i as int));
                }
                return None;
            },
        };
        if entry_len != 2 {
            proof {
                assert(!artist_entry_ok(s@, i as int));
            }
            return None;
        }
        let name = match json_elem_elem_str(s, "artist", i, 0) {
            Some(x) => x,
            None => {
                proof {
                    assert(!artist_entry_ok(s@, i as int));
                }
                return None;
            },
        };
        let id = match json_elem_elem_u64(s, "artist", i, 1) {
            Some(x) => x,
            None => {
                proof {
                    assert(!artist_entry_ok(s@, i as int));
                }
                return None;
            },
        };
        artist.push((name, id));
        i += 1;
    }
    let album = match json_field_str(s, "album") {
        Some(x) => x,
        None => return None,
    };
    let album_id = match json_field_u64(s, "albumId") {
        Some(x) => x,
        None => return None,
    };
    let album_pic_doc_id = match json_field_u128(s, "albumPicDocId") {
        Some(x) => x,
        None => return None,
    };
    let album_pic = match json_field_str(s, "albumPic") {
        Some(x) => x,
        None => return None,
    };
    let mv_id = match json_field_u64(s, "mvId") {
        Some(x) => x,
        None => return None,
    };
    let flag = match json_field_u64(s, "flag") {
        Some(x) => x,
        None => return None,
    };
    let bitrate = match json_field_u64(s, "bitrate") {
        Some(x) => x,
        None => return None,
    };
    let duration = match json_field_u64(s, "duration") {
        Some(x) => x,
        None => return None,
    };
    let trans_n = match json_field_array_len(s, "transNames") {
        Some(n) => n,
        None => return None,
    };
    let mut trans_names: Vec<String> = Vec::new();
    let mut i: usize = 0;
    while i < trans_n
        invariant
            i <= trans_n,
            json_field_array_len_spec(s@, "transNames"@) == Some(trans_n),
            trans_names@.len() == i,
            forall|k: int|
                0 <= k < i ==> Some(trans_names@[k]@) == #[trigger] json_elem_str_spec(
                    s@,
                    "transNames"@,
                    k,
                ),
        decreases trans_n - i,
    {
        let entry = match json_elem_str(s, "transNames", i) {
            Some(x) => x,
            None => return None,
        };
        trans_names.push(entry);
        i += 1;
    }
    Some(
        Metadata {
            format,
            music_id,
            music_name,
            artist,
            album,
            album_id,
            album_pic_doc_id,
            album_pic,
            mv_id,
            flag,
            bitrate,
            duration,
            trans_names,
        },
    )
}

/// What serde_json::to_string renders for a value: a pure function of the
/// value (object entries keep insertion order, so the rendering is
/// determined by the value alone).
pub uninterp spec fn json_render(v: serde_json::Value) -> Seq<char>;

/// serde_json's rendering of a string: quotes around the escaped text.
pub uninterp spec fn json_quote_spec(s: Seq<char>) -> Seq<char>;

/// serde_json's rendering of a u64 number (its decimal digits).
pub uninterp spec fn json_u64_text(n: u64) -> Seq<char>;

/// serde_json's rendering of a u128 number (its decimal digits).
pub uninterp spec fn json_u128_text(n: u128) -> Seq<char>;

/// Whether the value is a JSON object.
pub uninterp spec fn json_is_object(v: serde_json::Value) -> bool;

/// Whether the value is a JSON array.
pub uninterp spec fn json_is_array(v: serde_json::Value) -> bool;

/// Whether the object holds the key.
pub uninterp spec fn json_has_key(v: serde_json::Value, key: Seq<char>) -> bool;

/// Relies on serde_json::Map::new: a fresh empty JSON object, rendered `{}`.
#[verifier::external_body]
fn json_new_object() -> (r: serde_json::Value)
    ensures
        json_is_object(r),
        json_render(r) == "{}"@,
        forall|k: Seq<char>| !json_has_key(r, k),
{
    serde_json::Value::Object(serde_json::Map::new())
}

/// Relies on serde_json::Value::Array: a fresh empty JSON array, rendered
/// `[]`.
#[verifier::external_body]
fn json_new_array() -> (r: serde_json::Value)
    ensures
        json_is_array(r),
        json_render(r) == "[]"@,
{
    serde_json::Value::Array(Vec::new())
}

/// Relies on serde_json::Map::insert with insertion-order preservation: a
/// fresh key's entry is appended before the closing brace of the compact
/// rendering.
#[verifier::external_body]
fn json_insert(obj: &mut serde_json::Value, key: &str, val: serde_json::Value)
    requires
        json_is_object(*old(obj)),
        !json_has_key(*old(obj), key@),
    ensures
        json_is_object(*final(obj)),
        json_has_key(*final(obj), key@),
        json_render(*final(obj)).len() > 2,
        forall|k: Seq<char>|
            k != key@ ==> json_has_key(*final(obj), k) == json_has_key(*old(obj), k),
        json_render(*final(obj)) == (if json_render(*old(obj)) == "{}"@ {
            "{"@ + json_quote_spec(key@) + ":"@ + json_render(val) + "}"@
        } else {
            json_render(*old(obj)).drop_last() + ","@ + json_quote_spec(key@) + ":"@
                + json_render(val) + "}"@
        }),
{
    if let serde_json::Value::Object(m) = obj {
        m.insert(key.to_owned(), val);
    }
}

/// Relies on serde_json::Value::Array: the element is appended before the
/// closing bracket of the compact rendering.
#[verifier::external_body]
fn json_push(arr: &mut serde_json::Value, item: serde_json::Value)
    requires
        json_is_array(*old(arr)),
    ensures
        json_is_array(*final(arr)),
        json_render(*final(arr)) == (if json_render(*old(arr)) == "[]"@ {
            "["@ + json_render(item) + "]"@
        } else {
            json_render(*old(arr)).drop_last() + ","@ + json_render(item) + "]"@
        }),
{
    if let serde_json::Value::Array(a) = arr {
        a.push(item);
    }
}

/// Relies on serde_json::Value::String: a JSON string value, rendered quoted
/// and escaped.
#[verifier::external_body]
fn json_string(s: &str) -> (r: serde_json::Value)
    ensures
        json_render(r) == json_quote_spec(s@) && json_render(r).len() >= 2,
{
    serde_json::Value::String(s.to_owned())
}

/// Relies on serde_json::Value::from: a JSON number value from a u64,
/// rendered as its decimal digits.
#[verifier::external_body]
fn json_u64(n: u64) -> (r: serde_json::Value)
    ensures
        json_render(r) == json_u64_text(n) && json_render(r).len() >= 1,
{
    serde_json::Value::from(n)
}

/// Relies on serde_json::Number::from_u128: a JSON number value from a u128,
/// rendered as its decimal digits. With arbitrary-precision numbers every
/// u128 is representable, so this always succeeds.
#[verifier::external_body]
fn json_u128(n: u128) -> (r: Option<serde_json::Value>)
    ensures
        r is Some,
        r matches Some(v) ==> json_render(v) == json_u128_text(n) && json_render(v).len() >= 1,
{
    serde_json::Number::from_u128(n).map(serde_json::Value::Number)
}

/// Relies on serde_json::to_string: renders a JSON value as compact text.
/// Serializing a Value cannot fail: its object keys are strings and its
/// numbers are well-formed by construction.
#[verifier::external_body]
fn json_to_string(v: &serde_json::Value) -> (r: Option<String>)
    ensures
        r is Some,
        r matches Some(t) ==> t@ == json_render(*v),
{
    serde_json::to_string(v).ok()
}

/// The given renderings joined with commas.
pub open spec fn comma_join(items: Seq<Seq<char>>) -> Seq<char>
    decreases items.len(),
{
    if items.len() == 0 {
        Seq::empty()
    } else if items.len() == 1 {
        items[0]
    } else {
        comma_join(items.drop_last()) + ","@ + items.last()
    }
}

/// A compact JSON array of the given renderings.
pub open spec fn array_text(items: Seq<Seq<char>>) -> Seq<char> {
    "["@ + comma_join(items) + "]"@
}

/// The rendering of one (name, id) artist entry.
pub open spec fn artist_pair_text(name: Seq<char>, id: u64) -> Seq<char> {
    "["@ + json_quote_spec(name) + ","@ + json_u64_text(id) + "]"@
}

/// One rendered object entry.
pub open spec fn entry_text(key: Seq<char>, val: Seq<char>) -> Seq<char> {
    json_quote_spec(key) + ":"@ + val
}

/// The compact JSON text that serializing a Metadata record produces: the
/// thirteen camelCase fields in declaration order.
pub open spec fn metadata_json_text(m: Metadata) -> Seq<char> {
    "{"@ + entry_text("format"@, json_quote_spec(m.format@)) + ","@ + entry_text(
        "musicId"@,
        json_u64_text(m.music_id),
    ) + ","@ + entry_text("musicName"@, json_quote_spec(m.music_name@)) + ","@ + entry_text(
        "artist"@,
        array_text(m.artist@.map_values(|p: (String, u64)| artist_pair_text(p.0@, p.1))),
    ) + ","@ + entry_text("album"@, json_quote_spec(m.album@)) + ","@ + entry_text(
        "albumId"@,
        json_u64_text(m.album_id),
    ) + ","@ + entry_text("albumPicDocId"@, json_u128_text(m.album_pic_doc_id)) + ","@
        + entry_text("albumPic"@, json_quote_spec(m.album_pic@)) + ","@ + entry_text(
        "mvId"@,
        json_u64_text(m.mv_id),
    ) + ","@ + entry_text("flag"@, json_u64_text(m.flag)) + ","@ + entry_text(
        "bitrate"@,
        json_u64_text(m.bitrate),
    ) + ","@ + entry_text("duration"@, json_u64_text(m.duration)) + ","@ + entry_text(
        "transNames"@,
        array_text(m.trans_names@.map_values(|t: String| json_quote_spec(t@))),
    ) + "}"@
}

/// Serializes a Metadata record back to one JSON object in field order; the
/// rendering never fails and produces exactly the compact camelCase text.
pub fn metadata_to_json(m: &Metadata) -> (r: Option<String>)
    ensures
        r is Some,
        r matches Some(t) ==> t@ == metadata_json_text(*m),
{
    proof {
        reveal_strlit("format");
        reveal_strlit("musicId");
        reveal_strlit("musicName");
        reveal_strlit("artist");
        reveal_strlit("album");
        reveal_strlit("albumId");
        reveal_strlit("albumPicDocId");
        reveal_strlit("albumPic");
        reveal_strlit("mvId");
        reveal_strlit("flag");
        reveal_strlit("bitrate");
        reveal_strlit("duration");
        reveal_strlit("transNames");
        reveal_strlit("{");
        reveal_strlit("}");
        reveal_strlit("[");
        reveal_strlit("]");
        reveal_strlit(",");
        reveal_strlit(":");
        reveal_strlit("{}");
        reveal_strlit("[]");
        assert("format"@.len() == 6);
        assert("musicId"@.len() == 7);
        assert("musicName"@.len() == 9);
        assert("artist"@.len() == 6);
        assert("album"@.len() == 5);
        assert("albumId"@.len() == 7);
        assert("albumPicDocId"@.len() == 13);
        assert("albumPic"@.len() == 8);
        assert("mvId"@.len() == 4);
        assert("flag"@.len() == 4);
        assert("bitrate"@.len() == 7);
        assert("duration"@.len() == 8);
        assert("transNames"@.len() == 10);
        assert("format"@[0] == 'f' && "artist"@[0] == 'a');
        assert("musicId"@[0] == 'm' && "albumId"@[0] == 'a' && "bitrate"@[0] == 'b');
        assert("albumPic"@[0] == 'a' && "duration"@[0] == 'd');
        assert("mvId"@[0] == 'm' && "flag"@[0] == 'f');
        assert("{"@.len() == 1 && "}"@.len() == 1 && "["@.len() == 1 && "]"@.len() == 1 && ","@.len() == 1 && ":"@.len() == 1);
        assert("{}"@.len() == 2 && "[]"@.len() == 2);
        assert("["@ + Seq::<char>::empty() + "]"@ =~= "[]"@);
    }
    let ghost pair_of = |p: (String, u64)| artist_pair_text(p.0@, p.1);
    let mut artists = json_new_array();
    let mut i: usize = 0;
    while i < m.artist.len()
        invariant
            i <= m.artist@.len(),
            json_is_array(artists),
            json_render(artists) == array_text(m.artist@.take(i as int).map_values(pair_of)),
            pair_of == (|p: (String, u64)| artist_pair_text(p.0@, p.1)),
            i > 0 ==> json_render(artists) != "[]"@,
        decreases m.artist@.len() - i,
    {
        proof {
            reveal_strlit("[");
            reveal_strlit("]");
            reveal_strlit(",");
            reveal_strlit("[]");
        }
        let mut pair = json_new_array();
        json_push(&mut pair, json_string(m.artist[i].0.as_str()));
        json_push(&mut pair, json_u64(m.artist[i].1));
        proof {
            let q = json_quote_spec(m.artist@[i as int].0@);
            let ut = json_u64_text(m.artist@[i as int].1);
            assert(("["@ + q + "]"@).drop_last() =~= "["@ + q);
            assert(json_render(pair) =~= artist_pair_text(m.artist@[i as int].0@, m.artist@[i as int].1));
        }
        json_push(&mut artists, pair);
        proof {
            let prev = m.artist@.take(i as int).map_values(pair_of);
            let next = m.artist@.take(i + 1).map_values(pair_of);
            let pt = artist_pair_text(m.artist@[i as int].0@, m.artist@[i as int].1);
            assert(m.artist@.take(i + 1).drop_last() =~= m.artist@.take(i as int));
            assert(next.drop_last() =~= prev);
            assert(next.last() == pt);
            assert(next.len() == i + 1);
            if i == 0 {
                assert(prev =~= Seq::<Seq<char>>::empty());
                assert(array_text(prev) =~= "[]"@);
                assert(next[0] == pt);
                assert(comma_join(next) == pt);
                assert(json_render(artists) =~= array_text(next));
            } else {
                assert(comma_join(next) == comma_join(prev) + ","@ + pt);
                assert(("["@ + comma_join(prev) + "]"@).drop_last() =~= "["@ + comma_join(prev));
                assert(json_render(artists) =~= array_text(next));
            }
            assert(json_render(artists) != "[]"@);
        }
        i += 1;
    }
    proof {
        assert(m.artist@.take(m.artist@.len() as int) =~= m.artist@);
    }
    let ghost quote_of = |t: String| json_quote_spec(t@);
    let mut trans = json_new_array();
    let mut i: usize = 0;
    while i < m.trans_names.len()
        invariant
            i <= m.trans_names@.len(),
            json_is_array(trans),
            json_render(trans) == array_text(m.trans_names@.take(i as int).map_values(quote_of)),
            quote_of == (|t: String| json_quote_spec(t@)),
            i > 0 ==> json_render(trans) != "[]"@,
        decreases m.trans_names@.len() - i,
    {
        proof {
            reveal_strlit("[");
            reveal_strlit("]");
            reveal_strlit(",");
            reveal_strlit("[]");
        }
        json_push(&mut trans, json_string(m.trans_names[i].as_str()));
        proof {
            let prev = m.trans_names@.take(i as int).map_values(quote_of);
            let next = m.trans_names@.take(i + 1).map_values(quote_of);
            let qt = json_quote_spec(m.trans_names@[i as int]@);
            assert(m.trans_names@.take(i + 1).drop_last() =~= m.trans_names@.take(i as int));
            assert(next.drop_last() =~= prev);
            assert(next.last() == qt);
            assert(next.len() == i + 1);
            if i == 0 {
                assert(prev =~= Seq::<Seq<char>>::empty());
                assert(array_text(prev) =~= "[]"@);
                assert(next[0] == qt);
                assert(comma_join(next) == qt);
                assert(json_render(trans) =~= array_text(next));
            } else {
                assert(comma_join(next) == comma_join(prev) + ","@ + qt);
                assert(("["@ + comma_join(prev) + "]"@).drop_last() =~= "["@ + comma_join(prev));
                assert(json_render(trans) =~= array_text(next));
            }
            assert(json_render(trans) != "[]"@);
        }
        i += 1;
    }
    proof {
        assert(m.trans_names@.take(m.trans_names@.len() as int) =~= m.trans_names@);
    }
    let ghost e1 = entry_text("format"@, json_quote_spec(m.format@));
    let ghost e2 = entry_text("musicId"@, json_u64_text(m.music_id));
    let ghost e3 = entry_text("musicName"@, json_quote_spec(m.music_name@));
    let ghost e4 = entry_text("artist"@, array_text(m.artist@.map_values(pair_of)));
    let ghost e5 = entry_text("album"@, json_quote_spec(m.album@));
    let ghost e6 = entry_text("albumId"@, json_u64_text(m.album_id));
    let ghost e7 = entry_text("albumPicDocId"@, json_u128_text(m.album_pic_doc_id));
    let ghost e8 = entry_text("albumPic"@, json_quote_spec(m.album_pic@));
    let ghost e9 = entry_text("mvId"@, json_u64_text(m.mv_id));
    let ghost e10 = entry_text("flag"@, json_u64_text(m.flag));
    let ghost e11 = entry_text("bitrate"@, json_u64_text(m.bitrate));
    let ghost e12 = entry_text("duration"@, json_u64_text(m.duration));
    let ghost e13 = entry_text("transNames"@, array_text(m.trans_names@.map_values(quote_of)));
    let ghost a1 = "{"@ + e1;
    let ghost a2 = a1 + ","@ + e2;
    let ghost a3 = a2 + ","@ + e3;
    let ghost a4 = a3 + ","@ + e4;
    let ghost a5 = a4 + ","@ + e5;
    let ghost a6 = a5 + ","@ + e6;
    let ghost a7 = a6 + ","@ + e7;
    let ghost a8 = a7 + ","@ + e8;
    let ghost a9 = a8 + ","@ + e9;
    let ghost a10 = a9 + ","@ + e10;
    let ghost a11 = a10 + ","@ + e11;
    let ghost a12 = a11 + ","@ + e12;
    let ghost a13 = a12 + ","@ + e13;
    let mut obj = json_new_object();
    json_insert(&mut obj, "format", json_string(m.format.as_str()));
    proof {
        assert(json_render(obj) == a1 + "}"@);
    }
    json_insert(&mut obj, "musicId", json_u64(m.music_id));
    proof {
        assert((a1 + "}"@).drop_last() =~= a1);
        assert(json_render(obj) == a2 + "}"@);
    }
    json_insert(&mut obj, "musicName", json_string(m.music_name.as_str()));
    proof {
        assert((a2 + "}"@).drop_last() =~= a2);
        assert(json_render(obj) == a3 + "}"@);
    }
    json_insert(&mut obj, "artist", artists);
    proof {
        assert((a3 + "}"@).drop_last() =~= a3);
        assert(json_render(obj) == a4 + "}"@);
    }
    json_insert(&mut obj, "album", json_string(m.album.as_str()));
    proof {
        assert((a4 + "}"@).drop_last() =~= a4);
        assert(json_render(obj) == a5 + "}"@);
    }
    json_insert(&mut obj, "albumId", json_u64(m.album_id));
    proof {
        assert((a5 + "}"@).drop_last() =~= a5);
        assert(json_render(obj) == a6 + "}"@);
    }
    let doc_id = match json_u128(m.album_pic_doc_id) {
        Some(v) => v,
        None => return None,
    };
    json_insert(&mut obj, "albumPicDocId", doc_id);
    proof {
        assert((a6 + "}"@).drop_last() =~= a6);
        assert(json_render(obj) == a7 + "}"@);
    }
    json_insert(&mut obj, "albumPic", json_string(m.album_pic.as_str()));
    proof {
        assert((a7 + "}"@).drop_last() =~= a7);
        assert(json_render(obj) == a8 + "}"@);
    }
    json_insert(&mut obj, "mvId", json_u64(m.mv_id));
    proof {
        assert((a8 + "}"@).drop_last() =~= a8);
        assert(json_render(obj) == a9 + "}"@);
    }
    json_insert(&mut obj, "flag", json_u64(m.flag));
    proof {
        assert((a9 + "}"@).drop_last() =~= a9);
        assert(json_render(obj) == a10 + "}"@);
    }
    json_insert(&mut obj, "bitrate", json_u64(m.bitrate));
    proof {
        assert((a10 + "}"@).drop_last() =~= a10);
        assert(json_render(obj) == a11 + "}"@);
    }
    json_insert(&mut obj, "duration", json_u64(m.duration));
    proof {
        assert((a11 + "}"@).drop_last() =~= a11);
        assert(json_render(obj) == a12 + "}"@);
    }
    json_insert(&mut obj, "transNames", trans);
    proof {
        assert((a12 + "}"@).drop_last() =~= a12);
        assert(json_render(obj) == a13 + "}"@);
        assert(a13 + "}"@ == metadata_json_text(*m));
    }
    json_to_string(&obj)
}

} // verus!
