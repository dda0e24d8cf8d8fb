//! Requests that every kind of entity sends in the same shape, and the
//! encoding of lists of strings and of tag maps.

use crate::boundary::{buffer_view, built, EntityKind, Number, Request, RequestView};
use crate::codec::UnixTime;
use crate::marshal::{c_encoding, encode_str, encoding_failure, EncodingError};
use crate::name_map::NameMap;
use vstd::prelude::*;

verus! {

/// The first of two failures, in the order in which the strings are encoded.
pub open spec fn first_failure(a: Option<EncodingError>, b: Option<EncodingError>) -> Option<
    EncodingError,
> {
    if a is Some {
        a
    } else {
        b
    }
}

/// The request that sets a string tag, or the failure of the first string
/// that cannot be sent.
pub open spec fn spec_string_tag(entity: EntityKind, id: u64, key: Seq<char>, value: Seq<char>) -> Result<
    RequestView,
    EncodingError,
> {
    match first_failure(encoding_failure(key), encoding_failure(value)) {
        Some(e) => Err(e),
        None => Ok(
            RequestView::SetStringTag { entity, id, key: c_encoding(key), value: c_encoding(value) },
        ),
    }
}

/// Builds the request that sets a string tag on an entity.
pub fn string_tag(entity: EntityKind, id: u64, key: &str, value: &str) -> (r: Result<
    Request,
    EncodingError,
>)
    ensures
        built(r) == spec_string_tag(entity, id, key@, value@),
{
    let key = match encode_str(key) {
        Ok(buffer) => buffer,
        Err(e) => { return Err(e); },
    };
    let value = match encode_str(value) {
        Ok(buffer) => buffer,
        Err(e) => { return Err(e); },
    };
    Ok(Request::SetStringTag { entity, id, key, value })
}

/// The request that sets a numeric tag, or the failure of the key.
pub open spec fn spec_number_tag(entity: EntityKind, id: u64, key: Seq<char>, value: Number) -> Result<
    RequestView,
    EncodingError,
> {
    match encoding_failure(key) {
        Some(e) => Err(e),
        None => Ok(RequestView::SetNumberTag { entity, id, key: c_encoding(key), value }),
    }
}

/// Builds the request that sets a numeric tag on an entity.
pub fn number_tag(entity: EntityKind, id: u64, key: &str, value: Number) -> (r: Result<
    Request,
    EncodingError,
>)
    ensures
        built(r) == spec_number_tag(entity, id, key@, value),
{
    let key = match encode_str(key) {
        Ok(buffer) => buffer,
        Err(e) => { return Err(e); },
    };
    Ok(Request::SetNumberTag { entity, id, key, value })
}

/// The request that attaches an error, or the failure of the first string
/// that cannot be sent.
pub open spec fn spec_error_info(
    entity: EntityKind,
    id: u64,
    error_type: Seq<char>,
    message: Seq<char>,
    stacktrace: Seq<char>,
) -> Result<RequestView, EncodingError> {
    match first_failure(
        encoding_failure(error_type),
        first_failure(encoding_failure(message), encoding_failure(stacktrace)),
    ) {
        Some(e) => Err(e),
        None => Ok(
            RequestView::SetError {
                entity,
                id,
                error_type: c_encoding(error_type),
                message: c_encoding(message),
                stacktrace: c_encoding(stacktrace),
            },
        ),
    }
}

/// Builds the request that attaches an error to an entity.
pub fn error_info(
    entity: EntityKind,
    id: u64,
    error_type: &str,
    message: &str,
    stacktrace: &str,
) -> (r: Result<Request, EncodingError>)
    ensures
        built(r) == spec_error_info(entity, id, error_type@, message@, stacktrace@),
{
    let error_type = match encode_str(error_type) {
        Ok(buffer) => buffer,
        Err(e) => { return Err(e); },
    };
    let message = match encode_str(message) {
        Ok(buffer) => buffer,
        Err(e) => { return Err(e); },
    };
    let stacktrace = match encode_str(stacktrace) {
        Ok(buffer) => buffer,
        Err(e) => { return Err(e); },
    };
    Ok(Request::SetError { entity, id, error_type, message, stacktrace })
}

/// The request that sets a source location, or the failure of the file name.
pub open spec fn spec_source(
    entity: EntityKind,
    id: u64,
    file: Seq<char>,
    start_line: Option<i32>,
    end_line: Option<i32>,
) -> Result<RequestView, EncodingError> {
    match encoding_failure(file) {
        Some(e) => Err(e),
        None => Ok(
            RequestView::SetSource { entity, id, file: c_encoding(file), start_line, end_line },
        ),
    }
}

/// Builds the request that sets the source location of an entity.
pub(crate) fn source(
    entity: EntityKind,
    id: u64,
    file: &str,
    start_line: Option<i32>,
    end_line: Option<i32>,
) -> (r: Result<Request, EncodingError>)
    ensures
        built(r) == spec_source(entity, id, file@, start_line, end_line),
{
    let file = match encode_str(file) {
        Ok(buffer) => buffer,
        Err(e) => { return Err(e); },
    };
    Ok(Request::SetSource { entity, id, file, start_line, end_line })
}

/// Builds the request that closes an entity at the given time.
pub(crate) fn close_at(entity: EntityKind, id: u64, finish: UnixTime) -> (r: Request)
    ensures
        r@ == (RequestView::Close { entity, id, finish }),
{
    Request::Close { entity, id, finish }
}

/// The failure of an optional string, if it is there and cannot be sent.
pub open spec fn optional_failure(text: Option<Seq<char>>) -> Option<EncodingError> {
    match text {
        None => None,
        Some(t) => encoding_failure(t),
    }
}

/// The buffer of an optional string; a string that is not there stays out.
pub open spec fn optional_encoding(text: Option<Seq<char>>) -> Option<Seq<u8>> {
    match text {
        None => None,
        Some(t) => Some(c_encoding(t)),
    }
}

/// The text of an optional string.
pub open spec fn optional_text(text: Option<&str>) -> Option<Seq<char>> {
    match text {
        None => None,
        Some(t) => Some(t@),
    }
}

/// Lays an optional string out for the native side.
pub fn encode_optional(text: Option<&str>) -> (r: Result<Option<Vec<u8>>, EncodingError>)
    ensures
        match optional_failure(optional_text(text)) {
            Some(e) => r == Err::<Option<Vec<u8>>, EncodingError>(e),
            None => r is Ok && buffer_view(r->Ok_0) == optional_encoding(
                optional_text(text),
            ),
        },
{
    match text {
        None => Ok(None),
        Some(t) => match encode_str(t) {
            Ok(buffer) => Ok(Some(buffer)),
            Err(e) => Err(e),
        },
    }
}

/// The failure of the first string at or after `start` that cannot be sent.
pub open spec fn list_failure_from(texts: Seq<Seq<char>>, start: int) -> Option<EncodingError>
    decreases texts.len() - start,
{
    if start < 0 || start >= texts.len() {
        None
    } else if encoding_failure(texts[start]) is Some {
        encoding_failure(texts[start])
    } else {
        list_failure_from(texts, start + 1)
    }
}

/// The failure of the first string of a list that cannot be sent.
pub open spec fn list_failure(texts: Seq<Seq<char>>) -> Option<EncodingError> {
    list_failure_from(texts, 0)
}

/// The buffers of a list of strings.
pub open spec fn list_encoding(texts: Seq<Seq<char>>) -> Seq<Seq<u8>> {
    Seq::new(texts.len(), |i: int| c_encoding(texts[i]))
}

/// The text of each string of a list.
pub open spec fn texts_of(strings: Seq<String>) -> Seq<Seq<char>> {
    strings.map_values(|s: String| s@)
}

/// A list fails exactly if one of its strings cannot be sent.
pub proof fn lemma_list_failure(texts: Seq<Seq<char>>, start: int)
    requires
        0 <= start <= texts.len(),
    ensures
        list_failure_from(texts, start) is None <==> forall|i: int|
            start <= i < texts.len() ==> encoding_failure(#[trigger] texts[i]) is None,
    decreases texts.len() - start,
{
    if start < texts.len() {
        lemma_list_failure(texts, start + 1);
    }
}

/// Lays each string of a list out for the native side, in order. The first
/// string that cannot be sent stops the work.
pub fn encode_list(strings: &Vec<String>) -> (r: Result<Vec<Vec<u8>>, EncodingError>)
    ensures
        match list_failure(texts_of(strings@)) {
            Some(e) => r == Err::<Vec<Vec<u8>>, EncodingError>(e),
            None => r is Ok && r->Ok_0@.map_values(|b: Vec<u8>| b@) == list_encoding(
                texts_of(strings@),
            ),
        },
{
    let ghost texts = texts_of(strings@);
    let mut buffers: Vec<Vec<u8>> = Vec::new();
    let mut i: usize = 0;
    while i < strings.len()
        invariant
            i <= strings@.len(),
            texts == texts_of(strings@),
            list_failure_from(texts, i as int) == list_failure(texts),
            buffers@.len() == i,
            forall|j: int| 0 <= j < i ==> (#[trigger] buffers@[j])@ == c_encoding(texts[j]),
        decreases strings@.len() - i,
    {
        match encode_str(strings[i].as_str()) {
            Ok(buffer) => {
                buffers.push(buffer);
            },
            Err(e) => {
                return Err(e);
            },
        }
        i += 1;
    }
    assert(buffers@.map_values(|b: Vec<u8>| b@) =~= list_encoding(texts));
    Ok(buffers)
}

/// The failure of the first pair at or after `start` of which the key or,
/// after it, the value cannot be sent.
pub open spec fn pairs_failure_from(keys: Seq<Seq<char>>, values: Seq<Seq<char>>, start: int) -> Option<
    EncodingError,
>
    decreases keys.len() - start,
{
    if start < 0 || start >= keys.len() || start >= values.len() {
        None
    } else {
        let here = first_failure(encoding_failure(keys[start]), encoding_failure(values[start]));
        if here is Some {
            here
        } else {
            pairs_failure_from(keys, values, start + 1)
        }
    }
}

/// A list of pairs fails exactly if a key or a value cannot be sent.
pub proof fn lemma_pairs_failure(keys: Seq<Seq<char>>, values: Seq<Seq<char>>, start: int)
    requires
        0 <= start <= keys.len(),
        keys.len() == values.len(),
    ensures
        pairs_failure_from(keys, values, start) is None <==> forall|i: int|
            start <= i < keys.len() ==> encoding_failure(#[trigger] keys[i]) is None
                && encoding_failure(values[i]) is None,
    decreases keys.len() - start,
{
    if start < keys.len() {
        lemma_pairs_failure(keys, values, start + 1);
    }
}

/// The buffers of a list of pairs of strings.
pub open spec fn pairs_encoding(keys: Seq<Seq<char>>, values: Seq<Seq<char>>) -> Seq<
    (Seq<u8>, Seq<u8>),
> {
    Seq::new(keys.len(), |i: int| (c_encoding(keys[i]), c_encoding(values[i])))
}

/// The buffers and numbers of a list of keys with numeric values.
pub open spec fn number_pairs_encoding(keys: Seq<Seq<char>>, values: Seq<Number>) -> Seq<
    (Seq<u8>, Number),
> {
    Seq::new(keys.len(), |i: int| (c_encoding(keys[i]), values[i]))
}

/// Flattens a map of string tags into the pairs that the native side reads,
/// one pair for each name, in the order of the map.
pub fn encode_text_pairs(tags: &NameMap<String>) -> (r: Result<
    Vec<(Vec<u8>, Vec<u8>)>,
    EncodingError,
>)
    requires
        tags.wf(),
    ensures
        match pairs_failure_from(tags.names(), texts_of(tags.values()), 0) {
            Some(e) => r == Err::<Vec<(Vec<u8>, Vec<u8>)>, EncodingError>(e),
            None => r is Ok && r->Ok_0@.map_values(|p: (Vec<u8>, Vec<u8>)| (p.0@, p.1@))
                == pairs_encoding(tags.names(), texts_of(tags.values())),
        },
{
    let ghost keys = tags.names();
    let ghost values = texts_of(tags.values());
    let n = tags.len();
    let mut pairs: Vec<(Vec<u8>, Vec<u8>)> = Vec::new();
    let mut i: usize = 0;
    while i < n
        invariant
            tags.wf(),
            n == tags.names().len(),
            i <= n,
            keys == tags.names(),
            values == texts_of(tags.values()),
            pairs_failure_from(keys, values, i as int) == pairs_failure_from(keys, values, 0),
            pairs@.len() == i,
            forall|j: int|
                0 <= j < i ==> (#[trigger] pairs@[j]).0@ == c_encoding(keys[j]) && pairs@[j].1@
                    == c_encoding(values[j]),
        decreases n - i,
    {
        match tags.entry(i) {
            Some((key, value)) => {
                let key = match encode_str(key.as_str()) {
                    Ok(buffer) => buffer,
                    Err(e) => { return Err(e); },
                };
                let value = match encode_str(value.as_str()) {
                    Ok(buffer) => buffer,
                    Err(e) => { return Err(e); },
                };
                pairs.push((key, value));
            },
            None => {},
        }
        i += 1;
    }
    assert(pairs@.map_values(|p: (Vec<u8>, Vec<u8>)| (p.0@, p.1@)) =~= pairs_encoding(
        keys,
        values,
    ));
    Ok(pairs)
}

/// Flattens a map of numeric tags into the pairs that the native side reads,
/// one pair for each name, in the order of the map.
pub fn encode_number_pairs(tags: &NameMap<Number>) -> (r: Result<
    Vec<(Vec<u8>, Number)>,
    EncodingError,
>)
    requires
        tags.wf(),
    ensures
        match list_failure(tags.names()) {
            Some(e) => r == Err::<Vec<(Vec<u8>, Number)>, EncodingError>(e),
            None => r is Ok && r->Ok_0@.map_values(|p: (Vec<u8>, Number)| (p.0@, p.1))
                == number_pairs_encoding(tags.names(), tags.values()),
        },
{
    let ghost keys = tags.names();
    let n = tags.len();
    let mut pairs: Vec<(Vec<u8>, Number)> = Vec::new();
    let mut i: usize = 0;
    while i < n
        invariant
            tags.wf(),
            n == tags.names().len(),
            i <= n,
            keys == tags.names(),
            list_failure_from(keys, i as int) == list_failure(keys),
            pairs@.len() == i,
            forall|j: int|
                0 <= j < i ==> (#[trigger] pairs@[j]).0@ == c_encoding(keys[j]) && pairs@[j].1
                    == tags.values()[j],
        decreases n - i,
    {
        match tags.entry(i) {
            Some((key, value)) => {
                let key = match encode_str(key.as_str()) {
                    Ok(buffer) => buffer,
                    Err(e) => { return Err(e); },
                };
                pairs.push((key, *value));
            },
            None => {},
        }
        i += 1;
    }
    assert(pairs@.map_values(|p: (Vec<u8>, Number)| (p.0@, p.1)) =~= number_pairs_encoding(
        keys,
        tags.values(),
    ));
    Ok(pairs)
}

} // verus!
