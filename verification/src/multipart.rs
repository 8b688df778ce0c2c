//! Classification and accumulation of multipart form parts. The transport
//! hands over each part's name, declared filename and content type, and its
//! body as the chunks it arrived in; everything after that is decided here:
//! a part with a non-empty filename is a file, anything else is a text
//! field, later parts overwrite earlier ones of the same name, and a file
//! counts only when it actually carried bytes.

use vstd::prelude::*;

use crate::outside;

verus! {

/// One part of a multipart body, as plain values.
pub struct Part {
    pub name: String,
    pub filename: String,
    pub content_type: Option<String>,
    pub chunks: Vec<Vec<u8>>,
}

/// An uploaded file distilled from a part: original filename, the content
/// type as declared (each consumer applies its own default), and the
/// accumulated bytes.
pub struct FilePayload {
    pub filename: String,
    pub content_type: Option<String>,
    pub data: Vec<u8>,
}

/// The stored content type of an upload: the declared one, or the given
/// default.
pub open spec fn payload_ctype_or(c: Option<String>, dflt: Seq<char>) -> Seq<char> {
    match c {
        Some(t) => t@,
        None => dflt,
    }
}

/// Resolve an upload's content type against a default.
pub fn ctype_or(f: &FilePayload, dflt: &str) -> (r: String)
    ensures
        r@ == payload_ctype_or(f.content_type, dflt@),
{
    match &f.content_type {
        Some(c) => c.clone(),
        None => String::from_str(dflt),
    }
}

/// The value a text field carries, with a missing field reading as empty.
pub open spec fn fval(m: Map<Seq<char>, Seq<char>>, key: Seq<char>) -> Seq<char> {
    if m.contains_key(key) {
        m[key]
    } else {
        Seq::empty()
    }
}

/// A part counts as a file exactly when it declares a non-empty filename.
pub open spec fn part_is_file(p: Part) -> bool {
    p.filename@.len() > 0
}

/// The bytes of a part: its chunks, concatenated.
pub open spec fn chunks_bytes(cs: Seq<Vec<u8>>) -> Seq<u8>
    decreases cs.len(),
{
    if cs.len() == 0 {
        Seq::empty()
    } else {
        chunks_bytes(cs.drop_last()) + cs.last()@
    }
}

/// The text of a part: each chunk that decodes as UTF-8 contributes its
/// text, a chunk that does not is skipped.
pub open spec fn chunks_text(cs: Seq<Vec<u8>>) -> Seq<char>
    decreases cs.len(),
{
    if cs.len() == 0 {
        Seq::empty()
    } else {
        chunks_text(cs.drop_last()) + (match outside::utf8_of(cs.last()@) {
            Some(t) => t,
            None => Seq::empty(),
        })
    }
}

/// The content type a file part is served with: its declared one, or the
/// given default when none was declared.
pub open spec fn part_ctype_or(p: Part, dflt: Seq<char>) -> Seq<char> {
    match p.content_type {
        Some(c) => c@,
        None => dflt,
    }
}

/// The text fields that a part list leaves behind: each non-file part with
/// a non-empty name writes its decoded text, later parts winning.
pub open spec fn fields_model(parts: Seq<Part>) -> Map<Seq<char>, Seq<char>>
    decreases parts.len(),
{
    if parts.len() == 0 {
        Map::empty()
    } else {
        let m = fields_model(parts.drop_last());
        let p = parts.last();
        if !part_is_file(p) && p.name@.len() > 0 {
            m.insert(p.name@, chunks_text(p.chunks@))
        } else {
            m
        }
    }
}

/// The single upload that a part list leaves behind: the last file part
/// that carried any bytes, if one did.
pub open spec fn file_model(parts: Seq<Part>) -> Option<Part>
    decreases parts.len(),
{
    if parts.len() == 0 {
        None
    } else if part_is_file(parts.last()) && chunks_bytes(parts.last().chunks@).len() > 0 {
        Some(parts.last())
    } else {
        file_model(parts.drop_last())
    }
}

/// The uploads that a part list leaves behind, by field name: for each
/// name, the last file part under that name that carried any bytes.
pub open spec fn files_model(parts: Seq<Part>) -> Map<
    Seq<char>,
    (Seq<char>, Option<String>, Seq<u8>),
>
    decreases parts.len(),
{
    if parts.len() == 0 {
        Map::empty()
    } else {
        let m = files_model(parts.drop_last());
        let p = parts.last();
        if part_is_file(p) && chunks_bytes(p.chunks@).len() > 0 {
            m.insert(p.name@, (p.filename@, p.content_type, chunks_bytes(p.chunks@)))
        } else {
            m
        }
    }
}

/// The map that an association list denotes, later entries winning.
pub open spec fn assoc_map(fields: Seq<(String, String)>) -> Map<Seq<char>, Seq<char>>
    decreases fields.len(),
{
    if fields.len() == 0 {
        Map::empty()
    } else {
        assoc_map(fields.drop_last()).insert(fields.last().0@, fields.last().1@)
    }
}

/// The map that a file association list denotes, later entries winning.
pub open spec fn files_assoc_map(files: Seq<(String, FilePayload)>) -> Map<
    Seq<char>,
    (Seq<char>, Option<String>, Seq<u8>),
>
    decreases files.len(),
{
    if files.len() == 0 {
        Map::empty()
    } else {
        files_assoc_map(files.drop_last()).insert(
            files.last().0@,
            (files.last().1.filename@, files.last().1.content_type, files.last().1.data@),
        )
    }
}

/// The accumulated bytes of a part.
pub fn part_data(p: &Part) -> (r: Vec<u8>)
    ensures
        r@ == chunks_bytes(p.chunks@),
{
    let mut out: Vec<u8> = Vec::new();
    let mut i: usize = 0;
    while i < p.chunks.len()
        invariant
            0 <= i <= p.chunks@.len(),
            out@ == chunks_bytes(p.chunks@.take(i as int)),
        decreases p.chunks@.len() - i,
    {
        let mut j: usize = 0;
        while j < p.chunks[i].len()
            invariant
                0 <= j <= p.chunks@[i as int]@.len(),
                0 <= i < p.chunks@.len(),
                out@ == chunks_bytes(p.chunks@.take(i as int)) + p.chunks@[i as int]@.take(
                    j as int,
                ),
            decreases p.chunks@[i as int]@.len() - j,
        {
            out.push(p.chunks[i][j]);
            j = j + 1;
        }
        proof {
            assert(p.chunks@.take(i + 1).drop_last() =~= p.chunks@.take(i as int));
            assert(p.chunks@.take(i + 1).last() == p.chunks@[i as int]);
            assert(p.chunks@[i as int]@.take(p.chunks@[i as int]@.len() as int) =~= p.chunks@[
                i as int
            ]@);
        }
        i = i + 1;
    }
    proof {
        assert(p.chunks@.take(p.chunks@.len() as int) =~= p.chunks@);
    }
    out
}

/// The decoded text of a part.
pub fn part_text(p: &Part) -> (r: String)
    ensures
        r@ == chunks_text(p.chunks@),
{
    let mut out = String::new();
    let mut i: usize = 0;
    while i < p.chunks.len()
        invariant
            0 <= i <= p.chunks@.len(),
            out@ == chunks_text(p.chunks@.take(i as int)),
        decreases p.chunks@.len() - i,
    {
        match outside::utf8_text(&p.chunks[i]) {
            Some(s) => {
                out.append(s.as_str());
            },
            None => {},
        }
        proof {
            assert(p.chunks@.take(i + 1).drop_last() =~= p.chunks@.take(i as int));
            assert(p.chunks@.take(i + 1).last() == p.chunks@[i as int]);
        }
        i = i + 1;
    }
    proof {
        assert(p.chunks@.take(p.chunks@.len() as int) =~= p.chunks@);
    }
    out
}

/// Write a value under a key in an association list; later entries win at
/// lookup, so a plain push realizes an insert.
fn upsert_field(fields: &mut Vec<(String, String)>, key: String, value: String)
    ensures
        assoc_map(final(fields)@) == assoc_map(old(fields)@).insert(key@, value@),
{
    let ghost k = key@;
    let ghost v = value@;
    let ghost pre = fields@;
    fields.push((key, value));
    proof {
        assert(fields@.drop_last() =~= pre);
        assert(fields@.last().0@ == k && fields@.last().1@ == v);
    }
}

/// Read a field back: the value under the key in the list's map, if any.
pub fn get_field<'a>(fields: &'a Vec<(String, String)>, key: &str) -> (r: Option<&'a String>)
    ensures
        match r {
            Some(v) => assoc_map(fields@).contains_key(key@) && assoc_map(fields@)[key@] == v@,
            None => !assoc_map(fields@).contains_key(key@),
        },
{
    proof {
        assert(fields@.take(fields@.len() as int) =~= fields@);
    }
    let mut i: usize = fields.len();
    while i > 0
        invariant
            0 <= i <= fields@.len(),
            assoc_map(fields@).contains_key(key@) ==> assoc_map(fields@.take(i as int)).contains_key(
                key@,
            ) && assoc_map(fields@.take(i as int))[key@] == assoc_map(fields@)[key@],
            !assoc_map(fields@).contains_key(key@) ==> !assoc_map(
                fields@.take(i as int),
            ).contains_key(key@),
        decreases i,
    {
        i = i - 1;
        proof {
            assert(fields@.take(i + 1).drop_last() =~= fields@.take(i as int));
            assert(fields@.take(i + 1).last() == fields@[i as int]);
        }
        if crate::order::str_eq(fields[i].0.as_str(), key) {
            proof {
                assert(assoc_map(fields@.take(i + 1))[key@] == fields@[i as int].1@);
            }
            return Some(&fields[i].1);
        }
    }
    proof {
        assert(fields@.take(0) =~= Seq::<(String, String)>::empty());
    }
    None
}

/// Read a field back as an owned value, or empty when it was not sent, as
/// the fallback paths of the upload handlers do.
pub fn field_or_empty(fields: &Vec<(String, String)>, key: &str) -> (r: String)
    ensures
        r@ == fval(assoc_map(fields@), key@),
{
    match get_field(fields, key) {
        Some(v) => v.clone(),
        None => String::new(),
    }
}

/// Read a field back as an optional owned value, as the checkbox-style
/// fields are taken.
pub fn field_opt(fields: &Vec<(String, String)>, key: &str) -> (r: Option<String>)
    ensures
        r is Some <==> assoc_map(fields@).contains_key(key@),
        r is Some ==> r->Some_0@ == assoc_map(fields@)[key@],
{
    match get_field(fields, key) {
        Some(v) => Some(v.clone()),
        None => None,
    }
}

/// Walk a multipart body: text fields accumulate into an association list,
/// and the last file part that carried bytes becomes the single upload,
/// with "application/octet-stream" standing in for a missing content type.
pub fn extract_multipart_data(parts: &Vec<Part>) -> (r: (
    Vec<(String, String)>,
    Option<(String, String, Vec<u8>)>,
))
    ensures
        assoc_map(r.0@) == fields_model(parts@),
        match file_model(parts@) {
            Some(p) => r.1 matches Some(f) && f.0@ == p.filename@ && f.1@ == part_ctype_or(
                p,
                "application/octet-stream"@,
            ) && f.2@ == chunks_bytes(p.chunks@),
            None => r.1 is None,
        },
{
    let mut fields: Vec<(String, String)> = Vec::new();
    let mut image: Option<(String, String, Vec<u8>)> = None;
    let mut i: usize = 0;
    while i < parts.len()
        invariant
            0 <= i <= parts@.len(),
            assoc_map(fields@) == fields_model(parts@.take(i as int)),
            match file_model(parts@.take(i as int)) {
                Some(p) => image matches Some(f) && f.0@ == p.filename@ && f.1@ == part_ctype_or(
                    p,
                    "application/octet-stream"@,
                ) && f.2@ == chunks_bytes(p.chunks@),
                None => image is None,
            },
        decreases parts@.len() - i,
    {
        proof {
            assert(parts@.take(i + 1).drop_last() =~= parts@.take(i as int));
            assert(parts@.take(i + 1).last() == parts@[i as int]);
        }
        let p = &parts[i];
        if p.filename.unicode_len() > 0 {
            let data = part_data(p);
            if data.len() > 0 {
                let ctype = match &p.content_type {
                    Some(c) => c.clone(),
                    None => String::from_str("application/octet-stream"),
                };
                image = Some((p.filename.clone(), ctype, data));
            }
        } else {
            let value = part_text(p);
            if p.name.unicode_len() > 0 {
                upsert_field(&mut fields, p.name.clone(), value);
            }
        }
        i = i + 1;
    }
    proof {
        assert(parts@.take(parts@.len() as int) =~= parts@);
    }
    (fields, image)
}

/// Walk a multipart body keeping every named upload: text fields accumulate
/// as above, and each file part that carried bytes is stored under its
/// field name, later parts winning.
pub fn extract_multipart_with_files(parts: &Vec<Part>) -> (r: (
    Vec<(String, String)>,
    Vec<(String, FilePayload)>,
))
    ensures
        assoc_map(r.0@) == fields_model(parts@),
        files_assoc_map(r.1@) == files_model(parts@),
{
    let mut fields: Vec<(String, String)> = Vec::new();
    let mut files: Vec<(String, FilePayload)> = Vec::new();
    let mut i: usize = 0;
    while i < parts.len()
        invariant
            0 <= i <= parts@.len(),
            assoc_map(fields@) == fields_model(parts@.take(i as int)),
            files_assoc_map(files@) == files_model(parts@.take(i as int)),
        decreases parts@.len() - i,
    {
        proof {
            assert(parts@.take(i + 1).drop_last() =~= parts@.take(i as int));
            assert(parts@.take(i + 1).last() == parts@[i as int]);
        }
        let p = &parts[i];
        if p.filename.unicode_len() > 0 {
            let data = part_data(p);
            if data.len() > 0 {
                let ctype = match &p.content_type {
                    Some(c) => Some(c.clone()),
                    None => None,
                };
                let payload = FilePayload {
                    filename: p.filename.clone(),
                    content_type: ctype,
                    data,
                };
                let ghost pre = files@;
                files.push((p.name.clone(), payload));
                proof {
                    assert(files@.drop_last() =~= pre);
                    assert(files@.last() == files@[files@.len() - 1]);
                }
            }
        } else {
            let value = part_text(p);
            if p.name.unicode_len() > 0 {
                upsert_field(&mut fields, p.name.clone(), value);
            }
        }
        i = i + 1;
    }
    proof {
        assert(parts@.take(parts@.len() as int) =~= parts@);
    }
    (fields, files)
}

/// Look an upload up by its field name.
pub fn get_file<'a>(files: &'a Vec<(String, FilePayload)>, key: &str) -> (r: Option<
    &'a FilePayload,
>)
    ensures
        match r {
            Some(f) => files_assoc_map(files@).contains_key(key@) && files_assoc_map(files@)[key@]
                == (f.filename@, f.content_type, f.data@),
            None => !files_assoc_map(files@).contains_key(key@),
        },
{
    proof {
        assert(files@.take(files@.len() as int) =~= files@);
    }
    let mut i: usize = files.len();
    while i > 0
        invariant
            0 <= i <= files@.len(),
            files_assoc_map(files@).contains_key(key@) ==> files_assoc_map(
                files@.take(i as int),
            ).contains_key(key@) && files_assoc_map(files@.take(i as int))[key@]
                == files_assoc_map(files@)[key@],
            !files_assoc_map(files@).contains_key(key@) ==> !files_assoc_map(
                files@.take(i as int),
            ).contains_key(key@),
        decreases i,
    {
        i = i - 1;
        proof {
            assert(files@.take(i + 1).drop_last() =~= files@.take(i as int));
            assert(files@.take(i + 1).last() == files@[i as int]);
        }
        if crate::order::str_eq(files[i].0.as_str(), key) {
            proof {
                assert(files_assoc_map(files@.take(i + 1))[key@] == (
                    files@[i as int].1.filename@,
                    files@[i as int].1.content_type,
                    files@[i as int].1.data@,
                ));
            }
            return Some(&files[i].1);
        }
    }
    proof {
        assert(files@.take(0) =~= Seq::<(String, FilePayload)>::empty());
    }
    None
}

} // verus!
