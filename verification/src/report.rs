//! Reading what the tools print: the tag dump, the loudness report, and the
//! downloader's description of a link.

use vstd::prelude::*;
use crate::error::{ErrorKind, JobError};
use crate::json::{
    insert_string, json_escape, json_escaped, json_members, json_reading, json_string_text,
    new_document, parse_document, Document,
};
use crate::pattern::{find_captures, regex_captures};
use crate::textmap::{lemma_map_of_push, map_of};
use crate::text::{decode_text, lemma_filter_keeps, lemma_without_char, utf8_refusal, without};
use vstd::utf8::{decode_utf8, valid_utf8};

verus! {

/// A run of characters that are no white space, `=`, and another such run.
pub const METADATA_PATTERN: &'static str = "(\\S+)=(\\S+)";

/// `mean_volume:`, one white space, a run of characters that are no white space,
/// and one white space.
pub const VOLUME_PATTERN: &'static str = "mean_volume:\\s(\\S+)\\s";

/// The keys and values among the matches of a pattern with two groups: groups 1
/// and 2 of each match in which both took part.
pub open spec fn pairs_of(rows: Seq<Seq<Option<Seq<char>>>>) -> Seq<(Seq<char>, Seq<char>)>
    decreases rows.len(),
{
    if rows.len() == 0 {
        Seq::empty()
    } else {
        let rest = pairs_of(rows.drop_last());
        let row = rows.last();
        if row.len() >= 3 && row[1] is Some && row[2] is Some {
            rest.push((row[1].unwrap(), row[2].unwrap()))
        } else {
            rest
        }
    }
}

/// Group 1 of the first match, if there is a match and the group took part in it.
pub open spec fn first_group_of(rows: Seq<Seq<Option<Seq<char>>>>) -> Option<Seq<char>> {
    if rows.len() > 0 && rows[0].len() >= 2 {
        rows[0][1]
    } else {
        None
    }
}

/// The pairs with each value written as a JSON string.
pub open spec fn as_json_strings(pairs: Seq<(Seq<char>, Seq<char>)>) -> Seq<
    (Seq<char>, Seq<char>),
> {
    pairs.map_values(|p: (Seq<char>, Seq<char>)| (p.0, json_string_text(p.1)))
}

/// The keys and values among the matches of a pattern with two groups.
pub fn collect_pairs(rows: &Vec<Vec<Option<String>>>) -> (pairs: Vec<(String, String)>)
    ensures
        pairs.deep_view() == pairs_of(rows.deep_view()),
{
    let ghost all = rows.deep_view();
    let mut pairs: Vec<(String, String)> = Vec::new();
    let mut i: usize = 0;
    assert(pairs.deep_view() =~= pairs_of(all.take(0)));
    while i < rows.len()
        invariant
            i <= rows.len(),
            all == rows.deep_view(),
            pairs.deep_view() == pairs_of(all.take(i as int)),
        decreases rows.len() - i,
    {
        let row = &rows[i];
        proof {
            assert(all.take(i + 1).drop_last() == all.take(i as int));
            assert(all.take(i + 1).last() == row.deep_view());
            assert(row.deep_view().len() == row.len());
            if row.len() >= 3 {
                assert(row.deep_view()[1] == row@[1].deep_view());
                assert(row.deep_view()[2] == row@[2].deep_view());
            }
        }
        if row.len() >= 3 {
            match (&row[1], &row[2]) {
                (Some(key), Some(value)) => {
                    let ghost before = pairs.deep_view();
                    pairs.push((key.clone(), value.clone()));
                    assert(pairs.deep_view() =~= before.push((key@, value@)));
                },
                _ => {},
            }
        }
        i += 1;
    }
    assert(all.take(rows.len() as int) == all);
    pairs
}

/// Group 1 of the first match.
pub fn first_group(rows: &Vec<Vec<Option<String>>>) -> (group: Option<String>)
    ensures
        group.deep_view() == first_group_of(rows.deep_view()),
{
    if rows.len() > 0 && rows[0].len() >= 2 {
        let ghost all = rows.deep_view();
        assert(all[0] == rows@[0].deep_view());
        assert(all[0][1] == rows@[0]@[1].deep_view());
        match &rows[0][1] {
            Some(text) => Some(text.clone()),
            None => None,
        }
    } else {
        None
    }
}

/// The tags of a dump, from the pairs found in it: each key with its value as a
/// JSON string, a later pair overriding an earlier one with the same key.
pub fn tags_from_pairs(pairs: &Vec<(String, String)>) -> (tags: Document)
    ensures
        json_members(tags) == map_of(as_json_strings(pairs.deep_view())),
{
    let ghost all = as_json_strings(pairs.deep_view());
    let mut tags = new_document();
    let mut i: usize = 0;
    assert(json_members(tags) =~= map_of(all.take(0)));
    while i < pairs.len()
        invariant
            i <= pairs.len(),
            all == as_json_strings(pairs.deep_view()),
            json_members(tags) == map_of(all.take(i as int)),
        decreases pairs.len() - i,
    {
        proof {
            let key = pairs@[i as int].0@;
            let value = json_string_text(pairs@[i as int].1@);
            assert(pairs.deep_view()[i as int] == (pairs@[i as int].0@, pairs@[i as int].1@));
            assert(all.take(i + 1) == all.take(i as int).push((key, value)));
            lemma_map_of_push(all.take(i as int), key, value);
        }
        insert_string(&mut tags, pairs[i].0.as_str(), pairs[i].1.as_str());
        i += 1;
    }
    assert(all.take(pairs.len() as int) == all);
    tags
}

/// What a tag dump holds, given what the metadata pattern finds in it.
pub open spec fn metadata_in(found: Option<Seq<Seq<Option<Seq<char>>>>>) -> Option<
    Map<Seq<char>, Seq<char>>,
> {
    match found {
        Some(rows) => Some(map_of(as_json_strings(pairs_of(rows)))),
        None => None,
    }
}

/// Reads a tag dump, one `key=value` a line: every match of the metadata pattern
/// gives one tag. A dump without a match gives no tag and is no failure.
pub fn read_metadata(dump: &str) -> (r: Result<Document, JobError>)
    ensures
        match metadata_in(regex_captures(METADATA_PATTERN@, dump@)) {
            Some(tags) => r is Ok && json_members(r->Ok_0) == tags,
            None => r is Err && r->Err_0.kind == ErrorKind::MetadataParse && r->Err_0.message@
                == "metadata pattern refused"@,
        },
{
    match find_captures(METADATA_PATTERN, dump) {
        Some(rows) => {
            let pairs = collect_pairs(&rows);
            Ok(tags_from_pairs(&pairs))
        },
        None => Err(JobError::new(ErrorKind::MetadataParse, "metadata pattern refused")),
    }
}

/// The mean volume that a loudness report names, given what the volume pattern
/// finds in it.
pub open spec fn mean_volume_in(found: Option<Seq<Seq<Option<Seq<char>>>>>) -> Option<
    Seq<char>,
> {
    match found {
        Some(rows) => first_group_of(rows),
        None => None,
    }
}

/// Reads the mean volume, in decibels and as text, from a loudness report: the
/// first place where the volume pattern matches. A report without one fails.
pub fn read_mean_volume(report: &str) -> (r: Result<String, JobError>)
    ensures
        match mean_volume_in(regex_captures(VOLUME_PATTERN@, report@)) {
            Some(volume) => r is Ok && r->Ok_0@ == volume,
            None => r is Err && r->Err_0.kind == ErrorKind::VolumeDetection && r->Err_0.message@
                == "couldn't get volume"@,
        },
{
    let found = match find_captures(VOLUME_PATTERN, report) {
        Some(rows) => first_group(&rows),
        None => None,
    };
    match found {
        Some(volume) => Ok(volume),
        None => Err(JobError::new(ErrorKind::VolumeDetection, "couldn't get volume")),
    }
}

/// What the downloader's description of a link holds: the members of its
/// top-level object, each with the JSON text of its value; no member where the
/// description is no object; or the message of the JSON reader for bytes that are
/// no JSON.
pub open spec fn description_reading(info: Seq<u8>) -> Result<Map<Seq<char>, Seq<char>>, Seq<char>> {
    match json_reading(info) {
        Ok(Some(members)) => Ok(members),
        Ok(None) => Ok(Map::empty()),
        Err(message) => Err(message),
    }
}

/// Reads the downloader's description of a link, a JSON document. A description
/// that is no object counts as one without members. Bytes that are no JSON fail,
/// with the message of the JSON reader.
pub fn read_description(info: &[u8]) -> (r: Result<Document, JobError>)
    ensures
        match description_reading(info@) {
            Ok(members) => r is Ok && json_members(r->Ok_0) == members,
            Err(message) => r is Err && r->Err_0.kind == ErrorKind::MetadataParse
                && r->Err_0.message@ == message,
        },
{
    match parse_document(info) {
        Ok(Some(members)) => Ok(members),
        Ok(None) => Ok(new_document()),
        Err(message) => Err(JobError { kind: ErrorKind::MetadataParse, message }),
    }
}

/// What the output of the tag dump holds: its tags, or the message of the
/// failure to read it. Output that is no UTF-8 fails.
pub open spec fn metadata_reading(output: Seq<u8>) -> Result<Map<Seq<char>, Seq<char>>, Seq<char>> {
    if !valid_utf8(output) {
        Err(utf8_refusal(output))
    } else {
        match metadata_in(regex_captures(METADATA_PATTERN@, decode_utf8(output))) {
            Some(tags) => Ok(tags),
            None => Err("metadata pattern refused"@),
        }
    }
}

/// What the output of the loudness measurement holds: the mean volume, or the
/// message of the failure to read it. Output that is no UTF-8 fails.
pub open spec fn volume_reading(output: Seq<u8>) -> Result<Seq<char>, Seq<char>> {
    if !valid_utf8(output) {
        Err(utf8_refusal(output))
    } else {
        match mean_volume_in(regex_captures(VOLUME_PATTERN@, decode_utf8(output))) {
            Some(volume) => Ok(volume),
            None => Err("couldn't get volume"@),
        }
    }
}

/// Reads the tags from what the tag dump wrote to its standard output.
pub fn metadata_of_output(output: &[u8]) -> (r: Result<Document, JobError>)
    ensures
        match metadata_reading(output@) {
            Ok(tags) => r is Ok && json_members(r->Ok_0) == tags,
            Err(message) => r is Err && r->Err_0.kind == ErrorKind::MetadataParse
                && r->Err_0.message@ == message,
        },
{
    match decode_text(output) {
        Ok(dump) => read_metadata(dump.as_str()),
        Err(message) => Err(JobError { kind: ErrorKind::MetadataParse, message }),
    }
}

/// Reads the mean volume from what the loudness measurement wrote to its
/// standard error.
pub fn mean_volume_of_output(output: &[u8]) -> (r: Result<String, JobError>)
    ensures
        match volume_reading(output@) {
            Ok(volume) => r is Ok && r->Ok_0@ == volume,
            Err(message) => r is Err && r->Err_0.kind == ErrorKind::VolumeDetection
                && r->Err_0.message@ == message,
        },
{
    match decode_text(output) {
        Ok(report) => read_mean_volume(report.as_str()),
        Err(message) => Err(JobError { kind: ErrorKind::VolumeDetection, message }),
    }
}

/// The text of a field of a document: the JSON text of its value without any
/// `"`. A field that the document does not have, and one whose value is `null`,
/// has no text.
pub open spec fn field_text(document: Map<Seq<char>, Seq<char>>, field: Seq<char>) -> Seq<char> {
    if document.contains_key(field) && document[field] != "null"@ {
        without(document[field], seq!['"'])
    } else {
        Seq::empty()
    }
}

/// A character that a JSON string holds as it is: none of `"` and `\`, and none
/// below the space.
pub open spec fn is_plain(c: char) -> bool {
    c != '"' && c != '\\' && (c as u32) >= 0x20
}

/// A text of plain characters stands inside a JSON string as it is.
pub proof fn lemma_plain_text_is_not_escaped(text: Seq<char>)
    requires
        forall|i: int| 0 <= i < text.len() ==> is_plain(#[trigger] text[i]),
    ensures
        json_escaped(text) == text,
    decreases text.len(),
{
    if text.len() > 0 {
        lemma_plain_text_is_not_escaped(text.drop_last());
        assert(json_escape(text.last()) == seq![text.last()]);
        assert(text.drop_last() + seq![text.last()] == text);
    }
}

/// A tag whose value is a text of plain characters is read back as that text:
/// the line `title=Test` of a dump gives the field `title` the text `Test`.
pub proof fn lemma_plain_tag_reads_back(
    document: Map<Seq<char>, Seq<char>>,
    field: Seq<char>,
    value: Seq<char>,
)
    requires
        document.contains_key(field),
        document[field] == json_string_text(value),
        forall|i: int| 0 <= i < value.len() ==> is_plain(#[trigger] value[i]),
    ensures
        field_text(document, field) == value,
{
    reveal_strlit("null");
    let quote = seq!['"'];
    let text = json_string_text(value);
    let keep = |c: char| c != '"';
    lemma_plain_text_is_not_escaped(value);
    assert(text == quote + value + quote);
    assert(text[0] == '"');
    assert("null"@[0] == 'n');
    assert(text != "null"@);
    lemma_without_char(text, '"', keep);
    Seq::filter_distributes_over_add(quote + value, quote, keep);
    Seq::filter_distributes_over_add(quote, value, keep);
    lemma_filter_keeps(value, keep);
    reveal_with_fuel(Seq::filter, 2);
    assert(quote.drop_last() == Seq::<char>::empty());
    assert(quote.filter(keep) == Seq::<char>::empty());
    assert(Seq::<char>::empty() + value + Seq::<char>::empty() == value);
}

} // verus!
