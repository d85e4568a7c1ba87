//! Candidate materialization: turning the remote enumerator's tabular
//! output into fresh, sentinel-tagged shortcut records.

use vstd::prelude::*;
use vstd::string::StrSliceExecFns;
use vstd::string::StringExecFns;

use crate::store::{sentinel, Record, RecordView};
use crate::text::{seq_contains, seq_starts_with, str_contains_sub, str_starts_with_prefix};

verus! {

/// The exact number of columns every candidate row must carry.
pub const EXPECTED_COLUMNS: usize = 7;

/// The candidate stream has the wrong shape.  A hard stop, never a skip:
/// a structurally malformed enumeration means the upstream enumerator's
/// output contract changed.
#[derive(Debug, PartialEq, Eq, Structural)]
pub enum MalformedCandidateError {
    /// The tabular stream itself could not be read as rows.
    Unreadable,
    /// The row at this index did not have exactly the expected column count.
    Arity { row: usize, columns: usize },
    /// The icon reference of the row at this index carried neither the
    /// no-image marker nor the local-file prefix.
    Icon { row: usize },
}

/// The token marking a candidate as having no icon available.
pub open spec fn no_image_marker() -> Seq<char> {
    "no_app_image"@
}

/// The local-file scheme prefix stripped from icon references.
pub open spec fn local_file_prefix() -> Seq<char> {
    "file://"@
}

/// Icon reference normalization: a reference holding the no-image marker
/// yields an empty icon path; otherwise the local-file prefix is stripped
/// verbatim; a reference with neither is malformed.
pub open spec fn icon_norm(raw: Seq<char>) -> Option<Seq<char>> {
    if seq_contains(raw, no_image_marker()) {
        Some(Seq::empty())
    } else if seq_starts_with(raw, local_file_prefix()) {
        Some(raw.skip(local_file_prefix().len() as int))
    } else {
        None
    }
}

/// The synthesized launch-argument string: the action verb, the address,
/// and the quoted title.  This exact textual form is part of the
/// compatibility contract with the launching executable.
pub open spec fn launch_options_view(host: Seq<char>, title: Seq<char>) -> Seq<char> {
    "stream "@ + host + " \""@ + title + "\""@
}

/// Executable icon normalization; exactly `icon_norm`.
pub fn normalize_icon(raw: &str) -> (r: Option<String>)
    ensures
        match r {
            Some(s) => icon_norm(raw@) == Some(s@),
            None => icon_norm(raw@) is None,
        },
{
    if str_contains_sub(raw, "no_app_image") {
        Some(String::new())
    } else {
        let p = "file://";
        if str_starts_with_prefix(raw, p) {
            let plen = p.unicode_len();
            let rlen = raw.unicode_len();
            let rest = raw.substring_char(plen, rlen);
            proof {
                assert(rest@ =~= raw@.skip(local_file_prefix().len() as int));
            }
            Some(rest.to_owned())
        } else {
            None
        }
    }
}

/// Executable launch-argument synthesis; exactly `launch_options_view`.
pub fn launch_options_for(host: &str, title: &str) -> (r: String)
    ensures
        r@ == launch_options_view(host@, title@),
{
    let mut s = String::from_str("stream ");
    s.append(host);
    s.append(" \"");
    s.append(title);
    s.append("\"");
    s
}

/// The rows that the tabular reader yields for a byte stream, or nothing
/// where it rejects the stream.
pub uninterp spec fn csv_rows(bytes: Seq<u8>) -> Option<Seq<Seq<Seq<char>>>>;

/// Relies on csv::Reader: reading comma-separated rows out of an in-memory
/// byte slice is a deterministic function of the bytes alone.  The first
/// row is consumed as the header and not returned.
#[verifier::external_body]
fn read_csv_rows(bytes: &[u8]) -> (r: Option<Vec<Vec<String>>>)
    ensures
        match r {
            Some(rows) => csv_rows(bytes@) == Some(rows.deep_view()),
            None => csv_rows(bytes@) is None,
        },
{
    let mut rows: Vec<Vec<String>> = Vec::new();
    for record in csv::Reader::from_reader(bytes).records() {
        match record {
            Ok(rec) => rows.push(rec.iter().map(|f| f.to_string()).collect()),
            Err(_) => return None,
        }
    }
    Some(rows)
}

/// The checksum-derived identifier the store format assigns a fresh record.
pub uninterp spec fn derived_app_id(exe: Seq<char>, title: Seq<char>) -> u32;

/// Relies on steam_shortcuts_util::app_id_generator::calculate_app_id: a
/// checksum of the executable path and the title alone.
#[verifier::external_body]
fn shortcut_app_id(exe: &str, title: &str) -> (r: u32)
    ensures
        r == derived_app_id(exe@, title@),
{
    steam_shortcuts_util::app_id_generator::calculate_app_id(exe, title)
}

/// A row carries exactly the expected number of columns.
pub open spec fn row_arity_ok(row: Seq<Seq<char>>) -> bool {
    row.len() == EXPECTED_COLUMNS
}

/// A row's icon reference can be normalized.
pub open spec fn row_icon_ok(row: Seq<Seq<char>>) -> bool {
    icon_norm(row[6]) is Some
}

/// A row materializes without failure.
pub open spec fn row_ok(row: Seq<Seq<char>>) -> bool {
    row_arity_ok(row) && row_icon_ok(row)
}

/// Every row of the candidate source materializes without failure.
pub open spec fn all_rows_ok(rows: Seq<Seq<Seq<char>>>) -> bool {
    forall|i: int| 0 <= i < rows.len() ==> row_ok(#[trigger] rows[i])
}

/// The error a bad row produces: the wrong arity dominates, then the icon.
pub open spec fn row_error(rows: Seq<Seq<Seq<char>>>, i: int) -> MalformedCandidateError {
    if !row_arity_ok(rows[i]) {
        MalformedCandidateError::Arity { row: i as usize, columns: rows[i].len() as usize }
    } else {
        MalformedCandidateError::Icon { row: i as usize }
    }
}

/// The record materialized from one well-formed row: title, shared
/// executable path, synthesized launch options, normalized icon, exactly
/// the sentinel tag, and every other field empty or default.
pub open spec fn candidate_view(row: Seq<Seq<char>>, exe: Seq<char>, host: Seq<char>) -> RecordView {
    RecordView {
        app_id: derived_app_id(exe, row[0]),
        app_name: row[0],
        exe_path: exe,
        start_dir: Seq::empty(),
        icon_path: icon_norm(row[6]).unwrap(),
        shortcut_path: Seq::empty(),
        launch_options: launch_options_view(host, row[0]),
        is_hidden: false,
        allow_desktop_config: true,
        allow_overlay: true,
        open_vr: 0,
        devkit: 0,
        devkit_game_id: Seq::empty(),
        devkit_override_app_id: 0,
        last_play_time: 0,
        tags: seq![sentinel()],
    }
}

/// The records materialized from a well-formed candidate source, in order.
pub open spec fn candidate_views(rows: Seq<Seq<Seq<char>>>, exe: Seq<char>, host: Seq<char>) -> Seq<
    RecordView,
> {
    Seq::new(rows.len(), |i: int| candidate_view(rows[i], exe, host))
}

/// Candidate materialization.  Either the whole candidate set materializes,
/// in order, or the first offending row's error is returned and no records
/// are produced — all or nothing.
pub fn materialize(rows: &Vec<Vec<String>>, exe: &str, host: &str) -> (r: Result<
    Vec<Record>,
    MalformedCandidateError,
>)
    ensures
        r is Ok <==> all_rows_ok(rows.deep_view()),
        r matches Ok(recs) ==> recs.deep_view() == candidate_views(
            rows.deep_view(),
            exe@,
            host@,
        ),
        r matches Err(e) ==> exists|i: int|
            {
                &&& 0 <= i < rows.deep_view().len()
                &&& !row_ok(#[trigger] rows.deep_view()[i])
                &&& forall|j: int| 0 <= j < i ==> row_ok(#[trigger] rows.deep_view()[j])
                &&& e == row_error(rows.deep_view(), i)
            },
{
    let ghost rowsv = rows.deep_view();
    let mut recs: Vec<Record> = Vec::new();
    let mut i: usize = 0;
    while i < rows.len()
        invariant
            rowsv == rows.deep_view(),
            i <= rows.len(),
            rows@.len() == rowsv.len(),
            recs@.len() == i,
            forall|j: int| 0 <= j < i ==> row_ok(#[trigger] rowsv[j]),
            forall|j: int|
                0 <= j < i ==> recs.deep_view()[j] == candidate_view(
                    #[trigger] rowsv[j],
                    exe@,
                    host@,
                ),
        decreases rows.len() - i,
    {
        let row = &rows[i];
        if row.len() != EXPECTED_COLUMNS {
            proof {
                assert(!row_ok(rowsv[i as int]));
                assert(row_error(rowsv, i as int) == (MalformedCandidateError::Arity {
                    row: i,
                    columns: row@.len() as usize,
                }));
            }
            return Err(MalformedCandidateError::Arity { row: i, columns: row.len() });
        }
        let icon = match normalize_icon(row[6].as_str()) {
            Some(s) => s,
            None => {
                proof {
                    assert(!row_ok(rowsv[i as int]));
                    assert(row_arity_ok(rowsv[i as int]));
                }
                return Err(MalformedCandidateError::Icon { row: i });
            },
        };
        let title = row[0].clone();
        let launch = launch_options_for(host, title.as_str());
        let app_id = shortcut_app_id(exe, title.as_str());
        let mut tags: Vec<String> = Vec::new();
        tags.push("moonlight".to_owned());
        let rec = Record {
            app_id,
            app_name: title,
            exe_path: exe.to_owned(),
            start_dir: String::new(),
            icon_path: icon,
            shortcut_path: String::new(),
            launch_options: launch,
            is_hidden: false,
            allow_desktop_config: true,
            allow_overlay: true,
            open_vr: 0,
            devkit: 0,
            devkit_game_id: String::new(),
            devkit_override_app_id: 0,
            last_play_time: 0,
            tags,
        };
        proof {
            assert(rec@.tags =~= seq![sentinel()]);
            assert(rec@ =~= candidate_view(rowsv[i as int], exe@, host@));
        }
        recs.push(rec);
        i += 1;
    }
    proof {
        assert(recs.deep_view() =~= candidate_views(rowsv, exe@, host@));
    }
    Ok(recs)
}

/// Candidate materialization from the enumerator's raw tabular output:
/// read the rows out of the bytes, then materialize them.
pub fn candidates_from_output(bytes: &[u8], exe: &str, host: &str) -> (r: Result<
    Vec<Record>,
    MalformedCandidateError,
>)
    ensures
        match r {
            Ok(recs) => csv_rows(bytes@) matches Some(rows) && all_rows_ok(rows)
                && recs.deep_view() == candidate_views(rows, exe@, host@),
            Err(MalformedCandidateError::Unreadable) => csv_rows(bytes@) is None,
            Err(e) => csv_rows(bytes@) matches Some(rows) && exists|i: int|
                {
                    &&& 0 <= i < rows.len()
                    &&& !row_ok(#[trigger] rows[i])
                    &&& forall|j: int| 0 <= j < i ==> row_ok(#[trigger] rows[j])
                    &&& e == row_error(rows, i)
                },
        },
{
    match read_csv_rows(bytes) {
        Some(rows) => {
            let r = materialize(&rows, exe, host);
            proof {
                assert(csv_rows(bytes@) matches Some(v) && v == rows.deep_view());
            }
            r
        },
        None => Err(MalformedCandidateError::Unreadable),
    }
}

} // verus!
