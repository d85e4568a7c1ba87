//! Loader and writer for the on-disk binary store format.
//!
//! The byte grammar itself is an external, already-solved serialization
//! contract: decoding and encoding are delegated to the codec collaborator
//! (the `steam_shortcuts_util` crate) behind trusted wrappers.  The
//! wrappers' contracts name the two byte-level functions and state the
//! round-trip guarantee that the collaborator's source exhibits.

use vstd::prelude::*;

use crate::store::{Record, RecordView, Store};
use steam_shortcuts_util::shortcut::Shortcut;

verus! {

/// Decode-time failure: the persisted bytes do not conform to the expected
/// binary grammar.
#[derive(Debug)]
pub struct FormatError {
    pub message: String,
}

/// The records that the codec collaborator's parser yields for a byte
/// stream, or nothing where it rejects the stream.
pub uninterp spec fn parsed_records(bytes: Seq<u8>) -> Option<Seq<RecordView>>;

/// The byte stream that the codec collaborator's writer produces for a
/// record sequence.
pub uninterp spec fn encoded_bytes(records: Seq<RecordView>) -> Seq<u8>;

/// No character of the sequence is the NUL terminator of the wire format.
pub open spec fn nul_free(s: Seq<char>) -> bool {
    forall|i: int| 0 <= i < s.len() ==> s[i] != '\u{0}'
}

/// A tag may hold neither the NUL terminator nor the backspace that closes
/// the wire format's tag list.
pub open spec fn tag_clean(t: Seq<char>) -> bool {
    forall|i: int| 0 <= i < t.len() ==> t[i] != '\u{0}' && t[i] != '\u{8}'
}

/// The parser reads a four-byte value whose first byte is one through a
/// three-byte fallback that zeroes the low byte, so only values whose low
/// byte differs from one survive a write-then-parse unchanged.
pub open spec fn numeric_clean(v: u32) -> bool {
    v % 256 != 1
}

/// A record that the wire format represents faithfully: writing it and
/// parsing the bytes back recovers every field (except a set hidden flag,
/// which the format cannot carry through a round trip).
pub open spec fn wire_clean(r: RecordView) -> bool {
    &&& nul_free(r.app_name)
    &&& nul_free(r.exe_path)
    &&& nul_free(r.start_dir)
    &&& nul_free(r.icon_path)
    &&& nul_free(r.shortcut_path)
    &&& nul_free(r.launch_options)
    &&& nul_free(r.devkit_game_id)
    &&& forall|i: int| 0 <= i < r.tags.len() ==> tag_clean(#[trigger] r.tags[i])
    &&& numeric_clean(r.app_id)
    &&& numeric_clean(r.open_vr)
    &&& numeric_clean(r.devkit)
    &&& numeric_clean(r.devkit_override_app_id)
    &&& numeric_clean(r.last_play_time)
}

/// Every record of the sequence is wire-clean.
pub open spec fn all_wire_clean(s: Seq<RecordView>) -> bool {
    forall|i: int| 0 <= i < s.len() ==> wire_clean(#[trigger] s[i])
}

/// Relies on steam_shortcuts_util::parse_shortcuts: a deterministic
/// function of the bytes alone.  Its parser splits text fields and tags at
/// NUL bytes, closes each tag list at a backspace, and reads numeric values
/// so that the low byte of the result is never one; every record it yields
/// is therefore wire-clean.
#[verifier::external_body]
fn parse_store_bytes(bytes: &[u8]) -> (r: Result<Vec<Record>, FormatError>)
    ensures
        match r {
            Ok(records) => parsed_records(bytes@) == Some(records.deep_view()),
            Err(_) => parsed_records(bytes@) is None,
        },
        r matches Ok(records) ==> all_wire_clean(records.deep_view()),
{
    match steam_shortcuts_util::parse_shortcuts(bytes) {
        Ok(list) => Ok(list.iter().map(|s| Record {
            app_id: s.app_id, app_name: s.app_name.to_owned(), exe_path: s.exe.to_owned(),
            start_dir: s.start_dir.to_owned(), icon_path: s.icon.to_owned(),
            shortcut_path: s.shortcut_path.to_owned(), launch_options: s.launch_options.to_owned(),
            is_hidden: s.is_hidden, allow_desktop_config: s.allow_desktop_config,
            allow_overlay: s.allow_overlay, open_vr: s.open_vr, devkit: s.dev_kit,
            devkit_game_id: s.dev_kit_game_id.to_owned(),
            devkit_override_app_id: s.dev_kit_overrite_app_id, last_play_time: s.last_play_time,
            tags: s.tags.iter().map(|t| t.to_string()).collect(),
        }).collect()),
        Err(message) => Err(FormatError { message }),
    }
}

/// Relies on steam_shortcuts_util::shortcuts_to_bytes: a deterministic
/// function of the records alone (the order strings it writes are the
/// records' indices).  Writing wire-clean records with a clear hidden flag
/// and parsing the bytes back with parse_shortcuts recovers the records:
/// text fields and tags are written verbatim between the NUL terminators
/// the parser splits at, and numeric values whose low byte differs from one
/// are read back by the four-byte path unchanged.  A set hidden flag is
/// written as a value with low byte one, which the parser folds to zero.
#[verifier::external_body]
fn store_to_bytes(records: &Vec<Record>) -> (r: Vec<u8>)
    ensures
        r@ == encoded_bytes(records.deep_view()),
        (all_wire_clean(records.deep_view()) && (forall|i: int|
            0 <= i < records.deep_view().len() ==> !(#[trigger] records.deep_view()[i]).is_hidden))
            ==> parsed_records(r@) == Some(records.deep_view()),
{
    let out: Vec<Shortcut> = records.iter().map(|r| Shortcut {
        order: "", app_id: r.app_id, app_name: &r.app_name, exe: &r.exe_path,
        start_dir: &r.start_dir, icon: &r.icon_path, shortcut_path: &r.shortcut_path,
        launch_options: &r.launch_options, is_hidden: r.is_hidden,
        allow_desktop_config: r.allow_desktop_config, allow_overlay: r.allow_overlay,
        open_vr: r.open_vr, dev_kit: r.devkit, dev_kit_game_id: &r.devkit_game_id,
        dev_kit_overrite_app_id: r.devkit_override_app_id, last_play_time: r.last_play_time,
        tags: r.tags.iter().map(|t| t.as_str()).collect(),
    }).collect();
    steam_shortcuts_util::shortcuts_to_bytes(&out)
}

/// Decode the persisted bytes into a store, or fail with a `FormatError`
/// exactly when the codec collaborator rejects the byte stream.
pub fn decode(bytes: &[u8]) -> (r: Result<Store, FormatError>)
    ensures
        match r {
            Ok(s) => parsed_records(bytes@) == Some(s@) && all_wire_clean(s@),
            Err(_) => parsed_records(bytes@) is None,
        },
{
    match parse_store_bytes(bytes) {
        Ok(records) => Ok(Store { records }),
        Err(e) => Err(e),
    }
}

/// Encode a store into the binary wire format.  Total for every store; the
/// bytes are the codec collaborator's encoding of exactly the store's
/// records, in order.
pub fn encode(store: &Store) -> (r: Vec<u8>)
    ensures
        r@ == encoded_bytes(store@),
        (all_wire_clean(store@) && (forall|i: int|
            0 <= i < store@.len() ==> !(#[trigger] store@[i]).is_hidden))
            ==> parsed_records(r@) == Some(store@),
{
    store_to_bytes(&store.records)
}

/// Round-trip law: encoding a store of wire-clean records with clear hidden
/// flags — as every store built purely from decoded, unmodified records with
/// clear hidden flags is — and decoding the bytes yields the store again.
pub fn encode_then_decode(store: &Store) -> (r: Result<Store, FormatError>)
    requires
        all_wire_clean(store@),
        forall|i: int| 0 <= i < store@.len() ==> !(#[trigger] store@[i]).is_hidden,
    ensures
        r is Ok,
        r matches Ok(s) ==> s@ == store@,
{
    let bytes = encode(store);
    decode(bytes.as_slice())
}

} // verus!
