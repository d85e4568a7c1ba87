use shortcut_sync::candidates::{
    candidates_from_output, launch_options_for, materialize, normalize_icon,
    MalformedCandidateError,
};
use shortcut_sync::codec::{decode, encode};
use shortcut_sync::store::{has_sentinel_tag, Record, Store};
use shortcut_sync::sync::{retain_foreign, synchronize};

fn plain_record(name: &str, tags: Vec<String>) -> Record {
    Record {
        app_id: 7,
        app_name: name.to_owned(),
        exe_path: "/usr/bin/game".to_owned(),
        start_dir: "/home/u".to_owned(),
        icon_path: "/home/u/icon.png".to_owned(),
        shortcut_path: String::new(),
        launch_options: "--windowed".to_owned(),
        is_hidden: false,
        allow_desktop_config: true,
        allow_overlay: false,
        open_vr: 0,
        devkit: 0,
        devkit_game_id: String::new(),
        devkit_override_app_id: 0,
        last_play_time: 1700000000,
        tags,
    }
}

fn assert_record_eq(a: &Record, b: &Record) {
    assert_eq!(a.app_id, b.app_id);
    assert_eq!(a.app_name, b.app_name);
    assert_eq!(a.exe_path, b.exe_path);
    assert_eq!(a.start_dir, b.start_dir);
    assert_eq!(a.icon_path, b.icon_path);
    assert_eq!(a.shortcut_path, b.shortcut_path);
    assert_eq!(a.launch_options, b.launch_options);
    assert_eq!(a.is_hidden, b.is_hidden);
    assert_eq!(a.allow_desktop_config, b.allow_desktop_config);
    assert_eq!(a.allow_overlay, b.allow_overlay);
    assert_eq!(a.open_vr, b.open_vr);
    assert_eq!(a.devkit, b.devkit);
    assert_eq!(a.devkit_game_id, b.devkit_game_id);
    assert_eq!(a.devkit_override_app_id, b.devkit_override_app_id);
    assert_eq!(a.last_play_time, b.last_play_time);
    assert_eq!(a.tags, b.tags);
}

fn row(fields: &[&str]) -> Vec<String> {
    fields.iter().map(|f| (*f).to_owned()).collect()
}

fn good_rows() -> Vec<Vec<String>> {
    vec![
        row(&["Halo", "1", "2", "3", "4", "5", "file:///h/halo.png"]),
        row(&["Myst", "1", "2", "3", "4", "5", "box_art/no_app_image.png"]),
    ]
}

#[test]
fn launch_options_example() {
    let r = launch_options_for("192.168.1.5", "Halo");
    assert_eq!(r, "stream 192.168.1.5 \"Halo\"");
}

#[test]
fn icon_normalization_strips_local_file_prefix() {
    let r = normalize_icon("file:///home/u/icon.png");
    assert_eq!(r, Some("/home/u/icon.png".to_owned()));
}

#[test]
fn icon_normalization_marker_means_no_icon() {
    let r = normalize_icon("cache/no_app_image.png");
    assert_eq!(r, Some(String::new()));
}

#[test]
fn icon_without_marker_or_prefix_is_malformed() {
    assert_eq!(normalize_icon("http://example.com/icon.png"), None);
}

#[test]
fn arity_six_columns_is_malformed() {
    let rows = vec![row(&["Halo", "1", "2", "3", "4", "file:///h/i.png"])];
    let r = materialize(&rows, "/usr/bin/moonlight", "192.168.1.5");
    assert_eq!(
        r.unwrap_err(),
        MalformedCandidateError::Arity { row: 0, columns: 6 }
    );
}

#[test]
fn arity_eight_columns_is_malformed() {
    let rows = vec![
        row(&["Halo", "1", "2", "3", "4", "5", "6", "file:///h/i.png"]),
    ];
    let r = materialize(&rows, "/usr/bin/moonlight", "192.168.1.5");
    assert_eq!(
        r.unwrap_err(),
        MalformedCandidateError::Arity { row: 0, columns: 8 }
    );
}

#[test]
fn malformed_row_appends_nothing() {
    let store = Store {
        records: vec![plain_record("Keep", vec!["favorite".to_owned()])],
    };
    let before = encode(&store);
    let rows = vec![
        row(&["Halo", "1", "2", "3", "4", "5", "file:///h/i.png"]),
        row(&["Bad", "1", "2", "3", "4", "5"]),
    ];
    let r = synchronize(&store, true, &rows, "/usr/bin/moonlight", "192.168.1.5");
    assert_eq!(
        r.unwrap_err(),
        MalformedCandidateError::Arity { row: 1, columns: 6 }
    );
    assert_eq!(store.records.len(), 1);
    assert_eq!(encode(&store), before);
}

#[test]
fn materialized_candidate_fields() {
    let rows = good_rows();
    let recs = materialize(&rows, "/usr/bin/moonlight", "192.168.1.5").unwrap();
    assert_eq!(recs.len(), 2);
    assert_eq!(recs[0].app_name, "Halo");
    assert_eq!(recs[0].exe_path, "/usr/bin/moonlight");
    assert_eq!(recs[0].launch_options, "stream 192.168.1.5 \"Halo\"");
    assert_eq!(recs[0].icon_path, "/h/halo.png");
    assert_eq!(recs[0].tags, vec!["moonlight".to_owned()]);
    assert_eq!(recs[0].start_dir, "");
    assert!(!recs[0].is_hidden);
    assert_eq!(
        recs[0].app_id,
        steam_shortcuts_util::app_id_generator::calculate_app_id("/usr/bin/moonlight", "Halo")
    );
    assert_eq!(recs[1].icon_path, "");
    assert_eq!(recs[1].tags, vec!["moonlight".to_owned()]);
}

#[test]
fn sync_enabled_replaces_owned_records() {
    let store = Store {
        records: vec![
            plain_record("Foreign one", vec![]),
            plain_record("Old stream", vec!["moonlight".to_owned()]),
            plain_record("Foreign two", vec!["favorite".to_owned()]),
        ],
    };
    let rows = good_rows();
    let out = synchronize(&store, true, &rows, "/usr/bin/moonlight", "192.168.1.5").unwrap();
    assert_eq!(out.records.len(), 4);
    assert_record_eq(&out.records[0], &store.records[0]);
    assert_record_eq(&out.records[1], &store.records[2]);
    assert_eq!(out.records[2].app_name, "Halo");
    assert_eq!(out.records[3].app_name, "Myst");
}

#[test]
fn repeated_sync_is_idempotent() {
    let store = Store {
        records: vec![
            plain_record("Foreign one", vec![]),
            plain_record("Old stream", vec!["moonlight".to_owned()]),
        ],
    };
    let rows = good_rows();
    let once = synchronize(&store, true, &rows, "/usr/bin/moonlight", "192.168.1.5").unwrap();
    let twice = synchronize(&once, true, &rows, "/usr/bin/moonlight", "192.168.1.5").unwrap();
    assert_eq!(once.records.len(), twice.records.len());
    for (a, b) in once.records.iter().zip(twice.records.iter()) {
        assert_record_eq(a, b);
    }
}

#[test]
fn sync_disabled_accumulates_two_candidate_sets() {
    let store = Store {
        records: vec![plain_record("Foreign one", vec![])],
    };
    let rows = good_rows();
    let once = synchronize(&store, false, &rows, "/usr/bin/moonlight", "192.168.1.5").unwrap();
    let twice = synchronize(&once, false, &rows, "/usr/bin/moonlight", "192.168.1.5").unwrap();
    assert_eq!(twice.records.len(), 1 + 2 * rows.len());
    assert_record_eq(&twice.records[0], &store.records[0]);
    assert_eq!(twice.records[1].app_name, "Halo");
    assert_eq!(twice.records[2].app_name, "Myst");
    assert_eq!(twice.records[3].app_name, "Halo");
    assert_eq!(twice.records[4].app_name, "Myst");
    for r in twice.records.iter().skip(1) {
        assert_eq!(r.tags, vec!["moonlight".to_owned()]);
    }
}

#[test]
fn foreign_records_survive_encoding_byte_identically() {
    let foreign_a = plain_record("Foreign one", vec!["favorite".to_owned()]);
    let foreign_b = plain_record("Foreign two", vec![]);
    let store = Store {
        records: vec![
            foreign_a,
            plain_record("Old stream", vec!["moonlight".to_owned()]),
            foreign_b,
        ],
    };
    let rows = good_rows();
    let out = synchronize(&store, true, &rows, "/usr/bin/moonlight", "192.168.1.5").unwrap();
    let decoded = decode(&encode(&out)).unwrap();
    assert_record_eq(&decoded.records[0], &store.records[0]);
    assert_record_eq(&decoded.records[1], &store.records[2]);
}

#[test]
fn encode_then_decode_round_trips() {
    let store = Store {
        records: vec![
            plain_record("Foreign one", vec!["favorite".to_owned(), "Installed".to_owned()]),
            plain_record("Old stream", vec!["moonlight".to_owned()]),
        ],
    };
    let decoded = decode(&encode(&store)).unwrap();
    assert_eq!(decoded.records.len(), store.records.len());
    for (a, b) in decoded.records.iter().zip(store.records.iter()) {
        assert_record_eq(a, b);
    }
}

#[test]
fn empty_store_round_trips() {
    let store = Store { records: Vec::new() };
    let decoded = decode(&encode(&store)).unwrap();
    assert_eq!(decoded.records.len(), 0);
}

#[test]
fn decode_rejects_garbage() {
    assert!(decode(b"not a shortcut store").is_err());
}

#[test]
fn candidates_from_tabular_output() {
    let bytes =
        b"title,c1,c2,c3,c4,c5,icon\nHalo,1,2,3,4,5,file:///h/halo.png\nMyst,1,2,3,4,5,no_app_image\n";
    let recs = candidates_from_output(bytes, "/usr/bin/moonlight", "10.0.0.2").unwrap();
    assert_eq!(recs.len(), 2);
    assert_eq!(recs[0].app_name, "Halo");
    assert_eq!(recs[0].launch_options, "stream 10.0.0.2 \"Halo\"");
    assert_eq!(recs[0].icon_path, "/h/halo.png");
    assert_eq!(recs[1].icon_path, "");
}

#[test]
fn unreadable_tabular_output_is_rejected() {
    let bytes = b"title,c1\n\"unclosed,1\n2";
    let r = candidates_from_output(bytes, "/usr/bin/moonlight", "10.0.0.2");
    assert_eq!(r.unwrap_err(), MalformedCandidateError::Unreadable);
}

#[test]
fn six_column_tabular_output_is_an_arity_error() {
    let bytes = b"title,c1,c2,c3,c4,icon\nHalo,1,2,3,4,file:///h/halo.png\n";
    let r = candidates_from_output(bytes, "/usr/bin/moonlight", "10.0.0.2");
    assert_eq!(
        r.unwrap_err(),
        MalformedCandidateError::Arity { row: 0, columns: 6 }
    );
}

#[test]
fn sentinel_tag_detection() {
    assert!(has_sentinel_tag(&vec!["a".to_owned(), "moonlight".to_owned()]));
    assert!(!has_sentinel_tag(&vec!["a".to_owned(), "Moonlight".to_owned()]));
    assert!(!has_sentinel_tag(&Vec::new()));
}

#[test]
fn retain_foreign_keeps_order() {
    let records = vec![
        plain_record("a", vec!["moonlight".to_owned()]),
        plain_record("b", vec![]),
        plain_record("c", vec!["x".to_owned(), "moonlight".to_owned()]),
        plain_record("d", vec!["y".to_owned()]),
    ];
    let out = retain_foreign(&records);
    assert_eq!(out.len(), 2);
    assert_eq!(out[0].app_name, "b");
    assert_eq!(out[1].app_name, "d");
}

#[test]
fn icon_error_variant() {
    let rows = vec![row(&["Halo", "1", "2", "3", "4", "5", "http://x/i.png"])];
    let r = materialize(&rows, "/usr/bin/moonlight", "192.168.1.5");
    assert_eq!(r.unwrap_err(), MalformedCandidateError::Icon { row: 0 });
}

#[test]
fn wire_format_folds_a_set_hidden_flag() {
    let mut hidden = plain_record("Hidden", vec![]);
    hidden.is_hidden = true;
    let store = Store { records: vec![hidden] };
    let decoded = decode(&encode(&store)).unwrap();
    assert!(!decoded.records[0].is_hidden);
}

#[test]
fn wire_format_zeroes_a_low_byte_of_one() {
    let mut r = plain_record("Played", vec![]);
    r.last_play_time = 257;
    let store = Store { records: vec![r] };
    let decoded = decode(&encode(&store)).unwrap();
    assert_eq!(decoded.records[0].last_play_time, 256);
}
