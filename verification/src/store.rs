//! The shortcut store: an ordered sequence of shortcut records, and the
//! ownership tag that separates engine-owned records from foreign ones.

use vstd::prelude::*;

verus! {

/// One entry of the shortcut store.  Every field of the on-disk record is
/// carried, so that a foreign record can be written back unchanged.
#[derive(Debug)]
pub struct Record {
    pub app_id: u32,
    pub app_name: String,
    pub exe_path: String,
    pub start_dir: String,
    pub icon_path: String,
    pub shortcut_path: String,
    pub launch_options: String,
    pub is_hidden: bool,
    pub allow_desktop_config: bool,
    pub allow_overlay: bool,
    pub open_vr: u32,
    pub devkit: u32,
    pub devkit_game_id: String,
    pub devkit_override_app_id: u32,
    pub last_play_time: u32,
    pub tags: Vec<String>,
}

/// Mathematical model of a record: each text field a sequence of characters,
/// the tag list a sequence of such sequences, order significant.
#[verifier::ext_equal]
pub ghost struct RecordView {
    pub app_id: u32,
    pub app_name: Seq<char>,
    pub exe_path: Seq<char>,
    pub start_dir: Seq<char>,
    pub icon_path: Seq<char>,
    pub shortcut_path: Seq<char>,
    pub launch_options: Seq<char>,
    pub is_hidden: bool,
    pub allow_desktop_config: bool,
    pub allow_overlay: bool,
    pub open_vr: u32,
    pub devkit: u32,
    pub devkit_game_id: Seq<char>,
    pub devkit_override_app_id: u32,
    pub last_play_time: u32,
    pub tags: Seq<Seq<char>>,
}

impl View for Record {
    type V = RecordView;

    open spec fn view(&self) -> RecordView {
        RecordView {
            app_id: self.app_id,
            app_name: self.app_name@,
            exe_path: self.exe_path@,
            start_dir: self.start_dir@,
            icon_path: self.icon_path@,
            shortcut_path: self.shortcut_path@,
            launch_options: self.launch_options@,
            is_hidden: self.is_hidden,
            allow_desktop_config: self.allow_desktop_config,
            allow_overlay: self.allow_overlay,
            open_vr: self.open_vr,
            devkit: self.devkit,
            devkit_game_id: self.devkit_game_id@,
            devkit_override_app_id: self.devkit_override_app_id,
            last_play_time: self.last_play_time,
            tags: self.tags.deep_view(),
        }
    }
}

impl DeepView for Record {
    type V = RecordView;

    open spec fn deep_view(&self) -> RecordView {
        self.view()
    }
}

/// The persisted ordered collection of shortcut records.
#[derive(Debug)]
pub struct Store {
    pub records: Vec<Record>,
}

impl View for Store {
    type V = Seq<RecordView>;

    open spec fn view(&self) -> Seq<RecordView> {
        self.records.deep_view()
    }
}

/// The fixed tag value that marks a record as owned by this engine.
pub open spec fn sentinel() -> Seq<char> {
    "moonlight"@
}

/// A record is owned by the engine exactly when its tag list holds the
/// sentinel tag; otherwise it is foreign and is never touched.
pub open spec fn is_owned(r: RecordView) -> bool {
    r.tags.contains(sentinel())
}

/// Executable ownership test over a record's tag list.
pub fn has_sentinel_tag(tags: &Vec<String>) -> (b: bool)
    ensures
        b == tags.deep_view().contains(sentinel()),
{
    let mut i: usize = 0;
    while i < tags.len()
        invariant
            i <= tags.len(),
            forall|j: int| 0 <= j < i ==> tags.deep_view()[j] != sentinel(),
        decreases tags.len() - i,
    {
        let needle: String = "moonlight".to_owned();
        if tags[i].eq(&needle) {
            assert(tags.deep_view()[i as int] == sentinel());
            return true;
        }
        i += 1;
    }
    assert(forall|j: int| 0 <= j < tags.deep_view().len() ==> tags.deep_view()[j] != sentinel());
    false
}

impl Record {
    /// An exact copy: the model of the copy equals the model of the original.
    pub fn duplicate(&self) -> (r: Record)
        ensures
            r@ == self@,
    {
        let mut tags: Vec<String> = Vec::new();
        let mut i: usize = 0;
        while i < self.tags.len()
            invariant
                i <= self.tags.len(),
                tags@.len() == i as int,
                forall|k: int| 0 <= k < i ==> tags@[k] == self.tags@[k],
            decreases self.tags.len() - i,
        {
            tags.push(self.tags[i].clone());
            i += 1;
        }
        assert(tags.deep_view() =~= self.tags.deep_view());
        let r = Record {
            app_id: self.app_id,
            app_name: self.app_name.clone(),
            exe_path: self.exe_path.clone(),
            start_dir: self.start_dir.clone(),
            icon_path: self.icon_path.clone(),
            shortcut_path: self.shortcut_path.clone(),
            launch_options: self.launch_options.clone(),
            is_hidden: self.is_hidden,
            allow_desktop_config: self.allow_desktop_config,
            allow_overlay: self.allow_overlay,
            open_vr: self.open_vr,
            devkit: self.devkit,
            devkit_game_id: self.devkit_game_id.clone(),
            devkit_override_app_id: self.devkit_override_app_id,
            last_play_time: self.last_play_time,
            tags,
        };
        assert(r@ =~= self@);
        r
    }
}

} // verus!
