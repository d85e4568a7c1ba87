//! The synchronization engine: the ownership filter and the merge policy,
//! together with the laws that govern repeated passes.

use vstd::prelude::*;

use crate::candidates::{
    all_rows_ok, candidate_view, candidate_views, materialize, row_error, row_ok,
    MalformedCandidateError,
};
use crate::store::{has_sentinel_tag, is_owned, sentinel, Record, RecordView, Store};

verus! {

/// The foreign records of a sequence: exactly those not owned by the
/// engine, in their original order.
pub open spec fn foreign_views(s: Seq<RecordView>) -> Seq<RecordView> {
    s.filter(|r: RecordView| !is_owned(r))
}

/// The result of one synchronization pass over models: with sync enabled
/// the owned records are removed, otherwise nothing is; the candidates are
/// appended behind the survivors.
pub open spec fn synced_views(
    existing: Seq<RecordView>,
    cands: Seq<RecordView>,
    sync_enabled: bool,
) -> Seq<RecordView> {
    (if sync_enabled {
        foreign_views(existing)
    } else {
        existing
    }) + cands
}

/// Every record of the filtered sequence is foreign.
proof fn lemma_foreign_views_foreign(s: Seq<RecordView>)
    ensures
        forall|i: int|
            0 <= i < foreign_views(s).len() ==> !is_owned(#[trigger] foreign_views(s)[i]),
    decreases s.len(),
{
    if s.len() != 0 {
        lemma_foreign_views_foreign(s.drop_last());
    }
}

/// Filtering a sequence of foreign records keeps it unchanged.
proof fn lemma_foreign_views_all_foreign(s: Seq<RecordView>)
    requires
        forall|i: int| 0 <= i < s.len() ==> !is_owned(#[trigger] s[i]),
    ensures
        foreign_views(s) == s,
    decreases s.len(),
{
    reveal(Seq::filter);
    if s.len() == 0 {
        assert(foreign_views(s) =~= s);
    } else {
        assert(forall|i: int| 0 <= i < s.drop_last().len() ==> !is_owned(#[trigger] s.drop_last()[i]));
        lemma_foreign_views_all_foreign(s.drop_last());
        assert(!is_owned(s.last()));
        assert(foreign_views(s) =~= s);
    }
}

/// Filtering a sequence of owned records leaves nothing.
proof fn lemma_foreign_views_all_owned(s: Seq<RecordView>)
    requires
        forall|i: int| 0 <= i < s.len() ==> is_owned(#[trigger] s[i]),
    ensures
        foreign_views(s) == Seq::<RecordView>::empty(),
    decreases s.len(),
{
    reveal(Seq::filter);
    if s.len() != 0 {
        assert(forall|i: int| 0 <= i < s.drop_last().len() ==> is_owned(#[trigger] s.drop_last()[i]));
        lemma_foreign_views_all_owned(s.drop_last());
        assert(is_owned(s.last()));
        assert(foreign_views(s) =~= Seq::<RecordView>::empty());
    }
}

/// The ownership filter distributes over concatenation.
proof fn lemma_foreign_views_add(a: Seq<RecordView>, b: Seq<RecordView>)
    ensures
        foreign_views(a + b) == foreign_views(a) + foreign_views(b),
    decreases b.len(),
{
    if b.len() == 0 {
        assert(a + b =~= a);
        assert(foreign_views(b) =~= Seq::<RecordView>::empty());
        assert(foreign_views(a) + foreign_views(b) =~= foreign_views(a));
    } else {
        lemma_foreign_views_add(a, b.drop_last());
        assert((a + b).drop_last() =~= a + b.drop_last());
        assert((a + b).last() == b.last());
        assert(foreign_views(a + b) =~= foreign_views(a) + foreign_views(b));
    }
}

/// The filter never touches a record: it is idempotent.
proof fn lemma_foreign_views_idempotent(s: Seq<RecordView>)
    ensures
        foreign_views(foreign_views(s)) == foreign_views(s),
{
    lemma_foreign_views_foreign(s);
    lemma_foreign_views_all_foreign(foreign_views(s));
}

/// Every materialized candidate carries the sentinel tag: it is owned.
pub proof fn lemma_candidates_owned(rows: Seq<Seq<Seq<char>>>, exe: Seq<char>, host: Seq<char>)
    ensures
        forall|i: int|
            0 <= i < candidate_views(rows, exe, host).len() ==> is_owned(
                #[trigger] candidate_views(rows, exe, host)[i],
            ),
{
    assert forall|i: int|
        0 <= i < candidate_views(rows, exe, host).len() implies is_owned(
        #[trigger] candidate_views(rows, exe, host)[i],
    ) by {
        let c = candidate_view(rows[i], exe, host);
        assert(c.tags[0] == sentinel());
        assert(c.tags.contains(sentinel()));
    }
}

/// Idempotence of repeated synchronization: with synchronization enabled
/// and the candidate set unchanged, a second pass removes exactly the
/// first pass's candidates and appends the same set again — the result is
/// the first pass's result, with no duplicates and untouched foreign
/// records.
pub proof fn lemma_sync_idempotent(existing: Seq<RecordView>, cands: Seq<RecordView>)
    requires
        forall|i: int| 0 <= i < cands.len() ==> is_owned(#[trigger] cands[i]),
    ensures
        synced_views(synced_views(existing, cands, true), cands, true) == synced_views(
            existing,
            cands,
            true,
        ),
{
    lemma_foreign_views_add(foreign_views(existing), cands);
    lemma_foreign_views_idempotent(existing);
    lemma_foreign_views_all_owned(cands);
    assert(synced_views(synced_views(existing, cands, true), cands, true) =~= synced_views(
        existing,
        cands,
        true,
    ));
}

/// Foreign-entry preservation: whatever the candidate set and whether or
/// not synchronization is enabled, the foreign records of the result are
/// exactly the foreign records of the input, in their original order.
pub proof fn lemma_foreign_preserved(
    existing: Seq<RecordView>,
    cands: Seq<RecordView>,
    sync_enabled: bool,
)
    requires
        forall|i: int| 0 <= i < cands.len() ==> is_owned(#[trigger] cands[i]),
    ensures
        foreign_views(synced_views(existing, cands, sync_enabled)) == foreign_views(existing),
{
    lemma_foreign_views_all_owned(cands);
    if sync_enabled {
        lemma_foreign_views_add(foreign_views(existing), cands);
        lemma_foreign_views_idempotent(existing);
        assert(foreign_views(synced_views(existing, cands, true)) =~= foreign_views(existing));
    } else {
        lemma_foreign_views_add(existing, cands);
        assert(foreign_views(synced_views(existing, cands, false)) =~= foreign_views(existing));
    }
}

/// Idempotence of repeated synchronization over a candidate source: the
/// candidates a source materializes are all sentinel-tagged, so a second
/// enabled pass over the same source removes exactly the first pass's
/// candidates and appends the same set again, changing nothing.
pub proof fn lemma_sync_idempotent_for_source(
    existing: Seq<RecordView>,
    rows: Seq<Seq<Seq<char>>>,
    exe: Seq<char>,
    host: Seq<char>,
)
    ensures
        synced_views(
            synced_views(existing, candidate_views(rows, exe, host), true),
            candidate_views(rows, exe, host),
            true,
        ) == synced_views(existing, candidate_views(rows, exe, host), true),
{
    lemma_candidates_owned(rows, exe, host);
    lemma_sync_idempotent(existing, candidate_views(rows, exe, host));
}

/// Foreign-entry preservation over a candidate source: with or without
/// synchronization enabled, a pass leaves the foreign records exactly as
/// they were, in their original order.
pub proof fn lemma_foreign_preserved_for_source(
    existing: Seq<RecordView>,
    rows: Seq<Seq<Seq<char>>>,
    exe: Seq<char>,
    host: Seq<char>,
    sync_enabled: bool,
)
    ensures
        foreign_views(
            synced_views(existing, candidate_views(rows, exe, host), sync_enabled),
        ) == foreign_views(existing),
{
    lemma_candidates_owned(rows, exe, host);
    lemma_foreign_preserved(existing, candidate_views(rows, exe, host), sync_enabled);
}

/// Sync-disabled accumulation: with synchronization disabled nothing is
/// removed, so one pass appends the candidate set and a second pass
/// appends it once more, leaving the count at the initial count plus
/// twice the candidate count.
pub proof fn lemma_sync_disabled_accumulates(existing: Seq<RecordView>, cands: Seq<RecordView>)
    ensures
        synced_views(existing, cands, false) == existing + cands,
        synced_views(synced_views(existing, cands, false), cands, false) == existing + cands
            + cands,
        synced_views(synced_views(existing, cands, false), cands, false).len() == existing.len()
            + 2 * cands.len(),
{
}

/// The ownership filter, executably: keep exactly the foreign records.
/// Never inspects anything beyond the tag list.
pub fn retain_foreign(records: &Vec<Record>) -> (out: Vec<Record>)
    ensures
        out.deep_view() == foreign_views(records.deep_view()),
{
    let ghost rv = records.deep_view();
    let mut out: Vec<Record> = Vec::new();
    let mut i: usize = 0;
    while i < records.len()
        invariant
            rv == records.deep_view(),
            records@.len() == rv.len(),
            i <= records.len(),
            out.deep_view() =~= foreign_views(rv.subrange(0, i as int)),
        decreases records.len() - i,
    {
        let ghost prefix = rv.subrange(0, i as int + 1);
        proof {
            reveal(Seq::filter);
            assert(prefix.drop_last() =~= rv.subrange(0, i as int));
            assert(prefix.last() == rv[i as int]);
        }
        if !has_sentinel_tag(&records[i].tags) {
            assert(!is_owned(rv[i as int]));
            out.push(records[i].duplicate());
        } else {
            assert(is_owned(rv[i as int]));
        }
        proof {
            reveal(Seq::filter);
            assert(out.deep_view() =~= foreign_views(prefix));
        }
        i += 1;
    }
    proof {
        assert(rv.subrange(0, rv.len() as int) =~= rv);
    }
    out
}

/// An exact copy of a record sequence.
fn duplicate_records(records: &Vec<Record>) -> (out: Vec<Record>)
    ensures
        out.deep_view() == records.deep_view(),
{
    let mut out: Vec<Record> = Vec::new();
    let mut i: usize = 0;
    while i < records.len()
        invariant
            i <= records.len(),
            out@.len() == i,
            forall|j: int| 0 <= j < i ==> out.deep_view()[j] == records.deep_view()[j],
        decreases records.len() - i,
    {
        out.push(records[i].duplicate());
        i += 1;
    }
    proof {
        assert(out.deep_view() =~= records.deep_view());
    }
    out
}

/// The filter-and-append steps of a pass over already-materialized
/// candidates: filter the existing store by ownership, then append the
/// candidates behind the survivors, both groups in their original order.
pub fn merge(store: &Store, sync_enabled: bool, cands: Vec<Record>) -> (out: Store)
    ensures
        out@ == synced_views(store@, cands.deep_view(), sync_enabled),
{
    let ghost cv = cands.deep_view();
    let mut cands = cands;
    let mut records = if sync_enabled {
        retain_foreign(&store.records)
    } else {
        duplicate_records(&store.records)
    };
    records.append(&mut cands);
    let out = Store { records };
    proof {
        assert(out@ =~= synced_views(store@, cv, sync_enabled));
    }
    out
}

/// One synchronization pass: filter the existing store by ownership,
/// materialize every candidate row, and append the fresh records behind
/// the survivors.  Pure: the input store is untouched; on any failure no
/// result is produced at all — all or nothing.
pub fn synchronize(
    store: &Store,
    sync_enabled: bool,
    rows: &Vec<Vec<String>>,
    exe: &str,
    host: &str,
) -> (r: Result<Store, MalformedCandidateError>)
    ensures
        r is Ok <==> all_rows_ok(rows.deep_view()),
        r matches Ok(s) ==> s@ == synced_views(
            store@,
            candidate_views(rows.deep_view(), exe@, host@),
            sync_enabled,
        ),
        r matches Err(e) ==> exists|i: int|
            {
                &&& 0 <= i < rows.deep_view().len()
                &&& !row_ok(#[trigger] rows.deep_view()[i])
                &&& forall|j: int| 0 <= j < i ==> row_ok(#[trigger] rows.deep_view()[j])
                &&& e == row_error(rows.deep_view(), i)
            },
{
    let mut cands = match materialize(rows, exe, host) {
        Ok(c) => c,
        Err(e) => {
            return Err(e);
        },
    };
    let mut records = if sync_enabled {
        retain_foreign(&store.records)
    } else {
        duplicate_records(&store.records)
    };
    records.append(&mut cands);
    let out = Store { records };
    proof {
        assert(out@ =~= synced_views(
            store@,
            candidate_views(rows.deep_view(), exe@, host@),
            sync_enabled,
        ));
    }
    Ok(out)
}

} // verus!
