//! The audio ids that belong to a chosen playlist.
use vstd::prelude::*;
use crate::json::JsonValue;
use crate::records::{membership_record, decode_membership};
use crate::diagnostic::Diagnostic;

verus! {

/// The audio ids of the elements that name `playlist_id`, in order, repeats kept.
pub open spec fn member_ids(playlist_id: Seq<char>, items: Seq<JsonValue>) -> Seq<u32>
    decreases items.len(),
{
    if items.len() == 0 {
        Seq::empty()
    } else {
        let before = member_ids(playlist_id, items.drop_last());
        match membership_record(items.last()) {
            Ok(rec) => if rec.playlist_id@ == playlist_id {
                before.push(rec.audio_id)
            } else {
                before
            },
            Err(_) => before,
        }
    }
}

/// One diagnostic for each element that does not decode, in order.
pub open spec fn member_diagnostics(items: Seq<JsonValue>) -> Seq<Diagnostic>
    decreases items.len(),
{
    if items.len() == 0 {
        Seq::empty()
    } else {
        let before = member_diagnostics(items.drop_last());
        match membership_record(items.last()) {
            Ok(_) => before,
            Err(e) => before.push(Diagnostic::Membership(e)),
        }
    }
}

/// Collects the audio ids of the playlist `playlist_id` from the decoded
/// membership array, with a diagnostic for every malformed element.
pub fn resolve_members(playlist_id: &str, items: &Vec<JsonValue>) -> (r: (Vec<u32>, Vec<Diagnostic>))
    ensures
        r.0@ == member_ids(playlist_id@, items@),
        r.1@ == member_diagnostics(items@),
{
    let wanted = String::from_str(playlist_id);
    let mut ids: Vec<u32> = Vec::new();
    let mut log: Vec<Diagnostic> = Vec::new();
    let mut i: usize = 0;
    while i < items.len()
        invariant
            i <= items@.len(),
            wanted@ == playlist_id@,
            ids@ == member_ids(playlist_id@, items@.take(i as int)),
            log@ == member_diagnostics(items@.take(i as int)),
        decreases items@.len() - i,
    {
        assert(items@.take(i + 1).drop_last() =~= items@.take(i as int));
        match decode_membership(&items[i]) {
            Ok(rec) => if rec.playlist_id == wanted {
                ids.push(rec.audio_id);
            },
            Err(e) => log.push(Diagnostic::Membership(e)),
        }
        i += 1;
    }
    assert(items@.take(i as int) =~= items@);
    (ids, log)
}

/// The ids of two arrays one after the other are the ids of the first array
/// followed by those of the second, and so are the diagnostics: input order is kept.
pub proof fn lemma_members_in_order(playlist_id: Seq<char>, a: Seq<JsonValue>, b: Seq<JsonValue>)
    ensures
        member_ids(playlist_id, a + b) == member_ids(playlist_id, a) + member_ids(playlist_id, b),
        member_diagnostics(a + b) == member_diagnostics(a) + member_diagnostics(b),
    decreases b.len(),
{
    if b.len() == 0 {
        assert(a + b =~= a);
        assert(member_ids(playlist_id, a) + member_ids(playlist_id, b) =~= member_ids(playlist_id, a));
        assert(member_diagnostics(a) + member_diagnostics(b) =~= member_diagnostics(a));
    } else {
        lemma_members_in_order(playlist_id, a, b.drop_last());
        assert((a + b).drop_last() =~= a + b.drop_last());
        assert((a + b).last() == b.last());
        let ia = member_ids(playlist_id, a);
        let ib = member_ids(playlist_id, b.drop_last());
        let da = member_diagnostics(a);
        let db = member_diagnostics(b.drop_last());
        match membership_record(b.last()) {
            Ok(rec) => {
                assert((ia + ib).push(rec.audio_id) =~= ia + ib.push(rec.audio_id));
            },
            Err(e) => {
                assert((da + db).push(Diagnostic::Membership(e)) =~= da + db.push(Diagnostic::Membership(e)));
            },
        }
    }
}

/// An element naming another playlist adds no id and no diagnostic.
pub proof fn lemma_members_skip_other(playlist_id: Seq<char>, items: Seq<JsonValue>, v: JsonValue)
    requires
        membership_record(v) is Ok,
        membership_record(v)->Ok_0.playlist_id@ != playlist_id,
    ensures
        member_ids(playlist_id, items.push(v)) == member_ids(playlist_id, items),
        member_diagnostics(items.push(v)) == member_diagnostics(items),
{
    assert(items.push(v).drop_last() =~= items);
}

/// Every id emitted comes from an element that names the chosen playlist.
pub proof fn lemma_members_match(playlist_id: Seq<char>, items: Seq<JsonValue>, k: int)
    requires
        0 <= k < member_ids(playlist_id, items).len(),
    ensures
        exists|j: int| 0 <= j < items.len() && #[trigger] membership_record(items[j]) is Ok
            && membership_record(items[j])->Ok_0.playlist_id@ == playlist_id
            && membership_record(items[j])->Ok_0.audio_id == member_ids(playlist_id, items)[k],
    decreases items.len(),
{
    let before = member_ids(playlist_id, items.drop_last());
    if k < before.len() {
        lemma_members_match(playlist_id, items.drop_last(), k);
        let j = choose|j: int| 0 <= j < items.drop_last().len() && #[trigger] membership_record(items.drop_last()[j]) is Ok
            && membership_record(items.drop_last()[j])->Ok_0.playlist_id@ == playlist_id
            && membership_record(items.drop_last()[j])->Ok_0.audio_id == before[k];
        assert(items.drop_last()[j] == items[j]);
    } else {
        assert(membership_record(items[items.len() - 1]) is Ok);
    }
}

} // verus!
