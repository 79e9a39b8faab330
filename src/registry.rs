//! The playlists a user may choose from.
use vstd::prelude::*;
use crate::json::JsonValue;
use crate::records::{PlaylistEntry, playlist_record, decode_playlist};
use crate::diagnostic::Diagnostic;

verus! {

/// The playlists that the elements decode to, in order.
pub open spec fn registry_entries(items: Seq<JsonValue>) -> Seq<PlaylistEntry>
    decreases items.len(),
{
    if items.len() == 0 {
        Seq::empty()
    } else {
        let before = registry_entries(items.drop_last());
        match playlist_record(items.last()) {
            Ok(entry) => before.push(entry),
            Err(_) => before,
        }
    }
}

/// One diagnostic for each element that does not decode, in order.
pub open spec fn registry_diagnostics(items: Seq<JsonValue>) -> Seq<Diagnostic>
    decreases items.len(),
{
    if items.len() == 0 {
        Seq::empty()
    } else {
        let before = registry_diagnostics(items.drop_last());
        match playlist_record(items.last()) {
            Ok(_) => before,
            Err(e) => before.push(Diagnostic::Playlist(e)),
        }
    }
}

/// Builds the playlist list from the decoded playlist array, with a diagnostic
/// for every element skipped.
pub fn build_registry(items: &Vec<JsonValue>) -> (r: (Vec<PlaylistEntry>, Vec<Diagnostic>))
    ensures
        r.0@ == registry_entries(items@),
        r.1@ == registry_diagnostics(items@),
{
    let mut entries: Vec<PlaylistEntry> = Vec::new();
    let mut log: Vec<Diagnostic> = Vec::new();
    let mut i: usize = 0;
    while i < items.len()
        invariant
            i <= items@.len(),
            entries@ == registry_entries(items@.take(i as int)),
            log@ == registry_diagnostics(items@.take(i as int)),
        decreases items@.len() - i,
    {
        assert(items@.take(i + 1).drop_last() =~= items@.take(i as int));
        match decode_playlist(&items[i]) {
            Ok(entry) => entries.push(entry),
            Err(e) => log.push(Diagnostic::Playlist(e)),
        }
        i += 1;
    }
    assert(items@.take(i as int) =~= items@);
    (entries, log)
}

/// An element that is no JSON object adds one diagnostic and no playlist; an
/// element that decodes adds one playlist and no diagnostic.
pub proof fn lemma_registry_step(items: Seq<JsonValue>, v: JsonValue)
    ensures
        !(v is Object) ==> registry_entries(items.push(v)) == registry_entries(items)
            && registry_diagnostics(items.push(v)).len() == registry_diagnostics(items).len() + 1
            && registry_diagnostics(items.push(v)).drop_last() == registry_diagnostics(items),
        playlist_record(v) is Ok ==> registry_entries(items.push(v)) == registry_entries(items).push(playlist_record(v)->Ok_0)
            && registry_diagnostics(items.push(v)) == registry_diagnostics(items),
{
    assert(items.push(v).drop_last() =~= items);
}

} // verus!
