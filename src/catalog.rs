//! Chooses, for each audio id, the catalog row that resolves to a local file.
use vstd::prelude::*;
use crate::diagnostic::Diagnostic;
use crate::paths::{candidate_paths, path_from_db_to_real, reconciles_to, opt_view};

verus! {

/// One catalog row: `ft_title`, `ft_artist` and `ft_path` of `file_t`.
#[derive(Clone, Debug, PartialEq, Eq)]
pub struct CatalogRow {
    pub title: String,
    pub artist: String,
    pub stored_path: String,
}

/// One fetched row, with the local file its stored path reconciled to, if any.
#[derive(Clone, Debug, PartialEq, Eq)]
pub enum RowFetch {
    Read { row: CatalogRow, reconciled: Option<String> },
    Unreadable,
}

/// What the catalog query gave for one id.
#[derive(Clone, Debug, PartialEq, Eq)]
pub enum IdLookup {
    QueryFailed,
    Rows(Vec<RowFetch>),
}

/// A resolved audio file, ready for export.
#[derive(Clone, Debug, PartialEq, Eq)]
pub struct AudioEntry {
    pub title: String,
    pub artist: String,
    pub path: String,
}

/// The entry of the first row that reconciled.
pub open spec fn accepted_in(rows: Seq<RowFetch>) -> Option<AudioEntry>
    decreases rows.len(),
{
    if rows.len() == 0 {
        None
    } else {
        let before = accepted_in(rows.drop_last());
        if before is Some {
            before
        } else {
            match rows.last() {
                RowFetch::Read { row, reconciled: Some(p) } => Some(AudioEntry { title: row.title, artist: row.artist, path: p }),
                _ => None,
            }
        }
    }
}

/// The diagnostic for row `index` when `accepted` was accepted before it.
pub open spec fn row_note(id: u32, index: usize, row: RowFetch, accepted: Option<AudioEntry>) -> Option<Diagnostic> {
    match accepted {
        None => match row {
            RowFetch::Read { row, reconciled: Some(_) } => None,
            RowFetch::Read { row, reconciled: None } => Some(Diagnostic::RowUnreconciled { id, index, title: row.title, stored_path: row.stored_path }),
            RowFetch::Unreadable => Some(Diagnostic::RowUnreadable { id, index }),
        },
        Some(a) => match row {
            RowFetch::Read { row, reconciled: Some(p) } => Some(Diagnostic::ExtraRow { id, index, title: row.title, path: p, accepted_path: a.path }),
            RowFetch::Read { row, reconciled: None } => Some(Diagnostic::ExtraRowUnreconciled { id, index, title: row.title, stored_path: row.stored_path }),
            RowFetch::Unreadable => Some(Diagnostic::ExtraRowUnreadable { id, index }),
        },
    }
}

/// One diagnostic for each row but the accepted one, in order.
pub open spec fn row_notes(id: u32, rows: Seq<RowFetch>) -> Seq<Diagnostic>
    decreases rows.len(),
{
    if rows.len() == 0 {
        Seq::empty()
    } else {
        let before = row_notes(id, rows.drop_last());
        match row_note(id, (rows.len() - 1) as usize, rows.last(), accepted_in(rows.drop_last())) {
            Some(d) => before.push(d),
            None => before,
        }
    }
}

/// The entry for one id.
pub open spec fn id_entry(lookup: IdLookup) -> Option<AudioEntry> {
    match lookup {
        IdLookup::QueryFailed => None,
        IdLookup::Rows(rows) => accepted_in(rows@),
    }
}

/// The diagnostics for one id.
pub open spec fn id_diagnostics(id: u32, lookup: IdLookup) -> Seq<Diagnostic> {
    match lookup {
        IdLookup::QueryFailed => seq![Diagnostic::QueryFailed { id }],
        IdLookup::Rows(rows) => if rows.len() == 0 {
            seq![Diagnostic::NotInCatalog { id }]
        } else {
            row_notes(id, rows@)
        },
    }
}

/// Picks the first row that reconciled, and notes every other row.
pub fn select_row(id: u32, rows: &Vec<RowFetch>) -> (r: (Option<AudioEntry>, Vec<Diagnostic>))
    ensures
        r.0 == accepted_in(rows@),
        r.1@ == row_notes(id, rows@),
{
    let mut accepted: Option<AudioEntry> = None;
    let mut log: Vec<Diagnostic> = Vec::new();
    let mut i: usize = 0;
    while i < rows.len()
        invariant
            i <= rows@.len(),
            accepted == accepted_in(rows@.take(i as int)),
            log@ == row_notes(id, rows@.take(i as int)),
        decreases rows@.len() - i,
    {
        assert(rows@.take(i + 1).drop_last() =~= rows@.take(i as int));
        assert(rows@.take(i + 1).last() == rows@[i as int]);
        let note = match &accepted {
            None => match &rows[i] {
                RowFetch::Read { row, reconciled: Some(p) } => {
                    accepted = Some(AudioEntry { title: row.title.clone(), artist: row.artist.clone(), path: p.clone() });
                    None
                },
                RowFetch::Read { row, reconciled: None } => Some(
                    Diagnostic::RowUnreconciled { id, index: i, title: row.title.clone(), stored_path: row.stored_path.clone() },
                ),
                RowFetch::Unreadable => Some(Diagnostic::RowUnreadable { id, index: i }),
            },
            Some(a) => match &rows[i] {
                RowFetch::Read { row, reconciled: Some(p) } => Some(
                    Diagnostic::ExtraRow { id, index: i, title: row.title.clone(), path: p.clone(), accepted_path: a.path.clone() },
                ),
                RowFetch::Read { row, reconciled: None } => Some(
                    Diagnostic::ExtraRowUnreconciled { id, index: i, title: row.title.clone(), stored_path: row.stored_path.clone() },
                ),
                RowFetch::Unreadable => Some(Diagnostic::ExtraRowUnreadable { id, index: i }),
            },
        };
        match note {
            Some(d) => log.push(d),
            None => {},
        }
        i += 1;
    }
    assert(rows@.take(i as int) =~= rows@);
    (accepted, log)
}

/// The entry and the diagnostics for one id.
pub fn lookup_entry(id: u32, lookup: &IdLookup) -> (r: (Option<AudioEntry>, Vec<Diagnostic>))
    ensures
        r.0 == id_entry(*lookup),
        r.1@ == id_diagnostics(id, *lookup),
{
    match lookup {
        IdLookup::QueryFailed => (None, vec![Diagnostic::QueryFailed { id }]),
        IdLookup::Rows(rows) => if rows.len() == 0 {
            (None, vec![Diagnostic::NotInCatalog { id }])
        } else {
            select_row(id, rows)
        },
    }
}

/// The resolved entries of all ids, in order.
pub open spec fn resolved_entries(ids: Seq<u32>, lookups: Seq<IdLookup>) -> Seq<AudioEntry>
    decreases lookups.len(),
{
    if lookups.len() == 0 {
        Seq::empty()
    } else {
        let before = resolved_entries(ids, lookups.drop_last());
        match id_entry(lookups.last()) {
            Some(e) => before.push(e),
            None => before,
        }
    }
}

/// The diagnostics of all ids, in order.
pub open spec fn resolved_diagnostics(ids: Seq<u32>, lookups: Seq<IdLookup>) -> Seq<Diagnostic>
    decreases lookups.len(),
{
    if lookups.len() == 0 {
        Seq::empty()
    } else {
        resolved_diagnostics(ids, lookups.drop_last()) + id_diagnostics(ids[lookups.len() - 1], lookups.last())
    }
}

/// Resolves every id from what the catalog gave for it: `lookups[i]` belongs to `ids[i]`.
pub fn resolve_entries(ids: &Vec<u32>, lookups: &Vec<IdLookup>) -> (r: (Vec<AudioEntry>, Vec<Diagnostic>))
    requires
        ids@.len() == lookups@.len(),
    ensures
        r.0@ == resolved_entries(ids@, lookups@),
        r.1@ == resolved_diagnostics(ids@, lookups@),
{
    let mut entries: Vec<AudioEntry> = Vec::new();
    let mut log: Vec<Diagnostic> = Vec::new();
    let mut i: usize = 0;
    while i < lookups.len()
        invariant
            i <= lookups@.len(),
            ids@.len() == lookups@.len(),
            entries@ == resolved_entries(ids@, lookups@.take(i as int)),
            log@ == resolved_diagnostics(ids@, lookups@.take(i as int)),
        decreases lookups@.len() - i,
    {
        assert(lookups@.take(i + 1).drop_last() =~= lookups@.take(i as int));
        assert(lookups@.take(i + 1).last() == lookups@[i as int]);
        let (entry, mut notes) = lookup_entry(ids[i], &lookups[i]);
        match entry {
            Some(e) => entries.push(e),
            None => {},
        }
        log.append(&mut notes);
        i += 1;
    }
    assert(lookups@.take(i as int) =~= lookups@);
    (entries, log)
}

/// Of two rows, when only the second reconciles, the second is accepted and
/// the first is noted as unresolved; when the first reconciles, it is accepted
/// and the second is noted as an extra occurrence.
pub proof fn lemma_two_rows(id: u32, rows: Vec<RowFetch>)
    requires
        rows@.len() == 2,
    ensures
        rows@[0] matches RowFetch::Read { row: r0, reconciled: None } ==> (rows@[1] matches RowFetch::Read { row: r1, reconciled: Some(p) } ==> {
            &&& id_entry(IdLookup::Rows(rows)) == Some(AudioEntry { title: r1.title, artist: r1.artist, path: p })
            &&& id_diagnostics(id, IdLookup::Rows(rows)) == seq![
                Diagnostic::RowUnreconciled { id, index: 0, title: r0.title, stored_path: r0.stored_path },
            ]
        }),
        rows@[0] matches RowFetch::Read { row: r0, reconciled: Some(p) } ==> {
            &&& id_entry(IdLookup::Rows(rows)) == Some(AudioEntry { title: r0.title, artist: r0.artist, path: p })
            &&& row_note(id, 1, rows@[1], Some(AudioEntry { title: r0.title, artist: r0.artist, path: p })) matches Some(d)
            &&& id_diagnostics(id, IdLookup::Rows(rows)) == seq![d]
        },
{
    let s = rows@;
    let one = seq![s[0]];
    assert(s.drop_last() =~= one);
    assert(s.last() == s[1]);
    assert(one.drop_last() =~= Seq::<RowFetch>::empty());
    assert(one.last() == s[0]);
    let e: Seq<Diagnostic> = Seq::empty();
    assert(row_notes(id, Seq::<RowFetch>::empty()) == e);
    assert(accepted_in(Seq::<RowFetch>::empty()) is None);
    match row_note(id, 0, s[0], None) {
        Some(d0) => {
            assert(row_notes(id, one) =~= seq![d0]);
        },
        None => {
            assert(row_notes(id, one) =~= e);
        },
    }
    match row_note(id, 1, s[1], accepted_in(one)) {
        Some(d1) => {
            assert(row_notes(id, s) =~= row_notes(id, one).push(d1));
        },
        None => {},
    }
}

/// A fetched row, with its stored path reconciled against the library root.
pub fn reconcile_row(row: CatalogRow, library_root: &String) -> (r: RowFetch)
    ensures
        r matches RowFetch::Read { row: got, reconciled } && got == row
            && reconciles_to(row.stored_path@, library_root@, opt_view(reconciled)),
        candidate_paths(row.stored_path@, library_root@).len() == 0 ==> r == (RowFetch::Read { row, reconciled: None }),
{
    let reconciled = path_from_db_to_real(&row.stored_path, library_root);
    RowFetch::Read { row, reconciled }
}

} // verus!
