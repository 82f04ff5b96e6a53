//! The decisions of an undo. The program reads the journal, hands the text
//! to [`begin_undo`], and then asks [`undo_step`] what to do after each
//! attempt to move an entry back.
use vstd::prelude::*;
use vstd::string::*;
use crate::error::{io_error_kind, AppError, ErrorKind, IoKind};
use crate::journal::{
    journal_records, journal_text, lemma_journal_round_trip, parse_journal, paths_fit, record_fits,
    record_views, RecordView, UndoRecord,
};

verus! {

/// What to do next during an undo.
#[derive(Clone, Copy, Debug, PartialEq, Eq, Structural)]
pub enum UndoStep {
    /// Move entry `i` of the journal back to its original path and give it
    /// back its permission bits.
    Restore(usize),
    /// Every entry is back: remove the journal; the undo succeeded.
    Finish,
    /// Stop with an error of this kind. When `remove_journal` holds the
    /// batch cannot be restored any further and the journal is removed;
    /// otherwise it stays, so that the undo can be tried again.
    Abort { kind: IoKind, remove_journal: bool },
}

/// The step after `done` entries of `count` were moved back, and the last
/// attempt failed with `failure`, if it failed.
pub open spec fn undo_next(count: nat, done: nat, failure: Option<IoKind>) -> UndoStep {
    match failure {
        Some(IoKind::NotFound) => UndoStep::Abort { kind: IoKind::NotFound, remove_journal: true },
        Some(k) => UndoStep::Abort { kind: k, remove_journal: false },
        None => if done < count {
            UndoStep::Restore(done as usize)
        } else {
            UndoStep::Finish
        },
    }
}

/// The step after `done` of `count` entries were moved back; `failure` is
/// the kind of error of the last attempt, if it failed. An entry that is no
/// longer in the trash ends the undo and gives up the journal; any other
/// failure ends it and keeps the journal.
pub fn undo_step(count: usize, done: usize, failure: Option<IoKind>) -> (r: UndoStep)
    ensures
        r == undo_next(count as nat, done as nat, failure),
{
    match failure {
        Some(IoKind::NotFound) => UndoStep::Abort { kind: IoKind::NotFound, remove_journal: true },
        Some(k) => UndoStep::Abort { kind: k, remove_journal: false },
        None => if done < count {
            UndoStep::Restore(done)
        } else {
            UndoStep::Finish
        },
    }
}

/// The entries to move back, from the outcome of reading the journal: a
/// journal that could not be read gives the error of the read, so that no
/// entry is moved; one that could is parsed with [`parse_journal`].
pub fn begin_undo(journal: Result<String, IoKind>) -> (r: Result<Vec<UndoRecord>, AppError>)
    ensures
        journal matches Err(k) ==> (r matches Err(e) && e.kind == io_error_kind(k)),
        journal matches Ok(text) ==> match r {
            Ok(v) => journal_records(text@) == Some(record_views(v@)) && forall|k: int|
                0 <= k < v@.len() ==> #[trigger] v@[k].perms < 512,
            Err(e) => journal_records(text@) is None && e.kind == ErrorKind::JournalParse,
        },
{
    match journal {
        Ok(text) => parse_journal(text.as_str()),
        Err(k) => Err(AppError::from_io(k, String::from_str("cannot read the undo journal"))),
    }
}

/// Undoing a batch whose entries all come back: the journal written for the
/// batch reads back as its entries, the undo moves each of them back in the
/// order in which they were trashed, and then removes the journal.
pub proof fn lemma_undo_restores_batch(rs: Seq<RecordView>)
    requires
        forall|k: int| 0 <= k < rs.len() ==> record_fits(#[trigger] rs[k]),
        rs.len() <= usize::MAX,
    ensures
        journal_records(journal_text(rs)) == Some(rs),
        forall|k: nat| k < rs.len() ==> #[trigger] undo_next(rs.len(), k, None) == UndoStep::Restore(
            k as usize,
        ),
        undo_next(rs.len(), rs.len(), None) == UndoStep::Finish,
{
    lemma_journal_round_trip(rs);
}

/// The entries that a batch's moves write to the journal, one per move, in
/// order: the `k`-th target went to `dests[k]` and had mode `modes[k]`.
pub open spec fn moved_records(
    dests: Seq<Seq<char>>,
    targets: Seq<Seq<char>>,
    modes: Seq<u32>,
) -> Seq<RecordView> {
    Seq::new(
        dests.len(),
        |k: int| RecordView { trash_path: dests[k], original: targets[k], perms: (modes[k] % 512) as nat },
    )
}

/// Undo is the inverse of a batch whose moves all succeeded and whose
/// entries all come back: the journal that the moves wrote reads back as one
/// entry per move, each naming the target's original path and its permission
/// bits before the move; the undo moves each entry back to that path with
/// those bits, in the order of the moves, and then removes the journal.
pub proof fn lemma_undo_inverts_moves(dests: Seq<Seq<char>>, targets: Seq<Seq<char>>, modes: Seq<u32>)
    requires
        targets.len() == dests.len(),
        modes.len() == dests.len(),
        dests.len() <= usize::MAX,
        forall|k: int| 0 <= k < dests.len() ==> paths_fit(#[trigger] dests[k], targets[k]),
    ensures
        journal_records(journal_text(moved_records(dests, targets, modes))) == Some(
            moved_records(dests, targets, modes),
        ),
        forall|k: int|
            0 <= k < dests.len() ==> (#[trigger] moved_records(dests, targets, modes)[k]).trash_path
                == dests[k] && moved_records(dests, targets, modes)[k].original == targets[k]
                && moved_records(dests, targets, modes)[k].perms == modes[k] % 512,
        forall|k: nat| k < dests.len() ==> #[trigger] undo_next(dests.len(), k, None) == UndoStep::Restore(
            k as usize,
        ),
        undo_next(dests.len(), dests.len(), None) == UndoStep::Finish,
{
    let rs = moved_records(dests, targets, modes);
    assert forall|k: int| 0 <= k < rs.len() implies record_fits(#[trigger] rs[k]) by {
        assert(paths_fit(dests[k], targets[k]));
    }
    lemma_undo_restores_batch(rs);
}

} // verus!
