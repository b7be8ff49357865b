//! Path set utilities: what a glob expansion found, and what a batch of
//! removals left behind.
//!
//! The caller walks the file system and removes the files; the functions
//! here decide what counts as found, what counts as failed, and when the
//! whole operation is an error.

use crate::error::SamplerError;
use vstd::prelude::*;

verus! {

/// The character sequences of a list of strings.
pub open spec fn texts(strings: Seq<String>) -> Seq<Seq<char>> {
    Seq::new(strings.len(), |i: int| strings[i]@)
}

/// One entry that the expansion of a pattern came across.
#[derive(Clone, Debug, PartialEq, Eq)]
pub enum Listed {
    /// A path that matches the pattern.
    Found { path: String },
    /// An entry that could not be examined (permission denied, removed in
    /// the meantime).
    Unreadable,
}

/// What expanding a glob pattern against the file system gave.
#[derive(Clone, Debug, PartialEq, Eq)]
pub enum Expansion {
    /// The pattern is syntactically malformed near this character position.
    Malformed { position: usize },
    /// The entries that the walk came across, in the order of the walk.
    Entries { entries: Vec<Listed> },
}

/// The paths among `entries`, in their order; unreadable entries are left
/// out.
pub open spec fn readable(entries: Seq<Listed>) -> Seq<Seq<char>>
    decreases entries.len(),
{
    if entries.len() == 0 {
        Seq::empty()
    } else {
        match entries.last() {
            Listed::Found { path } => readable(entries.drop_last()).push(path@),
            Listed::Unreadable => readable(entries.drop_last()),
        }
    }
}

/// What discovery returns for an expansion.
pub open spec fn discovered(expansion: Expansion) -> Result<Seq<Seq<char>>, SamplerError> {
    match expansion {
        Expansion::Malformed { position } => Err(SamplerError::InvalidPattern { position }),
        Expansion::Entries { entries } => Ok(readable(entries@)),
    }
}

/// The paths that match a pattern, given what its expansion came across.
///
/// A malformed pattern is an `InvalidPattern` error. Entries that could not
/// be examined are silently left out; a pattern that matches nothing gives
/// an empty list, not an error.
pub fn get_files(expansion: &Expansion) -> (found: Result<Vec<String>, SamplerError>)
    ensures
        match found {
            Ok(paths) => discovered(*expansion) == Ok::<Seq<Seq<char>>, SamplerError>(
                texts(paths@),
            ),
            Err(e) => discovered(*expansion) == Err::<Seq<Seq<char>>, SamplerError>(e),
        },
{
    match expansion {
        Expansion::Malformed { position } => Err(
            SamplerError::InvalidPattern { position: *position },
        ),
        Expansion::Entries { entries } => {
            let mut paths: Vec<String> = Vec::new();
            let mut i: usize = 0;
            while i < entries.len()
                invariant
                    i <= entries.len(),
                    texts(paths@) == readable(entries@.take(i as int)),
                decreases entries.len() - i,
            {
                assert(entries@.take(i + 1).drop_last() =~= entries@.take(i as int));
                match &entries[i] {
                    Listed::Found { path } => {
                        paths.push(path.clone());
                    },
                    Listed::Unreadable => {},
                }
                i = i + 1;
            }
            assert(entries@.take(i as int) =~= entries@);
            Ok(paths)
        },
    }
}

/// One attempt to remove a file.
#[derive(Clone, Debug, PartialEq, Eq)]
pub struct Removal {
    /// The path that was to be removed.
    pub path: String,
    /// `None` if the file was removed, else the description of the I/O
    /// failure.
    pub failure: Option<String>,
}

/// A path that could not be removed, and why.
#[derive(Clone, Debug, PartialEq, Eq)]
pub struct Failure {
    pub path: String,
    pub reason: String,
}

/// The removals that failed in one batch, in the order of the attempts.
#[derive(Clone, Debug, PartialEq, Eq)]
pub struct CleanupBatch {
    pub failed: Vec<Failure>,
}

impl View for CleanupBatch {
    type V = Seq<(Seq<char>, Seq<char>)>;

    open spec fn view(&self) -> Seq<(Seq<char>, Seq<char>)> {
        Seq::new(self.failed@.len(), |i: int| (self.failed@[i].path@, self.failed@[i].reason@))
    }
}

/// The failed attempts among `attempts`, each as path and reason, in their
/// order.
pub open spec fn failures(attempts: Seq<Removal>) -> Seq<(Seq<char>, Seq<char>)>
    decreases attempts.len(),
{
    if attempts.len() == 0 {
        Seq::empty()
    } else {
        match attempts.last().failure {
            Some(reason) => failures(attempts.drop_last()).push((attempts.last().path@, reason@)),
            None => failures(attempts.drop_last()),
        }
    }
}

/// A batch reports a path if and only if an attempt on that path failed,
/// and then with that attempt's reason: removals that succeeded are never
/// reported, and no failure is dropped.
pub proof fn lemma_failures_exact(attempts: Seq<Removal>, path: Seq<char>, reason: Seq<char>)
    ensures
        failures(attempts).contains((path, reason)) <==> exists|i: int|
            0 <= i < attempts.len() && (#[trigger] attempts[i]).path@ == path
                && attempts[i].failure.is_some() && attempts[i].failure.unwrap()@ == reason,
    decreases attempts.len(),
{
    if attempts.len() > 0 {
        let rest = attempts.drop_last();
        let last = attempts.last();
        lemma_failures_exact(rest, path, reason);
        if failures(attempts).contains((path, reason)) {
            let k = choose|k: int|
                0 <= k < failures(attempts).len() && failures(attempts)[k] == (path, reason);
            if k < failures(rest).len() {
                assert(failures(rest)[k] == (path, reason));
                assert(failures(rest).contains((path, reason)));
                let i = choose|i: int|
                    0 <= i < rest.len() && (#[trigger] rest[i]).path@ == path
                        && rest[i].failure.is_some() && rest[i].failure.unwrap()@ == reason;
                assert(attempts[i] == rest[i]);
            } else {
                assert(attempts[attempts.len() - 1] == last);
            }
        }
        if exists|i: int|
            0 <= i < attempts.len() && (#[trigger] attempts[i]).path@ == path
                && attempts[i].failure.is_some() && attempts[i].failure.unwrap()@ == reason {
            let i = choose|i: int|
                0 <= i < attempts.len() && (#[trigger] attempts[i]).path@ == path
                    && attempts[i].failure.is_some() && attempts[i].failure.unwrap()@ == reason;
            if i < rest.len() {
                assert(rest[i] == attempts[i]);
                let k = choose|k: int|
                    0 <= k < failures(rest).len() && failures(rest)[k] == (path, reason);
                assert(failures(attempts)[k] == (path, reason));
            } else {
                assert(failures(attempts).last() == (path, reason));
            }
        }
    }
}

/// Sums up a batch of removals, every one of which was attempted whatever
/// became of the others: `Ok` if and only if none failed, else the failures
/// in the order of the attempts.
pub fn remove_files(attempts: &Vec<Removal>) -> (outcome: Result<(), CleanupBatch>)
    ensures
        match outcome {
            Ok(()) => failures(attempts@).len() == 0,
            Err(batch) => batch@ == failures(attempts@) && batch@.len() > 0,
        },
{
    let mut failed: Vec<Failure> = Vec::new();
    let mut i: usize = 0;
    while i < attempts.len()
        invariant
            i <= attempts.len(),
            (CleanupBatch { failed })@ == failures(attempts@.take(i as int)),
        decreases attempts.len() - i,
    {
        assert(attempts@.take(i + 1).drop_last() =~= attempts@.take(i as int));
        match &attempts[i].failure {
            Some(reason) => {
                failed.push(Failure { path: attempts[i].path.clone(), reason: reason.clone() });
            },
            None => {},
        }
        i = i + 1;
    }
    assert(attempts@.take(i as int) =~= attempts@);
    if failed.len() == 0 {
        Ok(())
    } else {
        Err(CleanupBatch { failed })
    }
}

/// The paths found by several expansions, one after the other; an
/// expansion whose pattern is malformed adds nothing.
pub open spec fn cleanup_targets(expansions: Seq<Expansion>) -> Seq<Seq<char>>
    decreases expansions.len(),
{
    if expansions.len() == 0 {
        Seq::empty()
    } else {
        match discovered(expansions.last()) {
            Ok(paths) => cleanup_targets(expansions.drop_last()) + paths,
            Err(_) => cleanup_targets(expansions.drop_last()),
        }
    }
}

/// The stale files to remove before a run: everything that the expansions
/// of the cleanup patterns found, in the order of the patterns. A pattern
/// that cannot be expanded is passed over.
pub fn cleanup_temporary_files(expansions: &Vec<Expansion>) -> (targets: Vec<String>)
    ensures
        texts(targets@) == cleanup_targets(expansions@),
{
    let mut targets: Vec<String> = Vec::new();
    let mut i: usize = 0;
    while i < expansions.len()
        invariant
            i <= expansions.len(),
            texts(targets@) == cleanup_targets(expansions@.take(i as int)),
        decreases expansions.len() - i,
    {
        assert(expansions@.take(i + 1).drop_last() =~= expansions@.take(i as int));
        match get_files(&expansions[i]) {
            Ok(mut paths) => {
                targets.append(&mut paths);
            },
            Err(_) => {},
        }
        i = i + 1;
    }
    assert(expansions@.take(i as int) =~= expansions@);
    targets
}

} // verus!
