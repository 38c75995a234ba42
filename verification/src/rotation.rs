//! The rotation plan: the ordered delete/rename sequence that shifts the
//! backup series, a model of what executing it does to a file series, and an
//! in-memory executor for that model.
//!
//! A file series is modelled as a sequence of optional byte strings: index 0
//! is the active file, index `i > 0` the backup with suffix `.i`, `None` an
//! absent file.

use vstd::prelude::*;

use vstd::pervasive::VecAdditionalExecFns;

verus! {

/// One step of the rotation sequence, to be executed against a file series.
#[derive(Clone, Copy, Debug, PartialEq, Eq, Structural)]
pub enum FsAction {
    /// Remove the file at this backup index; absence is not an error.
    Delete { index: usize },
    /// Move the file at index `from` to index `to`, replacing whatever was
    /// there; a missing source leaves both indices untouched.
    Rename { from: usize, to: usize },
}

/// The number of backups retained for a configured `max_files`: at least one
/// backup is always kept.
pub open spec fn spec_retained(max_files: usize) -> usize {
    if max_files < 1 {
        1
    } else {
        max_files
    }
}

/// The number of backups retained for a configured `max_files`.
pub fn retained_backups(max_files: usize) -> (k: usize)
    ensures
        k == spec_retained(max_files),
{
    if max_files < 1 {
        1
    } else {
        max_files
    }
}

/// The rotation sequence for `k` retained backups: delete the backup at
/// index `k`, then rename index `i` to `i + 1` for `i` from `k - 1` down
/// to `0`.
pub open spec fn spec_rotation_actions(k: usize) -> Seq<FsAction> {
    Seq::new(
        k as nat + 1,
        |i: int|
            if i == 0 {
                FsAction::Delete { index: k }
            } else {
                FsAction::Rename { from: (k - i) as usize, to: (k - i + 1) as usize }
            },
    )
}

/// Builds the rotation sequence for a configured `max_files`. Executing its
/// steps in order against the file series performs one full rotation.
pub fn rotation_actions(max_files: usize) -> (acts: Vec<FsAction>)
    ensures
        acts@ == spec_rotation_actions(spec_retained(max_files)),
{
    let k = retained_backups(max_files);
    let mut acts: Vec<FsAction> = Vec::new();
    acts.push(FsAction::Delete { index: k });
    proof {
        assert(acts@ =~= spec_rotation_actions(k).take(1));
    }
    let mut j: usize = k;
    while j > 0
        invariant
            j <= k,
            acts@ == spec_rotation_actions(k).take(k - j + 1),
        decreases j,
    {
        j = j - 1;
        acts.push(FsAction::Rename { from: j, to: j + 1 });
        proof {
            assert(acts@ =~= spec_rotation_actions(k).take(k - j + 1));
        }
    }
    proof {
        assert(acts@ =~= spec_rotation_actions(k));
    }
    acts
}

/// The effect of one rotation step on a file series. A delete empties the
/// slot; a rename moves an existing source over the target and empties the
/// source, and does nothing when the source is absent. Indices beyond the
/// series are absent files, so writing to them is dropped.
pub open spec fn apply_action(fs: Seq<Option<Seq<u8>>>, a: FsAction) -> Seq<Option<Seq<u8>>> {
    match a {
        FsAction::Delete { index } => if index < fs.len() {
            fs.update(index as int, None)
        } else {
            fs
        },
        FsAction::Rename { from, to } => if from < fs.len() && fs[from as int] is Some && from
            != to {
            let moved = fs[from as int];
            let fs1 = if to < fs.len() {
                fs.update(to as int, moved)
            } else {
                fs
            };
            fs1.update(from as int, None)
        } else {
            fs
        },
    }
}

/// The effect of a whole action sequence, applied in order.
pub open spec fn apply_actions(fs: Seq<Option<Seq<u8>>>, acts: Seq<FsAction>) -> Seq<
    Option<Seq<u8>>,
>
    decreases acts.len(),
{
    if acts.len() == 0 {
        fs
    } else {
        apply_actions(apply_action(fs, acts[0]), acts.drop_first())
    }
}

/// The file series after one full rotation with `k` retained backups:
/// the active slot is empty, each slot `1..=k` holds what the slot below it
/// held, and slots above `k` are untouched.
pub open spec fn spec_rotated(fs: Seq<Option<Seq<u8>>>, k: int) -> Seq<Option<Seq<u8>>> {
    Seq::new(
        fs.len(),
        |j: int|
            if j == 0 {
                None
            } else if j <= k {
                fs[j - 1]
            } else {
                fs[j]
            },
    )
}

/// Appending one action applies it after the rest.
pub proof fn lemma_apply_actions_push(fs: Seq<Option<Seq<u8>>>, acts: Seq<FsAction>, a: FsAction)
    ensures
        apply_actions(fs, acts.push(a)) == apply_action(apply_actions(fs, acts), a),
    decreases acts.len(),
{
    if acts.len() == 0 {
        assert(acts.push(a)[0] == a);
        assert(acts.push(a).drop_first() =~= Seq::<FsAction>::empty());
        assert(apply_actions(fs, acts.push(a)) == apply_actions(
            apply_action(fs, a),
            acts.push(a).drop_first(),
        ));
        assert(apply_actions(fs, acts) == fs);
    } else {
        assert(acts.push(a)[0] == acts[0]);
        assert(acts.push(a).drop_first() =~= acts.drop_first().push(a));
        lemma_apply_actions_push(apply_action(fs, acts[0]), acts.drop_first(), a);
    }
}

/// The rename subsequence with sources `c - 1` down to `0`, each moving one
/// index up.
spec fn rename_seq(c: int) -> Seq<FsAction> {
    Seq::new(
        c as nat,
        |i: int| FsAction::Rename { from: (c - 1 - i) as usize, to: (c - i) as usize },
    )
}

/// Running the descending rename chain below an already-vacated slot `c`
/// shifts every slot `0..c` one index up and empties the active slot.
proof fn lemma_rename_chain(fs: Seq<Option<Seq<u8>>>, k: usize, c: int)
    requires
        fs.len() == k as int + 1,
        0 <= c <= k,
        fs[c] is None,
    ensures
        apply_actions(fs, rename_seq(c)) == spec_rotated(fs, c),
    decreases c,
{
    if c == 0 {
        assert(apply_actions(fs, rename_seq(0)) =~= spec_rotated(fs, 0));
    } else {
        let a = rename_seq(c)[0];
        assert(a == (FsAction::Rename { from: (c - 1) as usize, to: c as usize }));
        let fs1 = apply_action(fs, a);
        assert(fs1[c - 1] is None);
        assert(fs1.len() == k as int + 1);
        assert(rename_seq(c).drop_first() =~= rename_seq(c - 1));
        lemma_rename_chain(fs1, k, c - 1);
        assert(spec_rotated(fs1, c - 1) =~= spec_rotated(fs, c));
    }
}

/// Executing the whole rotation sequence on a full-length series yields
/// exactly the rotated series.
pub proof fn lemma_rotation_actions_rotate(fs: Seq<Option<Seq<u8>>>, k: usize)
    requires
        fs.len() == k as int + 1,
    ensures
        apply_actions(fs, spec_rotation_actions(k)) == spec_rotated(fs, k as int),
{
    let acts = spec_rotation_actions(k);
    let fs1 = apply_action(fs, acts[0]);
    assert(fs1 == fs.update(k as int, None));
    assert(acts.drop_first() =~= rename_seq(k as int));
    lemma_rename_chain(fs1, k, k as int);
    assert(spec_rotated(fs1, k as int) =~= spec_rotated(fs, k as int));
}

/// Retention: rotation leaves every slot above `k` exactly as it was and
/// empties the active slot, so at most `k` backups can exist at rest once
/// none existed above `k`.
pub proof fn lemma_rotation_retention(fs: Seq<Option<Seq<u8>>>, k: int)
    requires
        0 <= k,
        forall|j: int| k < j < fs.len() ==> fs[j] is None,
    ensures
        spec_rotated(fs, k).len() == fs.len(),
        fs.len() > 0 ==> spec_rotated(fs, k)[0] is None,
        forall|j: int| k < j < fs.len() ==> spec_rotated(fs, k)[j] is None,
{
    assert forall|j: int| k < j < fs.len() implies spec_rotated(fs, k)[j] is None by {
        if j > 0 {
            assert(spec_rotated(fs, k)[j] == fs[j]);
        }
    }
}

/// Round trip: rotation moves the content of each slot `0..k` exactly one
/// index up, so nothing is duplicated and nothing below the retention bound
/// is lost.
pub proof fn lemma_rotation_round_trip(fs: Seq<Option<Seq<u8>>>, k: int)
    requires
        0 <= k,
    ensures
        forall|j: int| 1 <= j <= k && j < fs.len() ==> spec_rotated(fs, k)[j] == fs[j - 1],
        forall|j: int| k < j < fs.len() ==> spec_rotated(fs, k)[j] == fs[j],
{
    assert forall|j: int| 1 <= j <= k && j < fs.len() implies spec_rotated(fs, k)[j] == fs[j
        - 1] by {
        assert(spec_rotated(fs, k)[j] == fs[j - 1]);
    }
    assert forall|j: int| k < j < fs.len() implies spec_rotated(fs, k)[j] == fs[j] by {
        if j > 0 {
            assert(spec_rotated(fs, k)[j] == fs[j]);
        }
    }
}

/// The reported result of executing one rotation step against a directory.
#[derive(Clone, Copy, Debug, PartialEq, Eq, Structural)]
pub enum ActionOutcome {
    /// The step succeeded.
    Succeeded,
    /// The file to delete or rename was not there; expected when fewer
    /// rotations than the retention bound have happened.
    Missing,
    /// The step failed for another reason.
    Failed,
}

/// The index of the last rename in the sequence that failed, if any: a
/// failed delete is ignored, and a missing rename source is not an error.
pub open spec fn spec_last_failed_rename(
    actions: Seq<FsAction>,
    outcomes: Seq<ActionOutcome>,
) -> Option<int>
    decreases actions.len(),
{
    if actions.len() == 0 {
        None
    } else {
        let l = actions.len() - 1;
        if actions[l] is Rename && outcomes[l] is Failed {
            Some(l)
        } else {
            spec_last_failed_rename(actions.take(l), outcomes.take(l))
        }
    }
}

/// Judges an executed rotation: eviction (delete) failures are ignored,
/// missing rename sources are expected, and of the remaining rename
/// failures the last one encountered is reported, after the whole chain
/// was given its chance to run.
pub fn summarize_rotation(actions: &Vec<FsAction>, outcomes: &Vec<ActionOutcome>) -> (r: Option<
    usize,
>)
    requires
        actions@.len() == outcomes@.len(),
    ensures
        r is Some <==> spec_last_failed_rename(actions@, outcomes@) is Some,
        r is Some ==> r->0 == spec_last_failed_rename(actions@, outcomes@)->0,
        r is Some ==> actions@[r->0 as int] is Rename && outcomes@[r->0 as int] is Failed,
{
    let mut r: Option<usize> = None;
    let mut i: usize = 0;
    while i < actions.len()
        invariant
            i <= actions@.len(),
            actions@.len() == outcomes@.len(),
            r is Some <==> spec_last_failed_rename(actions@.take(i as int), outcomes@.take(i as int)) is Some,
            r is Some ==> r->0 == spec_last_failed_rename(
                actions@.take(i as int),
                outcomes@.take(i as int),
            )->0,
            r is Some ==> r->0 < i,
            r is Some ==> actions@[r->0 as int] is Rename && outcomes@[r->0 as int] is Failed,
        decreases actions@.len() - i,
    {
        let failed_rename = match (&actions[i], &outcomes[i]) {
            (FsAction::Rename { .. }, ActionOutcome::Failed) => true,
            _ => false,
        };
        if failed_rename {
            r = Some(i);
        }
        proof {
            let pa = actions@.take(i as int + 1);
            let po = outcomes@.take(i as int + 1);
            assert(pa.take(i as int) =~= actions@.take(i as int));
            assert(po.take(i as int) =~= outcomes@.take(i as int));
            assert(pa[i as int] == actions@[i as int]);
            assert(po[i as int] == outcomes@[i as int]);
        }
        i = i + 1;
    }
    proof {
        assert(actions@.take(actions@.len() as int) =~= actions@);
        assert(outcomes@.take(outcomes@.len() as int) =~= outcomes@);
    }
    r
}

/// The file series after `n` successive rotations.
pub open spec fn iter_rotated(fs: Seq<Option<Seq<u8>>>, k: int, n: nat) -> Seq<Option<Seq<u8>>>
    decreases n,
{
    if n == 0 {
        fs
    } else {
        spec_rotated(iter_rotated(fs, k, (n - 1) as nat), k)
    }
}

/// Round trip over a series of rotations: what was the active file before
/// `n` rotations (`n` within the retention bound) stands at backup index
/// `n` afterwards.
pub proof fn lemma_iter_rotation_round_trip(fs: Seq<Option<Seq<u8>>>, k: int, n: nat)
    requires
        n <= k,
        k < fs.len(),
    ensures
        iter_rotated(fs, k, n).len() == fs.len(),
        n > 0 ==> iter_rotated(fs, k, n)[n as int] == fs[0],
    decreases n,
{
    if n > 0 {
        lemma_iter_rotation_round_trip(fs, k, (n - 1) as nat);
        let prev = iter_rotated(fs, k, (n - 1) as nat);
        if n == 1 {
            assert(spec_rotated(prev, k)[1] == prev[0]);
        } else {
            assert(spec_rotated(prev, k)[n as int] == prev[n - 1]);
        }
    }
}

/// Applies one rotation step to an in-memory file series, mirroring what
/// executing it against a directory does.
pub fn apply_fs_action(files: &mut Vec<Option<Vec<u8>>>, a: &FsAction)
    ensures
        series_view(final(files)@) == apply_action(series_view(old(files)@), *a),
{
    match a {
        FsAction::Delete { index } => {
            if *index < files.len() {
                files.set(*index, None);
                proof {
                    assert(series_view(files@) =~= apply_action(series_view(old(files)@), *a));
                }
            }
        },
        FsAction::Rename { from, to } => {
            if *from < files.len() && *from != *to && files[*from].is_some() {
                proof {
                    assert(series_view(old(files)@)[*from as int] == file_view(
                        old(files)@[*from as int],
                    ));
                }
                let mut moved: Option<Vec<u8>> = None;
                files.set_and_swap(*from, &mut moved);
                if *to < files.len() {
                    files.set(*to, moved);
                }
                proof {
                    assert(series_view(files@) =~= apply_action(series_view(old(files)@), *a));
                }
            } else {
                proof {
                    if *from < files.len() {
                        assert(series_view(old(files)@)[*from as int] == file_view(
                            old(files)@[*from as int],
                        ));
                    }
                    assert(series_view(old(files)@).len() == old(files)@.len());
                }
            }
        },
    }
}

/// The byte-string view of one optional in-memory file.
pub open spec fn file_view(f: Option<Vec<u8>>) -> Option<Seq<u8>> {
    match f {
        Some(v) => Some(v@),
        None => None,
    }
}

/// The model view of an in-memory file series.
pub open spec fn series_view(files: Seq<Option<Vec<u8>>>) -> Seq<Option<Seq<u8>>> {
    files.map(|i: int, f: Option<Vec<u8>>| file_view(f))
}

} // verus!
