//! The rotation engine: writes data to the active file of a series and
//! "rolls over" to preserve older data in numbered backups.
//!
//! The engine owns an in-memory file series, so every part of its logic is
//! checked: condition evaluation, the rename chain, retention, and the
//! writer lifecycle (lazy open, size tracking, recovery after the writer is
//! released). Its behaviour is stated through a small model
//! ([`EngineModel`]) and one transition function per lifecycle step.

use vstd::prelude::*;

use vstd::pervasive::VecAdditionalExecFns;

use crate::filename::{filename_for_index, spec_filename};
use crate::rolling_condition::RollingCondition;
use crate::rolling_condition_basic::{
    lemma_consecutive_evaluations_bucket, lemma_size_threshold_triggers,
    RollingConditionBasicGeneric,
};
use crate::rotation::{
    apply_actions, apply_fs_action, lemma_apply_actions_push, lemma_rotation_actions_rotate,
    retained_backups, rotation_actions, series_view, spec_retained, spec_rotated,
    spec_rotation_actions,
};
use crate::system_clock::{Clock, SystemClock};
use crate::timestamp::Timestamp;

verus! {

/// The observable state of the engine's file series and writer: the on-disk
/// series, the bytes buffered in the open writer but not yet flushed,
/// whether a writer is open, and the tracked size of the active file.
#[verifier::ext_equal]
pub struct EngineModel {
    /// The file series at rest: index 0 the active file, index `i` backup `.i`.
    pub series: Seq<Option<Seq<u8>>>,
    /// Bytes accepted by the writer but not yet flushed into the active file.
    pub pending: Seq<u8>,
    /// Whether a writer is currently open.
    pub writer_open: bool,
    /// The tracked size of the active file, flushed and pending bytes both.
    pub size: u64,
}

/// Clamps a mathematical size into a `u64`, the engine's saturating size
/// arithmetic.
pub open spec fn sat64(n: int) -> u64 {
    if n > u64::MAX {
        u64::MAX
    } else if n < 0 {
        0
    } else {
        n as u64
    }
}

/// The content of the active file at rest, empty if it is absent.
pub open spec fn active_content(series: Seq<Option<Seq<u8>>>) -> Seq<u8> {
    if series.len() > 0 && series[0] is Some {
        series[0]->0
    } else {
        Seq::empty()
    }
}

/// Flushing moves the pending bytes to the end of the active file; with no
/// writer open it changes nothing.
pub open spec fn m_flush(m: EngineModel) -> EngineModel {
    if m.writer_open {
        EngineModel {
            series: m.series.update(0, Some(active_content(m.series) + m.pending)),
            pending: Seq::empty(),
            ..m
        }
    } else {
        m
    }
}

/// Closing releases the writer and resets the tracked size; it is applied
/// after a flush, so no pending bytes are dropped.
pub open spec fn m_close(m: EngineModel) -> EngineModel {
    EngineModel { pending: Seq::empty(), writer_open: false, size: 0, ..m }
}

/// Rotation shifts the series with `k` retained backups.
pub open spec fn m_rotate(m: EngineModel, k: int) -> EngineModel {
    EngineModel { series: spec_rotated(m.series, k), ..m }
}

/// Opening materializes the active file if absent and re-derives the
/// tracked size from its actual length; with a writer already open it
/// changes nothing.
pub open spec fn m_open(m: EngineModel) -> EngineModel {
    if m.writer_open {
        m
    } else {
        EngineModel {
            series: m.series.update(0, Some(active_content(m.series))),
            pending: Seq::empty(),
            writer_open: true,
            size: sat64(active_content(m.series).len() as int),
            ..m
        }
    }
}

/// Appending adds the buffer to the pending bytes and grows the tracked
/// size, saturating rather than wrapping.
pub open spec fn m_append(m: EngineModel, buf: Seq<u8>) -> EngineModel {
    EngineModel {
        pending: m.pending + buf,
        size: sat64(m.size as int + buf.len() as int),
        ..m
    }
}

/// Writes data to a file series, and "rolls over" to preserve older data in
/// a separate set of files. Old files have a Debian-style naming scheme
/// where we have `base_filename`, `base_filename.1`, ..., `base_filename.N`
/// where `N` is the maximum number of rollover files to keep.
pub struct RollingFileAppenderUtc<RC: RollingCondition> {
    /// Decides before each write whether to roll over first.
    pub condition: RC,
    /// The name of the active file; backups append `.1` ... `.N` to it.
    pub base_filename: String,
    /// The configured maximum number of retained backups.
    pub max_files: usize,
    /// The tracked size of the active file, in bytes.
    pub current_filesize: u64,
    /// The open writer's buffer of not yet flushed bytes, or `None` when no
    /// writer is open.
    pub writer_opt: Option<Vec<u8>>,
    /// The in-memory file series, indexed by backup number.
    pub files: Vec<Option<Vec<u8>>>,
}

impl<RC: RollingCondition> RollingFileAppenderUtc<RC> {
    /// The engine's observable file-series state.
    pub open spec fn model(self) -> EngineModel {
        EngineModel {
            series: series_view(self.files@),
            pending: if self.writer_opt is Some {
                self.writer_opt->0@
            } else {
                Seq::empty()
            },
            writer_open: self.writer_opt is Some,
            size: self.current_filesize,
        }
    }

    /// Well-formedness: the series has one slot per possible index, an open
    /// writer implies the active file exists, the tracked size is exactly
    /// the flushed plus pending bytes (saturated), and a released writer has
    /// a reset size.
    pub open spec fn wf(self) -> bool {
        &&& self.files@.len() == spec_retained(self.max_files) as int + 1
        &&& (self.writer_opt is Some ==> self.model().series[0] is Some)
        &&& (self.writer_opt is Some ==> self.current_filesize == sat64(
            active_content(self.model().series).len() + self.model().pending.len() as int,
        ))
        &&& (self.writer_opt is None ==> self.current_filesize == 0)
    }

    /// The configuration (condition, base name, retention count) is
    /// untouched.
    pub open spec fn same_config(pre: Self, post: Self) -> bool {
        &&& post.condition == pre.condition
        &&& post.base_filename@ == pre.base_filename@
        &&& post.max_files == pre.max_files
    }

    /// The file series of a freshly constructed engine: an empty active
    /// file, an open writer, no backups.
    pub open spec fn fresh_model(k: usize) -> EngineModel {
        EngineModel {
            series: Seq::new(
                k as nat + 1,
                |i: int|
                    if i == 0 {
                        Some(Seq::<u8>::empty())
                    } else {
                        None
                    },
            ),
            pending: Seq::empty(),
            writer_open: true,
            size: 0,
        }
    }

    /// Creates a new rolling file appender with the given condition. The
    /// writer for the active file is opened eagerly.
    pub fn new(base_filename: String, condition: RC, max_files: usize) -> (r: Self)
        ensures
            r.wf(),
            r.condition == condition,
            r.base_filename@ == base_filename@,
            r.max_files == max_files,
            r.model() == Self::fresh_model(spec_retained(max_files)),
    {
        let k = retained_backups(max_files);
        let mut files: Vec<Option<Vec<u8>>> = Vec::new();
        files.push(Some(Vec::new()));
        let mut i: usize = 0;
        while i < k
            invariant
                i <= k,
                files@.len() == i + 1,
                files@[0] is Some,
                files@[0]->0@ == Seq::<u8>::empty(),
                forall|j: int| 1 <= j <= i ==> files@[j] is None,
            decreases k - i,
        {
            files.push(None);
            i = i + 1;
        }
        let r = RollingFileAppenderUtc {
            condition,
            base_filename,
            max_files,
            current_filesize: 0,
            writer_opt: Some(Vec::new()),
            files,
        };
        proof {
            assert(r.model().series =~= Self::fresh_model(k).series);
            assert(r.model() =~= Self::fresh_model(k));
        }
        r
    }

    /// Determines the final filename, where `n == 0` indicates the current
    /// file.
    pub fn filename_for(&self, n: usize) -> (r: String)
        ensures
            r@ == spec_filename(self.base_filename@, n),
    {
        filename_for_index(self.base_filename.as_str(), n)
    }

    /// The file at index `n` of the series, `None` if it is absent or the
    /// index lies beyond the retention bound.
    pub fn read_file(&self, n: usize) -> (r: Option<&Vec<u8>>)
        ensures
            n < self.model().series.len() ==> match self.model().series[n as int] {
                Some(c) => r is Some && r->0@ == c,
                None => r is None,
            },
            n >= self.model().series.len() ==> r is None,
    {
        if n < self.files.len() {
            match &self.files[n] {
                Some(v) => Some(v),
                None => None,
            }
        } else {
            None
        }
    }

    /// Flushes the open writer's pending bytes into the active file.
    /// Calling flush with no writer open succeeds and changes nothing.
    pub fn flush(&mut self)
        requires
            old(self).wf(),
        ensures
            final(self).wf(),
            Self::same_config(*old(self), *final(self)),
            final(self).model() == m_flush(old(self).model()),
            !old(self).model().writer_open ==> *final(self) == *old(self),
    {
        if self.writer_opt.is_some() {
            let w = self.writer_opt.take().unwrap();
            let mut f0opt: Option<Vec<u8>> = None;
            self.files.set_and_swap(0, &mut f0opt);
            proof {
                assert(series_view(old(self).files@)[0] == old(self).model().series[0]);
            }
            let mut f0 = f0opt.unwrap();
            append_bytes(&mut f0, w.as_slice());
            self.files.set(0, Some(f0));
            self.writer_opt = Some(Vec::new());
            proof {
                assert(self.model().series =~= m_flush(old(self).model()).series);
                assert(self.model() =~= m_flush(old(self).model()));
            }
        }
    }

    /// Releases the writer: pending bytes are flushed, the writer is
    /// closed, and the tracked size is reset; the next write will reopen
    /// the active file and re-derive its size from the series.
    pub fn release_writer(&mut self)
        requires
            old(self).wf(),
        ensures
            final(self).wf(),
            Self::same_config(*old(self), *final(self)),
            final(self).model() == m_close(m_flush(old(self).model())),
    {
        self.flush();
        self.writer_opt = None;
        self.current_filesize = 0;
        proof {
            assert(self.model() =~= m_close(m_flush(old(self).model())));
        }
    }

    /// Rotates old files to make room for a new one. This may result in the
    /// deletion of the oldest file.
    fn rotate_files(&mut self)
        requires
            old(self).wf(),
            old(self).writer_opt is None,
        ensures
            final(self).wf(),
            Self::same_config(*old(self), *final(self)),
            final(self).writer_opt is None,
            final(self).model() == m_rotate(
                old(self).model(),
                spec_retained(old(self).max_files) as int,
            ),
    {
        let ghost orig = series_view(old(self).files@);
        let acts = rotation_actions(self.max_files);
        let mut i: usize = 0;
        while i < acts.len()
            invariant
                i <= acts@.len(),
                acts@ == spec_rotation_actions(spec_retained(old(self).max_files)),
                self.condition == old(self).condition,
                self.base_filename == old(self).base_filename,
                self.max_files == old(self).max_files,
                self.writer_opt == old(self).writer_opt,
                self.current_filesize == old(self).current_filesize,
                series_view(self.files@) == apply_actions(orig, acts@.take(i as int)),
            decreases acts@.len() - i,
        {
            proof {
                lemma_apply_actions_push(orig, acts@.take(i as int), acts@[i as int]);
                assert(acts@.take(i as int + 1) =~= acts@.take(i as int).push(acts@[i as int]));
            }
            apply_fs_action(&mut self.files, &acts[i]);
            i = i + 1;
        }
        proof {
            assert(acts@.take(acts@.len() as int) =~= acts@);
            lemma_rotation_actions_rotate(orig, spec_retained(old(self).max_files));
            assert(self.model() =~= m_rotate(
                old(self).model(),
                spec_retained(old(self).max_files) as int,
            ));
        }
    }

    /// Opens a writer for the current file if none is open, creating the
    /// active file if it is absent and re-deriving the tracked size from
    /// the file's actual length rather than assuming zero.
    fn open_writer_if_needed(&mut self)
        requires
            old(self).wf(),
        ensures
            final(self).wf(),
            Self::same_config(*old(self), *final(self)),
            final(self).model() == m_open(old(self).model()),
    {
        if self.writer_opt.is_none() {
            let exists_already = self.files[0].is_some();
            if !exists_already {
                self.files.set(0, Some(Vec::new()));
            }
            let len = match &self.files[0] {
                Some(v) => v.len(),
                None => 0,
            };
            self.current_filesize = len as u64;
            self.writer_opt = Some(Vec::new());
            proof {
                assert(self.model().series =~= m_open(old(self).model()).series);
                assert(self.model() =~= m_open(old(self).model()));
            }
        }
    }

    /// Forces a rollover to happen immediately: pending data is flushed,
    /// the writer is closed, the series is rotated, and the active file is
    /// reopened fresh.
    pub fn rollover(&mut self)
        requires
            old(self).wf(),
        ensures
            final(self).wf(),
            Self::same_config(*old(self), *final(self)),
            final(self).model() == m_open(
                m_rotate(
                    m_close(m_flush(old(self).model())),
                    spec_retained(old(self).max_files) as int,
                ),
            ),
    {
        self.release_writer();
        self.rotate_files();
        self.open_writer_if_needed();
    }

    /// One write step: the condition is evaluated (and observes `now`); a
    /// needed rollover happens before the bytes are accepted; a missing
    /// writer is reopened with the size re-derived; then the whole buffer
    /// is appended.
    pub open spec fn write_transition(pre: Self, post: Self, buf: Seq<u8>, now: Timestamp) -> bool {
        let rolled = pre.condition.spec_should_rollover(now, pre.current_filesize);
        let k = spec_retained(pre.max_files) as int;
        let m1 = if rolled {
            m_rotate(m_close(m_flush(pre.model())), k)
        } else {
            pre.model()
        };
        &&& post.model() == m_append(m_open(m1), buf)
        &&& post.condition == pre.condition.spec_observe(now)
        &&& post.base_filename@ == pre.base_filename@
        &&& post.max_files == pre.max_files
    }

    /// Writes data using the given datetime to calculate the rolling
    /// condition. The whole buffer is accepted, and the number of bytes
    /// written is returned.
    pub fn write_with_datetime(&mut self, buf: &[u8], now: &Timestamp) -> (written: usize)
        requires
            old(self).wf(),
        ensures
            final(self).wf(),
            written == buf@.len(),
            Self::write_transition(*old(self), *final(self), buf@, *now),
    {
        let size = self.current_filesize;
        let rolled = self.condition.should_rollover(now, size);
        if rolled {
            self.rollover();
        }
        self.open_writer_if_needed();
        let mut w = self.writer_opt.take().unwrap();
        append_bytes(&mut w, buf);
        self.writer_opt = Some(w);
        let blen = buf.len();
        let add = blen as u64;
        if self.current_filesize > u64::MAX - add {
            self.current_filesize = u64::MAX;
        } else {
            self.current_filesize = self.current_filesize + add;
        }
        proof {
            let rolledg = old(self).condition.spec_should_rollover(
                *now,
                old(self).current_filesize,
            );
            let k = spec_retained(old(self).max_files) as int;
            let m1 = if rolledg {
                m_rotate(m_close(m_flush(old(self).model())), k)
            } else {
                old(self).model()
            };
            assert(self.model() =~= m_append(m_open(m1), buf@));
        }
        blen
    }

    /// Writes data, resolving "now" from the system clock; behaves as a
    /// timestamped write with some well-formed timestamp.
    pub fn write(&mut self, buf: &[u8]) -> (written: usize)
        requires
            old(self).wf(),
        ensures
            final(self).wf(),
            written == buf@.len(),
            exists|t: Timestamp|
                t.wf() && #[trigger] Self::write_transition(*old(self), *final(self), buf@, t),
    {
        let now = SystemClock::now();
        let written = self.write_with_datetime(buf, &now);
        proof {
            assert(Self::write_transition(*old(self), *self, buf@, now));
        }
        written
    }
}

/// A write that rolls over performs exactly one rotation before the bytes
/// are accepted: the pending bytes are flushed into the active file, which
/// moves to backup 1; every other backup moves one index up; and the fresh
/// active file holds exactly the newly written bytes.
pub proof fn lemma_write_rollover_round_trip<RC: RollingCondition>(
    pre: RollingFileAppenderUtc<RC>,
    post: RollingFileAppenderUtc<RC>,
    buf: Seq<u8>,
    now: Timestamp,
)
    requires
        pre.wf(),
        RollingFileAppenderUtc::write_transition(pre, post, buf, now),
        pre.condition.spec_should_rollover(now, pre.current_filesize),
    ensures
        post.model().series.len() == pre.model().series.len(),
        post.model().series[0] == Some(Seq::<u8>::empty()),
        post.model().pending == buf,
        post.model().size == sat64(buf.len() as int),
        post.model().series[1] == m_flush(pre.model()).series[0],
        pre.model().writer_open ==> post.model().series[1] == Some(
            active_content(pre.model().series) + pre.model().pending,
        ),
        forall|j: int|
            2 <= j <= spec_retained(pre.max_files) ==> post.model().series[j] == m_flush(
                pre.model(),
            ).series[j - 1],
{
    let k = spec_retained(pre.max_files) as int;
    let mf = m_flush(pre.model());
    let mr = m_rotate(m_close(mf), k);
    assert(mf.series.len() == k + 1);
    assert(mr.series[0] is None);
    assert(post.model() == m_append(m_open(mr), buf));
    assert(active_content(mr.series) =~= Seq::<u8>::empty());
    assert(post.model().series[0] == Some(Seq::<u8>::empty()));
    assert(post.model().series[1] == mr.series[1]);
    assert(mr.series[1] == mf.series[0]);
}

/// With a size threshold configured and the tracked size at or beyond it,
/// the next write performs exactly one rotation before the bytes are
/// applied: its transition is the rollover chain followed by a single
/// append.
pub proof fn lemma_size_threshold_write_rotates(
    pre: RollingFileAppenderUtc<RollingConditionBasicGeneric>,
    post: RollingFileAppenderUtc<RollingConditionBasicGeneric>,
    buf: Seq<u8>,
    now: Timestamp,
)
    requires
        pre.wf(),
        RollingFileAppenderUtc::write_transition(pre, post, buf, now),
        pre.condition.max_size_opt is Some,
        pre.current_filesize >= pre.condition.max_size_opt->0,
    ensures
        post.model() == m_append(
            m_open(
                m_rotate(
                    m_close(m_flush(pre.model())),
                    spec_retained(pre.max_files) as int,
                ),
            ),
            buf,
        ),
        post.model().series[1] == m_flush(pre.model()).series[0],
{
    lemma_size_threshold_triggers(pre.condition, now, pre.current_filesize);
    lemma_write_rollover_round_trip(pre, post, buf, now);
}

/// For a frequency-only condition, of two consecutive writes the second
/// rotates exactly when its timestamp leaves the first's bucket: writes in
/// the same bucket never trigger a rotation between them, and a bucket
/// change triggers exactly one rotation, before the second buffer is
/// applied.
pub proof fn lemma_consecutive_writes_bucket_rotation(
    s0: RollingFileAppenderUtc<RollingConditionBasicGeneric>,
    s1: RollingFileAppenderUtc<RollingConditionBasicGeneric>,
    s2: RollingFileAppenderUtc<RollingConditionBasicGeneric>,
    buf1: Seq<u8>,
    buf2: Seq<u8>,
    t1: Timestamp,
    t2: Timestamp,
)
    requires
        RollingFileAppenderUtc::write_transition(s0, s1, buf1, t1),
        RollingFileAppenderUtc::write_transition(s1, s2, buf2, t2),
        s0.condition.frequency_opt is Some,
        s0.condition.max_size_opt is None,
    ensures
        s0.condition.frequency_opt->0.same_bucket(t2, t1) ==> s2.model() == m_append(
            m_open(s1.model()),
            buf2,
        ),
        !s0.condition.frequency_opt->0.same_bucket(t2, t1) ==> s2.model() == m_append(
            m_open(
                m_rotate(
                    m_close(m_flush(s1.model())),
                    spec_retained(s1.max_files) as int,
                ),
            ),
            buf2,
        ),
{
    lemma_consecutive_evaluations_bucket(s0.condition, t1, t2, s1.current_filesize);
    assert(s1.condition == s0.condition.spec_observe(t1));
}

/// Retention at the engine: the series holds exactly `k + 1` slots, one
/// active file and at most `k` backups; no index beyond the retention
/// bound exists at all.
pub proof fn lemma_retention_bound<RC: RollingCondition>(e: RollingFileAppenderUtc<RC>)
    requires
        e.wf(),
    ensures
        e.model().series.len() == spec_retained(e.max_files) as int + 1,
{
}

/// A write that does not roll over leaves the backups untouched: with the
/// writer open, the series at rest is unchanged and the buffer is simply
/// appended to the pending bytes; with the writer released, the active file
/// is materialized in place and its size re-derived first.
pub proof fn lemma_write_no_rollover<RC: RollingCondition>(
    pre: RollingFileAppenderUtc<RC>,
    post: RollingFileAppenderUtc<RC>,
    buf: Seq<u8>,
    now: Timestamp,
)
    requires
        pre.wf(),
        RollingFileAppenderUtc::write_transition(pre, post, buf, now),
        !pre.condition.spec_should_rollover(now, pre.current_filesize),
    ensures
        post.model().series.len() == pre.model().series.len(),
        forall|j: int|
            1 <= j < pre.model().series.len() ==> post.model().series[j]
                == pre.model().series[j],
        pre.model().writer_open ==> post.model().series == pre.model().series,
        pre.model().writer_open ==> post.model().pending == pre.model().pending + buf,
        pre.model().writer_open ==> post.model().size == sat64(
            pre.model().size as int + buf.len() as int,
        ),
        !pre.model().writer_open ==> post.model().series == pre.model().series.update(
            0,
            Some(active_content(pre.model().series)),
        ),
        !pre.model().writer_open ==> post.model().pending == buf,
        !pre.model().writer_open ==> post.model().size == sat64(
            active_content(pre.model().series).len() + buf.len() as int,
        ),
{
    let mo = m_open(pre.model());
    assert(post.model() == m_append(mo, buf));
    if !pre.model().writer_open {
        assert(mo.size == sat64(active_content(pre.model().series).len() as int));
        assert(sat64(mo.size as int + buf.len() as int) == sat64(
            active_content(pre.model().series).len() + buf.len() as int,
        ));
    }
}

/// Appends the bytes of `src` to `dst`.
fn append_bytes(dst: &mut Vec<u8>, src: &[u8])
    ensures
        final(dst)@ == old(dst)@ + src@,
{
    proof {
        assert(dst@ =~= old(dst)@ + src@.take(0));
    }
    let mut i: usize = 0;
    while i < src.len()
        invariant
            i <= src@.len(),
            dst@ == old(dst)@ + src@.take(i as int),
        decreases src@.len() - i,
    {
        dst.push(src[i]);
        proof {
            assert(dst@ =~= old(dst)@ + src@.take(i as int + 1));
        }
        i = i + 1;
    }
    proof {
        assert(src@.take(src@.len() as int) =~= src@);
    }
}

} // verus!
