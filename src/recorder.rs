//! The capture session: one recording at a time, its output directory, its
//! start instant and the count of frames written into it, together with the
//! per-tick decisions of the frame capture task bound to it.
use vstd::prelude::*;
use crate::clock::{Timestamp, local_now, lemma_compact_len, lemma_padded_len};
use crate::text::{decimal, join, join_path, padded, push_decimal, push_padded, lemma_decimal_succ_differs, lemma_decimal_last, lemma_join_injective, pow10, no_slash, lemma_concat_no_slash, lemma_padded_no_slash, lemma_decimal_no_slash, lemma_padded_value};

verus! {

/// Why a session operation was refused.
#[derive(Clone, Copy, Debug, PartialEq, Eq, Structural)]
pub enum RecorderError {
    /// A session is already running.
    AlreadyActive,
    /// No session is running.
    NotActive,
    /// The clock reported a date whose year does not have four digits.
    ClockOutOfRange,
}

impl RecorderError {
    /// A short description of the error.
    pub fn message(&self) -> String {
        match self {
            RecorderError::AlreadyActive => "Already recording".to_owned(),
            RecorderError::NotActive => "Not recording".to_owned(),
            RecorderError::ClockOutOfRange => "Clock out of range".to_owned(),
        }
    }
}

/// The abstract state of a recorder.
pub struct RecorderState {
    /// A session is running.
    pub active: bool,
    /// The running session's directory.
    pub output: Option<Seq<char>>,
    /// The running session's start, in seconds of a monotonic clock.
    pub started: Option<u64>,
    /// Frames written in the running session.
    pub frames: nat,
    /// Identifier of the most recently started session.
    pub session: u64,
    /// Timestamped base name of the most recently started session.
    pub last_base: Option<Seq<char>>,
    /// Whether that session's directory name carried the session suffix.
    pub last_suffixed: bool,
}

/// `recording_` followed by the compact timestamp.
pub open spec fn base_name(ts: Timestamp) -> Seq<char> {
    "recording_"@ + ts.compact()
}

/// The identifier that follows `id`.
pub open spec fn next_session(id: u64) -> u64 {
    if id == u64::MAX { 0 } else { (id + 1) as u64 }
}

/// The directory name of the most recently started session.
pub open spec fn last_name(s: RecorderState) -> Option<Seq<char>> {
    match s.last_base {
        Some(b) => Some(if s.last_suffixed { b + seq!['_'] + decimal(s.session as nat) } else { b }),
        None => None,
    }
}

/// Whether a session started at `ts` shares its base name with the previous one.
pub open spec fn repeats_base(s: RecorderState, ts: Timestamp) -> bool {
    s.last_base == Some(base_name(ts))
}

/// The directory name for a session started at `ts`: the base name, with
/// the new session's identifier appended when the previous session had the
/// same base name.
pub open spec fn session_name(s: RecorderState, ts: Timestamp) -> Seq<char> {
    if repeats_base(s, ts) {
        base_name(ts) + seq!['_'] + decimal(next_session(s.session) as nat)
    } else {
        base_name(ts)
    }
}

/// The state after a session is started under `root` at `ts`, at instant `now`.
pub open spec fn after_start(s: RecorderState, root: Seq<char>, ts: Timestamp, now: u64) -> RecorderState {
    RecorderState {
        active: true,
        output: Some(join_path(root, session_name(s, ts))),
        started: Some(now),
        frames: 0,
        session: next_session(s.session),
        last_base: Some(base_name(ts)),
        last_suffixed: repeats_base(s, ts),
    }
}

/// The state after the running session is stopped.
pub open spec fn after_stop(s: RecorderState) -> RecorderState {
    RecorderState { active: false, output: None, started: None, frames: 0, ..s }
}

/// The name of the `n`-th frame file: `frame_` and six or more digits.
pub open spec fn frame_name(n: nat) -> Seq<char> {
    "frame_"@ + padded(n, 6) + ".png"@
}

/// The state after the running session has written one more frame.
pub open spec fn after_frame(s: RecorderState) -> RecorderState {
    RecorderState { frames: s.frames + 1, ..s }
}

/// The state after `k` frames written in a row.
pub open spec fn after_frames(s: RecorderState, k: nat) -> RecorderState
    decreases k,
{
    if k == 0 { s } else { after_frame(after_frames(s, (k - 1) as nat)) }
}

/// Where the next frame of the running session goes.
pub open spec fn next_frame_path(s: RecorderState) -> Seq<char> {
    join_path(s.output.unwrap(), frame_name(s.frames + 1))
}

/// The running session's elapsed seconds at instant `now`.
pub open spec fn elapsed(s: RecorderState, now: u64) -> Option<u64> {
    match s.started {
        Some(t) => Some(if now >= t { (now - t) as u64 } else { 0 }),
        None => None,
    }
}

/// What a capture task holds of its session: the identifier and directory
/// at the moment the session started.
#[derive(Clone, Debug)]
pub struct FrameTask {
    pub session: u64,
    pub dir: String,
}

/// The recorder: the single shared record of whether a session runs, where
/// it writes, since when, and how many frames it has written.
pub struct ScreenRecorder {
    is_recording: bool,
    output_dir: Option<String>,
    start_time: Option<u64>,
    frame_count: usize,
    session: u64,
    last_base: Option<String>,
    last_suffixed: bool,
}

impl View for ScreenRecorder {
    type V = RecorderState;

    closed spec fn view(&self) -> RecorderState {
        RecorderState {
            active: self.is_recording,
            output: match self.output_dir {
                Some(d) => Some(d@),
                None => None,
            },
            started: self.start_time,
            frames: self.frame_count as nat,
            session: self.session,
            last_base: match self.last_base {
                Some(b) => Some(b@),
                None => None,
            },
            last_suffixed: self.last_suffixed,
        }
    }
}

/// The recorder's invariant: a running session has a directory and a start
/// and nothing else does; an idle recorder counts no frames; a base name
/// has the fixed length of a timestamped name.
pub open spec fn state_wf(s: RecorderState) -> bool {
    &&& s.active <==> s.output.is_some()
    &&& s.active <==> s.started.is_some()
    &&& !s.active ==> s.frames == 0
    &&& s.frames < usize::MAX
    &&& (s.last_base matches Some(b) ==> b.len() == 25)
    &&& s.active ==> s.last_base is Some
}

/// Starting a session keeps the invariant, and the started session's name
/// becomes the last directory name.
pub proof fn lemma_start_wf(s: RecorderState, root: Seq<char>, ts: Timestamp, now: u64)
    requires
        state_wf(s),
        !s.active,
        ts.wf(),
    ensures
        state_wf(after_start(s, root, ts, now)),
        last_name(after_start(s, root, ts, now)) == Some(session_name(s, ts)),
{
    reveal_strlit("recording_");
    lemma_compact_len(ts);
}

/// A started session's directory is one path component below the root it
/// was started under: a name of at least 25 characters with no `/` in it.
pub proof fn lemma_session_dir_under_root(s: RecorderState, root: Seq<char>, ts: Timestamp, now: u64)
    requires
        ts.wf(),
    ensures
        after_start(s, root, ts, now).output == Some(join_path(root, session_name(s, ts))),
        session_name(s, ts).len() >= 25,
        no_slash(session_name(s, ts)),
{
    reveal_strlit("recording_");
    lemma_compact_len(ts);
    lemma_padded_no_slash(ts.year as nat, 4);
    lemma_padded_no_slash(ts.month as nat, 2);
    lemma_padded_no_slash(ts.day as nat, 2);
    lemma_padded_no_slash(ts.hour as nat, 2);
    lemma_padded_no_slash(ts.minute as nat, 2);
    lemma_padded_no_slash(ts.second as nat, 2);
    lemma_decimal_no_slash(next_session(s.session) as nat);
    let c = ts.compact();
    assert(no_slash(c)) by {
        let yy = padded(ts.year as nat, 4);
        let mo = padded(ts.month as nat, 2);
        let dd = padded(ts.day as nat, 2);
        let hh = padded(ts.hour as nat, 2);
        let mi = padded(ts.minute as nat, 2);
        let ss = padded(ts.second as nat, 2);
        lemma_concat_no_slash(yy, mo);
        lemma_concat_no_slash(yy + mo, dd);
        lemma_concat_no_slash(yy + mo + dd, seq!['_']);
        lemma_concat_no_slash(yy + mo + dd + seq!['_'], hh);
        lemma_concat_no_slash(yy + mo + dd + seq!['_'] + hh, mi);
        lemma_concat_no_slash(yy + mo + dd + seq!['_'] + hh + mi, ss);
    };
    lemma_concat_no_slash("recording_"@, c);
    if repeats_base(s, ts) {
        lemma_concat_no_slash(base_name(ts), seq!['_']);
        lemma_concat_no_slash(base_name(ts) + seq!['_'], decimal(next_session(s.session) as nat));
    }
}

/// During a session the frame count only grows, one per written frame, and
/// every session starts counting from zero.
pub proof fn lemma_frame_count_monotone(s: RecorderState, k: nat, root: Seq<char>, ts: Timestamp, now: u64)
    ensures
        after_frames(s, k).frames == s.frames + k,
        after_frames(s, k).frames >= s.frames,
        after_frames(s, k).active == s.active,
        after_frames(s, k).session == s.session,
        after_start(s, root, ts, now).frames == 0,
    decreases k,
{
    if k > 0 {
        lemma_frame_count_monotone(s, (k - 1) as nat, root, ts, now);
    }
}

/// Frames with different numbers have different file names.
pub proof fn lemma_frame_names_distinct(m: nat, n: nat)
    requires
        m != n,
    ensures
        frame_name(m) != frame_name(n),
{
    if frame_name(m) == frame_name(n) {
        reveal_strlit("frame_");
        reveal_strlit(".png");
        let a = frame_name(m);
        assert(padded(m, 6) =~= a.subrange(6, a.len() - 4));
        assert(padded(n, 6) =~= frame_name(n).subrange(6, frame_name(n).len() - 4));
        lemma_padded_value(m, 6);
        lemma_padded_value(n, 6);
    }
}

/// Two sessions started one after the other, the first stopped just before
/// the second starts, never share a directory name: when both timestamps
/// give the same base name, the second carries a suffix that the first
/// does not have or that differs from the first's.
pub proof fn lemma_restart_new_name(s: RecorderState, ts: Timestamp)
    requires
        state_wf(s),
        last_name(s) is Some,
        ts.wf(),
    ensures
        session_name(after_stop(s), ts) != last_name(s).unwrap(),
{
    reveal_strlit("recording_");
    lemma_compact_len(ts);
    let b = s.last_base.unwrap();
    let prev = last_name(s).unwrap();
    let next = session_name(after_stop(s), ts);
    if repeats_base(s, ts) {
        let id = next_session(s.session);
        if s.last_suffixed {
            if next == prev {
                assert(decimal(id as nat) =~= next.subrange(26, next.len() as int));
                assert(decimal(s.session as nat) =~= prev.subrange(26, prev.len() as int));
                if s.session == u64::MAX {
                    lemma_decimal_last(id as nat);
                    lemma_decimal_last(s.session as nat);
                } else {
                    lemma_decimal_succ_differs(s.session as nat);
                }
            }
        } else {
            assert(next.len() > prev.len());
        }
    } else {
        if s.last_suffixed {
            assert(next.len() < prev.len());
        }
    }
}

/// Stopping a session and starting the next one under the same root never
/// reuses the stopped session's directory.
pub proof fn lemma_stop_start_fresh_directory(s: RecorderState, root: Seq<char>, ts1: Timestamp, now1: u64, ts2: Timestamp, now2: u64)
    requires
        state_wf(s),
        !s.active,
        ts1.wf(),
        ts2.wf(),
    ensures
        after_start(after_stop(after_start(s, root, ts1, now1)), root, ts2, now2).output
            != after_start(s, root, ts1, now1).output,
{
    let s1 = after_start(s, root, ts1, now1);
    lemma_start_wf(s, root, ts1, now1);
    lemma_restart_new_name(s1, ts2);
    let n1 = session_name(s, ts1);
    let n2 = session_name(after_stop(s1), ts2);
    if join_path(root, n2) == join_path(root, n1) {
        lemma_join_injective(root, n2, n1);
    }
}

/// Within one session the frames are numbered from one without gaps: after
/// `k` frames written since the start, the count is `k` and the next frame
/// is the `k + 1`-th, named with six digits while the number has at most six.
pub proof fn lemma_frame_numbering(s: RecorderState, root: Seq<char>, ts: Timestamp, now: u64, k: nat)
    requires
        state_wf(s),
        !s.active,
        ts.wf(),
    ensures
        after_frames(after_start(s, root, ts, now), k).active,
        after_frames(after_start(s, root, ts, now), k).frames == k,
        after_frames(after_start(s, root, ts, now), k).output == after_start(s, root, ts, now).output,
        next_frame_path(after_frames(after_start(s, root, ts, now), k))
            == join_path(after_start(s, root, ts, now).output.unwrap(), frame_name(k + 1)),
        k + 1 < 1000000 ==> frame_name(k + 1).len() == 16 && padded(k + 1, 6).len() == 6,
    decreases k,
{
    if k > 0 {
        lemma_frame_numbering(s, root, ts, now, (k - 1) as nat);
    }
    if k + 1 < 1000000 {
        reveal_strlit("frame_");
        reveal_strlit(".png");
        reveal_with_fuel(pow10, 7);
        lemma_padded_len(k + 1, 6);
    }
}

impl ScreenRecorder {
    pub open spec fn wf(&self) -> bool {
        state_wf(self@)
    }

    /// An idle recorder that has never started a session.
    pub fn new() -> (r: ScreenRecorder)
        ensures
            r.wf(),
            !r@.active,
            r@.frames == 0,
            r@.last_base.is_none(),
    {
        ScreenRecorder {
            is_recording: false,
            output_dir: None,
            start_time: None,
            frame_count: 0,
            session: 0,
            last_base: None,
            last_suffixed: false,
        }
    }

    /// Starts a session under `output_dir`, named after the timestamp `ts`,
    /// at instant `now`, and returns the session's directory. Refused while a
    /// session runs.
    pub fn start_recording_at(&mut self, output_dir: &str, ts: &Timestamp, now: u64) -> (r: Result<String, RecorderError>)
        requires
            old(self).wf(),
            ts.wf(),
        ensures
            final(self).wf(),
            old(self)@.active ==> r == Err::<String, RecorderError>(RecorderError::AlreadyActive) && final(self)@ == old(self)@,
            !old(self)@.active ==> r is Ok && final(self)@ == after_start(old(self)@, output_dir@, *ts, now)
                && r->Ok_0@ == final(self)@.output.unwrap(),
    {
        if self.is_recording {
            return Err(RecorderError::AlreadyActive);
        }
        let ghost s = self@;
        let prefix = "recording_";
        proof {
            reveal_strlit("recording_");
            lemma_compact_len(*ts);
        }
        let mut base = prefix.to_owned();
        let stamp = ts.to_compact();
        base.append(stamp.as_str());
        assert(base@ == base_name(*ts));
        let repeats = match &self.last_base {
            Some(b) => b.eq(&base),
            None => false,
        };
        let id = if self.session == u64::MAX { 0 } else { self.session + 1 };
        let mut name = base.clone();
        if repeats {
            let sep = "_";
            proof {
                reveal_strlit("_");
            }
            name.append(sep);
            push_decimal(&mut name, id);
        }
        assert(name@ =~= session_name(s, *ts));
        let path = join(output_dir, name.as_str());
        self.is_recording = true;
        self.output_dir = Some(path.clone());
        self.start_time = Some(now);
        self.frame_count = 0;
        self.session = id;
        self.last_base = Some(base);
        self.last_suffixed = repeats;
        Ok(path)
    }

    /// Starts a session under `output_dir`, named after the local time read
    /// from the clock, at instant `now`, and returns the session's directory.
    pub fn start_recording(&mut self, output_dir: &str, now: u64) -> (r: Result<String, RecorderError>)
        requires
            old(self).wf(),
        ensures
            final(self).wf(),
            old(self)@.active ==> r == Err::<String, RecorderError>(RecorderError::AlreadyActive) && final(self)@ == old(self)@,
            !old(self)@.active ==> (r is Err ==> r == Err::<String, RecorderError>(RecorderError::ClockOutOfRange) && final(self)@ == old(self)@),
            !old(self)@.active ==> (r is Ok ==> (exists|ts: Timestamp| ts.wf() && #[trigger] after_start(old(self)@, output_dir@, ts, now) == final(self)@)
                && r->Ok_0@ == final(self)@.output.unwrap()),
    {
        if self.is_recording {
            return Err(RecorderError::AlreadyActive);
        }
        let ts = local_now();
        if !ts.is_valid() {
            return Err(RecorderError::ClockOutOfRange);
        }
        self.start_recording_at(output_dir, &ts, now)
    }

    /// Stops the running session and returns its directory. Refused when no
    /// session runs.
    pub fn stop_recording(&mut self) -> (r: Result<Option<String>, RecorderError>)
        requires
            old(self).wf(),
        ensures
            final(self).wf(),
            !old(self)@.active ==> r == Err::<Option<String>, RecorderError>(RecorderError::NotActive) && final(self)@ == old(self)@,
            old(self)@.active ==> r is Ok && r->Ok_0 is Some && r->Ok_0->Some_0@ == old(self)@.output.unwrap()
                && final(self)@ == after_stop(old(self)@),
    {
        if !self.is_recording {
            return Err(RecorderError::NotActive);
        }
        self.is_recording = false;
        let out = self.output_dir.take();
        self.start_time = None;
        self.frame_count = 0;
        Ok(out)
    }

    /// Whether a session runs.
    pub fn is_recording(&self) -> (r: bool)
        ensures
            r == self@.active,
    {
        self.is_recording
    }

    /// Seconds since the running session started, at instant `now`; `None`
    /// when idle.
    pub fn get_recording_duration(&self, now: u64) -> (r: Option<u64>)
        ensures
            r == elapsed(self@, now),
    {
        match self.start_time {
            Some(t) => Some(if now >= t { now - t } else { 0 }),
            None => None,
        }
    }

    /// The running session's directory.
    pub fn get_output_path(&self) -> (r: Option<String>)
        ensures
            r is Some <==> self@.output is Some,
            r is Some ==> r->Some_0@ == self@.output.unwrap(),
    {
        match &self.output_dir {
            Some(d) => Some(d.clone()),
            None => None,
        }
    }

    /// Frames written in the running session.
    pub fn get_frame_count(&self) -> (r: usize)
        ensures
            r as nat == self@.frames,
    {
        self.frame_count
    }

    /// The capture task for the running session: its identifier and
    /// directory.
    pub fn frame_task(&self) -> (r: Option<FrameTask>)
        requires
            self.wf(),
        ensures
            r is Some <==> self@.active,
            r matches Some(t) ==> t.session == self@.session && t.dir@ == self@.output.unwrap(),
    {
        if self.is_recording {
            match &self.output_dir {
                Some(d) => Some(FrameTask { session: self.session, dir: d.clone() }),
                None => None,
            }
        } else {
            None
        }
    }

    /// One tick of `task`: the path of the next frame to write, or `None`
    /// when the task's session has ended and the task must stop.
    pub fn next_frame(&self, task: &FrameTask) -> (r: Option<String>)
        requires
            self.wf(),
        ensures
            r is Some <==> self@.active && task.session == self@.session,
            r matches Some(p) ==> p@ == join_path(task.dir@, frame_name(self@.frames + 1)),
    {
        if !self.is_recording || task.session != self.session {
            return None;
        }
        let mut name = "frame_".to_owned();
        let ext = ".png";
        proof {
            reveal_strlit("frame_");
        }
        push_padded(&mut name, (self.frame_count as u64) + 1, 6);
        name.append(ext);
        assert(name@ =~= frame_name(self@.frames + 1));
        Some(join(task.dir.as_str(), name.as_str()))
    }

    /// Records that `task` wrote its frame. Counts it only while the task's
    /// session is the running one.
    pub fn frame_written(&mut self, task: &FrameTask)
        requires
            old(self).wf(),
        ensures
            final(self).wf(),
            old(self)@.active && task.session == old(self)@.session && old(self)@.frames + 1 < usize::MAX
                ==> final(self)@ == after_frame(old(self)@),
            !(old(self)@.active && task.session == old(self)@.session && old(self)@.frames + 1 < usize::MAX)
                ==> final(self)@ == old(self)@,
            final(self)@.frames >= old(self)@.frames,
    {
        if self.is_recording && task.session == self.session && self.frame_count < usize::MAX - 1 {
            self.frame_count = self.frame_count + 1;
        }
    }
}

impl Default for ScreenRecorder {
    /// The same as [`ScreenRecorder::new`].
    fn default() -> (r: Self)
        ensures
            r.wf(),
            !r@.active,
            r@.frames == 0,
            r@.last_base.is_none(),
    {
        ScreenRecorder::new()
    }
}

} // verus!
