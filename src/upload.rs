use vstd::prelude::*;
use crate::paths::{
    has_parent, has_parent_component, is_within, join_path, join_spec, strip_leading_separators, strip_seps,
    within,
};
use crate::status::{Code, Status};

verus! {

/// One message of an upload stream. `filename` and `target_dir` are read on
/// the first chunk only; `eof` marks the last chunk, which may carry data.
#[derive(Debug)]
pub struct TransferChunk {
    pub filename: String,
    pub target_dir: String,
    pub data: Vec<u8>,
    pub eof: bool,
}

/// Where an upload goes: the directory to create and the file inside it.
#[derive(Debug)]
pub struct UploadTarget {
    pub dir: String,
    pub file: String,
}

/// The phases of one upload call.
///
/// `Resolving`, `Locking`, `Creating`, `Writing` and `Receiving` are the writing phase,
/// split by the outside step the session waits for; the lock is held exactly
/// in `Creating`, `Writing` and `Receiving`. The last transition into
/// `Completed` or `Failed` is the finalizing one: it hands back the lock.
#[derive(Debug)]
pub enum SessionState {
    AwaitingFirstChunk,
    /// The first chunk named a file; its canonical form was asked for.
    Resolving { target: UploadTarget, data: Vec<u8>, eof: bool },
    /// The target lies within the root; the lock `key` was asked for.
    Locking { target: UploadTarget, key: String, data: Vec<u8>, eof: bool },
    /// The lock `key` is held; the directory and the file are being created.
    Creating { target: UploadTarget, key: String, data: Vec<u8>, eof: bool },
    /// `pending` bytes are being appended after `written` bytes.
    Writing { target: UploadTarget, key: String, written: u64, pending: usize, eof: bool },
    /// `written` bytes are on disk; the next chunk is awaited.
    Receiving { target: UploadTarget, key: String, written: u64 },
    Completed { written: u64 },
    Failed { code: Code },
}

/// What the driver of a session reports back.
#[derive(Debug)]
pub enum Event {
    /// The next message of the stream.
    Chunk(TransferChunk),
    /// The stream ended cleanly.
    StreamClosed,
    /// The transport ended the stream with an error.
    StreamFailed,
    /// How the target file resolves: the canonical root, the canonical form
    /// of the longest leading part of the target path that exists (the file
    /// itself where it exists), and the rest of the path, which does not exist
    /// yet. A `None` is a canonicalization that failed.
    Resolved { canonical_root: Option<String>, canonical_existing: Option<String>, missing: String },
    /// The lock registry granted the lock asked for, or refused it.
    Lock { acquired: bool },
    /// The directory chain and the file were created, or the error.
    Created(Result<(), String>),
    /// The pending data was appended, or the error.
    Wrote(Result<(), String>),
}

/// What the driver of a session does next.
#[derive(Debug)]
pub enum Action {
    /// Canonicalize the root and the longest existing part of `file`, and
    /// report `Event::Resolved`.
    Resolve { file: String },
    /// Take the registry's lock for `key` and report `Event::Lock`.
    AcquireLock { key: String },
    /// Create `dir` with its parents, then `file`, and report `Event::Created`.
    Create { dir: String, file: String },
    /// Append `data` to the open file and report `Event::Wrote`.
    Write { data: Vec<u8> },
    /// Read the next message of the stream.
    Receive,
    /// End the call: release the lock `release`, delete the partial file
    /// `discard`, and answer with `outcome` (the byte count on success).
    Finish { release: Option<String>, discard: Option<String>, outcome: Result<u64, Status> },
    /// The session has ended; nothing is left to do.
    Idle,
}

/// A server-side upload session under the sandbox root `root`.
pub struct UploadSession {
    pub root: String,
    pub state: SessionState,
}

pub open spec fn opt_str(o: Option<String>) -> Option<Seq<char>> {
    match o {
        Some(s) => Some(s@),
        None => None,
    }
}

/// The directory that an upload names under `root`.
pub open spec fn upload_dir_spec(root: Seq<char>, target_dir: Seq<char>) -> Seq<char> {
    join_spec(root, strip_seps(target_dir))
}

/// The file that an upload names under `root`.
pub open spec fn upload_file_spec(root: Seq<char>, target_dir: Seq<char>, filename: Seq<char>) -> Seq<char> {
    join_spec(upload_dir_spec(root, target_dir), filename)
}

/// The sandbox check of an upload, on the canonical form of its target: the
/// existing part must lie within the canonical root, and the part that does
/// not exist yet (which canonicalization could not resolve) must hold no
/// `..` component.
pub open spec fn stays_in_root(canonical_root: Seq<char>, canonical_existing: Seq<char>, missing: Seq<char>) -> bool {
    within(canonical_root, canonical_existing) && !has_parent(missing)
}

/// The lock key of a target: its canonical path, made of the canonical
/// existing part and the part that does not exist yet.
pub open spec fn key_spec(canonical_existing: Seq<char>, missing: Seq<char>) -> Seq<char> {
    join_spec(canonical_existing, missing)
}

pub open spec fn holds_lock(s: SessionState) -> bool {
    s is Creating || s is Writing || s is Receiving
}

pub open spec fn lock_key(s: SessionState) -> Seq<char> {
    match s {
        SessionState::Locking { key, .. } => key@,
        SessionState::Creating { key, .. } => key@,
        SessionState::Writing { key, .. } => key@,
        SessionState::Receiving { key, .. } => key@,
        _ => Seq::empty(),
    }
}

pub open spec fn target_file(s: SessionState) -> Seq<char> {
    match s {
        SessionState::Resolving { target, .. } => target.file@,
        SessionState::Locking { target, .. } => target.file@,
        SessionState::Creating { target, .. } => target.file@,
        SessionState::Writing { target, .. } => target.file@,
        SessionState::Receiving { target, .. } => target.file@,
        _ => Seq::empty(),
    }
}

/// Whether the file has been created, so that a failure leaves a partial file.
pub open spec fn file_open(s: SessionState) -> bool {
    s is Writing || s is Receiving
}

pub open spec fn is_terminal(s: SessionState) -> bool {
    s is Completed || s is Failed
}

/// The session ends in `Failed` with `code`, handing the lock back when it
/// held one and deleting the partial file when one was created.
pub open spec fn fails(s: SessionState, s2: SessionState, a: Action, code: Code) -> bool {
    &&& s2 matches SessionState::Failed { code: c } && c == code
    &&& a matches Action::Finish { release, discard, outcome }
    &&& opt_str(release) == (if holds_lock(s) { Some(lock_key(s)) } else { None::<Seq<char>> })
    &&& opt_str(discard) == (if file_open(s) { Some(target_file(s)) } else { None::<Seq<char>> })
    &&& outcome matches Err(e) && e.code == code
}

/// One transition of the session, from `s` on event `e` to `s2`, with action `a`.
pub open spec fn step_spec(root: Seq<char>, s: SessionState, e: Event, s2: SessionState, a: Action) -> bool {
    match s {
        SessionState::AwaitingFirstChunk => match e {
            Event::Chunk(c) => if c.filename@.len() == 0 {
                fails(s, s2, a, Code::InvalidArgument)
            } else {
                &&& s2 matches SessionState::Resolving { target, data, eof }
                &&& target.dir@ == upload_dir_spec(root, c.target_dir@)
                &&& target.file@ == upload_file_spec(root, c.target_dir@, c.filename@)
                &&& data@ == c.data@
                &&& eof == c.eof
                &&& a matches Action::Resolve { file } && file@ == target.file@
            },
            Event::StreamClosed => fails(s, s2, a, Code::Internal),
            Event::StreamFailed => fails(s, s2, a, Code::Aborted),
            _ => fails(s, s2, a, Code::Internal),
        },
        SessionState::Resolving { target, data, eof } => match e {
            Event::Resolved { canonical_root, canonical_existing, missing } => match canonical_root {
                None => fails(s, s2, a, Code::Internal),
                Some(r) => match canonical_existing {
                    None => fails(s, s2, a, Code::NotFound),
                    Some(x) => if !stays_in_root(r@, x@, missing@) {
                        fails(s, s2, a, Code::PermissionDenied)
                    } else {
                        &&& s2 matches SessionState::Locking { target: t2, key, data: d2, eof: e2 }
                        &&& t2.dir@ == target.dir@ && t2.file@ == target.file@
                        &&& key@ == key_spec(x@, missing@) && d2@ == data@ && e2 == eof
                        &&& a matches Action::AcquireLock { key: k } && k@ == key@
                    },
                },
            },
            _ => fails(s, s2, a, Code::Internal),
        },
        SessionState::Locking { target, key, data, eof } => match e {
            Event::Lock { acquired } => if acquired {
                &&& s2 matches SessionState::Creating { target: t2, key: k2, data: d2, eof: e2 }
                &&& t2.dir@ == target.dir@ && t2.file@ == target.file@
                &&& k2@ == key@ && d2@ == data@ && e2 == eof
                &&& a matches Action::Create { dir, file }
                &&& dir@ == target.dir@ && file@ == target.file@
            } else {
                fails(s, s2, a, Code::Unavailable)
            },
            _ => fails(s, s2, a, Code::Internal),
        },
        SessionState::Creating { target, key, data, eof } => match e {
            Event::Created(Ok(())) => {
                &&& s2 matches SessionState::Writing { target: t2, key: k2, written, pending, eof: e2 }
                &&& t2.dir@ == target.dir@ && t2.file@ == target.file@
                &&& k2@ == key@ && written == 0 && pending == data.len() && e2 == eof
                &&& a matches Action::Write { data: d2 } && d2@ == data@
            },
            _ => fails(s, s2, a, Code::Internal),
        },
        SessionState::Writing { target, key, written, pending, eof } => match e {
            Event::Wrote(Ok(())) => if written + pending > u64::MAX {
                fails(s, s2, a, Code::Internal)
            } else if eof {
                &&& s2 matches SessionState::Completed { written: w2 } && w2 == written + pending
                &&& a matches Action::Finish { release, discard, outcome }
                &&& opt_str(release) == Some(key@)
                &&& discard is None
                &&& outcome == Ok::<u64, Status>((written + pending) as u64)
            } else {
                &&& s2 matches SessionState::Receiving { target: t2, key: k2, written: w2 }
                &&& t2.dir@ == target.dir@ && t2.file@ == target.file@
                &&& k2@ == key@ && w2 == written + pending
                &&& a is Receive
            },
            _ => fails(s, s2, a, Code::Internal),
        },
        SessionState::Receiving { target, key, written } => match e {
            Event::Chunk(c) => {
                &&& s2 matches SessionState::Writing { target: t2, key: k2, written: w2, pending, eof }
                &&& t2.dir@ == target.dir@ && t2.file@ == target.file@
                &&& k2@ == key@ && w2 == written && pending == c.data.len() && eof == c.eof
                &&& a matches Action::Write { data } && data@ == c.data@
            },
            Event::StreamClosed => fails(s, s2, a, Code::Aborted),
            Event::StreamFailed => fails(s, s2, a, Code::Aborted),
            _ => fails(s, s2, a, Code::Internal),
        },
        SessionState::Completed { written } => s2 matches SessionState::Completed { written: w2 } && w2 == written && a is Idle,
        SessionState::Failed { code } => s2 matches SessionState::Failed { code: c2 } && c2 == code && a is Idle,
    }
}

fn msg(s: &str) -> (r: String)
    ensures
        r@ == s@,
{
    String::from_str(s)
}

impl UploadSession {
    /// A session that awaits the first chunk of a stream.
    pub fn new(root: String) -> (r: UploadSession)
        ensures
            r.root@ == root@,
            r.state is AwaitingFirstChunk,
    {
        UploadSession { root, state: SessionState::AwaitingFirstChunk }
    }

    pub fn is_finished(&self) -> (r: bool)
        ensures
            r == is_terminal(self.state),
    {
        match self.state {
            SessionState::Completed { .. } | SessionState::Failed { .. } => true,
            _ => false,
        }
    }

    /// Ends the session in `Failed` with `code`, handing back what it holds.
    fn fail(&mut self, old_state: SessionState, code: Code, message: String) -> (a: Action)
        requires
            !is_terminal(old_state),
        ensures
            final(self).root@ == old(self).root@,
            fails(old_state, final(self).state, a, code),
    {
        let (release, discard) = match old_state {
            SessionState::Creating { key, .. } => (Some(key), None),
            SessionState::Writing { target, key, .. } => (Some(key), Some(target.file)),
            SessionState::Receiving { target, key, .. } => (Some(key), Some(target.file)),
            _ => (None, None),
        };
        self.state = SessionState::Failed { code };
        Action::Finish { release, discard, outcome: Err(Status::new(code, message)) }
    }

    /// Advances the session by one event and says what to do next.
    ///
    /// The first chunk must name a file (`InvalidArgument`). Its target must
    /// then resolve within the root, checked on canonical paths
    /// (`PermissionDenied`; `Internal` when the root cannot be canonicalized,
    /// `NotFound` when no part of the target can); the lock is keyed by the
    /// target's canonical path. A held lock fails the call with `Unavailable`
    /// before anything on disk is touched; a failed creation or write fails it
    /// with `Internal`; a stream that ends before the `eof` chunk fails it with
    /// `Aborted`, or with `Internal` when no chunk came at all. Every exit after
    /// the lock was taken releases it exactly once, and every failure after the
    /// file was created discards the partial file.
    pub fn step(&mut self, ev: Event) -> (a: Action)
        ensures
            final(self).root@ == old(self).root@,
            step_spec(old(self).root@, old(self).state, ev, final(self).state, a),
    {
        let mut st = SessionState::AwaitingFirstChunk;
        std::mem::swap(&mut st, &mut self.state);
        match st {
            SessionState::AwaitingFirstChunk => match ev {
                Event::Chunk(c) => {
                    if c.filename.unicode_len() == 0 {
                        return self.fail(st, Code::InvalidArgument, msg("file name cannot be empty"));
                    }
                    let dir = join_path(self.root.as_str(), strip_leading_separators(c.target_dir.as_str()));
                    let file = join_path(dir.as_str(), c.filename.as_str());
                    let target = UploadTarget { dir, file: file.clone() };
                    self.state = SessionState::Resolving { target, data: c.data, eof: c.eof };
                    Action::Resolve { file }
                },
                Event::StreamClosed => self.fail(st, Code::Internal, msg("no data received")),
                Event::StreamFailed => self.fail(st, Code::Aborted, msg("stream ended with an error")),
                _ => self.fail(st, Code::Internal, msg("unexpected event")),
            },
            SessionState::Resolving { target, data, eof } => match ev {
                Event::Resolved { canonical_root, canonical_existing, missing } => match canonical_root {
                    None => self.fail(
                        SessionState::Resolving { target, data, eof },
                        Code::Internal,
                        msg("server base directory is invalid or inaccessible"),
                    ),
                    Some(r) => match canonical_existing {
                        None => self.fail(
                            SessionState::Resolving { target, data, eof },
                            Code::NotFound,
                            msg("upload path cannot be resolved"),
                        ),
                        Some(x) => {
                            if !is_within(r.as_str(), x.as_str()) || has_parent_component(missing.as_str()) {
                                self.fail(
                                    SessionState::Resolving { target, data, eof },
                                    Code::PermissionDenied,
                                    msg("access to this path is denied"),
                                )
                            } else {
                                let key = join_path(x.as_str(), missing.as_str());
                                let a = Action::AcquireLock { key: key.clone() };
                                self.state = SessionState::Locking { target, key, data, eof };
                                a
                            }
                        },
                    },
                },
                _ => self.fail(SessionState::Resolving { target, data, eof }, Code::Internal, msg("unexpected event")),
            },
            SessionState::Locking { target, key, data, eof } => match ev {
                Event::Lock { acquired } => {
                    if acquired {
                        let a = Action::Create { dir: target.dir.clone(), file: target.file.clone() };
                        self.state = SessionState::Creating { target, key, data, eof };
                        a
                    } else {
                        self.fail(
                            SessionState::Locking { target, key, data, eof },
                            Code::Unavailable,
                            msg("file is being written by another client"),
                        )
                    }
                },
                _ => self.fail(SessionState::Locking { target, key, data, eof }, Code::Internal, msg("unexpected event")),
            },
            SessionState::Creating { target, key, data, eof } => match ev {
                Event::Created(Ok(())) => {
                    let pending = data.len();
                    self.state = SessionState::Writing { target, key, written: 0, pending, eof };
                    Action::Write { data }
                },
                Event::Created(Err(e)) => self.fail(SessionState::Creating { target, key, data, eof }, Code::Internal, e),
                _ => self.fail(SessionState::Creating { target, key, data, eof }, Code::Internal, msg("unexpected event")),
            },
            SessionState::Writing { target, key, written, pending, eof } => match ev {
                Event::Wrote(Ok(())) => {
                    if pending as u64 > u64::MAX - written {
                        return self.fail(
                            SessionState::Writing { target, key, written, pending, eof },
                            Code::Internal,
                            msg("byte count overflow"),
                        );
                    }
                    let total = written + pending as u64;
                    if eof {
                        self.state = SessionState::Completed { written: total };
                        Action::Finish { release: Some(key), discard: None, outcome: Ok(total) }
                    } else {
                        self.state = SessionState::Receiving { target, key, written: total };
                        Action::Receive
                    }
                },
                Event::Wrote(Err(e)) => self.fail(SessionState::Writing { target, key, written, pending, eof }, Code::Internal, e),
                _ => self.fail(SessionState::Writing { target, key, written, pending, eof }, Code::Internal, msg("unexpected event")),
            },
            SessionState::Receiving { target, key, written } => match ev {
                Event::Chunk(c) => {
                    let pending = c.data.len();
                    self.state = SessionState::Writing { target, key, written, pending, eof: c.eof };
                    Action::Write { data: c.data }
                },
                Event::StreamClosed => self.fail(SessionState::Receiving { target, key, written }, Code::Aborted, msg("stream ended before the last chunk")),
                Event::StreamFailed => self.fail(SessionState::Receiving { target, key, written }, Code::Aborted, msg("stream ended with an error")),
                _ => self.fail(SessionState::Receiving { target, key, written }, Code::Internal, msg("unexpected event")),
            },
            SessionState::Completed { written } => {
                self.state = SessionState::Completed { written };
                Action::Idle
            },
            SessionState::Failed { code } => {
                self.state = SessionState::Failed { code };
                Action::Idle
            },
        }
    }
}

} // verus!

verus! {

/// Whether action `a` hands a lock back.
pub open spec fn releases(a: Action) -> bool {
    a matches Action::Finish { release, .. } && release is Some
}

/// The lock discipline of a session: a step hands the lock back exactly when
/// the session held it and stops holding it, and it hands back the key it
/// held; a session comes to hold a lock only when the registry granted it.
pub proof fn lock_released_exactly_once(root: Seq<char>, s: SessionState, e: Event, s2: SessionState, a: Action)
    requires
        step_spec(root, s, e, s2, a),
    ensures
        releases(a) <==> (holds_lock(s) && !holds_lock(s2)),
        releases(a) ==> opt_str(a->release) == Some(lock_key(s)),
        holds_lock(s2) ==> holds_lock(s) || (s is Locking && e is Lock && e->acquired),
        is_terminal(s) ==> a is Idle,
{
}

/// Two uploads to one path: the one that finds the lock taken fails with
/// `Unavailable`, touches nothing on disk, and releases nothing.
pub proof fn busy_lock_rejects(root: Seq<char>, s: SessionState, s2: SessionState, a: Action)
    requires
        s is Locking,
        step_spec(root, s, Event::Lock { acquired: false }, s2, a),
    ensures
        s2 matches SessionState::Failed { code } && code == Code::Unavailable,
        a matches Action::Finish { release, discard, outcome } && release is None && discard is None
            && outcome is Err && outcome->Err_0.code == Code::Unavailable,
{
}

/// A first chunk without a file name fails with `InvalidArgument` before
/// any lock is taken or anything on disk is touched.
pub proof fn empty_name_rejected(root: Seq<char>, c: TransferChunk, s2: SessionState, a: Action)
    requires
        c.filename@.len() == 0,
        step_spec(root, SessionState::AwaitingFirstChunk, Event::Chunk(c), s2, a),
    ensures
        s2 matches SessionState::Failed { code } && code == Code::InvalidArgument,
        a matches Action::Finish { release, discard, outcome } && release is None && discard is None
            && outcome is Err && outcome->Err_0.code == Code::InvalidArgument,
{
}

/// A zero-byte upload, one `eof` chunk with no data, completes with a count
/// of zero once its empty write is done, and hands its lock back.
pub proof fn empty_upload_completes(root: Seq<char>, s: SessionState, s2: SessionState, a: Action)
    requires
        s matches SessionState::Writing { written, pending, eof, .. } && written == 0 && pending == 0 && eof,
        step_spec(root, s, Event::Wrote(Ok(())), s2, a),
    ensures
        s2 matches SessionState::Completed { written } && written == 0,
        a matches Action::Finish { release, discard, outcome } && opt_str(release) == Some(lock_key(s))
            && discard is None && outcome == Ok::<u64, Status>(0),
{
}

} // verus!

verus! {

/// The bytes that action `a` writes.
pub open spec fn write_data(a: Action) -> Seq<u8> {
    match a {
        Action::Write { data } => data@,
        _ => Seq::empty(),
    }
}

/// The bytes that event `e` brings in.
pub open spec fn chunk_data(e: Event) -> Seq<u8> {
    match e {
        Event::Chunk(c) => c.data@,
        _ => Seq::empty(),
    }
}

/// Everything that a sequence of actions writes, in order.
pub open spec fn written_bytes(a: Seq<Action>) -> Seq<u8>
    decreases a.len(),
{
    if a.len() == 0 {
        Seq::empty()
    } else {
        written_bytes(a.drop_last()) + write_data(a.last())
    }
}

/// Everything that a sequence of events brings in, in order.
pub open spec fn sent_bytes(e: Seq<Event>) -> Seq<u8>
    decreases e.len(),
{
    if e.len() == 0 {
        Seq::empty()
    } else {
        sent_bytes(e.drop_last()) + chunk_data(e.last())
    }
}

/// `states[i]` goes to `states[i + 1]` on `events[i]` with `actions[i]`.
pub open spec fn is_run(root: Seq<char>, states: Seq<SessionState>, events: Seq<Event>, actions: Seq<Action>) -> bool {
    &&& states.len() == events.len() + 1
    &&& actions.len() == events.len()
    &&& forall|i: int|
        0 <= i < events.len() ==> step_spec(root, states[i], #[trigger] events[i], states[i + 1], actions[i])
}

/// What a session owes of the bytes, between what came in and what it wrote.
pub open spec fn bytes_kept(s: SessionState, sent: Seq<u8>, written: Seq<u8>) -> bool {
    match s {
        SessionState::AwaitingFirstChunk => sent.len() == 0 && written.len() == 0,
        SessionState::Resolving { data, .. } => written.len() == 0 && sent == data@,
        SessionState::Locking { data, .. } => written.len() == 0 && sent == data@,
        SessionState::Creating { data, .. } => written.len() == 0 && sent == data@,
        SessionState::Writing { written: w, pending, .. } => sent == written && written.len() == w + pending,
        SessionState::Receiving { written: w, .. } => sent == written && written.len() == w,
        SessionState::Completed { written: w } => sent == written && written.len() == w,
        SessionState::Failed { .. } => true,
    }
}

proof fn lemma_bytes_kept(root: Seq<char>, states: Seq<SessionState>, events: Seq<Event>, actions: Seq<Action>, n: int)
    requires
        is_run(root, states, events, actions),
        states[0] is AwaitingFirstChunk,
        0 <= n <= events.len(),
        forall|i: int| 0 <= i < n ==> !is_terminal(#[trigger] states[i]),
    ensures
        bytes_kept(states[n], sent_bytes(events.take(n)), written_bytes(actions.take(n))),
    decreases n,
{
    if n > 0 {
        let k = n - 1;
        lemma_bytes_kept(root, states, events, actions, k);
        assert(events.take(n).drop_last() =~= events.take(k));
        assert(actions.take(n).drop_last() =~= actions.take(k));
        assert(events.take(n).last() == events[k]);
        assert(actions.take(n).last() == actions[k]);
        assert(step_spec(root, states[k], events[k], states[n], actions[k]));
        assert(!is_terminal(states[k]));
        let sent = sent_bytes(events.take(k));
        let written = written_bytes(actions.take(k));
        assert(sent_bytes(events.take(n)) == sent + chunk_data(events[k]));
        assert(written_bytes(actions.take(n)) == written + write_data(actions[k]));
        match states[k] {
            SessionState::AwaitingFirstChunk => {
                assert(sent =~= Seq::<u8>::empty());
                assert(written =~= Seq::<u8>::empty());
                assert(sent + chunk_data(events[k]) =~= chunk_data(events[k]));
                assert(written + write_data(actions[k]) =~= write_data(actions[k]));
            },
            SessionState::Resolving { .. } | SessionState::Locking { .. } | SessionState::Creating { .. } => {
                if events[k] !is Chunk {
                    assert(written =~= Seq::<u8>::empty());
                    assert(sent + chunk_data(events[k]) =~= sent);
                    assert(written + write_data(actions[k]) =~= write_data(actions[k]));
                }
            },
            SessionState::Writing { .. } => {
                if events[k] !is Chunk {
                    assert(sent + chunk_data(events[k]) =~= sent);
                    assert(written + write_data(actions[k]) =~= written);
                }
            },
            SessionState::Receiving { .. } => {
                if events[k] is Chunk {
                } else {
                    assert(sent + chunk_data(events[k]) =~= sent);
                    assert(written + write_data(actions[k]) =~= written);
                }
            },
            _ => {},
        }
    }
}

/// Round trip through a session: in a run from the first message to
/// `Completed`, the writes put on disk exactly the bytes of the chunks that
/// came in, in order, and the reported count is their number.
pub proof fn upload_round_trip(root: Seq<char>, states: Seq<SessionState>, events: Seq<Event>, actions: Seq<Action>)
    requires
        is_run(root, states, events, actions),
        states[0] is AwaitingFirstChunk,
        forall|i: int| 0 <= i < events.len() ==> !is_terminal(#[trigger] states[i]),
        states.last() is Completed,
    ensures
        written_bytes(actions) == sent_bytes(events),
        states.last()->Completed_written == sent_bytes(events).len(),
{
    let n = events.len() as int;
    lemma_bytes_kept(root, states, events, actions, n);
    assert(events.take(n) =~= events);
    assert(actions.take(n) =~= actions);
    assert(states[n] == states.last());
}

} // verus!

verus! {

/// An upload whose target resolves outside the root, through `..` or a
/// symbolic link, is refused with `PermissionDenied` before any lock is
/// taken or anything on disk is touched.
pub proof fn upload_escape_is_denied(
    root: Seq<char>,
    s: SessionState,
    canonical_root: String,
    canonical_existing: String,
    missing: String,
    s2: SessionState,
    a: Action,
)
    requires
        s is Resolving,
        !within(canonical_root@, canonical_existing@),
        step_spec(
            root,
            s,
            Event::Resolved {
                canonical_root: Some(canonical_root),
                canonical_existing: Some(canonical_existing),
                missing,
            },
            s2,
            a,
        ),
    ensures
        s2 matches SessionState::Failed { code } && code == Code::PermissionDenied,
        a matches Action::Finish { release, discard, outcome } && release is None && discard is None
            && outcome is Err && outcome->Err_0.code == Code::PermissionDenied,
{
}

/// An upload whose target resolves within the root goes on to ask for the
/// lock on the target's canonical path.
pub proof fn contained_upload_asks_for_lock(
    root: Seq<char>,
    s: SessionState,
    canonical_root: String,
    canonical_existing: String,
    missing: String,
    s2: SessionState,
    a: Action,
)
    requires
        s is Resolving,
        stays_in_root(canonical_root@, canonical_existing@, missing@),
        step_spec(
            root,
            s,
            Event::Resolved {
                canonical_root: Some(canonical_root),
                canonical_existing: Some(canonical_existing),
                missing,
            },
            s2,
            a,
        ),
    ensures
        s2 is Locking,
        a matches Action::AcquireLock { key } && key@ == key_spec(canonical_existing@, missing@),
{
}

} // verus!

verus! {

/// Once the registry grants the lock (for a retry, after the earlier upload
/// handed it back), the session goes on to create the target it resolved,
/// holding the lock on the key it asked for.
pub proof fn granted_lock_creates(root: Seq<char>, s: SessionState, s2: SessionState, a: Action)
    requires
        s is Locking,
        step_spec(root, s, Event::Lock { acquired: true }, s2, a),
    ensures
        s2 is Creating,
        holds_lock(s2) && lock_key(s2) == lock_key(s),
        a matches Action::Create { dir, file } && file@ == target_file(s),
{
}

} // verus!
