//! The in-memory audio buffer that a download fills and a decoder reads
//! while the download is still running.
//!
//! The buffer's rules (what a read copies, where a seek lands, when a
//! reader has to wait) are proved on [`AudioState`]. A [`StreamHandle`]
//! holds a reader's position and applies those rules to a state that the
//! caller holds under the buffer's lock; the waiting itself (blocking on the
//! condvar until [`AudioState::must_wait`] says no more) is the caller's, as
//! it is outside work that need not end. A [`StreamWriter`] appends and
//! finishes under the lock and wakes the readers.

use std::sync::{Arc, Condvar, Mutex, MutexGuard};
use vstd::prelude::*;

verus! {

#[verifier::external_type_specification]
#[verifier::external_body]
#[verifier::reject_recursive_types(T)]
pub struct ExMutex<T: ?Sized>(Mutex<T>);

#[verifier::external_type_specification]
#[verifier::external_body]
#[verifier::reject_recursive_types(T)]
pub struct ExMutexGuard<'a, T: ?Sized + 'a>(MutexGuard<'a, T>);

#[verifier::external_type_specification]
#[verifier::external_body]
pub struct ExCondvar(Condvar);

/// The downloaded bytes so far, and whether the download has ended.
pub struct AudioState {
    pub data: Vec<u8>,
    pub finished: bool,
}

/// Where a seek is measured from, as `std::io::SeekFrom` has it.
#[derive(Debug, Clone, Copy, PartialEq, Eq, Structural)]
pub enum SeekOrigin {
    Start(u64),
    Current(i64),
    End(i64),
}

/// What a read at `pos` does to a buffer `before` that holds `data` of
/// which the download is `finished`: where `pos` is at or past the end,
/// it copies nothing; else it copies as many bytes as fit from `pos` on.
pub open spec fn spec_read_outcome(
    data: Seq<u8>,
    pos: int,
    before: Seq<u8>,
    after: Seq<u8>,
    n: int,
) -> bool {
    if pos >= data.len() {
        n == 0 && after == before
    } else {
        let avail = data.len() - pos;
        &&& n == (if before.len() < avail {
            before.len() as int
        } else {
            avail
        })
        &&& after == data.subrange(pos, pos + n) + before.subrange(n, before.len() as int)
    }
}

/// The position that a seek from `origin` asks for, before it is clamped:
/// `Start(o)` reads `o` as an `i64` (an offset past `i64::MAX` counts as
/// negative), and the sums of the other origins are exact.
pub open spec fn spec_seek_request(origin: SeekOrigin, pos: usize, len: nat) -> int {
    match origin {
        SeekOrigin::Start(o) => (o as i64) as int,
        SeekOrigin::Current(d) => pos as int + d,
        SeekOrigin::End(o) => len + o,
    }
}

/// A requested position clamped to the buffer: not before its start, not
/// past its end.
pub open spec fn spec_clamp_position(target: int, len: nat) -> nat {
    if target <= 0 {
        0
    } else if target >= len {
        len
    } else {
        target as nat
    }
}

/// What a reader of the shared buffer waits for.
#[derive(Debug, Clone, Copy, PartialEq, Eq, Structural)]
pub enum WaitReason {
    /// Data at a reader's position.
    Read(usize),
    /// The end of the download.
    End,
    /// Data up to a position that a seek asks for.
    Reach(i128),
}

/// Whether a reader of a buffer that holds `data`, of which the download is
/// `finished`, has to go on waiting for `reason`.
pub open spec fn spec_must_wait_on(data: Seq<u8>, finished: bool, reason: WaitReason) -> bool {
    match reason {
        WaitReason::Read(pos) => pos >= data.len() && !finished,
        WaitReason::End => !finished,
        WaitReason::Reach(target) => target > data.len() && !finished,
    }
}

impl AudioState {
    /// Whether a reader has to go on waiting for `reason`.
    pub open spec fn spec_must_wait(&self, reason: WaitReason) -> bool {
        spec_must_wait_on(self.data@, self.finished, reason)
    }

    /// Whether a reader has to go on waiting for `reason`: for data at its
    /// position or up to a seek's target while the download goes on, or for
    /// the end of the download.
    pub fn must_wait(&self, reason: WaitReason) -> (b: bool)
        ensures
            b == self.spec_must_wait(reason),
    {
        match reason {
            WaitReason::Read(pos) => pos >= self.data.len() && !self.finished,
            WaitReason::End => !self.finished,
            WaitReason::Reach(target) => target > self.data.len() as i128 && !self.finished,
        }
    }

    /// Appends downloaded bytes.
    pub fn append(&mut self, data: &[u8])
        ensures
            final(self).data@ == old(self).data@ + data@,
            final(self).finished == old(self).finished,
    {
        let mut i: usize = 0;
        while i < data.len()
            invariant
                i <= data@.len(),
                self.data@ == old(self).data@ + data@.subrange(0, i as int),
                self.finished == old(self).finished,
            decreases data@.len() - i,
        {
            self.data.push(data[i]);
            i = i + 1;
            assert(self.data@ =~= old(self).data@ + data@.subrange(0, i as int));
        }
        assert(data@.subrange(0, data@.len() as int) =~= data@);
    }

    /// Marks the download as ended.
    pub fn mark_finished(&mut self)
        ensures
            final(self).data@ == old(self).data@,
            final(self).finished,
    {
        self.finished = true;
    }

    /// Copies into `buf` the bytes from `pos` on, as many as fit, and
    /// returns how many it copied; none where `pos` is at or past the end.
    pub fn copy_available(&self, pos: usize, buf: &mut [u8]) -> (n: usize)
        ensures
            spec_read_outcome(self.data@, pos as int, old(buf)@, final(buf)@, n as int),
            n <= old(buf)@.len(),
            n == 0 || pos + n <= self.data@.len() <= usize::MAX,
    {
        if pos >= self.data.len() {
            return 0;
        }
        let len = self.data.len();
        let available = len - pos;
        let to_read = if buf.len() < available {
            buf.len()
        } else {
            available
        };
        let mut k: usize = 0;
        while k < to_read
            invariant
                to_read <= buf@.len(),
                buf@.len() == old(buf)@.len(),
                len == self.data@.len(),
                pos + to_read <= len,
                k <= to_read,
                forall|j: int| 0 <= j < k ==> buf@[j] == self.data@[pos + j],
                forall|j: int| k <= j < buf@.len() ==> buf@[j] == old(buf)@[j],
            decreases to_read - k,
        {
            buf[k] = self.data[pos + k];
            k = k + 1;
        }
        assert(buf@ =~= self.data@.subrange(pos as int, pos + to_read) + old(buf)@.subrange(
            to_read as int,
            old(buf)@.len() as int,
        ));
        to_read
    }

    /// The position that a seek from `origin` asks for, in exact arithmetic.
    pub fn seek_request(&self, origin: SeekOrigin, pos: usize) -> (t: i128)
        ensures
            t == spec_seek_request(origin, pos, self.data@.len()),
    {
        match origin {
            SeekOrigin::Start(o) => (o as i64) as i128,
            SeekOrigin::Current(d) => pos as i128 + d as i128,
            SeekOrigin::End(o) => self.data.len() as i128 + o as i128,
        }
    }

    /// The position a seek to `target` lands on: clamped to the buffer.
    pub fn clamp_position(&self, target: i128) -> (p: usize)
        ensures
            p == spec_clamp_position(target as int, self.data@.len()),
    {
        if target <= 0 {
            0
        } else if target >= self.data.len() as i128 {
            self.data.len()
        } else {
            target as usize
        }
    }
}

/// Locks the shared buffer (`Mutex::lock`). Where another thread panicked
/// while it held the lock, the lock is poisoned and the guard is taken out
/// of the `PoisonError` (`into_inner`). What the buffer holds is whatever
/// the other threads left there; no clause states it.
#[verifier::external_body]
fn lock_audio(state: &Arc<Mutex<AudioState>>) -> MutexGuard<'_, AudioState> {
    match state.lock() {
        Ok(guard) => guard,
        Err(poisoned) => poisoned.into_inner(),
    }
}

/// The state behind a held lock, for writing (`MutexGuard::deref_mut`).
/// What it holds is whatever the other threads left there; no clause
/// states it.
#[verifier::external_body]
fn guarded_mut<'a>(guard: &'a mut MutexGuard<'_, AudioState>) -> &'a mut AudioState {
    &mut **guard
}

/// Wakes every thread waiting on `cvar` (`Condvar::notify_all`).
#[verifier::external_body]
fn notify_all(cvar: &Condvar) {
    cvar.notify_all();
}

/// A reader of the shared buffer, at byte `pos`.
pub struct StreamHandle {
    state: Arc<Mutex<AudioState>>,
    cvar: Arc<Condvar>,
    pub pos: usize,
}

impl StreamHandle {
    /// The shared buffer and signal this handle reads through.
    pub closed spec fn shared(&self) -> (Arc<Mutex<AudioState>>, Arc<Condvar>) {
        (self.state, self.cvar)
    }

    /// The byte position of this handle.
    pub closed spec fn at(&self) -> usize {
        self.pos
    }

    /// Create a new StreamHandle.
    pub fn new(state: Arc<Mutex<AudioState>>, cvar: Arc<Condvar>, pos: usize) -> (h: Self)
        ensures
            h.at() == pos,
            h.shared() == (state, cvar),
    {
        Self { state, cvar, pos }
    }

    /// The shared buffer this handle reads; the caller locks it.
    pub fn state(&self) -> (s: &Arc<Mutex<AudioState>>)
        ensures
            *s == self.shared().0,
    {
        &self.state
    }

    /// The signal the writer gives when the buffer changes; the caller waits
    /// on it.
    pub fn signal(&self) -> (c: &Arc<Condvar>)
        ensures
            *c == self.shared().1,
    {
        &self.cvar
    }

    /// What a read waits for: data at the handle's position, or the end of
    /// the download.
    pub fn read_wait(&self) -> (r: WaitReason)
        ensures
            r == WaitReason::Read(self.at()),
    {
        WaitReason::Read(self.pos)
    }

    /// Reads from the handle's position in `st`, the state held under the
    /// lock once [`StreamHandle::read_wait`] no longer holds it back: copies
    /// as many bytes as fit from the position on, none where the position is
    /// at or past the end, and moves the handle past what it copied.
    pub fn read_from(&mut self, st: &AudioState, buf: &mut [u8]) -> (n: usize)
        ensures
            spec_read_outcome(st.data@, old(self).at() as int, old(buf)@, final(buf)@, n as int),
            n <= old(buf)@.len(),
            final(self).at() == old(self).at() + n,
            final(self).shared() == old(self).shared(),
    {
        let n = st.copy_available(self.pos, buf);
        self.pos = self.pos + n;
        n
    }

    /// What a seek from `origin` waits for before it measures its target:
    /// the end of the download where it is measured from the end, nothing
    /// otherwise.
    pub fn seek_first_wait(origin: SeekOrigin) -> (r: Option<WaitReason>)
        ensures
            r == (if origin is End {
                Some(WaitReason::End)
            } else {
                None
            }),
    {
        match origin {
            SeekOrigin::End(_) => Some(WaitReason::End),
            _ => None,
        }
    }

    /// The position that a seek from `origin` asks for, measured against the
    /// state `st` held under the lock; the caller then waits for
    /// `WaitReason::Reach` of it.
    pub fn seek_target(&self, st: &AudioState, origin: SeekOrigin) -> (t: i128)
        ensures
            t == spec_seek_request(origin, self.at(), st.data@.len()),
    {
        st.seek_request(origin, self.pos)
    }

    /// Moves the handle to `target` clamped to the data of `st`, the state
    /// held under the lock once the wait for `target` is over, and returns
    /// the new position.
    pub fn seek_to(&mut self, st: &AudioState, target: i128) -> (p: u64)
        ensures
            final(self).at() == spec_clamp_position(target as int, st.data@.len()),
            p == final(self).at(),
            final(self).shared() == old(self).shared(),
    {
        self.pos = st.clamp_position(target);
        self.pos as u64
    }
}

/// The writing side of the shared buffer.
pub struct StreamWriter {
    state: Arc<Mutex<AudioState>>,
    cvar: Arc<Condvar>,
}

impl Clone for StreamWriter {
    fn clone(&self) -> (w: StreamWriter)
        ensures
            w.shared() == self.shared(),
    {
        StreamWriter { state: self.state.clone(), cvar: self.cvar.clone() }
    }
}

impl StreamWriter {
    /// The shared buffer and signal this writer writes through.
    pub closed spec fn shared(&self) -> (Arc<Mutex<AudioState>>, Arc<Condvar>) {
        (self.state, self.cvar)
    }

    /// Create a new StreamWriter.
    pub fn new(state: Arc<Mutex<AudioState>>, cvar: Arc<Condvar>) -> (w: Self)
        ensures
            w.shared() == (state, cvar),
    {
        Self { state, cvar }
    }

    /// Appends `data` to the shared buffer and wakes the readers. Under the
    /// lock, the buffer's bytes become what they were followed by `data`
    /// ([`AudioState::append`]); that this buffer is the one the handles
    /// made from the same `Arc` read is shared state that no contract here
    /// can name, so the function states nothing.
    pub fn write(&self, data: &[u8]) {
        let mut guard = lock_audio(&self.state);
        guarded_mut(&mut guard).append(data);
        notify_all(&self.cvar);
    }

    /// Marks the download as ended and wakes the readers. Under the lock the
    /// buffer's flag becomes set ([`AudioState::mark_finished`]); as for
    /// [`StreamWriter::write`], the function states nothing of shared state.
    pub fn finish(&self) {
        let mut guard = lock_audio(&self.state);
        guarded_mut(&mut guard).mark_finished();
        notify_all(&self.cvar);
    }
}

} // verus!
