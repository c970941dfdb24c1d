//! The cache of one key: where its entry is stored, and who computes it. Of the callers
//! that ask while the cache is empty, the first loads or computes the value and the others
//! wait for it. Reading, computing and storing are the caller's; what follows from their
//! outcomes is decided here.

use crate::error::Error;
use crate::text::same_text;
use vstd::prelude::*;
use vstd::string::*;

verus! {

/// What stands in a path template where the cache key goes: `{KEY}`.
pub open spec fn placeholder() -> Seq<char> {
    seq!['{', 'K', 'E', 'Y', '}']
}

/// `template` with `key` in place of each placeholder, read from the left.
pub open spec fn substituted(template: Seq<char>, key: Seq<char>) -> Seq<char>
    decreases template.len(),
{
    if template.len() == 0 {
        template
    } else if placeholder().is_prefix_of(template) {
        key + substituted(template.skip(5), key)
    } else {
        seq![template[0]] + substituted(template.skip(1), key)
    }
}

/// Whether a placeholder begins at position `at` of `template`.
fn placeholder_at(template: &str, at: usize, len: usize) -> (b: bool)
    requires
        len == template@.len(),
        at <= len,
    ensures
        b == placeholder().is_prefix_of(template@.skip(at as int)),
{
    if len - at < 5 {
        return false;
    }
    let b = template.get_char(at) == '{' && template.get_char(at + 1) == 'K' && template.get_char(
        at + 2,
    ) == 'E' && template.get_char(at + 3) == 'Y' && template.get_char(at + 4) == '}';
    proof {
        let head = template@.skip(at as int).subrange(0, 5);
        if b {
            assert(head =~= placeholder());
        } else {
            assert(head[0] == template@[at as int]);
            assert(head[1] == template@[at + 1]);
            assert(head[2] == template@[at + 2]);
            assert(head[3] == template@[at + 3]);
            assert(head[4] == template@[at + 4]);
        }
    }
    b
}

/// The path of the entry of `key` in a cache whose path template is `template`.
pub fn cache_file(template: &str, key: &str) -> (path: String)
    ensures
        path@ == substituted(template@, key@),
{
    let n: usize = template.unicode_len();
    let mut path = String::new();
    let mut i: usize = 0;
    assert(template@.skip(0) =~= template@);
    assert(Seq::<char>::empty() + substituted(template@, key@) =~= substituted(template@, key@));
    while i < n
        invariant
            i <= n,
            n == template@.len(),
            path@ + substituted(template@.skip(i as int), key@) == substituted(template@, key@),
        decreases n - i,
    {
        let ghost before = path@;
        let ghost rest = template@.skip(i as int);
        if placeholder_at(template, i, n) {
            path.append(key);
            proof {
                assert(rest.skip(5) =~= template@.skip(i + 5));
                assert((before + key@) + substituted(rest.skip(5), key@) =~= before + (key@
                    + substituted(rest.skip(5), key@)));
            }
            i = i + 5;
        } else {
            path.append(template.substring_char(i, i + 1));
            proof {
                assert(rest.skip(1) =~= template@.skip(i + 1));
                assert(template@.subrange(i as int, i + 1) =~= seq![rest[0]]);
                assert((before + seq![rest[0]]) + substituted(rest.skip(1), key@) =~= before + (
                seq![rest[0]] + substituted(rest.skip(1), key@)));
            }
            i = i + 1;
        }
    }
    assert(path@ + Seq::<char>::empty() =~= path@);
    path
}

/// Why a call failed.
#[derive(Debug, Clone, Copy, PartialEq, Eq, Structural)]
pub enum FailureKind {
    /// The stored entry could not be read.
    Read,
    /// The value could not be computed.
    Compute,
}

/// The state of the cache of one key within a process.
#[derive(Debug, Clone)]
pub enum Slot<T> {
    /// No value is known and nobody is at work on one.
    Empty,
    /// One caller is loading or computing the value, and `waiting` others wait for it.
    Busy { waiting: u64 },
    /// The value is known.
    Ready(T),
    /// The caller at work has failed, and `unserved` of those that waited have not yet been
    /// told.
    Failed { kind: FailureKind, reason: String, unserved: u64 },
}

/// What a caller that asked for the value does next.
#[derive(Debug, Clone, Copy, PartialEq, Eq, Structural)]
pub enum Request {
    /// The value is there: take it.
    Hit,
    /// Another caller is at work: wait until it is done, and then resume.
    Wait,
    /// Nobody is at work: read the stored entry, and report what was found.
    Load,
    /// The cache is taken up with an earlier call: ask again when it is done.
    Retry,
}

/// What a caller that waited does once it is woken.
#[derive(Debug, Clone)]
pub enum Resume {
    /// The value is there: take it.
    Hit,
    /// The caller at work is not done: wait on.
    Wait,
    /// The caller at work has failed: give up with its error.
    Fail(Error),
    /// Nobody was waited for: ask anew.
    OutOfTurn,
}

/// What reading the stored entry gave.
#[derive(Debug, Clone)]
pub enum Lookup<T> {
    /// An entry that is present and has not expired.
    Valid(T),
    /// No entry, or one that has expired.
    Absent,
    /// The entry could not be read.
    Unreadable(String),
}

/// An entry as it is stored: the key, the value, and when it was written.
#[derive(Debug, Clone)]
pub struct CacheEntry<T> {
    pub key: String,
    pub value: T,
    /// The time of writing, in seconds.
    pub written_at: u64,
}

/// Whether an entry written at `written_at` still counts at the time `now`: entries never
/// expire where no age is set, and otherwise one does once it is older than `max_age`.
pub open spec fn is_fresh(written_at: u64, now: u64, max_age: Option<u64>) -> bool {
    match max_age {
        Some(age) => now - written_at <= age,
        None => true,
    }
}

/// Whether `entry` is a valid entry of `key` at the time `now`.
pub open spec fn is_valid<T>(entry: CacheEntry<T>, key: Seq<char>, now: u64, max_age: Option<u64>) -> bool {
    entry.key@ == key && is_fresh(entry.written_at, now, max_age)
}

/// Judges what was read from the store of `key`: an entry counts where it is of that key and
/// has not expired at the time `now`; any other is as good as none.
pub fn judge<T>(
    read: Result<Option<CacheEntry<T>>, String>,
    key: &str,
    now: u64,
    max_age: Option<u64>,
) -> (lookup: Lookup<T>)
    ensures
        match read {
            Ok(Some(entry)) => if is_valid(entry, key@, now, max_age) {
                lookup == Lookup::Valid(entry.value)
            } else {
                lookup is Absent
            },
            Ok(None) => lookup is Absent,
            Err(reason) => lookup == Lookup::<T>::Unreadable(reason),
        },
{
    match read {
        Ok(Some(entry)) => {
            let fresh = match max_age {
                Some(age) => now <= entry.written_at || now - entry.written_at <= age,
                None => true,
            };
            if fresh && same_text(entry.key.as_str(), key) {
                Lookup::Valid(entry.value)
            } else {
                Lookup::Absent
            }
        },
        Ok(None) => Lookup::Absent,
        Err(reason) => Lookup::Unreadable(reason),
    }
}

/// What the caller at work does next.
#[derive(Debug, Clone)]
pub enum Progress {
    /// The value is there: take it.
    Return,
    /// Compute the value, and report the outcome.
    Compute,
    /// Store the value under `path`, then take it.
    Persist { path: String },
    /// Give up with the error.
    Fail(Error),
    /// The report came while nobody was at work: it is left aside.
    OutOfTurn,
}

/// The state that follows `slot` when a caller asks for the value, and what that caller does.
pub open spec fn asked<T>(slot: Slot<T>) -> (Slot<T>, Request) {
    match slot {
        Slot::Empty => (Slot::Busy { waiting: 0 }, Request::Load),
        Slot::Busy { waiting } => if waiting < u64::MAX {
            (Slot::Busy { waiting: (waiting + 1) as u64 }, Request::Wait)
        } else {
            (slot, Request::Retry)
        },
        Slot::Ready(v) => (slot, Request::Hit),
        Slot::Failed { kind, reason, unserved } => (slot, Request::Retry),
    }
}

/// The state that follows `slot` when the caller at work fails.
pub open spec fn failed<T>(slot: Slot<T>, kind: FailureKind, reason: String) -> Slot<T> {
    match slot {
        Slot::Busy { waiting } => if waiting == 0 {
            Slot::Empty
        } else {
            Slot::Failed { kind, reason, unserved: waiting }
        },
        _ => slot,
    }
}

/// The state that follows `slot` when a caller that waited is woken.
pub open spec fn resumed<T>(slot: Slot<T>) -> Slot<T> {
    match slot {
        Slot::Failed { kind, reason, unserved } => if unserved > 1 {
            Slot::Failed { kind, reason, unserved: (unserved - 1) as u64 }
        } else {
            Slot::Empty
        },
        _ => slot,
    }
}

/// Whether `error` is the failure of kind `kind` with the reason `reason`, in the cache
/// stored at `path`.
pub open spec fn is_failure(error: Error, kind: FailureKind, path: Seq<char>, reason: Seq<char>) -> bool {
    match kind {
        FailureKind::Read => error matches Error::CacheIOError { path: p, reason: r } && p@ == path
            && r@ == reason,
        FailureKind::Compute => error matches Error::CacheComputeError { reason: r } && r@
            == reason,
    }
}

/// How many of `n` callers that ask one after the other, starting in `slot` and before any
/// of them reports back, are told to load the value.
pub open spec fn loads_among<T>(slot: Slot<T>, n: nat) -> nat
    decreases n,
{
    if n == 0 {
        0
    } else {
        let (next, answer) = asked(slot);
        loads_among(next, (n - 1) as nat) + if answer == Request::Load {
            1nat
        } else {
            0nat
        }
    }
}

/// The state after `n` callers that waited were woken one after the other, starting in
/// `slot`.
pub open spec fn after_resumes<T>(slot: Slot<T>, n: nat) -> Slot<T>
    decreases n,
{
    if n == 0 {
        slot
    } else {
        after_resumes(resumed(slot), (n - 1) as nat)
    }
}

/// The version cache of one key.
#[derive(Debug, Clone)]
pub struct VersionCache<T> {
    /// Where the entry of the key is stored.
    pub path: String,
    pub slot: Slot<T>,
}

impl<T> VersionCache<T> {
    /// The cache of `key` under the path template `template`, with no value known.
    pub fn new(template: &str, key: &str) -> (cache: Self)
        ensures
            cache.path@ == substituted(template@, key@),
            cache.slot is Empty,
    {
        VersionCache { path: cache_file(template, key), slot: Slot::Empty }
    }

    /// The value, once it is known.
    pub fn value(&self) -> (value: Option<&T>)
        ensures
            match self.slot {
                Slot::Ready(v) => value == Some(&v),
                _ => value is None,
            },
    {
        match &self.slot {
            Slot::Ready(v) => Some(v),
            _ => None,
        }
    }

    /// A caller asks for the value. In an empty cache it becomes the one at work and is
    /// told to load; while another is at work it is counted and told to wait; once the
    /// value is known it is told to take it. While a failure is still being handed to
    /// those that waited for it, the caller is told to ask again.
    pub fn request(&mut self) -> (answer: Request)
        ensures
            (final(self).slot, answer) == asked(old(self).slot),
            final(self).path == old(self).path,
    {
        match &self.slot {
            Slot::Empty => {
                self.slot = Slot::Busy { waiting: 0 };
                Request::Load
            },
            Slot::Busy { waiting } => {
                if *waiting < u64::MAX {
                    let waiting: u64 = *waiting + 1;
                    self.slot = Slot::Busy { waiting };
                    Request::Wait
                } else {
                    Request::Retry
                }
            },
            Slot::Ready(_) => Request::Hit,
            Slot::Failed { kind: _, reason: _, unserved: _ } => Request::Retry,
        }
    }

    /// A caller that waited is woken. It takes the value where there is one, waits on
    /// while the caller at work is not done, and where that caller failed it fails with the
    /// same error. When the last of those that waited has been told, the cache is empty
    /// again, and the next call loads anew.
    pub fn resume(&mut self) -> (answer: Resume)
        ensures
            final(self).slot == resumed(old(self).slot),
            final(self).path == old(self).path,
            match old(self).slot {
                Slot::Empty => answer is OutOfTurn,
                Slot::Busy { waiting } => answer is Wait,
                Slot::Ready(v) => answer is Hit,
                Slot::Failed { kind, reason, unserved } => answer matches Resume::Fail(e)
                    && is_failure(e, kind, old(self).path@, reason@),
            },
    {
        let (error, kind, reason, unserved) = match &self.slot {
            Slot::Empty => {
                return Resume::OutOfTurn;
            },
            Slot::Busy { waiting: _ } => {
                return Resume::Wait;
            },
            Slot::Ready(_) => {
                return Resume::Hit;
            },
            Slot::Failed { kind, reason, unserved } => (
                self.failure(*kind, reason.clone()),
                *kind,
                reason.clone(),
                *unserved,
            ),
        };
        if unserved > 1 {
            self.slot = Slot::Failed { kind, reason, unserved: unserved - 1 };
        } else {
            self.slot = Slot::Empty;
        }
        Resume::Fail(error)
    }

    /// The error of a failure of this cache.
    fn failure(&self, kind: FailureKind, reason: String) -> (error: Error)
        ensures
            is_failure(error, kind, self.path@, reason@),
    {
        match kind {
            FailureKind::Read => Error::CacheIOError { path: self.path.clone(), reason },
            FailureKind::Compute => Error::CacheComputeError { reason },
        }
    }

    /// Ends the work of the caller at work with a failure.
    fn fail(&mut self, kind: FailureKind, reason: String) -> (next: Progress)
        requires
            old(self).slot is Busy,
        ensures
            final(self).path == old(self).path,
            final(self).slot == failed(old(self).slot, kind, reason),
            next matches Progress::Fail(e) && is_failure(e, kind, old(self).path@, reason@),
    {
        let error = self.failure(kind, reason.clone());
        let waiting: u64 = match &self.slot {
            Slot::Busy { waiting } => *waiting,
            _ => 0,
        };
        if waiting == 0 {
            self.slot = Slot::Empty;
        } else {
            self.slot = Slot::Failed { kind, reason, unserved: waiting };
        }
        Progress::Fail(error)
    }

    /// The caller at work reports what reading the stored entry gave. A valid entry is the
    /// value, and nothing is computed; without an entry the value is to be computed; an
    /// entry that cannot be read fails the call with `CacheIOError`, for this caller and
    /// for those that wait.
    pub fn loaded(&mut self, lookup: Lookup<T>) -> (next: Progress)
        ensures
            final(self).path == old(self).path,
            !(old(self).slot is Busy) ==> next is OutOfTurn && final(self).slot == old(self).slot,
            old(self).slot is Busy ==> match lookup {
                Lookup::Valid(v) => next is Return && final(self).slot == Slot::Ready(v),
                Lookup::Absent => next is Compute && final(self).slot == old(self).slot,
                Lookup::Unreadable(reason) => {
                    &&& final(self).slot == failed(old(self).slot, FailureKind::Read, reason)
                    &&& next matches Progress::Fail(e)
                    &&& is_failure(e, FailureKind::Read, old(self).path@, reason@)
                },
            },
    {
        match &self.slot {
            Slot::Busy { waiting: _ } => {},
            _ => {
                return Progress::OutOfTurn;
            },
        }
        match lookup {
            Lookup::Valid(v) => {
                self.slot = Slot::Ready(v);
                Progress::Return
            },
            Lookup::Absent => Progress::Compute,
            Lookup::Unreadable(reason) => self.fail(FailureKind::Read, reason),
        }
    }

    /// The caller at work reports the outcome of computing the value. A value is kept and
    /// is to be stored; a failure fails the call with `CacheComputeError`, for this caller
    /// and for those that wait, and stores nothing, so that a later call computes again.
    pub fn computed(&mut self, outcome: Result<T, String>) -> (next: Progress)
        ensures
            final(self).path == old(self).path,
            !(old(self).slot is Busy) ==> next is OutOfTurn && final(self).slot == old(self).slot,
            old(self).slot is Busy ==> match outcome {
                Ok(v) => {
                    &&& final(self).slot == Slot::Ready(v)
                    &&& next matches Progress::Persist { path }
                    &&& path@ == old(self).path@
                },
                Err(reason) => {
                    &&& final(self).slot == failed(old(self).slot, FailureKind::Compute, reason)
                    &&& next matches Progress::Fail(e)
                    &&& is_failure(e, FailureKind::Compute, old(self).path@, reason@)
                },
            },
    {
        match &self.slot {
            Slot::Busy { waiting: _ } => {},
            _ => {
                return Progress::OutOfTurn;
            },
        }
        match outcome {
            Ok(v) => {
                self.slot = Slot::Ready(v);
                Progress::Persist { path: self.path.clone() }
            },
            Err(reason) => self.fail(FailureKind::Compute, reason),
        }
    }

    /// The warning for a value that was computed and could not be stored.
    pub open spec fn spec_store_warning(&self, reason: Seq<char>) -> Seq<char> {
        "failed to write cache file: "@ + self.path@ + " "@ + reason
    }

    /// The caller at work reports the outcome of storing the value. A failure is worth a
    /// warning and no more: the value is known and is taken all the same.
    pub fn persisted(&self, outcome: Result<(), String>) -> (warning: Option<String>)
        ensures
            match outcome {
                Ok(_) => warning is None,
                Err(reason) => warning matches Some(w) && w@ == self.spec_store_warning(reason@),
            },
    {
        match outcome {
            Ok(_) => None,
            Err(reason) => {
                let mut w = String::from_str("failed to write cache file: ");
                w.append(self.path.as_str());
                w.append(" ");
                w.append(reason.as_str());
                Some(w)
            },
        }
    }
}

/// Of any number of callers that ask an empty cache before one reports back, exactly one is
/// told to load; once a caller is at work, has failed or the value is known, none is.
pub proof fn lemma_one_caller_loads<T>(slot: Slot<T>, n: nat)
    ensures
        loads_among(slot, n) == if slot is Empty && n >= 1 {
            1nat
        } else {
            0nat
        },
    decreases n,
{
    if n > 0 {
        lemma_one_caller_loads(asked(slot).0, (n - 1) as nat);
    }
}

/// Once the value is known, every caller that asks and every caller that is woken finds it,
/// and the value stays.
pub proof fn lemma_ready_serves_all<T>(value: T)
    ensures
        asked(Slot::Ready(value)) == (Slot::Ready(value), Request::Hit),
        resumed(Slot::Ready(value)) == Slot::Ready(value),
{
}

/// A failure stays, with its kind and reason, until each caller that waited for it has been
/// told; with the last of them the cache is empty again.
pub proof fn lemma_failure_reaches_every_waiter<T>(
    kind: FailureKind,
    reason: String,
    unserved: u64,
    n: nat,
)
    requires
        unserved >= 1,
        n <= unserved,
    ensures
        after_resumes((Slot::<T>::Failed { kind, reason, unserved }), n) == if n < unserved {
            (Slot::<T>::Failed { kind, reason, unserved: (unserved - n) as u64 })
        } else {
            Slot::<T>::Empty
        },
    decreases n,
{
    if n > 0 {
        if unserved > 1 {
            lemma_failure_reaches_every_waiter::<T>(
                kind,
                reason,
                (unserved - 1) as u64,
                (n - 1) as nat,
            );
        } else {
            assert(after_resumes(Slot::<T>::Empty, 0) == Slot::<T>::Empty);
        }
    }
}

} // verus!
