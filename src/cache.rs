//! The cached view of a file-backed store. A read within the throttle window
//! after a check serves the cached value without touching the file; after
//! the window, the file's modification time is compared with the one last
//! seen, and only a change causes a reload. Staleness is thus bounded by the
//! window, and explicit.

use vstd::prelude::*;

verus! {

/// Length of the throttle window, in milliseconds.
pub const THROTTLE_MS: u64 = 500;

/// What a look at the backing file found.
#[derive(Debug, Clone, Copy, PartialEq, Eq, Structural)]
pub enum Probe {
    /// The file exists, with this modification time.
    Modified(u64),
    /// The file does not exist.
    Missing,
    /// The file's metadata could not be read.
    Failed,
}

/// What the reader must do after a check.
#[derive(Debug, Clone, Copy, PartialEq, Eq, Structural)]
pub enum Refresh {
    /// The cached value is current: serve it.
    Keep,
    /// The file changed: read and parse it, then publish the result.
    Reload,
    /// The file is gone: publish the default value.
    Reset,
    /// The file could not be examined: report the failure.
    Fail,
}

/// A cached value with the file version it was read from and the time of the last check.
#[derive(Debug, Clone)]
pub struct CachedValue<T> {
    pub value: T,
    pub last_mtime: Option<u64>,
    pub last_check: Option<u64>,
}

/// Whether a read at `now` falls within the window opened by the last check.
pub open spec fn within_window(last_check: Option<u64>, now: u64) -> bool {
    match last_check {
        Some(c) => c <= now && now - c < THROTTLE_MS,
        None => false,
    }
}

/// The action a check decides on.
pub open spec fn decision(last_mtime: Option<u64>, probe: Probe) -> Refresh {
    match probe {
        Probe::Modified(m) => if last_mtime == Some(m) {
            Refresh::Keep
        } else {
            Refresh::Reload
        },
        Probe::Missing => Refresh::Reset,
        Probe::Failed => Refresh::Fail,
    }
}

/// The cache after a complete read at `now`: served as is within the window;
/// otherwise checked, and refreshed with `loaded` (the parsed file) when it
/// changed or with `default` when it is gone.
pub open spec fn after_read<T>(c: CachedValue<T>, now: u64, probe: Probe, loaded: T, default: T) -> CachedValue<T> {
    if within_window(c.last_check, now) {
        c
    } else {
        match decision(c.last_mtime, probe) {
            Refresh::Reload => CachedValue {
                value: loaded,
                last_mtime: Some(probe->Modified_0),
                last_check: Some(now),
            },
            Refresh::Reset => CachedValue { value: default, last_mtime: None, last_check: Some(now) },
            _ => CachedValue { last_check: Some(now), ..c },
        }
    }
}

impl<T> CachedValue<T> {
    /// A cache that has never looked at the file.
    pub fn new(value: T) -> (r: CachedValue<T>)
        ensures
            r.value == value,
            r.last_mtime is None,
            r.last_check is None,
    {
        CachedValue { value, last_mtime: None, last_check: None }
    }

    /// Whether a read at `now` may serve the cached value without a check.
    pub fn is_fresh(&self, now: u64) -> (r: bool)
        ensures
            r == within_window(self.last_check, now),
    {
        match self.last_check {
            Some(c) => c <= now && now - c < THROTTLE_MS,
            None => false,
        }
    }

    /// Records a check at `now` that found `probe`, and says what to do next.
    pub fn check(&mut self, now: u64, probe: Probe) -> (r: Refresh)
        ensures
            r == decision(old(self).last_mtime, probe),
            final(self).last_check == Some(now),
            final(self).last_mtime == old(self).last_mtime,
            final(self).value == old(self).value,
    {
        self.last_check = Some(now);
        match probe {
            Probe::Modified(m) => {
                if self.last_mtime == Some(m) {
                    Refresh::Keep
                } else {
                    Refresh::Reload
                }
            },
            Probe::Missing => Refresh::Reset,
            Probe::Failed => Refresh::Fail,
        }
    }

    /// Whether a writer must re-read the file before mutating: the file
    /// exists and its version is not the one last seen.
    pub fn needs_sync(&self, probe: Probe) -> (r: bool)
        ensures
            r == (probe is Modified && self.last_mtime != Some(probe->Modified_0)),
    {
        match probe {
            Probe::Modified(m) => self.last_mtime != Some(m),
            _ => false,
        }
    }

    /// Installs a value read from (or written to) the file version `mtime`.
    pub fn publish(&mut self, value: T, mtime: Option<u64>)
        ensures
            final(self).value == value,
            final(self).last_mtime == mtime,
            final(self).last_check == old(self).last_check,
    {
        self.value = value;
        self.last_mtime = mtime;
    }
}

/// Bounded staleness. After a read that checked the file at `t1`, a read
/// less than the window later serves the same value whatever the file holds
/// by then; a read once the window has passed, after the file changed,
/// returns the new contents.
pub proof fn lemma_throttle_window<T>(
    c: CachedValue<T>,
    t1: u64,
    t2: u64,
    p1: Probe,
    p2: Probe,
    l1: T,
    l2: T,
    d: T,
)
    requires
        !within_window(c.last_check, t1),
        t1 <= t2,
    ensures
        t2 < t1 + THROTTLE_MS ==> after_read(after_read(c, t1, p1, l1, d), t2, p2, l2, d)
            == after_read(c, t1, p1, l1, d),
        t2 >= t1 + THROTTLE_MS && p2 is Modified && after_read(c, t1, p1, l1, d).last_mtime != Some(
            p2->Modified_0,
        ) ==> after_read(after_read(c, t1, p1, l1, d), t2, p2, l2, d).value == l2,
{
}

} // verus!
