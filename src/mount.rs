//! Readiness of the workspace mount: a textual search of the mount table,
//! and the decision of when to stop waiting for it.

use vstd::prelude::*;

verus! {

/// How long to wait for the workspace mount, in milliseconds.
pub const MOUNT_TIMEOUT_MS: u64 = 30000;

/// How long to sleep between two looks at the mount table, in milliseconds.
pub const MOUNT_POLL_INTERVAL_MS: u64 = 1000;

/// True when `needle` occurs in `hay` at position `i`.
pub open spec fn occurs_at(hay: Seq<char>, needle: Seq<char>, i: int) -> bool {
    0 <= i && i + needle.len() <= hay.len() && hay.subrange(i, i + needle.len()) == needle
}

/// True when `needle` occurs somewhere in `hay`.
pub open spec fn text_contains(hay: Seq<char>, needle: Seq<char>) -> bool {
    exists|i: int| occurs_at(hay, needle, i)
}

/// True when some line of the mount table mentions `mount_point`.
pub open spec fn mount_listed_in(lines: Seq<String>, mount_point: Seq<char>) -> bool {
    exists|k: int| 0 <= k < lines.len() && text_contains(#[trigger] lines[k]@, mount_point)
}

/// The characters of a string.
fn chars_of(s: &str) -> (r: Vec<char>)
    ensures
        r@ == s@,
{
    let n = s.unicode_len();
    let mut r: Vec<char> = Vec::new();
    let mut i: usize = 0;
    while i < n
        invariant
            n == s@.len(),
            i <= n,
            r@ == s@.subrange(0, i as int),
        decreases n - i,
    {
        r.push(s.get_char(i));
        proof {
            assert(r@ =~= s@.subrange(0, i as int + 1));
        }
        i = i + 1;
    }
    proof {
        assert(r@ =~= s@);
    }
    r
}

/// Whether `needle` occurs in `hay` at position `i`.
fn occurs_at_exec(hay: &Vec<char>, needle: &Vec<char>, i: usize) -> (r: bool)
    requires
        i + needle@.len() <= hay@.len(),
    ensures
        r == occurs_at(hay@, needle@, i as int),
{
    let hay_len = hay.len();
    let mut j: usize = 0;
    while j < needle.len()
        invariant
            hay_len == hay@.len(),
            i + needle@.len() <= hay@.len(),
            j <= needle@.len(),
            forall|t: int| 0 <= t < j ==> hay@[i + t] == needle@[t],
        decreases needle@.len() - j,
    {
        if hay[i + j] != needle[j] {
            proof {
                let sub = hay@.subrange(i as int, i + needle@.len());
                assert(sub[j as int] != needle@[j as int]);
            }
            return false;
        }
        j = j + 1;
    }
    proof {
        assert(hay@.subrange(i as int, i + needle@.len()) =~= needle@);
    }
    true
}

/// Whether `needle` occurs anywhere in `hay`.
pub fn contains_text(hay: &str, needle: &str) -> (r: bool)
    ensures
        r == text_contains(hay@, needle@),
{
    let h = chars_of(hay);
    let n = chars_of(needle);
    if n.len() > h.len() {
        return false;
    }
    let last = h.len() - n.len();
    let mut i: usize = 0;
    while i <= last
        invariant
            last + n@.len() == h@.len(),
            h@ == hay@,
            n@ == needle@,
            forall|t: int| 0 <= t < i ==> !occurs_at(hay@, needle@, t),
        decreases last + 1 - i,
    {
        if occurs_at_exec(&h, &n, i) {
            return true;
        }
        if i == last {
            return false;
        }
        i = i + 1;
    }
    false
}

/// Whether any line of the mount table mentions `mount_point`. This is a
/// textual match: an unrelated entry that happens to contain the same text
/// counts too.
pub fn mount_listed(lines: &Vec<String>, mount_point: &str) -> (r: bool)
    ensures
        r == mount_listed_in(lines@, mount_point@),
{
    let mut k: usize = 0;
    while k < lines.len()
        invariant
            k <= lines@.len(),
            forall|t: int| 0 <= t < k ==> !text_contains(#[trigger] lines@[t]@, mount_point@),
        decreases lines@.len() - k,
    {
        if contains_text(lines[k].as_str(), mount_point) {
            return true;
        }
        k = k + 1;
    }
    false
}

/// What to do after one look at the mount table.
#[derive(PartialEq, Eq, Structural, Clone, Copy, Debug)]
pub enum MountStep {
    /// The mount is there: go on with startup.
    Ready,
    /// Not there yet: sleep `MOUNT_POLL_INTERVAL_MS` and look again.
    Retry,
    /// The wait has gone past `MOUNT_TIMEOUT_MS`: startup fails.
    TimedOut,
}

/// Decides, `elapsed_ms` after the wait began, given whether the mount was
/// just seen, whether to go on, look again, or give up. Once the time is
/// up the wait fails, whatever the mount table says.
pub fn mount_gate(elapsed_ms: u64, present: bool) -> (r: MountStep)
    ensures
        elapsed_ms > MOUNT_TIMEOUT_MS ==> r == MountStep::TimedOut,
        elapsed_ms <= MOUNT_TIMEOUT_MS && present ==> r == MountStep::Ready,
        elapsed_ms <= MOUNT_TIMEOUT_MS && !present ==> r == MountStep::Retry,
{
    if elapsed_ms > MOUNT_TIMEOUT_MS {
        MountStep::TimedOut
    } else if present {
        MountStep::Ready
    } else {
        MountStep::Retry
    }
}

} // verus!
