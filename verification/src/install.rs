//! Install pipeline: a per-item state machine over a fixed set of install
//! items.
//!
//! Each item's worker downloads a payload to a location unique to its
//! index, executes it, cleans up, and marks the item `Done` — whether the
//! download or the execution succeeded or failed, the two paths converge to
//! `Done`; no distinct failure state exists. Items progress independently
//! of one another and of the single-flight gate.

use vstd::prelude::*;

verus! {

/// Progress marker of one install item.
///
/// `Installed` is only ever set from a detection query (at startup or on a
/// reload); `Installing` and `Done` are owned by the item's worker. Once a
/// worker has transitioned an item to `Installing`, nothing but that worker
/// writes the item again.
#[derive(Clone, Copy, Debug, PartialEq, Eq, Structural)]
pub enum InstallState {
    NotInstalled,
    Installed,
    Installing,
    Done,
}

/// The job handed to a freshly spawned install worker: which item it owns
/// and what to download and run. The index doubles as the payload location,
/// so workers for different items never collide on disk.
pub struct InstallJob {
    pub index: usize,
    pub url: String,
    pub args: String,
}

/// The states of all install items, indexed by item id, sized once at
/// startup to the known item count.
pub struct InstallPipeline {
    pub states: Vec<InstallState>,
}

/// Whether a start request on item `i` may spawn a worker: only while no
/// worker owns the item.
pub open spec fn start_allowed(states: Seq<InstallState>, i: int) -> bool {
    states[i] != InstallState::Installing
}

/// The item states after a granted start on item `i`.
pub open spec fn states_after_start(states: Seq<InstallState>, i: int) -> Seq<InstallState> {
    states.update(i, InstallState::Installing)
}

/// The item states after item `i`'s worker finished.
pub open spec fn states_after_finish(states: Seq<InstallState>, i: int) -> Seq<InstallState> {
    states.update(i, InstallState::Done)
}

/// The state one item is left in by a detection pass: a detected item that
/// nothing has touched yet becomes `Installed`; every other state is kept,
/// so a pass never downgrades `Installing` or `Done`.
pub open spec fn state_after_detection(s: InstallState, detected: bool) -> InstallState {
    if s == InstallState::NotInstalled && detected {
        InstallState::Installed
    } else {
        s
    }
}

impl InstallPipeline {
    /// A fresh pipeline with `count` items, none of them touched yet.
    pub fn new(count: usize) -> (p: InstallPipeline)
        ensures
            p.states@.len() == count,
            forall|i: int|
                0 <= i < count ==> p.states@[i] == InstallState::NotInstalled,
    {
        let mut states: Vec<InstallState> = Vec::new();
        let mut n: usize = 0;
        while n < count
            invariant
                n <= count,
                states@.len() == n,
                forall|i: int|
                    0 <= i < n ==> states@[i] == InstallState::NotInstalled,
            decreases count - n,
        {
            states.push(InstallState::NotInstalled);
            n = n + 1;
        }
        InstallPipeline { states }
    }

    /// How many items the pipeline tracks.
    pub fn len(&self) -> (n: usize)
        ensures
            n == self.states@.len(),
    {
        self.states.len()
    }

    /// Read-only access to one item's state, for rendering.
    pub fn state_of(&self, i: usize) -> (s: InstallState)
        requires
            i < self.states@.len(),
        ensures
            s == self.states@[i as int],
    {
        self.states[i]
    }

    /// Check-and-transition for a start request on item `i`, in one step,
    /// so that two rapid requests cannot both spawn a worker. When no
    /// worker owns the item, marks it `Installing` and returns the job the
    /// caller must hand to exactly one new worker; while a worker owns it,
    /// the request is an invalid no-op and `None` comes back.
    pub fn try_start(&mut self, i: usize, url: String, args: String) -> (job: Option<
        InstallJob,
    >)
        requires
            i < old(self).states@.len(),
        ensures
            final(self).states@.len() == old(self).states@.len(),
            job is Some <==> start_allowed(old(self).states@, i as int),
            job matches Some(j) ==> j.index == i && j.url == url && j.args == args,
            job is Some ==> final(self).states@ == states_after_start(
                old(self).states@,
                i as int,
            ),
            job is None ==> final(self).states@ == old(self).states@,
    {
        if self.states[i] == InstallState::Installing {
            None
        } else {
            self.states.set(i, InstallState::Installing);
            Some(InstallJob { index: i, url, args })
        }
    }

    /// Worker exit for item `i`: the item becomes `Done` whether the
    /// download and the execution succeeded or failed — the design keeps no
    /// failure state, so both outcomes converge here.
    pub fn finish(&mut self, i: usize, download_ok: bool, execute_ok: bool)
        requires
            i < old(self).states@.len(),
            old(self).states@[i as int] == InstallState::Installing,
        ensures
            final(self).states@ == states_after_finish(old(self).states@, i as int),
    {
        let _ = download_ok;
        let _ = execute_ok;
        self.states.set(i, InstallState::Done);
    }

    /// One detection pass over all items, applied at startup and after each
    /// reload: detected, untouched items become `Installed`; items a worker
    /// has claimed or finished, and items already marked, are kept as they
    /// are. Entries therefore persist across reloads and never downgrade.
    pub fn apply_detection(&mut self, detected: &Vec<bool>)
        requires
            detected@.len() == old(self).states@.len(),
        ensures
            final(self).states@.len() == old(self).states@.len(),
            forall|i: int|
                0 <= i < old(self).states@.len() ==> final(self).states@[i]
                    == state_after_detection(old(self).states@[i], detected@[i]),
    {
        let mut i: usize = 0;
        let n = self.states.len();
        while i < n
            invariant
                i <= n,
                n == old(self).states@.len(),
                detected@.len() == n,
                self.states@.len() == n,
                forall|k: int|
                    0 <= k < i ==> self.states@[k] == state_after_detection(
                        old(self).states@[k],
                        detected@[k],
                    ),
                forall|k: int| i <= k < n ==> self.states@[k] == old(self).states@[k],
            decreases n - i,
        {
            if self.states[i] == InstallState::NotInstalled && detected[i] {
                self.states.set(i, InstallState::Installed);
            }
            i = i + 1;
        }
    }

    /// Whether any item currently has a worker running.
    pub fn any_installing(&self) -> (r: bool)
        ensures
            r == exists|i: int|
                0 <= i < self.states@.len() && self.states@[i] == InstallState::Installing,
    {
        let mut i: usize = 0;
        let n = self.states.len();
        while i < n
            invariant
                i <= n,
                n == self.states@.len(),
                forall|k: int| 0 <= k < i ==> self.states@[k] != InstallState::Installing,
            decreases n - i,
        {
            if self.states[i] == InstallState::Installing {
                return true;
            }
            i = i + 1;
        }
        false
    }
}

/// A start request grants at most one worker per item: right after a
/// granted start on item `i`, a second start on `i` is refused, and the
/// item reads `Installing` until its single worker finishes, at which point
/// it reads `Done`. Other items are untouched by both steps.
pub proof fn lemma_install_single_worker(states: Seq<InstallState>, i: int)
    requires
        0 <= i < states.len(),
        start_allowed(states, i),
    ensures
        !start_allowed(states_after_start(states, i), i),
        states_after_start(states, i)[i] == InstallState::Installing,
        states_after_finish(states_after_start(states, i), i)[i] == InstallState::Done,
        forall|k: int|
            0 <= k < states.len() && k != i ==> states_after_start(states, i)[k] == states[k],
        forall|k: int|
            0 <= k < states.len() && k != i ==> states_after_finish(
                states_after_start(states, i),
                i,
            )[k] == states[k],
{
}

/// The decimal digits of `n`, most significant first, as ASCII bytes.
pub open spec fn decimal_digits(n: nat) -> Seq<u8>
    decreases n,
{
    if n < 10 {
        seq![(48 + n) as u8]
    } else {
        decimal_digits(n / 10).push((48 + n % 10) as u8)
    }
}

/// The payload file name for item `index`: `installer_<index>.exe`.
pub open spec fn payload_name(index: nat) -> Seq<u8> {
    installer_prefix() + decimal_digits(index) + exe_suffix()
}

/// The name part `installer_`.
pub open spec fn installer_prefix() -> Seq<u8> {
    seq![105, 110, 115, 116, 97, 108, 108, 101, 114, 95]
}

/// The name part `.exe`.
pub open spec fn exe_suffix() -> Seq<u8> {
    seq![46, 101, 120, 101]
}

/// A decimal rendering is never empty.
proof fn lemma_decimal_digits_nonempty(n: nat)
    ensures
        decimal_digits(n).len() >= 1,
    decreases n,
{
}

/// Decimal renderings are unambiguous: equal digit strings mean equal
/// numbers.
proof fn lemma_decimal_digits_injective(a: nat, b: nat)
    requires
        decimal_digits(a) == decimal_digits(b),
    ensures
        a == b,
    decreases a,
{
    if a < 10 && b < 10 {
        assert(decimal_digits(a)[0] == (48 + a) as u8);
        assert(decimal_digits(b)[0] == (48 + b) as u8);
        assert((48 + a) as u8 as int == 48 + a);
        assert((48 + b) as u8 as int == 48 + b);
    } else if a < 10 {
        lemma_decimal_digits_nonempty(b / 10);
        assert(decimal_digits(a).len() == 1);
        assert(decimal_digits(b).len() >= 2);
    } else if b < 10 {
        lemma_decimal_digits_nonempty(a / 10);
        assert(decimal_digits(b).len() == 1);
        assert(decimal_digits(a).len() >= 2);
    } else {
        let da = decimal_digits(a / 10);
        let db = decimal_digits(b / 10);
        assert(da.push((48 + a % 10) as u8) == db.push((48 + b % 10) as u8));
        assert(da.len() == db.len());
        assert(da.push((48 + a % 10) as u8).last() == (48 + a % 10) as u8);
        assert(db.push((48 + b % 10) as u8).last() == (48 + b % 10) as u8);
        assert((48 + a % 10) as u8 == (48 + b % 10) as u8);
        assert(a % 10 == b % 10);
        assert(a == 10 * (a / 10) + a % 10);
        assert(b == 10 * (b / 10) + b % 10);
        assert(da =~= db) by {
            assert(forall|i: int|
                0 <= i < da.len() ==> da[i] == da.push((48 + a % 10) as u8)[i]);
        }
        lemma_decimal_digits_injective(a / 10, b / 10);
    }
}

/// Payload locations never collide across items: different indices give
/// different payload file names, so workers for different items never
/// touch the same file.
pub proof fn lemma_payload_names_distinct(a: nat, b: nat)
    requires
        a != b,
    ensures
        payload_name(a) != payload_name(b),
{
    if payload_name(a) == payload_name(b) {
        let pre = installer_prefix().len() as int;
        let da = decimal_digits(a);
        let db = decimal_digits(b);
        assert(payload_name(a).len() == pre + da.len() + exe_suffix().len());
        assert(payload_name(b).len() == pre + db.len() + exe_suffix().len());
        assert(da.len() == db.len());
        assert(da =~= db) by {
            assert(forall|i: int|
                0 <= i < da.len() ==> da[i] == payload_name(a)[pre + i] && db[i]
                    == payload_name(b)[pre + i]);
        }
        lemma_decimal_digits_injective(a, b);
    }
}

/// The decimal digits of `n`, most significant first, as ASCII bytes.
fn render_decimal(n: usize) -> (d: Vec<u8>)
    ensures
        d@ == decimal_digits(n as nat),
    decreases n,
{
    if n < 10 {
        let mut d: Vec<u8> = Vec::new();
        d.push(48 + n as u8);
        assert(d@ =~= decimal_digits(n as nat));
        d
    } else {
        let mut d = render_decimal(n / 10);
        d.push(48 + (n % 10) as u8);
        d
    }
}

impl InstallJob {
    /// The payload file name this job downloads to and executes, unique
    /// to the job's item: `installer_<index>.exe`.
    pub fn payload_file_name(&self) -> (name: Vec<u8>)
        ensures
            name@ == payload_name(self.index as nat),
    {
        let mut name: Vec<u8> = Vec::new();
        name.push(105);
        name.push(110);
        name.push(115);
        name.push(116);
        name.push(97);
        name.push(108);
        name.push(108);
        name.push(101);
        name.push(114);
        name.push(95);
        assert(name@ =~= installer_prefix());
        let mut digits = render_decimal(self.index);
        name.append(&mut digits);
        assert(name@ =~= installer_prefix() + decimal_digits(self.index as nat));
        name.push(46);
        name.push(101);
        name.push(120);
        name.push(101);
        assert(name@ =~= payload_name(self.index as nat));
        name
    }
}

/// A detection pass never downgrades: an item a worker has claimed stays
/// `Installing`, a finished item stays `Done`, and a marked item stays
/// `Installed`, whatever the query reported.
pub proof fn lemma_detection_never_downgrades(s: InstallState, detected: bool)
    ensures
        s == InstallState::Installing ==> state_after_detection(s, detected)
            == InstallState::Installing,
        s == InstallState::Done ==> state_after_detection(s, detected) == InstallState::Done,
        s == InstallState::Installed ==> state_after_detection(s, detected)
            == InstallState::Installed,
{
}

} // verus!
