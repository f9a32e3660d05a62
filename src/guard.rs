use vstd::prelude::*;

verus! {

/// Largest value a process id can take (a positive `pid_t`).
pub const MAX_PID: u32 = 2147483647;

/// Why the single-watcher guard refused an operation.
#[derive(PartialEq, Eq, Structural, Clone, Copy, Debug)]
pub enum GuardError {
    /// A marker already exists: a watcher is active for this pipeline.
    AlreadyWatching,
    /// No marker exists: nothing watches this pipeline.
    NotWatching,
    /// The marker exists but does not hold a process id.
    MarkerUnreadable,
    /// The marker could not be removed.
    ReleaseFailed,
}

/// Characters ignored around the process id in a marker.
pub open spec fn is_blank(c: char) -> bool {
    c == ' ' || c == '\t' || c == '\n' || c == '\r'
}

pub open spec fn is_digit(c: char) -> bool {
    '0' <= c && c <= '9'
}

pub open spec fn digit_value(c: char) -> int {
    c as int - '0' as int
}

pub open spec fn trim_start(s: Seq<char>) -> Seq<char>
    decreases s.len(),
{
    if s.len() > 0 && is_blank(s[0]) {
        trim_start(s.drop_first())
    } else {
        s
    }
}

pub open spec fn trim_end(s: Seq<char>) -> Seq<char>
    decreases s.len(),
{
    if s.len() > 0 && is_blank(s.last()) {
        trim_end(s.drop_last())
    } else {
        s
    }
}

/// The text with blanks removed at both ends.
pub open spec fn trimmed(s: Seq<char>) -> Seq<char> {
    trim_end(trim_start(s))
}

pub open spec fn all_digits(s: Seq<char>) -> bool {
    forall|i: int| 0 <= i < s.len() ==> is_digit(#[trigger] s[i])
}

/// The number that a string of decimal digits spells.
pub open spec fn decimal_value(s: Seq<char>) -> int
    decreases s.len(),
{
    if s.len() == 0 {
        0
    } else {
        decimal_value(s.drop_last()) * 10 + digit_value(s.last())
    }
}

/// The process id that a marker's content holds: a decimal number between 1
/// and `MAX_PID`, possibly surrounded by blanks.
pub open spec fn pid_of(content: Seq<char>) -> Option<u32> {
    let t = trimmed(content);
    if t.len() > 0 && all_digits(t) && 1 <= decimal_value(t) <= MAX_PID {
        Some(decimal_value(t) as u32)
    } else {
        None
    }
}

pub(crate) proof fn lemma_decimal_nonneg(s: Seq<char>)
    requires
        all_digits(s),
    ensures
        decimal_value(s) >= 0,
    decreases s.len(),
{
    if s.len() > 0 {
        assert(is_digit(s[s.len() - 1]));
        lemma_decimal_nonneg(s.drop_last());
    }
}

pub(crate) proof fn lemma_decimal_prefix_le(s: Seq<char>, k: int)
    requires
        all_digits(s),
        0 <= k <= s.len(),
    ensures
        decimal_value(s.subrange(0, k)) <= decimal_value(s),
    decreases s.len(),
{
    if k < s.len() {
        let d = s.drop_last();
        assert(is_digit(s[s.len() - 1]));
        lemma_decimal_prefix_le(d, k);
        assert(d.subrange(0, k) =~= s.subrange(0, k));
        lemma_decimal_nonneg(d);
    } else {
        assert(s.subrange(0, k) =~= s);
    }
}

/// The process id held by a marker's content, if it holds one.
pub fn parse_pid(content: &str) -> (r: Option<u32>)
    ensures
        r == pid_of(content@),
{
    let n = content.unicode_len();
    let ghost s = content@;
    // skip leading blanks
    let mut lo: usize = 0;
    assert(s.subrange(0, n as int) =~= s);
    while lo < n && is_blank_char(content.get_char(lo))
        invariant
            n == s.len(),
            s == content@,
            lo <= n,
            trim_start(s) == trim_start(s.subrange(lo as int, n as int)),
        decreases n - lo,
    {
        proof {
            let sub = s.subrange(lo as int, n as int);
            assert(sub.drop_first() =~= s.subrange(lo + 1, n as int));
        }
        lo = lo + 1;
    }
    proof {
        let sub = s.subrange(lo as int, n as int);
        assert(trim_start(sub) == sub);
    }
    // skip trailing blanks
    let mut hi: usize = n;
    while hi > lo && is_blank_char(content.get_char(hi - 1))
        invariant
            n == s.len(),
            s == content@,
            lo <= hi <= n,
            trimmed(s) == trim_end(s.subrange(lo as int, hi as int)),
        decreases hi,
    {
        proof {
            let sub = s.subrange(lo as int, hi as int);
            assert(sub.drop_last() =~= s.subrange(lo as int, hi - 1));
        }
        hi = hi - 1;
    }
    let ghost t = s.subrange(lo as int, hi as int);
    proof {
        assert(trim_end(t) == t);
        assert(trimmed(s) == t);
    }
    if hi == lo {
        return None;
    }
    // every remaining character must be a digit
    let mut i: usize = lo;
    while i < hi
        invariant
            n == s.len(),
            s == content@,
            t == s.subrange(lo as int, hi as int),
            trimmed(s) == t,
            lo <= i <= hi <= n,
            forall|j: int| 0 <= j < i - lo ==> is_digit(#[trigger] t[j]),
        decreases hi - i,
    {
        let c = content.get_char(i);
        if !('0' <= c && c <= '9') {
            assert(!is_digit(t[i - lo]));
            return None;
        }
        i = i + 1;
    }
    assert(all_digits(t));
    // accumulate the value, stopping once it is out of range
    let mut acc: u64 = 0;
    let mut k: usize = lo;
    while k < hi
        invariant
            n == s.len(),
            s == content@,
            t == s.subrange(lo as int, hi as int),
            trimmed(s) == t,
            all_digits(t),
            lo <= k <= hi <= n,
            acc as int == decimal_value(t.subrange(0, k - lo)),
            acc <= MAX_PID,
        decreases hi - k,
    {
        let c = content.get_char(k);
        let ghost prefix = t.subrange(0, k - lo);
        let ghost next = t.subrange(0, k + 1 - lo);
        proof {
            assert(next.drop_last() =~= prefix);
            assert(is_digit(t[k - lo]));
            assert(next.last() == c);
        }
        acc = acc * 10 + (c as u64 - '0' as u64);
        assert(acc as int == decimal_value(next));
        if acc > MAX_PID as u64 {
            proof {
                lemma_decimal_prefix_le(t, k + 1 - lo);
            }
            return None;
        }
        k = k + 1;
    }
    assert(t.subrange(0, hi - lo) =~= t);
    if acc == 0 {
        return None;
    }
    Some(acc as u32)
}

/// Whether `c` is one of the blanks that surround a process id.
pub fn is_blank_char(c: char) -> (r: bool)
    ensures
        r == is_blank(c),
{
    c == ' ' || c == '\t' || c == '\n' || c == '\r'
}


/// The view of an optional marker content.
pub open spec fn content_view(c: Option<String>) -> Option<Seq<char>> {
    match c {
        Some(s) => Some(s@),
        None => None,
    }
}

/// The holder that a marker with content `m` (or no marker, `None`) names.
pub open spec fn holder_of_marker(m: Option<Seq<char>>) -> Result<u32, GuardError> {
    match m {
        None => Err(GuardError::NotWatching),
        Some(c) => match pid_of(c) {
            Some(pid) => Ok(pid),
            None => Err(GuardError::MarkerUnreadable),
        },
    }
}

/// What acquiring a pipeline whose marker is `m` returns: only a pipeline
/// without a marker can be acquired.
pub open spec fn acquire_outcome(m: Option<Seq<char>>) -> Result<(), GuardError> {
    if m is Some {
        Err(GuardError::AlreadyWatching)
    } else {
        Ok(())
    }
}

/// The marker after acquiring: an empty placeholder where there was none.
pub open spec fn after_acquire(m: Option<Seq<char>>) -> Option<Seq<char>> {
    if m is Some {
        m
    } else {
        Some(Seq::empty())
    }
}

/// What releasing a pipeline whose marker is `m` returns.
pub open spec fn release_outcome(m: Option<Seq<char>>) -> Result<(), GuardError> {
    if m is Some {
        Ok(())
    } else {
        Err(GuardError::NotWatching)
    }
}

/// The marker after releasing: none, whatever there was.
pub open spec fn after_release(m: Option<Seq<char>>) -> Option<Seq<char>> {
    None
}

/// What unwatching a pipeline whose marker is `m` returns: the process id to
/// stop, or why there is none.
pub open spec fn unwatch_outcome(m: Option<Seq<char>>) -> Result<u32, GuardError> {
    holder_of_marker(m)
}

/// The marker after unwatching: removed where it named a process, else kept.
pub open spec fn after_unwatch(m: Option<Seq<char>>) -> Option<Seq<char>> {
    if holder_of_marker(m) is Ok {
        None
    } else {
        m
    }
}

/// What the marker of one pipeline looks like when it is read.
pub enum MarkerState {
    /// There is no marker.
    Absent,
    /// A marker exists but its content could not be read.
    Unreadable,
    /// A marker exists with this content.
    Present(String),
}

/// The holder that a marker in `state` names: its process id, or why there is none.
pub open spec fn holder_spec(state: MarkerState) -> Result<u32, GuardError> {
    match state {
        MarkerState::Absent => holder_of_marker(None),
        MarkerState::Unreadable => Err(GuardError::MarkerUnreadable),
        MarkerState::Present(c) => holder_of_marker(Some(c@)),
    }
}

/// Looks up the process id of the watcher that a marker names.
pub fn holder_from(state: &MarkerState) -> (r: Result<u32, GuardError>)
    ensures
        r == holder_spec(*state),
{
    match state {
        MarkerState::Absent => Err(GuardError::NotWatching),
        MarkerState::Unreadable => Err(GuardError::MarkerUnreadable),
        MarkerState::Present(c) => match parse_pid(c.as_str()) {
            Some(pid) => Ok(pid),
            None => Err(GuardError::MarkerUnreadable),
        },
    }
}

/// Files that belong to the watch of one pipeline.
pub struct WatchPaths {
    /// Directory of the pipeline under the runtime root.
    pub dir: String,
    /// The marker: it holds the process id of the watcher.
    pub marker: String,
    /// Where the watcher's standard output goes.
    pub stdout_log: String,
    /// Where the watcher's standard error goes.
    pub stderr_log: String,
}

pub open spec fn dir_spec(root: Seq<char>, pipeline: Seq<char>) -> Seq<char> {
    root + seq!['/'] + pipeline
}

/// `paths` are the files of the watch of `pipeline` under `root`.
pub open spec fn paths_of(paths: WatchPaths, root: Seq<char>, pipeline: Seq<char>) -> bool {
    &&& paths.dir@ == dir_spec(root, pipeline)
    &&& paths.marker@ == dir_spec(root, pipeline) + "/daemon.pid"@
    &&& paths.stdout_log@ == dir_spec(root, pipeline) + "/daemon.stdout.log"@
    &&& paths.stderr_log@ == dir_spec(root, pipeline) + "/daemon.stderr.log"@
}

/// The files of the watch of `pipeline`, placed in its own directory under `root`.
pub fn watch_paths(root: &str, pipeline: &str) -> (r: WatchPaths)
    ensures
        paths_of(r, root@, pipeline@),
{
    let mut dir = String::from_str(root);
    dir.append("/");
    dir.append(pipeline);
    proof {
        reveal_strlit("/");
    }
    assert(dir@ =~= dir_spec(root@, pipeline@));
    let mut marker = dir.clone();
    marker.append("/daemon.pid");
    let mut stdout_log = dir.clone();
    stdout_log.append("/daemon.stdout.log");
    let mut stderr_log = dir.clone();
    stderr_log.append("/daemon.stderr.log");
    WatchPaths { dir, marker, stdout_log, stderr_log }
}

/// Decides whether a watch of `pipeline` may start, given whether its marker
/// exists: it may only where there is none, and then gets its files.
pub fn plan_acquire(marker_exists: bool, root: &str, pipeline: &str) -> (r: Result<
    WatchPaths,
    GuardError,
>)
    ensures
        match r {
            Ok(paths) => !marker_exists && paths_of(paths, root@, pipeline@),
            Err(e) => marker_exists && e == GuardError::AlreadyWatching,
        },
{
    if marker_exists {
        Err(GuardError::AlreadyWatching)
    } else {
        Ok(watch_paths(root, pipeline))
    }
}


/// The marker slot of one pipeline in a `LockStore`.
struct MarkerSlot {
    pipeline: String,
    content: Option<String>,
}

/// Markers kept in memory, keyed by pipeline: a store with the same policy as
/// the markers on disk, for use where no file system is wanted.
pub struct LockStore {
    root: String,
    slots: Vec<MarkerSlot>,
}

impl LockStore {
    /// Each pipeline has at most one slot.
    pub closed spec fn wf(&self) -> bool {
        forall|i: int, j: int|
            0 <= i < self.slots.len() && 0 <= j < self.slots.len() && #[trigger] self.slots[i].pipeline@
                == #[trigger] self.slots[j].pipeline@ ==> i == j
    }

    closed spec fn has_slot(&self, p: Seq<char>) -> bool {
        exists|i: int| 0 <= i < self.slots.len() && #[trigger] self.slots[i].pipeline@ == p
    }

    /// The content of the marker of pipeline `p`, if it has one.
    pub closed spec fn marker_of(&self, p: Seq<char>) -> Option<Seq<char>> {
        if self.has_slot(p) {
            let i = choose|i: int| 0 <= i < self.slots.len() && #[trigger] self.slots[i].pipeline@ == p;
            match self.slots[i].content {
                Some(c) => Some(c@),
                None => None,
            }
        } else {
            None
        }
    }

    /// The runtime root that the store's watch files are placed under.
    pub closed spec fn root(&self) -> Seq<char> {
        self.root@
    }

    /// A store without markers, for watches placed under `root`.
    pub fn new(root: &str) -> (r: LockStore)
        ensures
            r.wf(),
            r.root() == root@,
            forall|p: Seq<char>| r.marker_of(p) is None,
    {
        LockStore { root: String::from_str(root), slots: Vec::new() }
    }

    fn find(&self, p: &String) -> (r: Option<usize>)
        requires
            self.wf(),
        ensures
            match r {
                Some(i) => i < self.slots.len() && self.slots[i as int].pipeline@ == p@
                    && self.marker_of(p@) == match self.slots[i as int].content {
                    Some(c) => Some(c@),
                    None => None::<Seq<char>>,
                },
                None => !self.has_slot(p@) && self.marker_of(p@) is None,
            },
    {
        let mut i: usize = 0;
        while i < self.slots.len()
            invariant
                self.wf(),
                i <= self.slots.len(),
                forall|j: int| 0 <= j < i ==> #[trigger] self.slots[j].pipeline@ != p@,
            decreases self.slots.len() - i,
        {
            if self.slots[i].pipeline == *p {
                proof {
                    assert(self.has_slot(p@));
                    let k = choose|k: int|
                        0 <= k < self.slots.len() && #[trigger] self.slots[k].pipeline@ == p@;
                    assert(self.slots[k].pipeline@ == self.slots[i as int].pipeline@);
                }
                return Some(i);
            }
            i = i + 1;
        }
        None
    }

    fn set_content(&mut self, p: &String, content: Option<String>)
        requires
            old(self).wf(),
        ensures
            final(self).wf(),
            final(self).root() == old(self).root(),
            final(self).marker_of(p@) == content_view(content),
            forall|q: Seq<char>| q != p@ ==> final(self).marker_of(q) == old(self).marker_of(q),
    {
        let ghost pre = *self;
        match self.find(p) {
            Some(i) => {
                self.slots.set(i, MarkerSlot { pipeline: p.clone(), content });
                proof {
                    assert(self.has_slot(p@)) by {
                        assert(self.slots[i as int].pipeline@ == p@);
                    }
                    assert forall|q: Seq<char>| q != p@ implies self.marker_of(q) == pre.marker_of(
                        q,
                    ) by {
                        if pre.has_slot(q) {
                            let k = choose|k: int|
                                0 <= k < pre.slots.len() && #[trigger] pre.slots[k].pipeline@ == q;
                            assert(self.slots[k].pipeline@ == q);
                        }
                        if self.has_slot(q) {
                            let k = choose|k: int|
                                0 <= k < self.slots.len() && #[trigger] self.slots[k].pipeline@ == q;
                            assert(pre.slots[k].pipeline@ == q);
                        }
                    }
                }
            },
            None => {
                self.slots.push(MarkerSlot { pipeline: p.clone(), content });
                proof {
                    let n = pre.slots.len() as int;
                    assert(self.slots[n].pipeline@ == p@);
                    assert(self.has_slot(p@));
                    assert forall|q: Seq<char>| q != p@ implies self.marker_of(q) == pre.marker_of(
                        q,
                    ) by {
                        if pre.has_slot(q) {
                            let k = choose|k: int|
                                0 <= k < pre.slots.len() && #[trigger] pre.slots[k].pipeline@ == q;
                            assert(self.slots[k].pipeline@ == q);
                        }
                        if self.has_slot(q) {
                            let k = choose|k: int|
                                0 <= k < self.slots.len() && #[trigger] self.slots[k].pipeline@ == q;
                            assert(pre.slots[k].pipeline@ == q);
                        }
                    }
                }
            },
        }
    }

    /// What a reader of the marker of `p` sees.
    pub fn state_of(&self, p: &String) -> (r: MarkerState)
        requires
            self.wf(),
        ensures
            match r {
                MarkerState::Absent => self.marker_of(p@) is None,
                MarkerState::Present(c) => self.marker_of(p@) == Some(c@),
                MarkerState::Unreadable => false,
            },
    {
        match self.find(p) {
            Some(i) => match &self.slots[i].content {
                Some(c) => MarkerState::Present(c.clone()),
                None => MarkerState::Absent,
            },
            None => MarkerState::Absent,
        }
    }

    /// Takes the marker of `p`: test-and-set. Where a marker exists, nothing
    /// changes and `AlreadyWatching` is returned; else an empty marker is put
    /// in place and the files of the watch are returned.
    pub fn try_acquire(&mut self, p: &String) -> (r: Result<WatchPaths, GuardError>)
        requires
            old(self).wf(),
        ensures
            final(self).wf(),
            final(self).root() == old(self).root(),
            match r {
                Ok(paths) => acquire_outcome(old(self).marker_of(p@)) is Ok && paths_of(
                    paths,
                    old(self).root(),
                    p@,
                ),
                Err(e) => acquire_outcome(old(self).marker_of(p@)) == Err::<(), GuardError>(e),
            },
            final(self).marker_of(p@) == after_acquire(old(self).marker_of(p@)),
            forall|q: Seq<char>| q != p@ ==> final(self).marker_of(q) == old(self).marker_of(q),
    {
        let held = match self.state_of(p) {
            MarkerState::Absent => false,
            _ => true,
        };
        let r = plan_acquire(held, self.root.as_str(), p.as_str());
        match r {
            Ok(_) => {
                let placeholder = String::new();
                assert(placeholder@ =~= Seq::<char>::empty());
                self.set_content(p, Some(placeholder));
            },
            Err(_) => {},
        }
        r
    }

    /// Writes `content` into the marker of `p`, as the watcher does with its
    /// process id; `NotWatching` where `p` has no marker.
    pub fn record(&mut self, p: &String, content: String) -> (r: Result<(), GuardError>)
        requires
            old(self).wf(),
        ensures
            final(self).wf(),
            final(self).root() == old(self).root(),
            r is Ok <==> old(self).marker_of(p@) is Some,
            r is Err ==> r == Err::<(), GuardError>(GuardError::NotWatching),
            final(self).marker_of(p@) == if r is Ok {
                Some(content@)
            } else {
                old(self).marker_of(p@)
            },
            forall|q: Seq<char>| q != p@ ==> final(self).marker_of(q) == old(self).marker_of(q),
    {
        match self.state_of(p) {
            MarkerState::Absent => Err(GuardError::NotWatching),
            _ => {
                self.set_content(p, Some(content));
                Ok(())
            },
        }
    }

    /// The process id held in the marker of `p`.
    pub fn holder_of(&self, p: &String) -> (r: Result<u32, GuardError>)
        requires
            self.wf(),
        ensures
            r == holder_of_marker(self.marker_of(p@)),
    {
        holder_from(&self.state_of(p))
    }

    /// Removes the marker of `p`; `NotWatching` where there is none.
    pub fn release(&mut self, p: &String) -> (r: Result<(), GuardError>)
        requires
            old(self).wf(),
        ensures
            final(self).wf(),
            final(self).root() == old(self).root(),
            r == release_outcome(old(self).marker_of(p@)),
            final(self).marker_of(p@) == after_release(old(self).marker_of(p@)),
            forall|q: Seq<char>| q != p@ ==> final(self).marker_of(q) == old(self).marker_of(q),
    {
        match self.state_of(p) {
            MarkerState::Absent => Err(GuardError::NotWatching),
            _ => {
                self.set_content(p, None);
                Ok(())
            },
        }
    }

    /// Looks up the watcher of `p` and removes its marker, returning the
    /// process id to stop. Where the marker is missing or unreadable, nothing
    /// changes.
    pub fn unwatch(&mut self, p: &String) -> (r: Result<u32, GuardError>)
        requires
            old(self).wf(),
        ensures
            final(self).wf(),
            final(self).root() == old(self).root(),
            r == unwatch_outcome(old(self).marker_of(p@)),
            final(self).marker_of(p@) == after_unwatch(old(self).marker_of(p@)),
            forall|q: Seq<char>| q != p@ ==> final(self).marker_of(q) == old(self).marker_of(q),
    {
        let r = self.holder_of(p);
        if r.is_ok() {
            let _ = self.release(p);
        }
        r
    }
}

/// A marker's life is reusable: once a release of a pipeline's marker has
/// succeeded, acquiring that pipeline succeeds again.
pub proof fn lemma_acquire_after_release(m: Option<Seq<char>>)
    requires
        release_outcome(m) is Ok,
    ensures
        acquire_outcome(after_release(m)) is Ok,
        after_acquire(after_release(m)) == Some(Seq::<char>::empty()),
{
}

/// Where a pipeline already has a marker, acquiring it returns
/// `AlreadyWatching` and leaves the marker as it was.
pub proof fn lemma_acquire_when_held(m: Option<Seq<char>>)
    requires
        m is Some,
    ensures
        acquire_outcome(m) == Err::<(), GuardError>(GuardError::AlreadyWatching),
        after_acquire(m) == m,
{
}

/// Unwatching a watched pipeline twice in a row succeeds the first time and
/// returns `NotWatching` the second time.
pub proof fn lemma_unwatch_twice(m: Option<Seq<char>>)
    requires
        holder_of_marker(m) is Ok,
    ensures
        unwatch_outcome(m) is Ok,
        after_unwatch(m) is None,
        unwatch_outcome(after_unwatch(m)) == Err::<u32, GuardError>(GuardError::NotWatching),
{
}

} // verus!
