use std::collections::VecDeque;
use vstd::prelude::*;

use crate::text::{
    chars_of, concat_text, contains, contains_chars, lemma_lex_lt_asymmetric,
    lemma_lex_lt_irreflexive, lemma_lex_lt_total, lemma_lex_lt_transitive, lex_less, lex_lt,
    lowercase, same_text, to_lowercase,
};

verus! {

/// How deep below the searched directory executables are looked for.
pub const MAX_SEARCH_DEPTH: usize = 4;

/// The operating system the launcher runs on, as far as file names differ.
#[derive(Debug, Clone, Copy, PartialEq, Eq, Structural)]
pub enum TargetOs {
    Windows,
    Other,
}

pub open spec fn exe_file_name_spec(name: Seq<char>, os: TargetOs) -> Seq<char> {
    match os {
        TargetOs::Windows => name + ".exe"@,
        TargetOs::Other => name,
    }
}

/// The file name of executable `name`: with `.exe` on Windows.
pub fn exe_file_name(name: &str, os: TargetOs) -> (r: String)
    ensures
        r@ == exe_file_name_spec(name@, os),
{
    match os {
        TargetOs::Windows => concat_text(name, ".exe"),
        TargetOs::Other => name.to_string(),
    }
}

/// `name` is the file name of llama-server.
pub open spec fn server_binary_name_spec(name: Seq<char>, os: TargetOs) -> bool {
    name == exe_file_name_spec("llama-server"@, os)
}

/// `name` is the file name of the RPC server (`ggml-rpc-server`, or its older
/// name `rpc-server`).
pub open spec fn rpc_binary_name_spec(name: Seq<char>, os: TargetOs) -> bool {
    name == exe_file_name_spec("ggml-rpc-server"@, os) || name == exe_file_name_spec(
        "rpc-server"@,
        os,
    )
}

/// Whether `name` is the file name of llama-server.
pub fn is_server_binary_name(name: &str, os: TargetOs) -> (r: bool)
    ensures
        r == server_binary_name_spec(name@, os),
{
    let expected = exe_file_name("llama-server", os);
    same_text(name, expected.as_str())
}

/// Whether `name` is the file name of the RPC server (`ggml-rpc-server`, or
/// its older name `rpc-server`).
pub fn is_rpc_binary_name(name: &str, os: TargetOs) -> (r: bool)
    ensures
        r == rpc_binary_name_spec(name@, os),
{
    let current = exe_file_name("ggml-rpc-server", os);
    let older = exe_file_name("rpc-server", os);
    same_text(name, current.as_str()) || same_text(name, older.as_str())
}

// ---------------------------------------------------------------------------
// The order in which subdirectories are searched.
// ---------------------------------------------------------------------------

/// Subdirectory `i` is searched before subdirectory `j`: names containing the
/// keyword first, then by name, and equal names in the order they were listed.
/// `names` are the lowercase names.
pub open spec fn dir_before(names: Seq<Seq<char>>, kw: Seq<char>, i: int, j: int) -> bool {
    let ki = contains(names[i], kw);
    let kj = contains(names[j], kw);
    ||| ki && !kj
    ||| ki == kj && lex_lt(names[i], names[j])
    ||| ki == kj && names[i] == names[j] && i < j
}

/// `order` lists every subdirectory exactly once, in search order.
pub open spec fn is_subdir_order(names: Seq<Seq<char>>, kw: Seq<char>, order: Seq<usize>) -> bool {
    &&& order.len() == names.len()
    &&& forall|k: int| 0 <= k < order.len() ==> order[k] < names.len()
    &&& forall|k: usize| k < names.len() ==> #[trigger] order.contains(k)
    &&& forall|a: int, b: int|
        0 <= a < b < order.len() ==> dir_before(names, kw, order[a] as int, order[b] as int)
}

proof fn lemma_dir_before_total(names: Seq<Seq<char>>, kw: Seq<char>, i: int, j: int)
    requires
        i != j,
    ensures
        dir_before(names, kw, i, j) || dir_before(names, kw, j, i),
{
    lemma_lex_lt_total(names[i], names[j]);
}

proof fn lemma_dir_before_irreflexive(names: Seq<Seq<char>>, kw: Seq<char>, i: int)
    ensures
        !dir_before(names, kw, i, i),
{
    lemma_lex_lt_irreflexive(names[i]);
}

proof fn lemma_dir_before_transitive(names: Seq<Seq<char>>, kw: Seq<char>, i: int, j: int, k: int)
    requires
        dir_before(names, kw, i, j),
        dir_before(names, kw, j, k),
    ensures
        dir_before(names, kw, i, k),
{
    if lex_lt(names[i], names[j]) && lex_lt(names[j], names[k]) {
        lemma_lex_lt_transitive(names[i], names[j], names[k]);
    }
    if names[i] == names[j] && lex_lt(names[i], names[k]) {
    }
    lemma_lex_lt_asymmetric(names[i], names[j]);
    lemma_lex_lt_asymmetric(names[j], names[k]);
    lemma_lex_lt_irreflexive(names[i]);
}

pub open spec fn chars_view(v: Seq<Vec<char>>) -> Seq<Seq<char>> {
    Seq::new(v.len(), |i: int| v[i]@)
}

fn before(lowered: &Vec<Vec<char>>, flags: &Vec<bool>, kw: &Vec<char>, i: usize, j: usize) -> (r: bool)
    requires
        i < lowered@.len(),
        j < lowered@.len(),
        flags@.len() == lowered@.len(),
        forall|k: int| 0 <= k < flags@.len() ==> flags@[k] == contains(lowered@[k]@, kw@),
    ensures
        r == dir_before(chars_view(lowered@), kw@, i as int, j as int),
{
    let ki = flags[i];
    let kj = flags[j];
    if ki && !kj {
        return true;
    }
    if ki != kj {
        return false;
    }
    if lex_less(&lowered[i], &lowered[j]) {
        return true;
    }
    crate::text::same_chars(&lowered[i], &lowered[j]) && i < j
}

/// The search order of subdirectories with the given lowercase names.
pub fn subdir_order(lowered: &Vec<Vec<char>>, kw: &Vec<char>) -> (order: Vec<usize>)
    ensures
        is_subdir_order(chars_view(lowered@), kw@, order@),
{
    let ghost names = chars_view(lowered@);
    let n = lowered.len();
    let mut flags: Vec<bool> = Vec::new();
    let mut f: usize = 0;
    while f < n
        invariant
            0 <= f <= n,
            n == lowered@.len(),
            flags@.len() == f,
            forall|k: int| 0 <= k < f ==> flags@[k] == contains(lowered@[k]@, kw@),
        decreases n - f,
    {
        flags.push(contains_chars(&lowered[f], kw));
        f += 1;
    }
    let mut order: Vec<usize> = Vec::new();
    let mut i: usize = 0;
    while i < n
        invariant
            0 <= i <= n,
            n == lowered@.len(),
            names == chars_view(lowered@),
            flags@.len() == n,
            forall|k: int| 0 <= k < flags@.len() ==> flags@[k] == contains(lowered@[k]@, kw@),
            order@.len() == i,
            forall|k: int| 0 <= k < order@.len() ==> order@[k] < i,
            forall|k: usize| k < i ==> #[trigger] order@.contains(k),
            forall|a: int, b: int|
                0 <= a < b < order@.len() ==> dir_before(names, kw@, order@[a] as int, order@[b] as int),
        decreases n - i,
    {
        // The first position whose entry comes after `i`.
        let mut p: usize = 0;
        while p < order.len() && !before(lowered, &flags, kw, i, order[p])
            invariant
                0 <= p <= order@.len(),
                order@.len() == i,
                i < n,
                n == lowered@.len(),
                names == chars_view(lowered@),
                flags@.len() == n,
                forall|k: int| 0 <= k < flags@.len() ==> flags@[k] == contains(lowered@[k]@, kw@),
                forall|k: int| 0 <= k < order@.len() ==> order@[k] < i,
                forall|k: int|
                    0 <= k < p ==> !dir_before(names, kw@, i as int, #[trigger] order@[k] as int),
            decreases order@.len() - p,
        {
            p += 1;
        }
        let ghost old_order = order@;
        proof {
            assert forall|k: int| 0 <= k < p implies dir_before(
                names,
                kw@,
                #[trigger] old_order[k] as int,
                i as int,
            ) by {
                lemma_dir_before_total(names, kw@, i as int, old_order[k] as int);
            }
            if p < old_order.len() {
                assert forall|k: int| p <= k < old_order.len() implies dir_before(
                    names,
                    kw@,
                    i as int,
                    #[trigger] old_order[k] as int,
                ) by {
                    if k > p {
                        lemma_dir_before_transitive(
                            names,
                            kw@,
                            i as int,
                            old_order[p as int] as int,
                            old_order[k] as int,
                        );
                    }
                }
            }
        }
        order.insert(p, i);
        proof {
            let o = order@;
            assert(o =~= old_order.insert(p as int, i));
            assert forall|a: int, b: int| 0 <= a < b < o.len() implies dir_before(
                names,
                kw@,
                o[a] as int,
                o[b] as int,
            ) by {
                if b < p {
                    assert(o[a] == old_order[a] && o[b] == old_order[b]);
                } else if b == p {
                    assert(o[a] == old_order[a]);
                } else if a < p {
                    assert(o[a] == old_order[a] && o[b] == old_order[b - 1]);
                    lemma_dir_before_transitive(names, kw@, o[a] as int, i as int, o[b] as int);
                } else if a == p {
                    assert(o[b] == old_order[b - 1]);
                } else {
                    assert(o[a] == old_order[a - 1] && o[b] == old_order[b - 1]);
                }
            }
            assert forall|k: usize| k < i + 1 implies #[trigger] o.contains(k) by {
                if k == i {
                    assert(o[p as int] == i);
                } else {
                    assert(old_order.contains(k));
                    let w = choose|w: int| 0 <= w < old_order.len() && old_order[w] == k;
                    if w < p {
                        assert(o[w] == k);
                    } else {
                        assert(o[w + 1] == k);
                    }
                }
            }
        }
        i += 1;
    }
    order
}

/// The search order is determined by the names alone: two orders that both
/// satisfy `is_subdir_order` for the same names are the same order.
pub proof fn lemma_subdir_order_unique(
    names: Seq<Seq<char>>,
    kw: Seq<char>,
    a: Seq<usize>,
    b: Seq<usize>,
)
    requires
        is_subdir_order(names, kw, a),
        is_subdir_order(names, kw, b),
    ensures
        a == b,
{
    lemma_subdir_orders_agree(names, kw, a, b, a.len() as int);
    assert(a =~= b);
}

proof fn lemma_subdir_orders_agree(
    names: Seq<Seq<char>>,
    kw: Seq<char>,
    a: Seq<usize>,
    b: Seq<usize>,
    k: int,
)
    requires
        is_subdir_order(names, kw, a),
        is_subdir_order(names, kw, b),
        0 <= k <= a.len(),
    ensures
        forall|j: int| 0 <= j < k ==> a[j] == b[j],
    decreases k,
{
    if k > 0 {
        lemma_subdir_orders_agree(names, kw, a, b, k - 1);
        let i = k - 1;
        if a[i] != b[i] {
            // Both orders agree before `i`, so each one places the other's
            // entry at `i` after `i`: each entry would come before the other.
            let x = a[i];
            let y = b[i];
            assert(a.contains(y));
            assert(b.contains(x));
            let m = choose|m: int| 0 <= m < a.len() && a[m] == y;
            let w = choose|w: int| 0 <= w < b.len() && b[w] == x;
            if m < i {
                assert(b[m] == a[m]);
                assert(dir_before(names, kw, b[m] as int, b[i] as int));
                lemma_dir_before_irreflexive(names, kw, y as int);
            }
            if w < i {
                assert(a[w] == b[w]);
                assert(dir_before(names, kw, a[w] as int, a[i] as int));
                lemma_dir_before_irreflexive(names, kw, x as int);
            }
            assert(dir_before(names, kw, x as int, y as int));
            assert(dir_before(names, kw, y as int, x as int));
            lemma_dir_before_transitive(names, kw, x as int, y as int, x as int);
            lemma_dir_before_irreflexive(names, kw, x as int);
        }
    }
}

// ---------------------------------------------------------------------------
// Looking for an executable below a directory, breadth first.
// ---------------------------------------------------------------------------

/// What the search waits for.
#[derive(Debug, Clone, Copy, PartialEq, Eq, Structural)]
pub enum SearchPhase {
    /// Whether the executable exists in the current directory.
    AwaitingExeCheck,
    /// The names of the subdirectories of the current directory.
    AwaitingSubdirs,
    /// Nothing: the search is over.
    Finished,
}

/// What the search asks of its caller next. Directories are named by handles:
/// `0` is the directory searched, and the subdirectories reported for a
/// directory get the next free handles, in the order they were reported.
#[derive(Debug, Clone, Copy, PartialEq, Eq, Structural)]
pub enum SearchStep {
    /// Report whether the executable exists in this directory.
    CheckExe(usize),
    /// Report the names of the subdirectories of this directory.
    ListSubdirs(usize),
    /// The executable is in this directory.
    Found(usize),
    /// No directory within reach holds the executable.
    NotFound,
}

/// A breadth-first search for an executable: the searched directory first,
/// then its subdirectories level by level down to `MAX_SEARCH_DEPTH`, each
/// level in the order of `is_subdir_order`. The caller does the file system
/// work and reports what it found.
pub struct ExeSearch {
    exe_file: String,
    keyword_lower: Vec<char>,
    queue: VecDeque<(usize, usize)>,
    current: (usize, usize),
    handles: usize,
    phase: SearchPhase,
    /// The depth of each handle below the searched directory.
    depths: Ghost<Seq<nat>>,
    /// The handle of each directory's parent (`-1` for the searched one).
    parents: Ghost<Seq<int>>,
    /// The handles reported not to hold the executable.
    absent: Ghost<Set<usize>>,
    /// The handles whose subdirectories were reported.
    listed: Ghost<Set<usize>>,
    /// Whether the search ended by finding the executable.
    found: Ghost<bool>,
}

/// Handle `k` waits in `q`.
pub open spec fn in_queue(q: Seq<(usize, usize)>, k: usize) -> bool {
    exists|i: int| 0 <= i < q.len() && #[trigger] q[i].0 == k
}

/// The state after taking the next directory from `q`: check it, or give up
/// when nothing is left.
pub open spec fn takes_next(s: ExeSearch, q: Seq<(usize, usize)>, step: SearchStep) -> bool {
    if q.len() == 0 {
        &&& step == SearchStep::NotFound
        &&& s.phase() == SearchPhase::Finished
        &&& s.queue() == q
    } else {
        &&& step == SearchStep::CheckExe(q[0].0)
        &&& s.phase() == SearchPhase::AwaitingExeCheck
        &&& s.current() == q[0]
        &&& s.queue() == q.drop_first()
    }
}

/// The queue entries of the subdirectories of a directory, in search order:
/// handles counted from `base`, one level below `depth`.
pub open spec fn children(order: Seq<usize>, base: nat, depth: nat) -> Seq<(usize, usize)> {
    Seq::new(order.len(), |k: int| ((base + order[k]) as usize, (depth + 1) as usize))
}

pub open spec fn lowercase_names(names: Seq<String>) -> Seq<Seq<char>> {
    Seq::new(names.len(), |i: int| lowercase(names[i]@))
}

impl ExeSearch {
    /// The file name looked for.
    pub closed spec fn target(self) -> Seq<char> {
        self.exe_file@
    }

    /// The lowercase keyword that puts a subdirectory first.
    pub closed spec fn keyword(self) -> Seq<char> {
        self.keyword_lower@
    }

    /// Directories waiting to be checked, each with its depth below the
    /// searched directory.
    pub closed spec fn queue(self) -> Seq<(usize, usize)> {
        self.queue@
    }

    /// The directory being checked and its depth.
    pub closed spec fn current(self) -> (usize, usize) {
        self.current
    }

    /// The number of handles given out so far.
    pub closed spec fn handles(self) -> nat {
        self.handles as nat
    }

    pub closed spec fn phase(self) -> SearchPhase {
        self.phase
    }

    /// The depth of the directory with handle `h`.
    pub closed spec fn depth_of(self, h: usize) -> nat {
        self.depths@[h as int]
    }

    /// The handle of the parent of directory `h` (`-1` for the searched one).
    pub closed spec fn parent_of(self, h: usize) -> int {
        self.parents@[h as int]
    }

    /// Directory `h` was reported not to hold the executable.
    pub closed spec fn reported_absent(self, h: usize) -> bool {
        self.absent@.contains(h)
    }

    /// The subdirectories of directory `h` were reported.
    pub closed spec fn listed(self, h: usize) -> bool {
        self.listed@.contains(h)
    }

    /// The search ended by finding the executable.
    pub closed spec fn found(self) -> bool {
        self.found@
    }

    /// What the search has learnt so far: the tree of handles (each one a
    /// level below its parent, whose subdirectories were listed), every
    /// handle current, waiting or reported absent, every handle shallower
    /// than the current one reported absent, and every directory reported
    /// absent within reach listed (the current one may still wait for it).
    pub closed spec fn history_wf(self) -> bool {
        &&& self.depths@.len() == self.handles
        &&& self.parents@.len() == self.handles
        &&& self.handles > 0
        &&& self.depths@[0] == 0
        &&& self.parents@[0] == -1
        &&& forall|j: int|
            0 < j < self.handles ==> {
                &&& 0 <= #[trigger] self.parents@[j] < j
                &&& self.listed@.contains(self.parents@[j] as usize)
                &&& self.depths@[j] == self.depths@[self.parents@[j]] + 1
            }
        &&& self.depths@[self.current.0 as int] == self.current.1
        &&& forall|i: int|
            0 <= i < self.queue@.len() ==> self.depths@[(#[trigger] self.queue@[i]).0 as int]
                == self.queue@[i].1
        &&& forall|k: usize|
            k < self.handles ==> k == self.current.0 || in_queue(self.queue@, k)
                || #[trigger] self.absent@.contains(k)
        &&& forall|k: usize|
            k < self.handles && #[trigger] self.depths@[k as int] < self.current.1
                ==> self.absent@.contains(k)
        &&& forall|k: usize|
            #[trigger] self.absent@.contains(k) ==> {
                &&& k < self.handles
                &&& self.depths@[k as int] < MAX_SEARCH_DEPTH ==> self.listed@.contains(k) || (k
                    == self.current.0 && self.phase == SearchPhase::AwaitingSubdirs)
            }
        &&& forall|k: usize| #[trigger] self.listed@.contains(k) ==> self.absent@.contains(k)
        &&& self.phase == SearchPhase::AwaitingSubdirs ==> self.absent@.contains(self.current.0)
        &&& self.found@ ==> self.phase == SearchPhase::Finished
        &&& !self.found@ && self.phase == SearchPhase::Finished ==> {
            &&& self.queue@.len() == 0
            &&& self.absent@.contains(self.current.0)
        }
    }

    /// The breadth-first shape of the search: depths never exceed
    /// `MAX_SEARCH_DEPTH`, waiting directories are at most one level below the
    /// current one and ordered by depth, and every handle is given out.
    pub open spec fn wf(self) -> bool {
        &&& self.current().1 <= MAX_SEARCH_DEPTH
        &&& self.current().0 < self.handles()
        &&& forall|k: int|
            0 <= k < self.queue().len() ==> {
                &&& self.current().1 <= (#[trigger] self.queue()[k]).1 <= self.current().1 + 1
                &&& self.queue()[k].1 <= MAX_SEARCH_DEPTH
                &&& self.queue()[k].0 < self.handles()
            }
        &&& forall|a: int, b: int|
            0 <= a < b < self.queue().len() ==> self.queue()[a].1 <= self.queue()[b].1
        &&& self.phase() == SearchPhase::AwaitingSubdirs ==> self.current().1 < MAX_SEARCH_DEPTH
    }

    /// Starts looking for `exe_file` in directory `0`, giving priority to
    /// subdirectories whose name contains `keyword` (in any case).
    pub fn start(exe_file: String, keyword: &str) -> (r: (ExeSearch, SearchStep))
        ensures
            r.0.wf(),
            r.0.history_wf(),
            !r.0.found(),
            r.1 == SearchStep::CheckExe(0),
            r.0.target() == exe_file@,
            r.0.keyword() == lowercase(keyword@),
            r.0.queue().len() == 0,
            r.0.current() == (0usize, 0usize),
            r.0.handles() == 1,
            r.0.phase() == SearchPhase::AwaitingExeCheck,
    {
        let kw = to_lowercase(keyword);
        let depths: Ghost<Seq<nat>> = Ghost(Seq::empty().push(0nat));
        let parents: Ghost<Seq<int>> = Ghost(Seq::empty().push(-1int));
        let absent: Ghost<Set<usize>> = Ghost(Set::empty());
        let listed: Ghost<Set<usize>> = Ghost(Set::empty());
        let found: Ghost<bool> = Ghost(false);
        let s = ExeSearch {
            exe_file,
            keyword_lower: chars_of(kw.as_str()),
            queue: VecDeque::new(),
            current: (0, 0),
            handles: 1,
            phase: SearchPhase::AwaitingExeCheck,
            depths,
            parents,
            absent,
            listed,
            found,
        };
        proof {
            assert forall|k: usize| k < s.handles implies k == s.current.0 || in_queue(s.queue@, k)
                || #[trigger] s.absent@.contains(k) by {}
        }
        (s, SearchStep::CheckExe(0))
    }

    /// The file name looked for.
    pub fn exe_file(&self) -> (r: &str)
        ensures
            r@ == self.target(),
    {
        self.exe_file.as_str()
    }

    /// The number of handles given out so far.
    pub fn known_dirs(&self) -> (n: usize)
        ensures
            n == self.handles(),
    {
        self.handles
    }

    pub fn current_phase(&self) -> (p: SearchPhase)
        ensures
            p == self.phase(),
    {
        self.phase
    }

    fn take_next(&mut self) -> (step: SearchStep)
        requires
            old(self).wf(),
            old(self).history_wf(),
            old(self).phase() != SearchPhase::AwaitingSubdirs,
            old(self).absent@.contains(old(self).current.0),
            !old(self).found(),
        ensures
            final(self).history_wf(),
            !final(self).found(),
            final(self).depths@ == old(self).depths@,
            final(self).parents@ == old(self).parents@,
            final(self).absent@ == old(self).absent@,
            final(self).listed@ == old(self).listed@,
            takes_next(*final(self), old(self).queue(), step),
            final(self).target() == old(self).target(),
            final(self).keyword() == old(self).keyword(),
            final(self).handles() == old(self).handles(),
            final(self).wf(),
            step matches SearchStep::CheckExe(_) ==> final(self).current().1 >= old(self).current().1,
    {
        match self.queue.pop_front() {
            Some(next) => {
                self.current = next;
                self.phase = SearchPhase::AwaitingExeCheck;
                proof {
                    let q = old(self).queue();
                    assert(q[0] == next);
                    assert forall|k: int| 0 <= k < self.queue().len() implies {
                        &&& self.current().1 <= (#[trigger] self.queue()[k]).1 <= self.current().1 + 1
                        &&& self.queue()[k].1 <= MAX_SEARCH_DEPTH
                        &&& self.queue()[k].0 < self.handles()
                    } by {
                        assert(self.queue()[k] == q[k + 1]);
                        assert(q[0].1 <= q[k + 1].1);
                    }
                    assert forall|a: int, b: int|
                        0 <= a < b < self.queue().len() implies self.queue()[a].1
                        <= self.queue()[b].1 by {
                        assert(self.queue()[a] == q[a + 1]);
                        assert(self.queue()[b] == q[b + 1]);
                    }
                    // The history: the old current directory is done, the next one is taken.
                    let o = *old(self);
                    assert(o.depths@[q[0].0 as int] == q[0].1);
                    assert forall|i: int| 0 <= i < self.queue@.len() implies self.depths@[(
                    #[trigger] self.queue@[i]).0 as int] == self.queue@[i].1 by {
                        assert(self.queue@[i] == q[i + 1]);
                    }
                    assert forall|k: usize| k < self.handles implies k == self.current.0
                        || in_queue(self.queue@, k) || #[trigger] self.absent@.contains(k) by {
                        if k != o.current.0 && !o.absent@.contains(k) {
                            assert(in_queue(q, k));
                            let i = choose|i: int| 0 <= i < q.len() && #[trigger] q[i].0 == k;
                            if i > 0 {
                                assert(self.queue@[i - 1] == q[i]);
                                assert(in_queue(self.queue@, k));
                            }
                        }
                    }
                    assert forall|k: usize|
                        k < self.handles && #[trigger] self.depths@[k as int] < self.current.1
                            implies self.absent@.contains(k) by {
                        if self.depths@[k as int] >= o.current.1 && k != o.current.0
                            && !o.absent@.contains(k) {
                            assert(in_queue(q, k));
                            let i = choose|i: int| 0 <= i < q.len() && #[trigger] q[i].0 == k;
                            assert(o.depths@[q[i].0 as int] == q[i].1);
                            if i > 0 {
                                assert(q[0].1 <= q[i].1);
                            }
                        }
                    }
                }
                SearchStep::CheckExe(next.0)
            },
            None => {
                self.phase = SearchPhase::Finished;
                SearchStep::NotFound
            },
        }
    }

    /// Takes in whether the executable exists in the current directory.
    pub fn on_exe_checked(&mut self, exists: bool) -> (step: SearchStep)
        requires
            old(self).wf(),
            old(self).history_wf(),
            old(self).phase() == SearchPhase::AwaitingExeCheck,
        ensures
            final(self).wf(),
            final(self).history_wf(),
            final(self).found() == exists,
            !exists ==> final(self).reported_absent(old(self).current().0),
            final(self).target() == old(self).target(),
            final(self).keyword() == old(self).keyword(),
            final(self).handles() == old(self).handles(),
            exists ==> {
                &&& step == SearchStep::Found(old(self).current().0)
                &&& final(self).phase() == SearchPhase::Finished
                &&& final(self).queue() == old(self).queue()
            },
            !exists && old(self).current().1 < MAX_SEARCH_DEPTH ==> {
                &&& step == SearchStep::ListSubdirs(old(self).current().0)
                &&& final(self).phase() == SearchPhase::AwaitingSubdirs
                &&& final(self).queue() == old(self).queue()
                &&& final(self).current() == old(self).current()
            },
            !exists && old(self).current().1 >= MAX_SEARCH_DEPTH ==> takes_next(
                *final(self),
                old(self).queue(),
                step,
            ),
            step matches SearchStep::CheckExe(_) ==> final(self).current().1 >= old(self).current().1,
    {
        if exists {
            self.phase = SearchPhase::Finished;
            proof {
                self.found@ = true;
            }
            assert(self.queue() == old(self).queue());
            assert(self.current() == old(self).current());
            assert(self.handles() == old(self).handles());
            SearchStep::Found(self.current.0)
        } else {
            proof {
                self.absent@ = self.absent@.insert(self.current.0);
                let o = *old(self);
                assert forall|k: usize| k < self.handles implies k == self.current.0
                    || in_queue(self.queue@, k) || #[trigger] self.absent@.contains(k) by {
                    if k != self.current.0 && !in_queue(self.queue@, k) {
                        assert(o.absent@.contains(k));
                    }
                }
                assert forall|k: usize|
                    k < self.handles && #[trigger] self.depths@[k as int] < self.current.1 implies self.absent@.contains(
                    k,
                ) by {
                    assert(o.absent@.contains(k));
                }
                assert forall|k: usize| #[trigger] self.listed@.contains(k) implies self.absent@.contains(k) by {
                    assert(o.absent@.contains(k));
                }
            }
            if self.current.1 < MAX_SEARCH_DEPTH {
                self.phase = SearchPhase::AwaitingSubdirs;
                assert(self.queue() == old(self).queue());
                assert(self.current() == old(self).current());
                assert(self.handles() == old(self).handles());
                SearchStep::ListSubdirs(self.current.0)
            } else {
                assert(self.queue() == old(self).queue());
                assert(self.current() == old(self).current());
                assert(self.handles() == old(self).handles());
                assert(self.phase() == old(self).phase());
                self.take_next()
            }
        }
    }

    /// Takes in the names of the subdirectories of the current directory, in
    /// the order the caller gives them handles.
    pub fn on_subdirs(&mut self, names: Vec<String>) -> (step: SearchStep)
        requires
            old(self).wf(),
            old(self).history_wf(),
            old(self).phase() == SearchPhase::AwaitingSubdirs,
            old(self).handles() + names@.len() <= usize::MAX,
        ensures
            final(self).wf(),
            final(self).history_wf(),
            !final(self).found(),
            final(self).listed(old(self).current().0),
            forall|j: usize|
                old(self).handles() <= j < final(self).handles() ==> final(self).parent_of(j)
                    == old(self).current().0 && final(self).depth_of(j) == old(self).current().1
                    + 1,
            final(self).target() == old(self).target(),
            final(self).keyword() == old(self).keyword(),
            final(self).handles() == old(self).handles() + names@.len(),
            exists|order: Seq<usize>|
                {
                    &&& is_subdir_order(lowercase_names(names@), old(self).keyword(), order)
                    &&& takes_next(
                        *final(self),
                        old(self).queue() + children(
                            order,
                            old(self).handles(),
                            old(self).current().1 as nat,
                        ),
                        step,
                    )
                },
            step matches SearchStep::CheckExe(_) ==> final(self).current().1 >= old(self).current().1,
    {
        let n = names.len();
        let mut lowered: Vec<Vec<char>> = Vec::new();
        let mut i: usize = 0;
        while i < n
            invariant
                0 <= i <= n,
                n == names@.len(),
                lowered@.len() == i,
                forall|k: int| 0 <= k < i ==> lowered@[k]@ == lowercase(names@[k]@),
            decreases n - i,
        {
            let l = to_lowercase(names[i].as_str());
            lowered.push(chars_of(l.as_str()));
            i += 1;
        }
        assert(chars_view(lowered@) =~= lowercase_names(names@));
        let order = subdir_order(&lowered, &self.keyword_lower);
        let base = self.handles;
        let depth = self.current.1 + 1;
        let ghost q0 = self.queue@;
        let mut k: usize = 0;
        while k < n
            invariant
                0 <= k <= n,
                n == names@.len(),
                order@.len() == n,
                forall|j: int| 0 <= j < n ==> order@[j] < n,
                base == old(self).handles(),
                base + n <= usize::MAX,
                depth == old(self).current().1 + 1,
                depth <= MAX_SEARCH_DEPTH,
                self.queue@ == q0 + children(order@, base as nat, old(self).current().1 as nat).take(
                    k as int,
                ),
                self.current == old(self).current(),
                self.handles == old(self).handles(),
                self.phase == old(self).phase(),
                self.exe_file == old(self).exe_file,
                self.keyword_lower == old(self).keyword_lower,
                q0 == old(self).queue(),
                self.depths == old(self).depths,
                self.parents == old(self).parents,
                self.absent == old(self).absent,
                self.listed == old(self).listed,
                self.found == old(self).found,
            decreases n - k,
        {
            self.queue.push_back((base + order[k], depth));
            assert(children(order@, base as nat, old(self).current().1 as nat).take(k + 1)
                =~= children(order@, base as nat, old(self).current().1 as nat).take(
                k as int,
            ).push((((base + order@[k as int]) as usize), depth)));
            k += 1;
        }
        self.handles = base + n;
        let ghost q = self.queue@;
        let ghost ch = children(order@, base as nat, old(self).current().1 as nat);
        assert(ch.take(n as int) =~= ch);
        proof {
            // The queue keeps its breadth-first shape with the new level appended.
            let cur = self.current;
            assert forall|j: int| 0 <= j < q.len() implies {
                &&& cur.1 <= (#[trigger] q[j]).1 <= cur.1 + 1
                &&& q[j].1 <= MAX_SEARCH_DEPTH
                &&& q[j].0 < self.handles
            } by {
                if j >= q0.len() {
                    assert(q[j] == ch[j - q0.len()]);
                }
            }
            assert forall|a: int, b: int| 0 <= a < b < q.len() implies q[a].1 <= q[b].1 by {
                if b >= q0.len() {
                    assert(q[b] == ch[b - q0.len()]);
                    if a >= q0.len() {
                        assert(q[a] == ch[a - q0.len()]);
                    }
                }
            }
        }
        self.phase = SearchPhase::AwaitingExeCheck;
        proof {
            // The new directories are children of the current one, a level deeper.
            let o = *old(self);
            let cur = self.current;
            let d0 = o.depths@;
            let p0 = o.parents@;
            self.depths@ = d0 + Seq::new(n as nat, |j: int| (cur.1 + 1) as nat);
            self.parents@ = p0 + Seq::new(n as nat, |j: int| cur.0 as int);
            self.listed@ = o.listed@.insert(cur.0);
            let sd = self.depths@;
            let sp = self.parents@;
            assert(sd[cur.0 as int] == cur.1);
            assert forall|j: int| 0 < j < self.handles implies {
                &&& 0 <= #[trigger] sp[j] < j
                &&& self.listed@.contains(sp[j] as usize)
                &&& sd[j] == sd[sp[j]] + 1
            } by {
                if j < base {
                    assert(sp[j] == p0[j]);
                    assert(sd[j] == d0[j]);
                    assert(sd[sp[j]] == d0[p0[j]]);
                } else {
                    assert(sp[j] == cur.0 as int);
                    assert(sd[j] == cur.1 + 1);
                }
            }
            assert forall|i: int| 0 <= i < q.len() implies sd[(#[trigger] q[i]).0 as int]
                == q[i].1 by {
                if i < q0.len() {
                    assert(q[i] == q0[i]);
                } else {
                    assert(q[i] == ch[i - q0.len()]);
                    assert(order@[i - q0.len()] < n);
                }
            }
            assert forall|k: usize| k < self.handles implies k == cur.0 || in_queue(q, k)
                || #[trigger] self.absent@.contains(k) by {
                if k < base {
                    if k != cur.0 && !o.absent@.contains(k) {
                        assert(in_queue(q0, k));
                        let i = choose|i: int| 0 <= i < q0.len() && #[trigger] q0[i].0 == k;
                        assert(q[i] == q0[i]);
                    }
                } else {
                    let r = (k - base) as usize;
                    assert(order@.contains(r));
                    let t = choose|t: int| 0 <= t < order@.len() && order@[t] == r;
                    assert(q[q0.len() + t] == ch[t]);
                    assert(q[q0.len() + t].0 == k);
                }
            }
            assert forall|k: usize|
                k < self.handles && #[trigger] sd[k as int] < cur.1 implies self.absent@.contains(
                k,
            ) by {
                if k >= base {
                    assert(sd[k as int] == cur.1 + 1);
                } else {
                    assert(sd[k as int] == d0[k as int]);
                }
            }
            assert forall|k: usize| #[trigger] self.absent@.contains(k) implies {
                &&& k < self.handles
                &&& sd[k as int] < MAX_SEARCH_DEPTH ==> self.listed@.contains(k) || (k == cur.0
                    && self.phase == SearchPhase::AwaitingSubdirs)
            } by {
                assert(k < base);
                assert(sd[k as int] == d0[k as int]);
            }
            assert forall|k: usize| #[trigger] self.listed@.contains(k) implies self.absent@.contains(k) by {
                if k != cur.0 {
                    assert(o.listed@.contains(k));
                }
            }
        }
        assert(self.queue() == old(self).queue() + ch);
        let step = self.take_next();
        assert(is_subdir_order(lowercase_names(names@), old(self).keyword(), order@));
        assert(takes_next(*self, old(self).queue() + children(order@, old(self).handles(), old(self).current().1 as nat), step));
        step
    }
}

/// The outcome of a whole search, in every state it reaches. The directories
/// searched form a tree: directory `0` at depth 0, every other one a level
/// below its parent, whose subdirectories were reported. The search goes
/// breadth first: every directory shallower than the current one was
/// reported not to hold the executable and, within `MAX_SEARCH_DEPTH`, had
/// its subdirectories reported (and searched in `is_subdir_order`, keyword
/// directories first). So when the search ends with `Found(h)`, `h` is the
/// current directory and no shallower directory holds the executable: the
/// match is one of least depth. When it ends with `NotFound`, every directory
/// within reach was reported not to hold it.
pub proof fn lemma_search_outcome(s: ExeSearch)
    requires
        s.wf(),
        s.history_wf(),
    ensures
        s.depth_of(0) == 0,
        forall|j: usize|
            0 < j < s.handles() ==> {
                &&& 0 <= #[trigger] s.parent_of(j) < j
                &&& s.listed(s.parent_of(j) as usize)
                &&& s.depth_of(j) == s.depth_of(s.parent_of(j) as usize) + 1
            },
        s.depth_of(s.current().0) == s.current().1,
        forall|k: usize|
            k < s.handles() && #[trigger] s.depth_of(k) < s.current().1 ==> s.reported_absent(k),
        forall|k: usize|
            #[trigger] s.reported_absent(k) && s.depth_of(k) < MAX_SEARCH_DEPTH && !(s.phase()
                == SearchPhase::AwaitingSubdirs && k == s.current().0) ==> s.listed(k),
        s.found() ==> s.phase() == SearchPhase::Finished,
        !s.found() && s.phase() == SearchPhase::Finished ==> forall|k: usize|
            k < s.handles() ==> #[trigger] s.reported_absent(k),
{
    assert forall|j: usize| 0 < j < s.handles() implies {
        &&& 0 <= #[trigger] s.parent_of(j) < j
        &&& s.listed(s.parent_of(j) as usize)
        &&& s.depth_of(j) == s.depth_of(s.parent_of(j) as usize) + 1
    } by {
        assert(0 <= s.parents@[j as int] < j);
    }
    assert forall|k: usize|
        k < s.handles() && #[trigger] s.depth_of(k) < s.current().1 implies s.reported_absent(k) by {
        assert(s.depths@[k as int] < s.current.1);
    }
    if !s.found() && s.phase() == SearchPhase::Finished {
        assert forall|k: usize| k < s.handles() implies #[trigger] s.reported_absent(k) by {
            assert(k == s.current.0 || in_queue(s.queue@, k) || s.absent@.contains(k));
        }
    }
}

/// Where the launcher lives, and what it looks for there.
pub struct SettingsManager {
    config_dir: String,
}

impl View for SettingsManager {
    type V = Seq<char>;

    /// The configuration directory.
    closed spec fn view(&self) -> Seq<char> {
        self.config_dir@
    }
}

impl SettingsManager {
    /// A manager for the given configuration directory (the directory of the
    /// launcher's executable).
    pub fn new(config_dir: String) -> (r: Self)
        ensures
            r@ == config_dir@,
    {
        SettingsManager { config_dir }
    }

    /// A manager for the directory of the launcher's executable, given what
    /// asking for the executable's path gave: `None` when it could not be
    /// told (the directory is then `.`), otherwise the parent directory of
    /// the path, if it has one (the directory is otherwise empty).
    pub fn for_executable(exe_parent: Option<Option<String>>) -> (r: Self)
        ensures
            r@ == (match exe_parent {
                None => "."@,
                Some(None) => Seq::<char>::empty(),
                Some(Some(d)) => d@,
            }),
    {
        match exe_parent {
            None => SettingsManager { config_dir: ".".to_string() },
            Some(None) => SettingsManager { config_dir: String::new() },
            Some(Some(d)) => SettingsManager { config_dir: d },
        }
    }

    /// The configuration directory, which downloads share.
    pub fn config_dir(&self) -> (r: &str)
        ensures
            r@ == self@,
    {
        self.config_dir.as_str()
    }

    /// The search for llama-server below the configuration directory
    /// (directory `0`), preferring subdirectories named like `llama`.
    pub fn auto_detect_server_path(&self, os: TargetOs) -> (r: (ExeSearch, SearchStep))
        ensures
            r.0.wf(),
            r.0.history_wf(),
            !r.0.found(),
            r.1 == SearchStep::CheckExe(0),
            r.0.target() == exe_file_name_spec("llama-server"@, os),
            r.0.keyword() == lowercase("llama"@),
            r.0.queue().len() == 0,
            r.0.current() == (0usize, 0usize),
            r.0.handles() == 1,
            r.0.phase() == SearchPhase::AwaitingExeCheck,
    {
        ExeSearch::start(exe_file_name("llama-server", os), "llama")
    }

    /// The search for the RPC server below the configuration directory
    /// (directory `0`), preferring subdirectories named like `llama`.
    pub fn auto_detect_rpc_path(&self, os: TargetOs) -> (r: (ExeSearch, SearchStep))
        ensures
            r.0.wf(),
            r.0.history_wf(),
            !r.0.found(),
            r.1 == SearchStep::CheckExe(0),
            r.0.target() == exe_file_name_spec("ggml-rpc-server"@, os),
            r.0.keyword() == lowercase("llama"@),
            r.0.queue().len() == 0,
            r.0.current() == (0usize, 0usize),
            r.0.handles() == 1,
            r.0.phase() == SearchPhase::AwaitingExeCheck,
    {
        ExeSearch::start(exe_file_name("ggml-rpc-server", os), "llama")
    }
}

/// The searches look for the right executables, in every state they pass
/// through (each step keeps `target`): the server search for the file that
/// `is_server_binary_name` accepts, the RPC search for `ggml-rpc-server`,
/// which `is_rpc_binary_name` accepts, and never for the older `rpc-server`,
/// so a directory tree holding only `rpc-server` yields nothing.
pub proof fn lemma_searches_look_for_their_executables(server: ExeSearch, rpc: ExeSearch, os: TargetOs)
    requires
        server.target() == exe_file_name_spec("llama-server"@, os),
        rpc.target() == exe_file_name_spec("ggml-rpc-server"@, os),
    ensures
        server_binary_name_spec(server.target(), os),
        rpc_binary_name_spec(rpc.target(), os),
        rpc.target() != exe_file_name_spec("rpc-server"@, os),
{
    reveal_strlit("ggml-rpc-server");
    reveal_strlit("rpc-server");
    assert(exe_file_name_spec("ggml-rpc-server"@, os).len() != exe_file_name_spec(
        "rpc-server"@,
        os,
    ).len());
}

} // verus!
