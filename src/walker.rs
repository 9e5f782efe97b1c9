use vstd::prelude::*;

verus! {

/// One entry of a directory listing, as far as size accounting needs it.
///
/// Symbolic links and entries whose metadata could not be read are
/// reported as `Other`: they are never followed and count for nothing.
pub enum DirEntryKind {
    File { len: u64 },
    Dir { path: String },
    Other,
}

/// Total length of the plain files of one listing.
pub open spec fn files_sum(listing: Seq<DirEntryKind>) -> nat
    decreases listing.len(),
{
    if listing.len() == 0 {
        0
    } else {
        files_sum(listing.drop_last()) + match listing.last() {
            DirEntryKind::File { len } => len as nat,
            _ => 0nat,
        }
    }
}

/// Paths of the subdirectories of one listing, in listing order.
pub open spec fn subdirs(listing: Seq<DirEntryKind>) -> Seq<Seq<char>>
    decreases listing.len(),
{
    if listing.len() == 0 {
        Seq::empty()
    } else {
        subdirs(listing.drop_last()) + match listing.last() {
            DirEntryKind::Dir { path } => seq![path@],
            _ => Seq::empty(),
        }
    }
}

/// The pending directories (a stack, top last) and the exact byte count
/// after the listings `history` were absorbed, one per popped directory,
/// starting from `root`.
pub open spec fn walk_state(root: Seq<char>, history: Seq<Seq<DirEntryKind>>) -> (Seq<Seq<char>>, nat)
    decreases history.len(),
{
    if history.len() == 0 {
        (seq![root], 0)
    } else {
        let prev = walk_state(root, history.drop_last());
        (prev.0.drop_last() + subdirs(history.last()), prev.1 + files_sum(history.last()))
    }
}

/// A byte count clamped to what a `u64` holds.
pub open spec fn clamp_u64(n: nat) -> u64 {
    if n <= u64::MAX {
        n as u64
    } else {
        u64::MAX
    }
}

pub(crate) proof fn lemma_clamp_add(x: nat, y: nat)
    ensures
        clamp_u64((clamp_u64(x) + y) as nat) == clamp_u64(x + y),
{
}

/// Recursive size computation of a directory tree, driven one listing at a
/// time by an explicit work stack.
///
/// The caller asks `next_dir` for the directory to list, lists it (an
/// unreadable directory gives an empty listing) and hands the listing to
/// `absorb`, until `next_dir` returns `None`; `total` is then the size.
pub struct SizeWalk {
    pending: Vec<String>,
    total: u64,
    root: Ghost<Seq<char>>,
    history: Ghost<Seq<Seq<DirEntryKind>>>,
}

impl SizeWalk {
    pub closed spec fn root(&self) -> Seq<char> {
        self.root@
    }

    /// The listings absorbed so far, in order.
    pub closed spec fn history(&self) -> Seq<Seq<DirEntryKind>> {
        self.history@
    }

    /// The directories still to be listed; the last one is listed next.
    pub closed spec fn pending(&self) -> Seq<Seq<char>> {
        self.pending@.map_values(|p: String| p@)
    }

    pub closed spec fn total_spec(&self) -> u64 {
        self.total
    }

    pub closed spec fn wf(&self) -> bool {
        &&& self.pending() == walk_state(self.root@, self.history@).0
        &&& self.total as nat == clamp_u64(walk_state(self.root@, self.history@).1) as nat
    }

    /// Starts a walk of the tree below the directory `root`.
    pub fn new(root: String) -> (w: SizeWalk)
        ensures
            w.wf(),
            w.root() == root@,
            w.history() == Seq::<Seq<DirEntryKind>>::empty(),
            w.pending() == seq![root@],
            w.total_spec() == 0,
    {
        let ghost r = root@;
        let mut pending: Vec<String> = Vec::new();
        pending.push(root);
        let w = SizeWalk { pending, total: 0, root: Ghost(r), history: Ghost(Seq::empty()) };
        assert(w.pending() =~= seq![r]);
        w
    }

    /// The directory whose listing `absorb` expects next, or `None` once
    /// the walk is complete.
    pub fn next_dir(&self) -> (d: Option<&String>)
        requires
            self.wf(),
        ensures
            self.pending().len() == 0 ==> d.is_none(),
            self.pending().len() > 0 ==> d.is_some() && d.unwrap()@ == self.pending().last(),
    {
        if self.pending.len() == 0 {
            None
        } else {
            Some(&self.pending[self.pending.len() - 1])
        }
    }

    pub fn is_done(&self) -> (b: bool)
        requires
            self.wf(),
        ensures
            b == (self.pending().len() == 0),
    {
        self.pending.len() == 0
    }

    /// Bytes counted so far; the size of the tree once the walk is done.
    pub fn total(&self) -> (t: u64)
        requires
            self.wf(),
        ensures
            t == self.total_spec(),
            t == clamp_u64(walk_state(self.root(), self.history()).1),
    {
        self.total
    }

    /// Takes the listing of the directory that `next_dir` named: its files
    /// are counted and its subdirectories are queued.
    pub fn absorb(&mut self, listing: Vec<DirEntryKind>)
        requires
            old(self).wf(),
            old(self).pending().len() > 0,
        ensures
            final(self).wf(),
            final(self).root() == old(self).root(),
            final(self).history() == old(self).history().push(listing@),
            final(self).pending() == old(self).pending().drop_last() + subdirs(listing@),
            final(self).total_spec() == clamp_u64((old(self).total_spec() + files_sum(listing@)) as nat),
    {
        let ghost old_pending = self.pending();
        let ghost old_hist = self.history@;
        self.pending.pop();
        assert(self.pending() =~= old_pending.drop_last());
        let ghost whole = listing@;
        let n = listing.len();
        let mut idx: usize = 0;
        while idx < n
            invariant
                0 <= idx <= n,
                n == whole.len(),
                listing@ == whole,
                old_pending.len() > 0,
                self.pending() == old_pending.drop_last() + subdirs(whole.subrange(0, idx as int)),
                self.total as nat == clamp_u64(walk_state(self.root@, old_hist).1 + files_sum(whole.subrange(0, idx as int))) as nat,
                self.root@ == old(self).root@,
                self.history@ == old_hist,
            decreases n - idx,
        {
            proof {
                assert(whole.subrange(0, idx as int + 1).drop_last() =~= whole.subrange(0, idx as int));
            }
            match &listing[idx] {
                DirEntryKind::File { len } => {
                    proof {
                        lemma_clamp_add(walk_state(self.root@, old_hist).1 + files_sum(whole.subrange(0, idx as int)), *len as nat);
                    }
                    self.total = self.total.saturating_add(*len);
                },
                DirEntryKind::Dir { path } => {
                    let ghost before = self.pending();
                    self.pending.push(path.clone());
                    assert(self.pending() =~= before.push(path@));
                },
                DirEntryKind::Other => {},
            }
            idx = idx + 1;
        }
        proof {
            assert(whole.subrange(0, n as int) =~= whole);
            lemma_clamp_add(walk_state(self.root@, old_hist).1, files_sum(whole));
            self.history = Ghost(old_hist.push(whole));
            assert(self.history@.drop_last() =~= old_hist);
        }
    }
}

/// Whether the listings `h` are those that a directory tree gives, where
/// `tree` maps each directory to its listing: each one was read from the
/// directory that the walk named at that step.
pub open spec fn faithful(tree: spec_fn(Seq<char>) -> Seq<DirEntryKind>, root: Seq<char>, h: Seq<Seq<DirEntryKind>>) -> bool {
    forall|k: int|
        0 <= k < h.len() ==> {
            &&& #[trigger] walk_state(root, h.subrange(0, k)).0.len() > 0
            &&& h[k] == tree(walk_state(root, h.subrange(0, k)).0.last())
        }
}

proof fn lemma_faithful_prefix(
    tree: spec_fn(Seq<char>) -> Seq<DirEntryKind>,
    root: Seq<char>,
    h1: Seq<Seq<DirEntryKind>>,
    h2: Seq<Seq<DirEntryKind>>,
    k: int,
)
    requires
        faithful(tree, root, h1),
        faithful(tree, root, h2),
        0 <= k <= h1.len(),
        k <= h2.len(),
    ensures
        h1.subrange(0, k) == h2.subrange(0, k),
    decreases k,
{
    if k > 0 {
        lemma_faithful_prefix(tree, root, h1, h2, k - 1);
        assert(walk_state(root, h1.subrange(0, k - 1)).0.len() > 0);
        assert(walk_state(root, h2.subrange(0, k - 1)).0.len() > 0);
        assert(h1.subrange(0, k) =~= h1.subrange(0, k - 1).push(h1[k - 1]));
        assert(h2.subrange(0, k) =~= h2.subrange(0, k - 1).push(h2[k - 1]));
    }
}

/// Walking an unchanging tree twice gives the same size: two complete
/// walks from one root whose listings were all read from the same tree
/// read the same listings and count the same bytes.
pub proof fn lemma_walk_repeatable(tree: spec_fn(Seq<char>) -> Seq<DirEntryKind>, a: SizeWalk, b: SizeWalk)
    requires
        a.wf(),
        b.wf(),
        a.root() == b.root(),
        faithful(tree, a.root(), a.history()),
        faithful(tree, b.root(), b.history()),
        a.pending().len() == 0,
        b.pending().len() == 0,
    ensures
        a.history() == b.history(),
        a.total_spec() == b.total_spec(),
{
    let root = a.root();
    let h1 = a.history();
    let h2 = b.history();
    if h1.len() < h2.len() {
        lemma_faithful_prefix(tree, root, h1, h2, h1.len() as int);
        assert(h1.subrange(0, h1.len() as int) =~= h1);
        assert(walk_state(root, h2.subrange(0, h1.len() as int)).0.len() > 0);
    } else if h2.len() < h1.len() {
        lemma_faithful_prefix(tree, root, h1, h2, h2.len() as int);
        assert(h2.subrange(0, h2.len() as int) =~= h2);
        assert(walk_state(root, h1.subrange(0, h2.len() as int)).0.len() > 0);
    } else {
        lemma_faithful_prefix(tree, root, h1, h2, h1.len() as int);
        assert(h1.subrange(0, h1.len() as int) =~= h1);
        assert(h2.subrange(0, h2.len() as int) =~= h2);
    }
}

} // verus!
