use vstd::prelude::*;

verus! {

/// A scan target: a root directory whose immediate children are
/// inventoried, and the category shared by everything found under it.
pub struct LocationEntry {
    pub root: String,
    pub category: String,
}

/// One immediate child of a scan root, sized by the caller (a file's
/// length, or a directory's recursive size).
pub struct ChildEntry {
    pub path: String,
    pub name: String,
    pub size: u64,
}

/// One inventoried item.
#[derive(Clone)]
pub struct TempFile {
    pub path: String,
    pub name: String,
    pub size: u64,
    pub category: String,
    pub root_path: String,
}

/// The inventory of one scan.
pub struct ScanResult {
    pub files: Vec<TempFile>,
    pub total_size: u64,
}

/// Sum of the sizes of `files`.
pub open spec fn sizes_sum(files: Seq<TempFile>) -> nat
    decreases files.len(),
{
    if files.len() == 0 {
        0
    } else {
        sizes_sum(files.drop_last()) + files.last().size as nat
    }
}

/// The item that a child of `loc` becomes.
pub open spec fn item_of(loc: LocationEntry, c: ChildEntry) -> TempFile {
    TempFile { path: c.path, name: c.name, size: c.size, category: loc.category, root_path: loc.root }
}

/// Whether a child of the given size enters an inventory whose total is
/// `total`: it must hold bytes, and the total must stay representable.
pub open spec fn admits(total: nat, size: u64) -> bool {
    size > 0 && total + size <= u64::MAX
}

/// The items and total after the children `cs` of `loc` were offered, in
/// order, to an inventory holding `files` with total `total`.
pub open spec fn absorb_spec(files: Seq<TempFile>, total: nat, loc: LocationEntry, cs: Seq<ChildEntry>) -> (Seq<TempFile>, nat)
    decreases cs.len(),
{
    if cs.len() == 0 {
        (files, total)
    } else {
        let prev = absorb_spec(files, total, loc, cs.drop_last());
        if admits(prev.1, cs.last().size) {
            (prev.0.push(item_of(loc, cs.last())), (prev.1 + cs.last().size) as nat)
        } else {
            prev
        }
    }
}

impl ScanResult {
    /// The total is the exact sum of the item sizes, and no item is empty.
    pub open spec fn wf(&self) -> bool {
        &&& self.total_size == sizes_sum(self.files@)
        &&& forall|i: int| 0 <= i < self.files@.len() ==> #[trigger] self.files@[i].size > 0
    }

    /// An empty inventory.
    pub fn new() -> (r: ScanResult)
        ensures
            r.wf(),
            r.files@.len() == 0,
            r.total_size == 0,
    {
        ScanResult { files: Vec::new(), total_size: 0 }
    }

    /// Offers one child of `loc`. It is added, with `loc`'s category and
    /// root, when it holds bytes and the total can still be represented;
    /// otherwise the inventory is unchanged. Returns whether it was added.
    pub fn record(&mut self, loc: &LocationEntry, child: &ChildEntry) -> (added: bool)
        requires
            old(self).wf(),
        ensures
            final(self).wf(),
            final(self).total_size == sizes_sum(final(self).files@),
            added == admits(old(self).total_size as nat, child.size),
            added ==> final(self).files@ == old(self).files@.push(item_of(*loc, *child)),
            added ==> final(self).total_size == old(self).total_size + child.size,
            !added ==> final(self).files@ == old(self).files@,
            !added ==> final(self).total_size == old(self).total_size,
    {
        if child.size > 0 && child.size <= u64::MAX - self.total_size {
            let ghost old_files = self.files@;
            let item = TempFile {
                path: child.path.clone(),
                name: child.name.clone(),
                size: child.size,
                category: loc.category.clone(),
                root_path: loc.root.clone(),
            };
            self.total_size = self.total_size + item.size;
            self.files.push(item);
            assert(self.files@.drop_last() =~= old_files);
            assert forall|i: int| 0 <= i < self.files@.len() implies #[trigger] self.files@[i].size > 0 by {
                if i < old_files.len() {
                    assert(self.files@[i] == old_files[i]);
                }
            }
            true
        } else {
            false
        }
    }

    /// Offers every child of one scan root, in listing order.
    pub fn absorb_root(&mut self, loc: &LocationEntry, children: &Vec<ChildEntry>)
        requires
            old(self).wf(),
        ensures
            final(self).wf(),
            final(self).total_size == sizes_sum(final(self).files@),
            (final(self).files@, final(self).total_size as nat) == absorb_spec(
                old(self).files@,
                old(self).total_size as nat,
                *loc,
                children@,
            ),
    {
        let ghost cs = children@;
        let n = children.len();
        let mut done: usize = 0;
        while done < n
            invariant
                self.wf(),
                n == cs.len(),
                cs == children@,
                0 <= done <= n,
                (self.files@, self.total_size as nat) == absorb_spec(
                    old(self).files@,
                    old(self).total_size as nat,
                    *loc,
                    cs.subrange(0, done as int),
                ),
            decreases n - done,
        {
            assert(cs.subrange(0, done as int + 1).drop_last() =~= cs.subrange(0, done as int));
            self.record(loc, &children[done]);
            done = done + 1;
        }
        assert(cs.subrange(0, n as int) =~= cs);
    }
}

/// One scan root with its immediate children, each already sized; a root
/// that does not exist or cannot be listed has no children.
pub struct RootListing {
    pub location: LocationEntry,
    pub children: Vec<ChildEntry>,
}

/// Items and total of a scan over `roots`, in order.
pub open spec fn scan_spec(roots: Seq<RootListing>) -> (Seq<TempFile>, nat)
    decreases roots.len(),
{
    if roots.len() == 0 {
        (Seq::empty(), 0)
    } else {
        let prev = scan_spec(roots.drop_last());
        absorb_spec(prev.0, prev.1, roots.last().location, roots.last().children@)
    }
}

/// Inventories the children of every root, in root order then listing
/// order. Empty children are left out, and the total is the exact sum of
/// the included sizes.
pub fn scan_locations(roots: &Vec<RootListing>) -> (r: ScanResult)
    ensures
        r.wf(),
        r.total_size == sizes_sum(r.files@),
        forall|i: int| 0 <= i < r.files@.len() ==> #[trigger] r.files@[i].size > 0,
        (r.files@, r.total_size as nat) == scan_spec(roots@),
{
    let mut r = ScanResult::new();
    let mut i: usize = 0;
    assert(r.files@ =~= scan_spec(roots@.subrange(0, 0)).0);
    while i < roots.len()
        invariant
            r.wf(),
            0 <= i <= roots@.len(),
            (r.files@, r.total_size as nat) == scan_spec(roots@.subrange(0, i as int)),
        decreases roots@.len() - i,
    {
        assert(roots@.subrange(0, i as int + 1).drop_last() =~= roots@.subrange(0, i as int));
        r.absorb_root(&roots[i].location, &roots[i].children);
        i = i + 1;
    }
    assert(roots@.subrange(0, i as int) =~= roots@);
    r
}

} // verus!
