//! The tree of a session's messages: which entries are listed, how they hang
//! together, and how a row of the list looks.

use vstd::prelude::*;

use crate::harness::SessionTreeEntry;
use crate::idset::IdSet;
use crate::sessions;
use crate::state_types::TreeFilter;
use crate::text;

verus! {

broadcast use vstd::string::group_string_axioms;

/// The entries of a session and how they are listed.
#[derive(Clone, Debug)]
pub struct SessionTree {
    pub session_tree: Vec<SessionTreeEntry>,
    pub tree_filter: TreeFilter,
    pub tree_folded: IdSet,
    pub tree_show_timestamps: bool,
    pub tree_target: Option<String>,
}

/// No entries, all of them shown.
pub open spec fn fresh(t: SessionTree) -> bool {
    &&& t.session_tree@.len() == 0
    &&& t.tree_filter == TreeFilter::Default
    &&& t.tree_folded@ == Set::<Seq<char>>::empty()
    &&& t.tree_folded.wf()
    &&& !t.tree_show_timestamps
    &&& t.tree_target is None
}

impl Default for SessionTree {
    fn default() -> (r: Self)
        ensures
            fresh(r),
    {
        SessionTree {
            session_tree: Vec::new(),
            tree_filter: TreeFilter::Default,
            tree_folded: IdSet::new(),
            tree_show_timestamps: false,
            tree_target: None,
        }
    }
}

/// The last of the first `n` entries with an identifier.
pub open spec fn last_before(all: Seq<SessionTreeEntry>, id: Seq<char>, n: int) -> Option<int>
    decreases n,
{
    if n <= 0 {
        None
    } else if all[n - 1].id@ == id {
        Some(n - 1)
    } else {
        last_before(all, id, n - 1)
    }
}

/// The entry with an identifier, looked for in front of entry `from` first.
pub open spec fn entry_named(all: Seq<SessionTreeEntry>, id: Seq<char>, from: int) -> Option<int> {
    match last_before(all, id, from) {
        Some(k) => Some(k),
        None => last_before(all, id, all.len() as int),
    }
}

/// The entry that another one answers.
pub open spec fn parent_of(all: Seq<SessionTreeEntry>, k: int) -> Option<int> {
    match all[k].parent_id {
        None => None,
        Some(id) => entry_named(all, id@, k),
    }
}

/// One of the next `fuel` entries above an entry is folded.
pub open spec fn under_fold(
    all: Seq<SessionTreeEntry>,
    folded: Set<Seq<char>>,
    k: int,
    fuel: nat,
) -> bool
    decreases fuel,
{
    if fuel == 0 {
        false
    } else {
        match parent_of(all, k) {
            None => false,
            Some(p) => folded.contains(all[p].id@) || under_fold(
                all,
                folded,
                p,
                (fuel - 1) as nat,
            ),
        }
    }
}

/// A filter lets an entry through.
pub open spec fn passes(filter: TreeFilter, entry: SessionTreeEntry) -> bool {
    let told = entry.kind@ == "message"@ || entry.kind@ == "compaction"@ || entry.kind@
        == "branch_summary"@;
    match filter {
        TreeFilter::Default => told,
        TreeFilter::NoTools => told && !(entry.role matches Some(role) && role@
            == "toolResult"@),
        TreeFilter::UserOnly => entry.role matches Some(role) && role@ == "user"@,
        TreeFilter::LabeledOnly => entry.label is Some,
        TreeFilter::All => true,
    }
}

/// An entry is listed: the filter lets it through, the query occurs in its
/// text or its label, and nothing above it is folded.
pub open spec fn shown(t: SessionTree, query: Seq<char>, k: int) -> bool {
    let entry = t.session_tree@[k];
    &&& passes(t.tree_filter, entry)
    &&& sessions::found(query, entry.text@) || (entry.label matches Some(label)
        && sessions::found(query, label@))
    &&& !under_fold(t.session_tree@, t.tree_folded@, k, t.session_tree@.len())
}

/// The places of the entries listed among the first `n`, in their order.
pub open spec fn listed(t: SessionTree, query: Seq<char>, n: int) -> Seq<usize>
    decreases n,
{
    if n <= 0 {
        Seq::empty()
    } else if shown(t, query, n - 1) {
        listed(t, query, n - 1).push((n - 1) as usize)
    } else {
        listed(t, query, n - 1)
    }
}

/// The places of all entries listed.
pub open spec fn all_listed(t: SessionTree, query: Seq<char>) -> Seq<usize> {
    listed(t, query, t.session_tree@.len() as int)
}

proof fn last_before_bounds(all: Seq<SessionTreeEntry>, id: Seq<char>, n: int)
    requires
        n <= all.len(),
    ensures
        last_before(all, id, n) matches Some(k) ==> 0 <= k < n && all[k].id@ == id,
    decreases n,
{
    if n > 0 {
        last_before_bounds(all, id, n - 1);
    }
}

fn find_before(all: &Vec<SessionTreeEntry>, id: &str, n: usize) -> (r: Option<usize>)
    requires
        n <= all@.len(),
    ensures
        match r {
            Some(k) => last_before(all@, id@, n as int) == Some(k as int) && k < n,
            None => last_before(all@, id@, n as int) is None,
        },
{
    let mut i: usize = n;
    while i > 0
        invariant
            i <= n <= all@.len(),
            last_before(all@, id@, i as int) == last_before(all@, id@, n as int),
        decreases i,
    {
        i -= 1;
        if text::same_text(all[i].id.as_str(), id) {
            return Some(i);
        }
    }
    None
}

fn find_parent(all: &Vec<SessionTreeEntry>, k: usize) -> (r: Option<usize>)
    requires
        k < all@.len(),
    ensures
        match r {
            Some(p) => parent_of(all@, k as int) == Some(p as int) && p < all@.len(),
            None => parent_of(all@, k as int) is None,
        },
{
    match &all[k].parent_id {
        None => None,
        Some(id) => match find_before(all, id.as_str(), k) {
            Some(p) => Some(p),
            None => find_before(all, id.as_str(), all.len()),
        },
    }
}

fn is_under_fold(all: &Vec<SessionTreeEntry>, folded: &IdSet, k: usize) -> (r: bool)
    requires
        k < all@.len(),
    ensures
        r == under_fold(all@, folded@, k as int, all@.len()),
{
    let mut at: usize = k;
    let mut fuel: usize = all.len();
    while fuel > 0
        invariant
            at < all@.len(),
            under_fold(all@, folded@, at as int, fuel as nat) == under_fold(
                all@,
                folded@,
                k as int,
                all@.len(),
            ),
        decreases fuel,
    {
        match find_parent(all, at) {
            None => {
                return false;
            },
            Some(p) => {
                if folded.contains(all[p].id.as_str()) {
                    return true;
                }
                at = p;
                fuel -= 1;
            },
        }
    }
    false
}

proof fn nothing_folded(all: Seq<SessionTreeEntry>, folded: Set<Seq<char>>, k: int, fuel: nat)
    requires
        folded == Set::<Seq<char>>::empty(),
    ensures
        !under_fold(all, folded, k, fuel),
    decreases fuel,
{
    if fuel > 0 {
        if let Some(p) = parent_of(all, k) {
            nothing_folded(all, folded, p, (fuel - 1) as nat);
        }
    }
}

proof fn folds_add_up(
    all: Seq<SessionTreeEntry>,
    fewer: Set<Seq<char>>,
    more: Set<Seq<char>>,
    k: int,
    fuel: nat,
)
    requires
        fewer.subset_of(more),
        under_fold(all, fewer, k, fuel),
    ensures
        under_fold(all, more, k, fuel),
    decreases fuel,
{
    if fuel > 0 {
        if let Some(p) = parent_of(all, k) {
            if !fewer.contains(all[p].id@) {
                folds_add_up(all, fewer, more, p, (fuel - 1) as nat);
            }
        }
    }
}

/// Folding hides entries and never shows one: what is listed with more folds
/// is listed with fewer.
pub proof fn folding_only_hides(fewer: SessionTree, more: SessionTree, query: Seq<char>, k: int)
    requires
        more.session_tree == fewer.session_tree,
        more.tree_filter == fewer.tree_filter,
        fewer.tree_folded@.subset_of(more.tree_folded@),
        shown(more, query, k),
    ensures
        shown(fewer, query, k),
{
    if under_fold(fewer.session_tree@, fewer.tree_folded@, k, fewer.session_tree@.len()) {
        folds_add_up(
            fewer.session_tree@,
            fewer.tree_folded@,
            more.tree_folded@,
            k,
            fewer.session_tree@.len(),
        );
    }
}

/// What hangs directly on a folded entry is not listed.
pub proof fn folds_hide_answers(t: SessionTree, query: Seq<char>, k: int, parent: int)
    requires
        0 <= k < t.session_tree@.len(),
        parent_of(t.session_tree@, k) == Some(parent),
        t.tree_folded@.contains(t.session_tree@[parent].id@),
    ensures
        !shown(t, query, k),
{
    assert(under_fold(t.session_tree@, t.tree_folded@, k, t.session_tree@.len()));
}

fn is_role(entry: &SessionTreeEntry, role: &str) -> (r: bool)
    ensures
        r == (entry.role matches Some(name) && name@ == role@),
{
    match &entry.role {
        Some(name) => text::same_text(name.as_str(), role),
        None => false,
    }
}

fn filter_passes(filter: TreeFilter, entry: &SessionTreeEntry) -> (r: bool)
    ensures
        r == passes(filter, *entry),
{
    match filter {
        TreeFilter::UserOnly => is_role(entry, "user"),
        TreeFilter::LabeledOnly => entry.label.is_some(),
        TreeFilter::All => true,
        _ => {
            let kind: &str = entry.kind.as_str();
            let told: bool = text::same_text(kind, "message") || text::same_text(kind, "compaction")
                || text::same_text(kind, "branch_summary");
            told && (filter == TreeFilter::Default || !is_role(entry, "toolResult"))
        },
    }
}

impl SessionTree {
    /// The places of the entries that a query lists.
    pub fn filtered(&self, query: &str) -> (r: Vec<usize>)
        ensures
            r@ == all_listed(*self, query@),
    {
        let mut places: Vec<usize> = Vec::new();
        let folds: bool = !self.tree_folded.is_empty();
        let mut k: usize = 0;
        while k < self.session_tree.len()
            invariant
                k <= self.session_tree@.len(),
                folds == (self.tree_folded@ != Set::<Seq<char>>::empty()),
                places@ == listed(*self, query@, k as int),
            decreases self.session_tree@.len() - k,
        {
            let entry: &SessionTreeEntry = &self.session_tree[k];
            let found: bool = sessions::finds(query, entry.text.as_str()) || match &entry.label {
                Some(label) => sessions::finds(query, label.as_str()),
                None => false,
            };
            proof {
                if !folds {
                    nothing_folded(
                        self.session_tree@,
                        self.tree_folded@,
                        k as int,
                        self.session_tree@.len(),
                    );
                }
            }
            if found && filter_passes(self.tree_filter, entry) && (!folds || !is_under_fold(
                &self.session_tree,
                &self.tree_folded,
                k,
            )) {
                places.push(k);
            }
            k += 1;
        }
        places
    }
}

/// The next listed entry above an entry, at most `fuel` steps further up.
pub open spec fn climb(
    all: Seq<SessionTreeEntry>,
    places: Seq<usize>,
    k: int,
    fuel: nat,
) -> Option<int>
    decreases fuel,
{
    match parent_of(all, k) {
        None => None,
        Some(p) => if places.contains(p as usize) {
            Some(p)
        } else if fuel == 0 {
            None
        } else {
            climb(all, places, p, (fuel - 1) as nat)
        },
    }
}

/// The row whose entry the entry of row `v` hangs on.
pub open spec fn hangs_on(
    all: Seq<SessionTreeEntry>,
    places: Seq<usize>,
    v: int,
    parent: Option<usize>,
) -> bool {
    match climb(all, places, places[v] as int, all.len()) {
        None => parent is None,
        Some(p) => parent matches Some(row) && row < places.len() && places[row as int] == p,
    }
}

/// The rows in ascending order of their entries.
pub open spec fn ascending(all: Seq<SessionTreeEntry>, places: Seq<usize>) -> bool {
    &&& forall|v: int| 0 <= v < places.len() ==> #[trigger] places[v] < all.len()
    &&& forall|v: int, w: int|
        0 <= v < w < places.len() ==> #[trigger] places[v] < #[trigger] places[w]
}

/// The rows of a listing are in ascending order.
pub proof fn listings_ascend(t: SessionTree, query: Seq<char>, n: int)
    requires
        0 <= n <= t.session_tree@.len(),
        t.session_tree@.len() <= usize::MAX,
    ensures
        ascending(t.session_tree@, listed(t, query, n)),
        forall|v: int|
            0 <= v < listed(t, query, n).len() ==> (#[trigger] listed(t, query, n)[v]) < n,
    decreases n,
{
    if n > 0 {
        listings_ascend(t, query, n - 1);
    }
}

/// How many of the first `n` rows hang on the same row, or on none.
pub open spec fn kin(parents: Seq<Option<usize>>, parent: Option<usize>, n: int) -> nat
    decreases n,
{
    if n <= 0 {
        0
    } else {
        kin(parents, parent, n - 1) + if parents[n - 1] == parent {
            1nat
        } else {
            0nat
        }
    }
}

/// A row has brothers and sisters under its parent, or other roots beside it.
pub open spec fn branches(parents: Seq<Option<usize>>, parent: Option<usize>) -> bool {
    kin(parents, parent, parents.len() as int) > 1
}

/// A row is the last one under its parent.
pub open spec fn comes_last(parents: Seq<Option<usize>>, v: int) -> bool {
    forall|w: int| v < w < parents.len() ==> #[trigger] parents[w] != parents[v]
}

/// How a row is drawn: its indentation, whether a connector leads to it,
/// whether it is the last one under its parent, the vertical lines in front
/// of it, and whether it is one of several roots.
#[derive(Clone, Debug)]
pub struct TreeVisual {
    pub indent: usize,
    pub show_connector: bool,
    pub is_last: bool,
    pub gutters: Vec<(usize, bool)>,
    pub virtual_root_child: bool,
}

/// How a row is drawn.
#[verifier::ext_equal]
pub ghost struct VisualView {
    pub indent: int,
    pub show_connector: bool,
    pub is_last: bool,
    pub gutters: Seq<(usize, bool)>,
    pub virtual_root_child: bool,
}

impl View for TreeVisual {
    type V = VisualView;

    open spec fn view(&self) -> VisualView {
        VisualView {
            indent: self.indent as int,
            show_connector: self.show_connector,
            is_last: self.is_last,
            gutters: self.gutters@,
            virtual_root_child: self.virtual_root_child,
        }
    }
}

/// The indentation on the screen: several roots share one level.
pub open spec fn screen_indent(indent: int, several_roots: bool) -> int {
    if several_roots && indent > 0 {
        indent - 1
    } else {
        indent
    }
}

/// A root.
pub open spec fn root_visual(parents: Seq<Option<usize>>, v: int) -> VisualView {
    let several = branches(parents, None);
    VisualView {
        indent: if several {
            1
        } else {
            0
        },
        show_connector: several,
        is_last: comes_last(parents, v),
        gutters: Seq::empty(),
        virtual_root_child: several,
    }
}

/// The vertical lines in front of everything under a row.
pub open spec fn gutters_below(parents: Seq<Option<usize>>, above: VisualView) -> Seq<(usize, bool)> {
    if above.show_connector && !above.virtual_root_child {
        let level = screen_indent(above.indent, branches(parents, None));
        above.gutters.push(
            (if level > 0 {
                (level - 1) as usize
            } else {
                0
            }, !above.is_last),
        )
    } else {
        above.gutters
    }
}

/// A row under another one: it is indented further where its parent branches,
/// and below a row to which a connector leads.
pub open spec fn child_visual(
    parents: Seq<Option<usize>>,
    v: int,
    above: VisualView,
) -> VisualView {
    let several = branches(parents, parents[v]);
    VisualView {
        indent: if several || (above.show_connector && above.indent > 0) {
            above.indent + 1
        } else {
            above.indent
        },
        show_connector: several,
        is_last: comes_last(parents, v),
        gutters: gutters_below(parents, above),
        virtual_root_child: false,
    }
}

/// How a row is drawn if at most `fuel` rows lead up to its root. A row that
/// leads to no root is not drawn.
pub open spec fn visual(parents: Seq<Option<usize>>, v: int, fuel: nat) -> Option<VisualView>
    decreases fuel,
{
    if fuel == 0 {
        None
    } else {
        match parents[v] {
            None => Some(root_visual(parents, v)),
            Some(p) => match visual(parents, p as int, (fuel - 1) as nat) {
                None => None,
                Some(above) => Some(child_visual(parents, v, above)),
            },
        }
    }
}

proof fn more_fuel(parents: Seq<Option<usize>>, v: int, fuel: nat, more: nat)
    requires
        fuel <= more,
        visual(parents, v, fuel) is Some,
    ensures
        visual(parents, v, more) == visual(parents, v, fuel),
    decreases fuel,
{
    if let Some(p) = parents[v] {
        more_fuel(parents, p as int, (fuel - 1) as nat, (more - 1) as nat);
    }
}

/// The tree of the rows: on which row each of them hangs, and how it is drawn.
pub struct TreeTopology {
    pub parents: Vec<Option<usize>>,
    pub children: Vec<usize>,
    pub visuals: Vec<Option<TreeVisual>>,
    pub multiple_roots: bool,
}

/// A topology over some parents: for each row how many hang on it and how it
/// is drawn.
pub open spec fn tree_of(t: TreeTopology) -> bool {
    let parents = t.parents@;
    let n = parents.len();
    &&& forall|v: int| 0 <= v < n ==> (#[trigger] parents[v] matches Some(p) ==> p < n)
    &&& t.multiple_roots == branches(parents, None)
    &&& t.children@.len() == n
    &&& forall|v: int|
        0 <= v < n ==> #[trigger] t.children@[v] == kin(parents, Some(v as usize), n as int)
    &&& t.visuals@.len() == n
    &&& forall|v: int|
        0 <= v < n ==> match #[trigger] t.visuals@[v] {
            Some(x) => visual(parents, v, n) == Some(x@),
            None => visual(parents, v, n) is None,
        }
}

/// A row can be folded: something hangs on it, and it is a root or has
/// brothers and sisters.
pub open spec fn foldable(parents: Seq<Option<usize>>, v: int) -> bool {
    &&& kin(parents, Some(v as usize), parents.len() as int) > 0
    &&& parents[v] is None || branches(parents, parents[v])
}

proof fn kin_bounded(parents: Seq<Option<usize>>, parent: Option<usize>, n: int)
    requires
        0 <= n <= parents.len(),
    ensures
        kin(parents, parent, n) <= n,
    decreases n,
{
    if n > 0 {
        kin_bounded(parents, parent, n - 1);
    }
}

/// How many rows hang on each row, and how many are roots.
fn count_children(parents: &Vec<Option<usize>>) -> (r: (Vec<usize>, usize))
    requires
        forall|v: int|
            0 <= v < parents@.len() ==> (#[trigger] parents@[v] matches Some(p) ==> p
                < parents@.len()),
    ensures
        r.0@.len() == parents@.len(),
        forall|v: int|
            0 <= v < parents@.len() ==> #[trigger] r.0@[v] == kin(
                parents@,
                Some(v as usize),
                parents@.len() as int,
            ),
        r.1 == kin(parents@, None, parents@.len() as int),
{
    let n: usize = parents.len();
    let mut counts: Vec<usize> = Vec::new();
    let mut roots: usize = 0;
    let mut i: usize = 0;
    while i < n
        invariant
            i <= n,
            counts@.len() == i,
            forall|v: int| 0 <= v < i ==> #[trigger] counts@[v] == 0,
        decreases n - i,
    {
        counts.push(0);
        i += 1;
    }
    i = 0;
    while i < n
        invariant
            i <= n == parents@.len() == counts@.len(),
            forall|v: int|
                0 <= v < n ==> (#[trigger] parents@[v] matches Some(p) ==> p < n),
            forall|v: int|
                0 <= v < n ==> #[trigger] counts@[v] == kin(parents@, Some(v as usize), i as int),
            roots == kin(parents@, None, i as int),
        decreases n - i,
    {
        match parents[i] {
            None => {
                proof {
                    kin_bounded(parents@, None, i as int);
                }
                roots += 1;
            },
            Some(p) => {
                proof {
                    kin_bounded(parents@, Some(p), i as int);
                    assert(counts@[p as int] <= i);
                }
                let count: usize = counts[p] + 1;
                counts.set(p, count);
            },
        }
        i += 1;
    }
    (counts, roots)
}

/// Which rows are the last ones under their parents.
fn mark_last(parents: &Vec<Option<usize>>) -> (r: Vec<bool>)
    requires
        forall|v: int|
            0 <= v < parents@.len() ==> (#[trigger] parents@[v] matches Some(p) ==> p
                < parents@.len()),
    ensures
        r@.len() == parents@.len(),
        forall|v: int| 0 <= v < parents@.len() ==> #[trigger] r@[v] == comes_last(parents@, v),
{
    let n: usize = parents.len();
    let mut last: Vec<bool> = Vec::new();
    let mut seen: Vec<bool> = Vec::new();
    let mut root_seen: bool = false;
    let mut i: usize = 0;
    while i < n
        invariant
            i <= n,
            last@.len() == i,
            seen@.len() == i,
            forall|v: int| 0 <= v < i ==> !#[trigger] seen@[v],
        decreases n - i,
    {
        last.push(false);
        seen.push(false);
        i += 1;
    }
    i = n;
    while i > 0
        invariant
            i <= n == parents@.len() == last@.len() == seen@.len(),
            forall|v: int|
                0 <= v < n ==> (#[trigger] parents@[v] matches Some(p) ==> p < n),
            forall|v: int| i <= v < n ==> #[trigger] last@[v] == comes_last(parents@, v),
            forall|p: int|
                0 <= p < n ==> #[trigger] seen@[p] == exists|w: int|
                    i <= w < n && #[trigger] parents@[w] == Some(p as usize),
            root_seen == exists|w: int| i <= w < n && #[trigger] parents@[w] == None::<usize>,
        decreases i,
    {
        i -= 1;
        let ghost before = seen@;
        match parents[i] {
            None => {
                last.set(i, !root_seen);
                root_seen = true;
            },
            Some(p) => {
                let fresh: bool = !seen[p];
                last.set(i, fresh);
                seen.set(p, true);
            },
        }
        proof {
            assert forall|p: int| 0 <= p < n implies #[trigger] seen@[p] == exists|w: int|
                i <= w < n && #[trigger] parents@[w] == Some(p as usize) by {
                assert(before[p] == exists|w: int|
                    i + 1 <= w < n && #[trigger] parents@[w] == Some(p as usize));
                if parents@[i as int] == Some(p as usize) {
                    assert(seen@[p]);
                }
            }
            assert(root_seen == exists|w: int|
                i <= w < n && #[trigger] parents@[w] == None::<usize>) by {
                if parents@[i as int] is None {
                    assert(parents@[i as int] == None::<usize>);
                }
            }
            assert(last@[i as int] == comes_last(parents@, i as int)) by {
                if parents@[i as int] is None {
                } else {
                    let p = parents@[i as int]->Some_0;
                    assert(before[p as int] == exists|w: int|
                        i + 1 <= w < n && #[trigger] parents@[w] == Some(p));
                }
            }
        }
    }
    last
}

/// The row that shows each entry.
fn rows_by_entry(all: &Vec<SessionTreeEntry>, places: &Vec<usize>) -> (r: Vec<Option<usize>>)
    requires
        ascending(all@, places@),
    ensures
        r@.len() == all@.len(),
        forall|k: int|
            0 <= k < all@.len() ==> match #[trigger] r@[k] {
                Some(row) => row < places@.len() && places@[row as int] == k,
                None => !places@.contains(k as usize),
            },
{
    let mut slots: Vec<Option<usize>> = Vec::new();
    let mut next: usize = 0;
    let mut k: usize = 0;
    while k < all.len()
        invariant
            ascending(all@, places@),
            k <= all@.len(),
            slots@.len() == k,
            next <= places@.len(),
            forall|v: int| 0 <= v < next ==> #[trigger] places@[v] < k,
            forall|v: int| next <= v < places@.len() ==> #[trigger] places@[v] >= k,
            forall|j: int|
                0 <= j < k ==> match #[trigger] slots@[j] {
                    Some(row) => row < places@.len() && places@[row as int] == j,
                    None => !places@.contains(j as usize),
                },
        decreases all@.len() - k,
    {
        if next < places.len() && places[next] == k {
            slots.push(Some(next));
            proof {
                assert forall|v: int| next + 1 <= v < places@.len() implies #[trigger] places@[v]
                    >= k + 1 by {
                    assert(places@[next as int] < places@[v]);
                }
            }
            next += 1;
        } else {
            slots.push(None);
            proof {
                assert forall|v: int| next <= v < places@.len() implies #[trigger] places@[v] >= k
                    + 1 by {
                    if v > next {
                        assert(places@[next as int] < places@[v]);
                    }
                }
                if places@.contains(k as usize) {
                    let v = choose|v: int| 0 <= v < places@.len() && places@[v] == k;
                    assert(v < next || v >= next);
                }
            }
        }
        k += 1;
    }
    slots
}

/// The row that the entry of a row hangs on.
fn find_hanging(
    all: &Vec<SessionTreeEntry>,
    places: &Vec<usize>,
    slots: &Vec<Option<usize>>,
    v: usize,
) -> (r: Option<usize>)
    requires
        ascending(all@, places@),
        v < places@.len(),
        slots@.len() == all@.len(),
        forall|k: int|
            0 <= k < all@.len() ==> match #[trigger] slots@[k] {
                Some(row) => row < places@.len() && places@[row as int] == k,
                None => !places@.contains(k as usize),
            },
    ensures
        hangs_on(all@, places@, v as int, r),
        r matches Some(row) ==> row < places@.len(),
{
    let mut at: usize = places[v];
    let mut fuel: usize = all.len();
    loop
        invariant
            at < all@.len(),
            v < places@.len(),
            slots@.len() == all@.len(),
            forall|k: int|
                0 <= k < all@.len() ==> match #[trigger] slots@[k] {
                    Some(row) => row < places@.len() && places@[row as int] == k,
                    None => !places@.contains(k as usize),
                },
            climb(all@, places@, at as int, fuel as nat) == climb(
                all@,
                places@,
                places@[v as int] as int,
                all@.len(),
            ),
        decreases fuel,
    {
        match find_parent(all, at) {
            None => {
                return None;
            },
            Some(p) => {
                match slots[p] {
                    Some(row) => {
                        assert(places@.contains(p)) by {
                            assert(places@[row as int] == p);
                        }
                        return Some(row);
                    },
                    None => {
                        assert(!places@.contains(p));
                        if fuel == 0 {
                            return None;
                        }
                        at = p;
                        fuel -= 1;
                    },
                }
            },
        }
    }
}

/// How many rows are drawn already.
spec fn drawn(visuals: Seq<Option<TreeVisual>>, n: int) -> nat
    decreases n,
{
    if n <= 0 {
        0
    } else {
        drawn(visuals, n - 1) + if visuals[n - 1] is Some {
            1nat
        } else {
            0nat
        }
    }
}

proof fn same_drawn(before: Seq<Option<TreeVisual>>, after: Seq<Option<TreeVisual>>, n: int)
    requires
        0 <= n <= before.len() <= after.len(),
        forall|v: int| 0 <= v < n ==> #[trigger] before[v] == after[v],
    ensures
        drawn(before, n) == drawn(after, n),
    decreases n,
{
    if n > 0 {
        same_drawn(before, after, n - 1);
    }
}

proof fn drawn_bounded(visuals: Seq<Option<TreeVisual>>, n: int, gap: int)
    requires
        0 <= n <= visuals.len(),
        0 <= gap < visuals.len(),
        visuals[gap] is None,
    ensures
        drawn(visuals, n) <= n,
        gap < n ==> drawn(visuals, n) < n,
    decreases n,
{
    if n > 0 {
        drawn_bounded(visuals, n - 1, gap);
    }
}

proof fn drawn_grows(visuals: Seq<Option<TreeVisual>>, v: int, x: TreeVisual, n: int)
    requires
        0 <= n <= visuals.len(),
        0 <= v < visuals.len(),
        visuals[v] is None,
    ensures
        drawn(visuals.update(v, Some(x)), n) == drawn(visuals, n) + if v < n {
            1nat
        } else {
            0nat
        },
    decreases n,
{
    if n > 0 {
        drawn_grows(visuals, v, x, n - 1);
    }
}

/// What is drawn is drawn right, with the rows drawn so far as fuel.
spec fn drawn_right(
    parents: Seq<Option<usize>>,
    visuals: Seq<Option<TreeVisual>>,
    fuel: nat,
) -> bool {
    &&& visuals.len() == parents.len()
    &&& forall|v: int|
        0 <= v < parents.len() && (#[trigger] visuals[v]) is Some ==> visual(parents, v, fuel)
            == Some(visuals[v]->Some_0@) && visuals[v]->Some_0.indent <= fuel
}

proof fn undrawn_stays(
    parents: Seq<Option<usize>>,
    visuals: Seq<Option<TreeVisual>>,
    v: int,
    fuel: nat,
)
    requires
        visuals.len() == parents.len(),
        0 <= v < parents.len(),
        visuals[v] is None,
        forall|w: int|
            0 <= w < parents.len() && #[trigger] visuals[w] is None ==> (parents[w] matches Some(p)
                && p < parents.len() && visuals[p as int] is None),
    ensures
        visual(parents, v, fuel) is None,
    decreases fuel,
{
    if fuel > 0 {
        let p = parents[v]->Some_0;
        undrawn_stays(parents, visuals, p as int, (fuel - 1) as nat);
    }
}

/// How a root is drawn.
fn draw_root(parents: &Vec<Option<usize>>, v: usize, several: bool, last: bool) -> (r: TreeVisual)
    requires
        v < parents@.len(),
        several == branches(parents@, None),
        last == comes_last(parents@, v as int),
    ensures
        r@ == root_visual(parents@, v as int),
{
    let r: TreeVisual = TreeVisual {
        indent: if several {
            1
        } else {
            0
        },
        show_connector: several,
        is_last: last,
        gutters: Vec::new(),
        virtual_root_child: several,
    };
    assert(r@.gutters =~= Seq::<(usize, bool)>::empty());
    r
}

/// How a row under another one is drawn.
fn draw_child(
    parents: &Vec<Option<usize>>,
    v: usize,
    above: &TreeVisual,
    several_roots: bool,
    several: bool,
    last: bool,
) -> (r: TreeVisual)
    requires
        v < parents@.len(),
        above.indent < usize::MAX,
        several_roots == branches(parents@, None),
        several == branches(parents@, parents@[v as int]),
        last == comes_last(parents@, v as int),
    ensures
        r@ == child_visual(parents@, v as int, above@),
{
    let mut gutters: Vec<(usize, bool)> = Vec::new();
    let mut i: usize = 0;
    while i < above.gutters.len()
        invariant
            i <= above.gutters@.len(),
            gutters@ == above.gutters@.take(i as int),
        decreases above.gutters@.len() - i,
    {
        gutters.push(above.gutters[i]);
        i += 1;
        assert(above.gutters@.take(i as int) =~= above.gutters@.take(i - 1).push(
            above.gutters@[i - 1],
        ));
    }
    assert(above.gutters@.take(above.gutters@.len() as int) =~= above.gutters@);
    if above.show_connector && !above.virtual_root_child {
        let level: usize = if several_roots && above.indent > 0 {
            above.indent - 1
        } else {
            above.indent
        };
        gutters.push((level.saturating_sub(1), !above.is_last));
    }
    assert(gutters@ =~= gutters_below(parents@, above@));
    let indent: usize = if several || (above.show_connector && above.indent > 0) {
        above.indent + 1
    } else {
        above.indent
    };
    TreeVisual { indent, show_connector: several, is_last: last, gutters, virtual_root_child: false }
}

proof fn draws_right(
    parents: Seq<Option<usize>>,
    visuals: Seq<Option<TreeVisual>>,
    v: int,
    x: TreeVisual,
    fuel: nat,
)
    requires
        drawn_right(parents, visuals, fuel),
        0 <= v < parents.len(),
        visual(parents, v, fuel + 1) == Some(x@),
        x.indent <= fuel + 1,
    ensures
        drawn_right(parents, visuals.update(v, Some(x)), fuel + 1),
{
    let after = visuals.update(v, Some(x));
    assert forall|w: int| 0 <= w < parents.len() && (#[trigger] after[w]) is Some implies visual(
        parents,
        w,
        fuel + 1,
    ) == Some(after[w]->Some_0@) && after[w]->Some_0.indent <= fuel + 1 by {
        if w != v {
            assert(visuals[w] is Some);
            more_fuel(parents, w, fuel, fuel + 1);
        }
    }
}

/// No row that is not drawn could be drawn: what it hangs on is not drawn either.
spec fn settled(parents: Seq<Option<usize>>, visuals: Seq<Option<TreeVisual>>, n: int) -> bool {
    forall|w: int|
        0 <= w < n && #[trigger] visuals[w] is None ==> (parents[w] matches Some(p) && p
            < parents.len() && visuals[p as int] is None)
}

/// Draws all rows that lead to a root.
fn draw_rows(
    parents: &Vec<Option<usize>>,
    children: &Vec<usize>,
    last: &Vec<bool>,
    several_roots: bool,
) -> (r: Vec<Option<TreeVisual>>)
    requires
        forall|v: int|
            0 <= v < parents@.len() ==> (#[trigger] parents@[v] matches Some(p) ==> p
                < parents@.len()),
        children@.len() == parents@.len(),
        forall|v: int|
            0 <= v < parents@.len() ==> #[trigger] children@[v] == kin(
                parents@,
                Some(v as usize),
                parents@.len() as int,
            ),
        last@.len() == parents@.len(),
        forall|v: int| 0 <= v < parents@.len() ==> #[trigger] last@[v] == comes_last(parents@, v),
        several_roots == branches(parents@, None),
    ensures
        r@.len() == parents@.len(),
        forall|v: int|
            0 <= v < parents@.len() ==> match #[trigger] r@[v] {
                Some(x) => visual(parents@, v, parents@.len()) == Some(x@),
                None => visual(parents@, v, parents@.len()) is None,
            },
{
    let n: usize = parents.len();
    let mut visuals: Vec<Option<TreeVisual>> = Vec::new();
    let mut i: usize = 0;
    while i < n
        invariant
            i <= n,
            visuals@.len() == i,
            forall|v: int| 0 <= v < i ==> (#[trigger] visuals@[v]) is None,
            drawn(visuals@, i as int) == 0,
        decreases n - i,
    {
        let ghost before = visuals@;
        visuals.push(None);
        proof {
            same_drawn(before, visuals@, i as int);
        }
        i += 1;
    }
    let mut count: usize = 0;
    let mut progress: bool = true;
    while progress
        invariant
            n == parents@.len() == visuals@.len() == children@.len() == last@.len(),
            forall|v: int|
                0 <= v < n ==> (#[trigger] parents@[v] matches Some(p) ==> p < n),
            forall|v: int|
                0 <= v < n ==> #[trigger] children@[v] == kin(
                    parents@,
                    Some(v as usize),
                    n as int,
                ),
            forall|v: int| 0 <= v < n ==> #[trigger] last@[v] == comes_last(parents@, v),
            several_roots == branches(parents@, None),
            count == drawn(visuals@, n as int),
            count <= n,
            drawn_right(parents@, visuals@, count as nat),
            progress || settled(parents@, visuals@, n as int),
        decreases n - count, if progress { 1int } else { 0int },
    {
        progress = false;
        let ghost begun = count;
        let mut v: usize = 0;
        while v < n
            invariant
                v <= n,
                n == parents@.len() == visuals@.len() == children@.len() == last@.len(),
                forall|v: int|
                    0 <= v < n ==> (#[trigger] parents@[v] matches Some(p) ==> p < n),
                forall|v: int|
                    0 <= v < n ==> #[trigger] children@[v] == kin(
                        parents@,
                        Some(v as usize),
                        n as int,
                    ),
                forall|v: int| 0 <= v < n ==> #[trigger] last@[v] == comes_last(parents@, v),
                several_roots == branches(parents@, None),
                count == drawn(visuals@, n as int),
                count <= n,
                drawn_right(parents@, visuals@, count as nat),
                progress || settled(parents@, visuals@, v as int),
                begun <= count,
                progress ==> begun < count,
            decreases n - v,
        {
            if visuals[v].is_none() {
                proof {
                    drawn_bounded(visuals@, n as int, v as int);
                }
                let made: Option<TreeVisual> = match parents[v] {
                    None => Some(draw_root(parents, v, several_roots, last[v])),
                    Some(p) => {
                        assert(children@[p as int] == kin(parents@, Some(p), n as int));
                        match &visuals[p] {
                            None => None,
                            Some(above) => Some(
                                draw_child(
                                    parents,
                                    v,
                                    above,
                                    several_roots,
                                    children[p] > 1,
                                    last[v],
                                ),
                            ),
                        }
                    },
                };
                if let Some(x) = made {
                    proof {
                        if let Some(p) = parents@[v as int] {
                            assert(visuals@[p as int] is Some);
                        }
                        assert(visual(parents@, v as int, (count + 1) as nat) == Some(x@));
                        draws_right(parents@, visuals@, v as int, x, count as nat);
                        drawn_grows(visuals@, v as int, x, n as int);
                    }
                    visuals.set(v, Some(x));
                    count += 1;
                    progress = true;
                }
            }
            v += 1;
        }
    }
    proof {
        assert forall|v: int| 0 <= v < n implies match #[trigger] visuals@[v] {
            Some(x) => visual(parents@, v, n as nat) == Some(x@),
            None => visual(parents@, v, n as nat) is None,
        } by {
            if visuals@[v] is Some {
                more_fuel(parents@, v, count as nat, n as nat);
            } else {
                undrawn_stays(parents@, visuals@, v, n as nat);
            }
        }
    }
    visuals
}

impl TreeTopology {
    /// The tree of the rows that show the entries at `places`.
    pub fn new(places: &Vec<usize>, all: &Vec<SessionTreeEntry>) -> (r: TreeTopology)
        requires
            ascending(all@, places@),
        ensures
            r.parents@.len() == places@.len(),
            forall|v: int|
                0 <= v < places@.len() ==> hangs_on(all@, places@, v, #[trigger] r.parents@[v]),
            tree_of(r),
    {
        let slots: Vec<Option<usize>> = rows_by_entry(all, places);
        let mut parents: Vec<Option<usize>> = Vec::new();
        let mut v: usize = 0;
        while v < places.len()
            invariant
                ascending(all@, places@),
                v <= places@.len(),
                parents@.len() == v,
                slots@.len() == all@.len(),
                forall|k: int|
                    0 <= k < all@.len() ==> match #[trigger] slots@[k] {
                        Some(row) => row < places@.len() && places@[row as int] == k,
                        None => !places@.contains(k as usize),
                    },
                forall|w: int|
                    0 <= w < v ==> hangs_on(all@, places@, w, #[trigger] parents@[w]) && (
                    parents@[w] matches Some(p) ==> p < places@.len()),
            decreases places@.len() - v,
        {
            parents.push(find_hanging(all, places, &slots, v));
            v += 1;
        }
        let (children, roots): (Vec<usize>, usize) = count_children(&parents);
        let last: Vec<bool> = mark_last(&parents);
        let visuals: Vec<Option<TreeVisual>> = draw_rows(&parents, &children, &last, roots > 1);
        TreeTopology { parents, children, visuals, multiple_roots: roots > 1 }
    }

    /// Whether a row can be folded.
    pub fn is_foldable(&self, v: usize) -> (r: bool)
        requires
            tree_of(*self),
            v < self.parents@.len(),
        ensures
            r == foldable(self.parents@, v as int),
    {
        let _here: Option<usize> = self.parents[v];
        self.children[v] > 0 && match self.parents[v] {
            None => true,
            Some(p) => {
                assert(self.children@[p as int] == kin(
                    self.parents@,
                    Some(p),
                    self.parents@.len() as int,
                ));
                self.children[p] > 1
            },
        }
    }
}

/// The colors of a row, by what they mean.
#[derive(Clone, Copy, Debug, PartialEq, Eq, Structural)]
pub enum Tone {
    Accent,
    Subtle,
    Muted,
    Warning,
    User,
    Success,
    Foreground,
}

/// A stretch of a row.
#[derive(Clone, Debug)]
pub struct RowSpan {
    pub text: String,
    pub tone: Tone,
    pub bold: bool,
}

/// A stretch of a row.
pub open spec fn span_view(span: RowSpan) -> (Seq<char>, Tone, bool) {
    (span.text@, span.tone, span.bold)
}

/// The stretches of a row.
pub open spec fn span_views(spans: Seq<RowSpan>) -> Seq<(Seq<char>, Tone, bool)> {
    spans.map_values(|span: RowSpan| span_view(span))
}

/// The month, the day and the time of a timestamp, if they stand at their
/// places, with a blank between.
pub open spec fn short_time(s: Seq<char>) -> Seq<char> {
    let part = if exists|a: int, b: int| #[trigger]
        text::boundary(s, 5, a) && #[trigger] text::boundary(s, 16, b) {
        let (a, b) = choose|a: int, b: int| #[trigger]
            text::boundary(s, 5, a) && #[trigger] text::boundary(s, 16, b);
        s.subrange(a, b)
    } else {
        s
    };
    part.map_values(
        |c: char|
            if c == 'T' {
                ' '
            } else {
                c
            },
    )
}

/// The mark of a row that is drawn.
pub open spec fn has_connector(visual: Option<VisualView>) -> bool {
    visual matches Some(x) && x.show_connector && !x.virtual_root_child
}

/// How many levels are drawn in front of a row.
pub open spec fn levels(visual: Option<VisualView>, several_roots: bool) -> int {
    match visual {
        Some(x) => screen_indent(x.indent, several_roots),
        None => 0,
    }
}

/// The first vertical line at a level: whether it is drawn.
pub open spec fn gutter_at(gutters: Seq<(usize, bool)>, level: int) -> Option<bool>
    decreases gutters.len(),
{
    if gutters.len() == 0 {
        None
    } else if gutters[0].0 == level {
        Some(gutters[0].1)
    } else {
        gutter_at(gutters.skip(1), level)
    }
}

/// What a level in front of a row shows: a line, the connector, or nothing.
pub open spec fn level_text(
    visual: VisualView,
    level: int,
    several_roots: bool,
    folded: bool,
    can_fold: bool,
) -> Seq<char> {
    let indent = screen_indent(visual.indent, several_roots);
    match gutter_at(visual.gutters, level) {
        Some(true) => "│  "@,
        Some(false) => "   "@,
        None => if has_connector(Some(visual)) && level == indent - 1 {
            seq![
                if visual.is_last {
                    '└'
                } else {
                    '├'
                },
                if folded {
                    '⊞'
                } else if can_fold {
                    '⊟'
                } else {
                    '─'
                },
                ' ',
            ]
        } else {
            "   "@
        },
    }
}

/// The first `n` levels in front of a row.
pub open spec fn level_spans(
    visual: Option<VisualView>,
    n: int,
    several_roots: bool,
    folded: bool,
    can_fold: bool,
) -> Seq<(Seq<char>, Tone, bool)>
    decreases n,
{
    if n <= 0 || visual is None {
        Seq::empty()
    } else {
        level_spans(visual, n - 1, several_roots, folded, can_fold).push(
            (
                level_text(visual->Some_0, n - 1, several_roots, folded, can_fold),
                Tone::Subtle,
                false,
            ),
        )
    }
}

/// Who an entry comes from, and the color for it.
pub open spec fn speaker(entry: SessionTreeEntry) -> (Seq<char>, Tone) {
    if entry.kind@ == "message"@ && (entry.role matches Some(role) && role@ == "user"@) {
        ("user: "@, Tone::User)
    } else if entry.kind@ == "message"@ && (entry.role matches Some(role) && role@
        == "assistant"@) {
        ("assistant: "@, Tone::Success)
    } else if entry.kind@ == "message"@ && (entry.role matches Some(role) && role@
        == "toolResult"@) {
        (Seq::empty(), Tone::Muted)
    } else if entry.kind@ == "compaction"@ {
        ("[compaction]: "@, Tone::Accent)
    } else if entry.kind@ == "branch_summary"@ {
        ("[branch summary]: "@, Tone::Warning)
    } else {
        match entry.role {
            Some(role) => (role@ + ": "@, Tone::Muted),
            None => ("["@ + entry.kind@ + "]: "@, Tone::Muted),
        }
    }
}

/// The text of an entry; an answer without text says so.
pub open spec fn entry_words(entry: SessionTreeEntry) -> Seq<char> {
    if (entry.role matches Some(role) && role@ == "assistant"@) && text::trim(entry.text@).len()
        == 0 {
        "(no content)"@
    } else {
        text::trim(entry.text@)
    }
}

/// The sign of a fold in front of a row without a connector.
pub open spec fn fold_spans(visual: Option<VisualView>, folded: bool, can_fold: bool) -> Seq<
    (Seq<char>, Tone, bool),
> {
    if has_connector(visual) {
        Seq::empty()
    } else if folded {
        seq![("⊞ "@, Tone::Accent, false)]
    } else if can_fold {
        seq![("⊟ "@, Tone::Subtle, false)]
    } else {
        Seq::empty()
    }
}

/// The label of an entry, with its time if asked for.
pub open spec fn label_spans(entry: SessionTreeEntry, times: bool) -> Seq<(Seq<char>, Tone, bool)> {
    match entry.label {
        None => Seq::empty(),
        Some(label) => {
            let name = seq![("["@ + label@ + "] "@, Tone::Warning, false)];
            match entry.label_timestamp {
                Some(time) => if times {
                    name.push((short_time(time@) + " "@, Tone::Muted, false))
                } else {
                    name
                },
                None => name,
            }
        },
    }
}

/// A row of the tree.
pub open spec fn row_spans(
    entry: SessionTreeEntry,
    visual: Option<VisualView>,
    several_roots: bool,
    selected: bool,
    hovered: bool,
    folded: bool,
    can_fold: bool,
    times: bool,
) -> Seq<(Seq<char>, Tone, bool)> {
    seq![
        (
            if selected {
                "› "@
            } else {
                "  "@
            },
            Tone::Accent,
            false,
        ),
    ] + level_spans(visual, levels(visual, several_roots), several_roots, folded, can_fold)
        + fold_spans(visual, folded, can_fold) + (if entry.active {
        seq![("• "@, Tone::Accent, false)]
    } else {
        Seq::empty()
    }) + label_spans(entry, times) + seq![
        (speaker(entry).0, speaker(entry).1, selected || hovered),
        (entry_words(entry), Tone::Foreground, selected || hovered),
    ]
}

fn push_span(spans: &mut Vec<RowSpan>, words: String, tone: Tone, bold: bool)
    ensures
        span_views(final(spans)@) == span_views(old(spans)@).push((words@, tone, bold)),
{
    let ghost before = span_views(spans@);
    let ghost said = words@;
    spans.push(RowSpan { text: words, tone, bold });
    assert(span_views(spans@) =~= before.push((said, tone, bold)));
}

/// The month, the day and the time of a timestamp.
pub fn short_timestamp(timestamp: &str) -> (r: String)
    ensures
        r@ == short_time(timestamp@),
{
    let chars: Vec<char> = text::chars_of(timestamp);
    let ghost s = timestamp@;
    let first: Option<usize> = text::char_at_byte(&chars, 5);
    let second: Option<usize> = text::char_at_byte(&chars, 16);
    let (from, to): (usize, usize) = match (first, second) {
        (Some(a), Some(b)) => (a, b),
        _ => (0, chars.len()),
    };
    let ghost part = s.subrange(from as int, to as int);
    proof {
        if first is Some && second is Some {
            assert(text::boundary(s, 5, from as int) && text::boundary(s, 16, to as int));
            let (a, b) = choose|a: int, b: int| #[trigger]
                text::boundary(s, 5, a) && #[trigger] text::boundary(s, 16, b);
            text::boundaries_are_single(s, 5, a, from as int);
            text::boundaries_are_single(s, 16, b, to as int);
            text::boundaries_are_ordered(s, from as int, 5, to as int, 16);
        } else {
            assert(part =~= s);
            assert(!exists|a: int, b: int| #[trigger]
                text::boundary(s, 5, a) && #[trigger] text::boundary(s, 16, b));
        }
    }
    let mut out: String = "".to_owned();
    let mut i: usize = from;
    proof {
        reveal_strlit("");
        assert(out@ =~= short_time(s).take(0));
    }
    while i < to
        invariant
            from <= i <= to <= chars@.len(),
            chars@ == s,
            part == s.subrange(from as int, to as int),
            short_time(s) == part.map_values(
                |c: char|
                    if c == 'T' {
                        ' '
                    } else {
                        c
                    },
            ),
            out@ == short_time(s).take(i - from),
        decreases to - i,
    {
        let c: char = chars[i];
        out.push(
            if c == 'T' {
                ' '
            } else {
                c
            },
        );
        assert(part[i - from] == c);
        assert(out@ =~= short_time(s).take(i - from + 1));
        i += 1;
    }
    assert(short_time(s).take(to - from) =~= short_time(s));
    out
}

fn find_gutter(gutters: &Vec<(usize, bool)>, level: usize) -> (r: Option<bool>)
    ensures
        r == gutter_at(gutters@, level as int),
{
    let mut i: usize = 0;
    assert(gutters@.skip(0) =~= gutters@);
    while i < gutters.len()
        invariant
            i <= gutters@.len(),
            gutter_at(gutters@.skip(i as int), level as int) == gutter_at(gutters@, level as int),
        decreases gutters@.len() - i,
    {
        assert(gutters@.skip(i as int)[0] == gutters@[i as int]);
        assert(gutters@.skip(i as int).skip(1) =~= gutters@.skip(i + 1));
        if gutters[i].0 == level {
            return Some(gutters[i].1);
        }
        i += 1;
    }
    None
}

fn level_prefix(
    visual: &TreeVisual,
    level: usize,
    indent: usize,
    several_roots: bool,
    folded: bool,
    can_fold: bool,
) -> (r: String)
    requires
        indent == screen_indent(visual.indent as int, several_roots),
        level < indent,
    ensures
        r@ == level_text(visual@, level as int, several_roots, folded, can_fold),
{
    match find_gutter(&visual.gutters, level) {
        Some(true) => "│  ".to_owned(),
        Some(false) => "   ".to_owned(),
        None => if visual.show_connector && !visual.virtual_root_child && level == indent - 1 {
            let mut out: String = "".to_owned();
            proof {
                reveal_strlit("");
            }
            out.push(
                if visual.is_last {
                    '└'
                } else {
                    '├'
                },
            );
            out.push(
                if folded {
                    '⊞'
                } else if can_fold {
                    '⊟'
                } else {
                    '─'
                },
            );
            out.push(' ');
            assert(out@ =~= level_text(visual@, level as int, several_roots, folded, can_fold));
            out
        } else {
            "   ".to_owned()
        },
    }
}

fn speaker_of(entry: &SessionTreeEntry) -> (r: (String, Tone))
    ensures
        (r.0@, r.1) == speaker(*entry),
{
    let kind: &str = entry.kind.as_str();
    let message: bool = text::same_text(kind, "message");
    if message && is_role(entry, "user") {
        ("user: ".to_owned(), Tone::User)
    } else if message && is_role(entry, "assistant") {
        ("assistant: ".to_owned(), Tone::Success)
    } else if message && is_role(entry, "toolResult") {
        proof {
            reveal_strlit("");
            assert(""@ =~= Seq::<char>::empty());
        }
        ("".to_owned(), Tone::Muted)
    } else if text::same_text(kind, "compaction") {
        ("[compaction]: ".to_owned(), Tone::Accent)
    } else if text::same_text(kind, "branch_summary") {
        ("[branch summary]: ".to_owned(), Tone::Warning)
    } else {
        match &entry.role {
            Some(role) => (text::joined(role.as_str(), ": "), Tone::Muted),
            None => (text::joined3("[", kind, "]: "), Tone::Muted),
        }
    }
}

fn words_of(entry: &SessionTreeEntry) -> (r: String)
    ensures
        r@ == entry_words(*entry),
{
    let words: String = text::trimmed(entry.text.as_str());
    if is_role(entry, "assistant") && words.as_str().is_empty() {
        "(no content)".to_owned()
    } else {
        words
    }
}

/// Adds the levels in front of a row.
fn add_levels(spans: &mut Vec<RowSpan>, x: &TreeVisual, several: bool, folded: bool, can_fold: bool)
    ensures
        span_views(final(spans)@) == span_views(old(spans)@) + level_spans(
            Some(x@),
            levels(Some(x@), several),
            several,
            folded,
            can_fold,
        ),
{
    let ghost before = span_views(spans@);
    let indent: usize = if several && x.indent > 0 {
        x.indent - 1
    } else {
        x.indent
    };
    let mut level: usize = 0;
    assert(span_views(spans@) =~= before + level_spans(Some(x@), 0, several, folded, can_fold));
    while level < indent
        invariant
            level <= indent,
            indent == screen_indent(x.indent as int, several),
            span_views(spans@) == before + level_spans(
                Some(x@),
                level as int,
                several,
                folded,
                can_fold,
            ),
        decreases indent - level,
    {
        push_span(
            spans,
            level_prefix(x, level, indent, several, folded, can_fold),
            Tone::Subtle,
            false,
        );
        level += 1;
        assert(span_views(spans@) =~= before + level_spans(
            Some(x@),
            level as int,
            several,
            folded,
            can_fold,
        ));
    }
}

/// Adds the label of an entry.
fn add_label(spans: &mut Vec<RowSpan>, entry: &SessionTreeEntry, times: bool)
    ensures
        span_views(final(spans)@) == span_views(old(spans)@) + label_spans(*entry, times),
{
    let ghost before = span_views(spans@);
    if let Some(label) = &entry.label {
        push_span(spans, text::joined3("[", label.as_str(), "] "), Tone::Warning, false);
        if times {
            if let Some(time) = &entry.label_timestamp {
                let short: String = short_timestamp(time.as_str());
                push_span(spans, text::joined(short.as_str(), " "), Tone::Muted, false);
            }
        }
    }
    assert(span_views(spans@) =~= before + label_spans(*entry, times));
}

/// Adds the signs of a fold and of the active path.
fn add_signs(
    spans: &mut Vec<RowSpan>,
    connector: bool,
    folded: bool,
    can_fold: bool,
    active: bool,
    Ghost(visual): Ghost<Option<VisualView>>,
)
    requires
        connector == has_connector(visual),
    ensures
        span_views(final(spans)@) == span_views(old(spans)@) + fold_spans(visual, folded, can_fold)
            + (if active {
            seq![("• "@, Tone::Accent, false)]
        } else {
            Seq::empty()
        }),
{
    let ghost before = span_views(spans@);
    if folded && !connector {
        push_span(spans, "⊞ ".to_owned(), Tone::Accent, false);
    } else if can_fold && !connector {
        push_span(spans, "⊟ ".to_owned(), Tone::Subtle, false);
    }
    assert(span_views(spans@) =~= before + fold_spans(visual, folded, can_fold));
    if active {
        push_span(spans, "• ".to_owned(), Tone::Accent, false);
    }
    assert(span_views(spans@) =~= before + fold_spans(visual, folded, can_fold) + (if active {
        seq![("• "@, Tone::Accent, false)]
    } else {
        Seq::empty()
    }));
}

/// The stretches of a row, for a way of drawing it.
fn assemble_row(
    entry: &SessionTreeEntry,
    drawing: &Option<TreeVisual>,
    several: bool,
    selected: bool,
    hovered: bool,
    folded: bool,
    can_fold: bool,
    times: bool,
    Ghost(drawn): Ghost<Option<VisualView>>,
) -> (r: Vec<RowSpan>)
    requires
        match *drawing {
            Some(x) => drawn == Some(x@),
            None => drawn is None,
        },
    ensures
        span_views(r@) == row_spans(
            *entry,
            drawn,
            several,
            selected,
            hovered,
            folded,
            can_fold,
            times,
        ),
{
    let mut spans: Vec<RowSpan> = Vec::new();
    assert(span_views(spans@) =~= Seq::<(Seq<char>, Tone, bool)>::empty());
    let marker: String = if selected {
        "› ".to_owned()
    } else {
        "  ".to_owned()
    };
    let ghost mark = seq![(marker@, Tone::Accent, false)];
    push_span(&mut spans, marker, Tone::Accent, false);
    assert(span_views(spans@) =~= mark);
    let connector: bool = match drawing {
        Some(x) => {
            add_levels(&mut spans, x, several, folded, can_fold);
            x.show_connector && !x.virtual_root_child
        },
        None => {
            assert(mark =~= mark + level_spans(drawn, 0, several, folded, can_fold));
            false
        },
    };
    add_signs(&mut spans, connector, folded, can_fold, entry.active, Ghost(drawn));
    add_label(&mut spans, entry, times);
    let ghost body = span_views(spans@);
    let (name, tone): (String, Tone) = speaker_of(entry);
    push_span(&mut spans, name, tone, selected || hovered);
    push_span(&mut spans, words_of(entry), Tone::Foreground, selected || hovered);
    assert(span_views(spans@) =~= body + seq![
        (speaker(*entry).0, speaker(*entry).1, selected || hovered),
        (entry_words(*entry), Tone::Foreground, selected || hovered),
    ]);
    spans
}

/// A row of the tree, as stretches of text. `v` is the row in the topology.
pub fn tree_row(
    entry: &SessionTreeEntry,
    topology: &TreeTopology,
    v: usize,
    selected: bool,
    hovered: bool,
    folded: bool,
    times: bool,
) -> (r: Vec<RowSpan>)
    requires
        tree_of(*topology),
        v < topology.parents@.len(),
    ensures
        span_views(r@) == row_spans(
            *entry,
            visual(topology.parents@, v as int, topology.parents@.len()),
            topology.multiple_roots,
            selected,
            hovered,
            folded,
            foldable(topology.parents@, v as int),
            times,
        ),
{
    let can_fold: bool = topology.is_foldable(v);
    assemble_row(
        entry,
        &topology.visuals[v],
        topology.multiple_roots,
        selected,
        hovered,
        folded,
        can_fold,
        times,
        Ghost(visual(topology.parents@, v as int, topology.parents@.len())),
    )
}

/// Each filter lets through what its name says, whatever else an entry is.
pub proof fn filters_let_through_what_they_say(filter: TreeFilter, entry: SessionTreeEntry)
    ensures
        passes(TreeFilter::All, entry),
        passes(TreeFilter::UserOnly, entry) <==> (entry.role is Some && entry.role->0@ == "user"@),
        passes(TreeFilter::LabeledOnly, entry) <==> entry.label is Some,
        entry.kind@ == "message"@ || entry.kind@ == "compaction"@ || entry.kind@
            == "branch_summary"@ <==> passes(TreeFilter::Default, entry),
        passes(TreeFilter::NoTools, entry) ==> passes(TreeFilter::Default, entry),
        passes(TreeFilter::NoTools, entry) ==> !(entry.role is Some && entry.role->0@
            == "toolResult"@),
        passes(TreeFilter::Default, entry) && !(entry.role is Some && entry.role->0@
            == "toolResult"@) ==> passes(TreeFilter::NoTools, entry),
{
}

/// The rows of a listing are the entries that are shown, and no others.
pub proof fn listings_hold_what_is_shown(t: SessionTree, query: Seq<char>, n: int, k: int)
    requires
        0 <= k < n <= t.session_tree@.len(),
        t.session_tree@.len() <= usize::MAX,
    ensures
        listed(t, query, n).contains(k as usize) <==> shown(t, query, k),
    decreases n,
{
    let before = listed(t, query, n - 1);
    let all = listed(t, query, n);
    if k < n - 1 {
        listings_hold_what_is_shown(t, query, n - 1, k);
        if before.contains(k as usize) {
            let i = choose|i: int| 0 <= i < before.len() && before[i] == k as usize;
            assert(all[i] == k as usize);
        }
        if all.contains(k as usize) {
            let i = choose|i: int| 0 <= i < all.len() && all[i] == k as usize;
            assert(before[i] == k as usize);
        }
    } else {
        listings_ascend(t, query, n - 1);
        if shown(t, query, k) {
            assert(all[before.len() as int] == k as usize);
        } else if all.contains(k as usize) {
            let i = choose|i: int| 0 <= i < all.len() && all[i] == k as usize;
            assert(before[i] < n - 1);
        }
    }
}

/// With nothing folded and nothing looked for, everything is shown that the filter lets
/// through.
pub proof fn everything_is_shown_unfolded(t: SessionTree, k: int)
    requires
        0 <= k < t.session_tree@.len(),
        t.tree_folded@ == Set::<Seq<char>>::empty(),
        passes(t.tree_filter, t.session_tree@[k]),
    ensures
        shown(t, Seq::empty(), k),
{
    let s = t.session_tree@[k].text@;
    let none = text::ascii_lowered(Seq::<char>::empty());
    let low = text::ascii_lowered(s);
    assert(low.subrange(0, 0) =~= none);
    assert(text::has_at(low, none, 0));
    no_folds_hide_nothing(t.session_tree@, t.tree_folded@, k, t.session_tree@.len());
}

proof fn no_folds_hide_nothing(
    all: Seq<SessionTreeEntry>,
    folded: Set<Seq<char>>,
    k: int,
    fuel: nat,
)
    requires
        folded == Set::<Seq<char>>::empty(),
    ensures
        !under_fold(all, folded, k, fuel),
    decreases fuel,
{
    if fuel > 0 {
        match parent_of(all, k) {
            None => {},
            Some(p) => no_folds_hide_nothing(all, folded, p, (fuel - 1) as nat),
        }
    }
}

/// Where no two entries have the same identifier, an entry answers the one that it names.
pub proof fn entries_answer_the_one_they_name(all: Seq<SessionTreeEntry>, k: int, p: int)
    requires
        0 <= k < all.len(),
        0 <= p < all.len(),
        all[k].parent_id is Some,
        all[k].parent_id->0@ == all[p].id@,
        forall|i: int, j: int|
            0 <= i < j < all.len() ==> (#[trigger] all[i]).id@ != (#[trigger] all[j]).id@,
    ensures
        parent_of(all, k) == Some(p),
{
    last_is_the_only_one(all, all[p].id@, k, p);
    last_is_the_only_one(all, all[p].id@, all.len() as int, p);
}

proof fn last_is_the_only_one(all: Seq<SessionTreeEntry>, id: Seq<char>, n: int, p: int)
    requires
        0 <= n <= all.len(),
        0 <= p < all.len(),
        all[p].id@ == id,
        forall|i: int, j: int|
            0 <= i < j < all.len() ==> (#[trigger] all[i]).id@ != (#[trigger] all[j]).id@,
    ensures
        last_before(all, id, n) == if p < n {
            Some(p)
        } else {
            None
        },
    decreases n,
{
    if n > 0 {
        if all[n - 1].id@ == id {
            if p < n - 1 {
                assert(all[p].id@ != all[n - 1].id@);
            } else if n - 1 < p {
                assert(all[n - 1].id@ != all[p].id@);
            }
        } else {
            last_is_the_only_one(all, id, n - 1, p);
        }
    }
}

/// A row ends with who an entry comes from and with its words, and begins with a mark where it
/// is selected. The rows of the active path have a bullet, and labels are shown.
pub proof fn rows_show_their_entry(
    entry: SessionTreeEntry,
    visual: Option<VisualView>,
    several_roots: bool,
    selected: bool,
    hovered: bool,
    folded: bool,
    can_fold: bool,
    times: bool,
)
    ensures
        ({
            let row = row_spans(
                entry,
                visual,
                several_roots,
                selected,
                hovered,
                folded,
                can_fold,
                times,
            );
            &&& row.len() >= 3
            &&& row[0].0 == (if selected {
                "› "@
            } else {
                "  "@
            })
            &&& row.last().2 == (selected || hovered)
            &&& !(entry.role is Some && entry.role->0@ == "assistant"@) || text::trim(
                entry.text@,
            ).len() > 0 ==> row.last().0 == text::trim(entry.text@)
            &&& entry.kind@ == "message"@ && entry.role is Some && entry.role->0@ == "user"@
                ==> row[row.len() - 2].0 == "user: "@
            &&& entry.kind@ == "message"@ && entry.role is Some && entry.role->0@ == "assistant"@
                ==> row[row.len() - 2].0 == "assistant: "@
            &&& entry.active ==> row.contains(("• "@, Tone::Accent, false))
            &&& entry.label matches Some(label) ==> row.contains(
                ("["@ + label@ + "] "@, Tone::Warning, false),
            )
        }),
{
    reveal_strlit("user");
    reveal_strlit("assistant");
    assert("user"@.len() == 4);
    assert("assistant"@.len() == 9);
    let row = row_spans(entry, visual, several_roots, selected, hovered, folded, can_fold, times);
    let front = level_spans(visual, levels(visual, several_roots), several_roots, folded, can_fold);
    let folds = fold_spans(visual, folded, can_fold);
    let at = 1 + front.len() + folds.len();
    if entry.active {
        assert(row[at as int] == ("• "@, Tone::Accent, false));
    }
    match entry.label {
        Some(label) => {
            let skip = at + if entry.active {
                1int
            } else {
                0int
            };
            assert(label_spans(entry, times)[0] == ("["@ + label@ + "] "@, Tone::Warning, false));
            assert(row[skip as int] == label_spans(entry, times)[0]);
        },
        None => {},
    }
}

/// An only child hangs straight under its parent; where a row branches, each branch is one
/// level further in, with a connector that ends at the last one.
pub proof fn branches_are_indented(parents: Seq<Option<usize>>, v: int, above: VisualView)
    requires
        0 <= v < parents.len(),
        parents[v] is Some,
        !above.show_connector,
    ensures
        ({
            let x = child_visual(parents, v, above);
            let several = kin(parents, parents[v], parents.len() as int) > 1;
            &&& several ==> x.indent == above.indent + 1 && x.show_connector
            &&& !several ==> x.indent == above.indent && !x.show_connector
            &&& x.is_last <==> forall|w: int|
                v < w < parents.len() ==> #[trigger] parents[w] != parents[v]
        }),
{
}

/// A single root stands at the edge; several roots are drawn as branches.
pub proof fn single_roots_stand_at_the_edge(parents: Seq<Option<usize>>, v: int)
    requires
        0 <= v < parents.len(),
        parents[v] is None,
    ensures
        kin(parents, None, parents.len() as int) <= 1 ==> root_visual(parents, v).indent == 0
            && !root_visual(parents, v).show_connector,
        kin(parents, None, parents.len() as int) > 1 ==> root_visual(parents, v).indent == 1,
{
}

/// A folded row, and one that can be folded, say so in front of their text.
pub proof fn folds_are_marked(visual: Option<VisualView>, folded: bool, can_fold: bool)
    requires
        !has_connector(visual),
    ensures
        folded ==> fold_spans(visual, folded, can_fold) == seq![
            (seq!['⊞', ' '], Tone::Accent, false),
        ],
        !folded && can_fold ==> fold_spans(visual, folded, can_fold) == seq![
            (seq!['⊟', ' '], Tone::Subtle, false),
        ],
        !folded && !can_fold ==> fold_spans(visual, folded, can_fold).len() == 0,
{
    reveal_strlit("⊞ ");
    reveal_strlit("⊟ ");
    assert("⊞ "@ =~= seq!['⊞', ' ']);
    assert("⊟ "@ =~= seq!['⊟', ' ']);
}

} // verus!
