//! The nodes of a directory listing, their order, the search by name and
//! the cache of listings.

use vstd::prelude::*;
use vstd::string::StrSliceExecFns;
use crate::sequences::{lemma_filter_members, lemma_filter_take_step};
use crate::text::{
    comes_before, contains_text, has_part, lemma_text_asymmetric, lemma_text_not_before_itself,
    lemma_text_order, lowercase, same_text, text_before, to_lowercase,
};

verus! {

/// The seconds for which a cached listing is good.
pub const CACHE_DURATION_SECS: u64 = 300;

/// The milliseconds for which changes of a directory are gathered before
/// they are reported.
pub const DEBOUNCE_MILLIS: u64 = 50;

/// One entry of a directory.
#[derive(Debug)]
pub struct FileTreeNode {
    pub path: String,
    pub name: String,
    pub is_directory: bool,
    pub is_hidden: bool,
    pub size: Option<u64>,
    pub modified: Option<i64>,
    pub children: Option<Vec<FileTreeNode>>,
}

/// Whether a file name marks a hidden file: it starts with a dot.
pub open spec fn hidden_name(name: Seq<char>) -> bool {
    name.len() > 0 && name[0] == '.'
}

/// Whether `name` marks a hidden file.
pub fn is_hidden_file(name: &str) -> (hidden: bool)
    ensures
        hidden == hidden_name(name@),
{
    !name.is_empty() && name.get_char(0) == '.'
}

/// Whether a listing that was cached `age_secs` seconds ago is too old to
/// use.
pub fn is_expired(age_secs: u64) -> (expired: bool)
    ensures
        expired == (age_secs > CACHE_DURATION_SECS),
{
    age_secs > CACHE_DURATION_SECS
}

/// Whether a file name matches a search pattern: the pattern stands
/// somewhere in the name, with or without regard to case.
pub open spec fn name_matches(name: Seq<char>, pattern: Seq<char>, case_sensitive: bool) -> bool {
    if case_sensitive {
        has_part(name, pattern)
    } else {
        has_part(lowercase(name), lowercase(pattern))
    }
}

/// Whether the file name `name` matches the search pattern `pattern`.
pub fn matches_pattern(name: &str, pattern: &str, case_sensitive: bool) -> (yes: bool)
    ensures
        yes == name_matches(name@, pattern@, case_sensitive),
{
    if case_sensitive {
        contains_text(name, pattern)
    } else {
        let lower_name = to_lowercase(name);
        let lower_pattern = to_lowercase(pattern);
        contains_text(lower_name.as_str(), lower_pattern.as_str())
    }
}

/// A node for an entry that was just read; its children are not listed. A
/// directory has no size.
pub fn entry_node(path: String, name: String, is_directory: bool, len: u64, modified: Option<i64>) -> (node:
    FileTreeNode)
    ensures
        node.path == path,
        node.name == name,
        node.is_directory == is_directory,
        node.is_hidden == hidden_name(name@),
        node.size == if is_directory {
            None
        } else {
            Some(len)
        },
        node.modified == modified,
        node.children.is_none(),
{
    let is_hidden = is_hidden_file(name.as_str());
    FileTreeNode {
        path,
        name,
        is_directory,
        is_hidden,
        size: if is_directory {
            None
        } else {
            Some(len)
        },
        modified,
        children: None,
    }
}

/// Whether the node `a` is listed before the node `b`: directories before
/// files, and within each kind by name, without regard to case.
pub open spec fn node_before(a: FileTreeNode, b: FileTreeNode) -> bool {
    if a.is_directory != b.is_directory {
        a.is_directory
    } else {
        text_before(lowercase(a.name@), lowercase(b.name@))
    }
}

/// No node of the listing stands behind one that it is listed before.
pub open spec fn in_listing_order(s: Seq<FileTreeNode>) -> bool {
    forall|i: int, j: int| 0 <= i < j < s.len() ==> !node_before(s[j], s[i])
}

/// `node` put into `s` behind every node that it is not listed before.
pub open spec fn insert_node(s: Seq<FileTreeNode>, node: FileTreeNode) -> Seq<FileTreeNode>
    decreases s.len(),
{
    if s.len() == 0 {
        seq![node]
    } else if !node_before(node, s.last()) {
        s.push(node)
    } else {
        insert_node(s.drop_last(), node).push(s.last())
    }
}

/// The nodes of `s` in listing order; nodes that neither is listed before
/// the other keep the order that they have in `s`.
pub open spec fn listed(s: Seq<FileTreeNode>) -> Seq<FileTreeNode>
    decreases s.len(),
{
    if s.len() == 0 {
        s
    } else {
        insert_node(listed(s.drop_last()), s.last())
    }
}

/// Of three nodes in a row without a step back, the third is not listed
/// before the first.
pub proof fn lemma_node_order(a: FileTreeNode, b: FileTreeNode, c: FileTreeNode)
    requires
        !node_before(b, a),
        !node_before(c, b),
    ensures
        !node_before(c, a),
{
    if a.is_directory == b.is_directory && b.is_directory == c.is_directory {
        lemma_text_order(lowercase(a.name@), lowercase(b.name@), lowercase(c.name@));
    }
}

/// A node is not listed before itself, and of two nodes at most one is
/// listed before the other.
pub proof fn lemma_node_not_after(a: FileTreeNode, b: FileTreeNode)
    requires
        node_before(a, b),
    ensures
        !node_before(b, a),
        !node_before(a, a),
{
    lemma_text_not_before_itself(lowercase(a.name@));
    if a.is_directory == b.is_directory {
        lemma_text_asymmetric(lowercase(a.name@), lowercase(b.name@));
    }
}

/// Where an insertion puts a node: at `k`, when the node is listed before
/// every node from `k` on and not before the one ahead of `k`.
proof fn lemma_insert_node_at(s: Seq<FileTreeNode>, node: FileTreeNode, k: int)
    requires
        0 <= k <= s.len(),
        forall|j: int| k <= j < s.len() ==> node_before(node, s[j]),
        k > 0 ==> !node_before(node, s[k - 1]),
    ensures
        insert_node(s, node) == s.insert(k, node),
    decreases s.len(),
{
    if s.len() == 0 {
        assert(seq![node] =~= s.insert(k, node));
    } else if k == s.len() {
        assert(s.push(node) =~= s.insert(k, node));
    } else {
        lemma_insert_node_at(s.drop_last(), node, k);
        assert(s.drop_last().insert(k, node).push(s.last()) =~= s.insert(k, node));
    }
}

/// An insertion adds the one node and keeps a listing in order.
pub proof fn lemma_insert_node(s: Seq<FileTreeNode>, node: FileTreeNode)
    ensures
        insert_node(s, node).len() == s.len() + 1,
        insert_node(s, node).to_multiset() == s.to_multiset().insert(node),
        in_listing_order(s) ==> in_listing_order(insert_node(s, node)),
    decreases s.len(),
{
    broadcast use vstd::seq_lib::to_multiset_build;

    let out = insert_node(s, node);
    if s.len() == 0 {
        assert(seq![node] =~= s.push(node));
        lemma_text_not_before_itself(lowercase(node.name@));
    } else if !node_before(node, s.last()) {
        if in_listing_order(s) {
            assert forall|i: int, j: int| 0 <= i < j < out.len() implies !node_before(
                out[j],
                out[i],
            ) by {
                if j == s.len() {
                    if i < s.len() - 1 {
                        lemma_node_order(s[i], s[s.len() - 1], node);
                    }
                }
            }
        }
    } else {
        let front = s.drop_last();
        lemma_insert_node(front, node);
        assert(front.push(s.last()) =~= s);
        let mid = insert_node(front, node);
        assert(out.to_multiset() =~= s.to_multiset().insert(node));
        if in_listing_order(s) {
            assert(in_listing_order(front));
            assert forall|i: int, j: int| 0 <= i < j < out.len() implies !node_before(
                out[j],
                out[i],
            ) by {
                if j == mid.len() {
                    assert(mid.contains(mid[i]));
                    vstd::seq_lib::to_multiset_contains(mid, mid[i]);
                    if mid[i] == node {
                        lemma_node_not_after(node, s.last());
                    } else {
                        vstd::seq_lib::to_multiset_contains(front, mid[i]);
                        let k = choose|k: int| 0 <= k < front.len() && front[k] == mid[i];
                        assert(!node_before(s[s.len() - 1], s[k]));
                    }
                }
            }
        }
    }
}

/// A listing rearranges: it holds the same nodes as often, directories
/// first and each kind by name.
pub proof fn lemma_listed(s: Seq<FileTreeNode>)
    ensures
        listed(s).len() == s.len(),
        listed(s).to_multiset() == s.to_multiset(),
        in_listing_order(listed(s)),
    decreases s.len(),
{
    broadcast use vstd::seq_lib::to_multiset_build;

    if s.len() > 0 {
        lemma_listed(s.drop_last());
        lemma_insert_node(listed(s.drop_last()), s.last());
        assert(s.drop_last().push(s.last()) =~= s);
    }
}

/// Whether `a` is listed before `b`.
fn comes_first(a: &FileTreeNode, b: &FileTreeNode) -> (yes: bool)
    ensures
        yes == node_before(*a, *b),
{
    if a.is_directory != b.is_directory {
        a.is_directory
    } else {
        let lower_a = to_lowercase(a.name.as_str());
        let lower_b = to_lowercase(b.name.as_str());
        comes_before(lower_a.as_str(), lower_b.as_str())
    }
}

/// Puts the nodes of a directory into listing order: directories before
/// files, and within each kind by name, without regard to case.
pub fn sort_nodes(nodes: Vec<FileTreeNode>) -> (sorted: Vec<FileTreeNode>)
    ensures
        sorted@ == listed(nodes@),
        in_listing_order(sorted@),
        sorted@.to_multiset() == nodes@.to_multiset(),
{
    let mut rest = nodes;
    let mut sorted: Vec<FileTreeNode> = Vec::new();
    let ghost mut done: int = 0;
    proof {
        lemma_listed(nodes@);
        assert(nodes@.take(0) =~= Seq::<FileTreeNode>::empty());
        assert(nodes@.skip(0) =~= nodes@);
    }
    while rest.len() > 0
        invariant
            0 <= done <= nodes.len(),
            rest@ == nodes@.skip(done),
            sorted@ == listed(nodes@.take(done)),
        decreases rest.len(),
    {
        let node = rest.remove(0);
        let mut k: usize = sorted.len();
        while k > 0 && comes_first(&node, &sorted[k - 1])
            invariant
                k <= sorted.len(),
                forall|j: int| k <= j < sorted.len() ==> node_before(node, sorted[j]),
            decreases k,
        {
            k = k - 1;
        }
        proof {
            lemma_insert_node_at(sorted@, node, k as int);
            assert(nodes@.take(done + 1).drop_last() =~= nodes@.take(done));
            assert(nodes@.take(done + 1).last() == node);
            assert(rest@ =~= nodes@.skip(done + 1));
            done = done + 1;
        }
        sorted.insert(k, node);
    }
    assert(nodes@.take(done) =~= nodes@);
    sorted
}

/// The listing of one directory as it was read at one time.
#[derive(Debug)]
pub struct CacheEntry {
    pub path: String,
    pub nodes: Vec<FileTreeNode>,
    pub cached_at_secs: u64,
}

impl CacheEntry {
    /// Whether the entry is still good at time `now_secs`: it is at most
    /// [`CACHE_DURATION_SECS`] old. An entry from the future is not.
    pub open spec fn fresh_at(self, now_secs: u64) -> bool {
        self.cached_at_secs <= now_secs && now_secs - self.cached_at_secs <= CACHE_DURATION_SECS
    }

    /// Whether the entry is too old to use at time `now_secs`.
    pub fn is_expired(&self, now_secs: u64) -> (expired: bool)
        ensures
            expired == !self.fresh_at(now_secs),
    {
        now_secs < self.cached_at_secs || is_expired(now_secs - self.cached_at_secs)
    }
}

/// The test that an entry belongs to another directory than `path`.
pub open spec fn other_path(path: Seq<char>) -> spec_fn(CacheEntry) -> bool {
    |e: CacheEntry| e.path@ != path
}

/// The first entry for the directory `path`.
pub open spec fn cached(entries: Seq<CacheEntry>, path: Seq<char>) -> Option<CacheEntry>
    decreases entries.len(),
{
    if entries.len() == 0 {
        None
    } else if entries[0].path@ == path {
        Some(entries[0])
    } else {
        cached(entries.drop_first(), path)
    }
}

/// No two entries belong to one directory.
pub open spec fn unique_paths(entries: Seq<CacheEntry>) -> bool {
    forall|i: int, j: int| 0 <= i < j < entries.len() ==> entries[i].path@ != entries[j].path@
}

/// A filter keeps the directories of a cache distinct.
pub proof fn lemma_filter_unique_paths(s: Seq<CacheEntry>, test: spec_fn(CacheEntry) -> bool)
    requires
        unique_paths(s),
    ensures
        unique_paths(s.filter(test)),
    decreases s.len(),
{
    reveal(Seq::filter);
    if s.len() > 0 {
        let front = s.drop_last();
        lemma_filter_unique_paths(front, test);
        let kept = front.filter(test);
        lemma_filter_members(front, test);
        if test(s.last()) {
            let out = kept.push(s.last());
            assert forall|i: int, j: int| 0 <= i < j < out.len() implies out[i].path@
                != out[j].path@ by {
                if j == kept.len() {
                    assert(kept.contains(kept[i]));
                    assert(front.contains(kept[i]));
                    let k = choose|k: int| 0 <= k < front.len() && front[k] == kept[i];
                    assert(s[k].path@ != s[s.len() - 1].path@);
                }
            }
        }
    }
}

/// The listings that were read lately, by directory. The entries stand in
/// a vector in which no directory occurs twice.
pub struct DirCache {
    entries: Vec<CacheEntry>,
}

impl View for DirCache {
    type V = Seq<CacheEntry>;

    closed spec fn view(&self) -> Seq<CacheEntry> {
        self.entries@
    }
}

impl DirCache {
    /// The cache's invariant: a directory has at most one entry.
    pub open spec fn wf(&self) -> bool {
        unique_paths(self@)
    }

    /// An empty cache.
    pub fn new() -> (cache: Self)
        ensures
            cache@ == Seq::<CacheEntry>::empty(),
            cache.wf(),
    {
        DirCache { entries: Vec::new() }
    }

    /// The position of the first entry for the directory `dir_path`.
    fn position(&self, dir_path: &str) -> (found: Option<usize>)
        ensures
            match found {
                Some(i) => i < self@.len() && cached(self@, dir_path@) == Some(self@[i as int]),
                None => cached(self@, dir_path@).is_none(),
            },
    {
        let mut i: usize = 0;
        assert(self@.skip(0) =~= self@);
        while i < self.entries.len()
            invariant
                i <= self.entries.len(),
                cached(self@, dir_path@) == cached(self@.skip(i as int), dir_path@),
            decreases self.entries.len() - i,
        {
            if same_text(self.entries[i].path.as_str(), dir_path) {
                return Some(i);
            }
            assert(self@.skip(i as int).drop_first() =~= self@.skip(i + 1));
            i = i + 1;
        }
        None
    }

    /// Whether the cache holds a listing of `dir_path`, fresh or not.
    pub fn contains_key(&self, dir_path: &str) -> (yes: bool)
        ensures
            yes == cached(self@, dir_path@).is_some(),
    {
        self.position(dir_path).is_some()
    }

    /// The listing of `dir_path` that the cache holds, where it holds one
    /// that is still good at time `now_secs`.
    pub fn get(&self, dir_path: &str, now_secs: u64) -> (nodes: Option<&Vec<FileTreeNode>>)
        ensures
            match nodes {
                Some(n) => cached(self@, dir_path@).is_some() && cached(
                    self@,
                    dir_path@,
                ).unwrap().fresh_at(now_secs) && *n == cached(self@, dir_path@).unwrap().nodes,
                None => cached(self@, dir_path@).is_none() || !cached(
                    self@,
                    dir_path@,
                ).unwrap().fresh_at(now_secs),
            },
    {
        match self.position(dir_path) {
            Some(i) => {
                if self.entries[i].is_expired(now_secs) {
                    None
                } else {
                    Some(&self.entries[i].nodes)
                }
            },
            None => None,
        }
    }

    /// Drops every entry for the directory `dir_path`.
    fn forget(&mut self, dir_path: &str)
        ensures
            final(self)@ == old(self)@.filter(other_path(dir_path@)),
            old(self).wf() ==> final(self).wf(),
    {
        let ghost before = self@;
        proof {
            if unique_paths(before) {
                lemma_filter_unique_paths(before, other_path(dir_path@));
            }
        }
        let ghost keep = other_path(dir_path@);
        let mut i: usize = 0;
        let ghost mut dropped: int = 0;
        proof {
            reveal(Seq::filter);
            assert(before.take(0).filter(keep) =~= self@.take(0));
            assert(self@.skip(0) =~= before.skip(0));
        }
        while i < self.entries.len()
            invariant
                i <= self.entries.len(),
                0 <= dropped,
                self.entries.len() + dropped == before.len(),
                keep == other_path(dir_path@),
                self@.take(i as int) == before.take(i + dropped).filter(keep),
                self@.skip(i as int) == before.skip(i + dropped),
            decreases self.entries.len() - i,
        {
            let ghost k: int = i + dropped;
            let ghost prev = self@;
            proof {
                lemma_filter_take_step(before, keep, k);
                assert(prev.skip(i as int)[0] == before.skip(k)[0]);
            }
            if same_text(self.entries[i].path.as_str(), dir_path) {
                let _ = self.entries.remove(i);
                proof {
                    dropped = dropped + 1;
                    assert(self@.take(i as int) =~= prev.take(i as int));
                    assert(self@.skip(i as int) =~= prev.skip(i as int).skip(1));
                    assert(before.skip(k).skip(1) =~= before.skip(k + 1));
                }
            } else {
                i = i + 1;
                proof {
                    assert(prev.take(i as int) =~= prev.take(i - 1).push(prev[i - 1]));
                    assert(prev.skip(i as int) =~= prev.skip(i - 1).skip(1));
                    assert(before.skip(k).skip(1) =~= before.skip(k + 1));
                }
            }
        }
        proof {
            assert(self@.take(i as int) =~= self@);
            assert(before.take(before.len() as int) =~= before);
        }
    }

    /// Puts the listing `nodes` of `dir_path`, read at time `now_secs`, in
    /// the place of any older listing of that directory.
    pub fn insert(&mut self, dir_path: String, nodes: Vec<FileTreeNode>, now_secs: u64)
        requires
            old(self).wf(),
        ensures
            final(self)@ == old(self)@.filter(other_path(dir_path@)).push(
                CacheEntry { path: dir_path, nodes, cached_at_secs: now_secs },
            ),
            final(self).wf(),
    {
        self.forget(dir_path.as_str());
        let ghost rest = self@;
        proof {
            lemma_filter_members(old(self)@, other_path(dir_path@));
        }
        self.entries.push(CacheEntry { path: dir_path, nodes, cached_at_secs: now_secs });
        assert forall|i: int, j: int| 0 <= i < j < self@.len() implies self@[i].path@
            != self@[j].path@ by {
            if j == rest.len() {
                assert(rest.contains(rest[i]));
                assert(other_path(dir_path@)(rest[i]));
            } else {
                assert(rest[i].path@ != rest[j].path@);
            }
        }
    }
}

/// Drops the listing of `dir_path` from the cache, or every listing where
/// no directory is given.
pub fn clear_dir_cache(cache: &mut DirCache, dir_path: Option<String>)
    requires
        old(cache).wf(),
    ensures
        final(cache)@ == match dir_path {
            Some(path) => old(cache)@.filter(other_path(path@)),
            None => Seq::<CacheEntry>::empty(),
        },
        final(cache).wf(),
{
    match dir_path {
        Some(path) => cache.forget(path.as_str()),
        None => {
            cache.entries.clear();
        },
    }
}

/// After a listing was cached it is found, and it is good for
/// [`CACHE_DURATION_SECS`] seconds; after the cache was cleared of a
/// directory no listing of it is found.
pub proof fn law_cache(entries: Seq<CacheEntry>, entry: CacheEntry, now_secs: u64)
    ensures
        cached(entries.filter(other_path(entry.path@)).push(entry), entry.path@) == Some(entry),
        cached(entries.filter(other_path(entry.path@)), entry.path@).is_none(),
        entry.cached_at_secs <= now_secs <= entry.cached_at_secs + CACHE_DURATION_SECS
            <==> entry.fresh_at(now_secs),
{
    let rest = entries.filter(other_path(entry.path@));
    lemma_filter_members(entries, other_path(entry.path@));
    lemma_cached_absent(rest, entry.path@, entry);
}

/// Where no entry of a cache belongs to a directory, none is found for
/// it, and one that is added behind them is.
proof fn lemma_cached_absent(rest: Seq<CacheEntry>, path: Seq<char>, entry: CacheEntry)
    requires
        forall|i: int| 0 <= i < rest.len() ==> rest[i].path@ != path,
        entry.path@ == path,
    ensures
        cached(rest, path).is_none(),
        cached(rest.push(entry), path) == Some(entry),
    decreases rest.len(),
{
    if rest.len() > 0 {
        assert forall|i: int| 0 <= i < rest.drop_first().len() implies rest.drop_first()[i].path@
            != path by {
            assert(rest.drop_first()[i] == rest[i + 1]);
        }
        lemma_cached_absent(rest.drop_first(), path, entry);
        assert(rest.push(entry).drop_first() =~= rest.drop_first().push(entry));
    } else {
        assert(rest.push(entry).drop_first() =~= rest);
    }
}

} // verus!
