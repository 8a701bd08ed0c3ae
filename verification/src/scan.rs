//! Searching a source tree for the impls that decide how an aspect is woven.
//!
//! Reading the disk is left to the caller: it asks the scan for the next path,
//! reports a directory's entries back, and hands over the contents of the
//! Rust source files the scan selects.

use vstd::prelude::*;
use vstd::string::StrSliceExecFns;

use crate::inspect::{
    file_contains_async_impl, file_contains_custom_async_around, file_contains_custom_sync_around,
    source_has_impl, source_has_override,
};

verus! {

/// The index of the last `.` in `s`, or -1 when there is none.
pub open spec fn last_dot(s: Seq<char>) -> int
    decreases s.len(),
{
    if s.len() == 0 {
        -1
    } else if s.last() == '.' {
        s.len() - 1
    } else {
        last_dot(s.drop_last())
    }
}

/// The extension of a file name, as `Path::extension` defines it: the part
/// after the last `.`; none when there is no `.`, when the only `.` starts the
/// name, or when the name is `..`.
pub open spec fn file_extension(name: Seq<char>) -> Option<Seq<char>> {
    let k = last_dot(name);
    if name == seq!['.', '.'] || k <= 0 {
        None
    } else {
        Some(name.subrange(k + 1, name.len() as int))
    }
}

proof fn lemma_last_dot(s: Seq<char>)
    ensures
        -1 <= last_dot(s) < s.len(),
        last_dot(s) >= 0 ==> s[last_dot(s)] == '.',
        forall|j: int| last_dot(s) < j < s.len() ==> s[j] != '.',
    decreases s.len(),
{
    if s.len() > 0 && s.last() != '.' {
        lemma_last_dot(s.drop_last());
        assert forall|j: int| last_dot(s) < j < s.len() implies s[j] != '.' by {
            if j < s.len() - 1 {
                assert(s.drop_last()[j] == s[j]);
            }
        }
    }
}

/// Whether a file with this name is a Rust source file: its extension is `rs`.
pub fn is_rust_source(file_name: &str) -> (r: bool)
    ensures
        r == (file_extension(file_name@) == Some(seq!['r', 's'])),
{
    let n = file_name.unicode_len();
    let ghost s = file_name@;
    proof {
        lemma_last_dot(s);
    }
    if n > 3 && file_name.get_char(n - 3) == '.' && file_name.get_char(n - 2) == 'r'
        && file_name.get_char(n - 1) == 's' {
        proof {
            assert(s.drop_last().last() == 'r');
            assert(s.drop_last().drop_last().last() == '.');
            assert(last_dot(s) == n - 3);
            assert(s.subrange(n - 2, n as int) =~= seq!['r', 's']);
            assert(s != seq!['.', '.']);
        }
        true
    } else {
        proof {
            let k = last_dot(s);
            if file_extension(s) == Some(seq!['r', 's']) {
                assert(k > 0);
                assert(s.subrange(k + 1, s.len() as int) =~= seq!['r', 's']);
                assert(s.subrange(k + 1, s.len() as int).len() == 2);
                assert(s[k + 1] == 'r');
                assert(s[k + 2] == 's');
            }
        }
        false
    }
}

/// What a source file is searched for.
#[derive(Clone, Copy, Debug, PartialEq, Eq, Structural)]
pub enum SourceQuery {
    /// An impl of the asynchronous aspect trait for the type.
    AsyncImpl,
    /// An impl of the synchronous aspect trait for the type that overrides `around`.
    CustomSyncAround,
    /// An impl of the asynchronous aspect trait for the type that overrides `around`.
    CustomAsyncAround,
}

/// The source file holds what the query asks for, for the type named `ty_name`.
pub open spec fn query_holds(query: SourceQuery, contents: Seq<char>, ty_name: Seq<char>) -> bool {
    match query {
        SourceQuery::AsyncImpl => source_has_impl(contents, "AsyncAspect"@, ty_name),
        SourceQuery::CustomSyncAround => source_has_override(contents, "Aspect"@, ty_name, "around"@),
        SourceQuery::CustomAsyncAround => source_has_override(
            contents,
            "AsyncAspect"@,
            ty_name,
            "around"@,
        ),
    }
}

/// Whether the source file holds what the query asks for.
pub fn source_matches(query: SourceQuery, contents: &str, ty_name: &str) -> (r: bool)
    ensures
        r == query_holds(query, contents@, ty_name@),
{
    match query {
        SourceQuery::AsyncImpl => file_contains_async_impl(contents, ty_name),
        SourceQuery::CustomSyncAround => file_contains_custom_sync_around(contents, ty_name),
        SourceQuery::CustomAsyncAround => file_contains_custom_async_around(contents, ty_name),
    }
}

/// What the walk asks its driver to do next.
pub enum ScanAction<P> {
    /// Look at this path: report whether it is missing, a directory (with its
    /// entries) or a file (with its name).
    Visit(P),
    /// Read this Rust source file and report its contents.
    Read(P),
    /// The walk is over; whether a source file holding what was asked for was found.
    Finish(bool),
}

/// What the driver reports about the last action.
pub enum ScanEvent<P> {
    /// Nothing yet: the walk is starting.
    Begin,
    /// The visited path could not be looked at.
    Missing,
    /// The visited path is a directory; its entries, or `None` when they could
    /// not be listed.
    Directory(Option<Vec<P>>),
    /// The visited path is a file with this file name.
    File(P, String),
    /// The contents of the file read, or `None` when it could not be read.
    Contents(Option<String>),
}

/// A depth-first search over a tree of paths for a Rust source file that holds
/// what a query asks for. Paths that cannot be looked at, listed or read are
/// skipped; the search stops at the first file that holds what is asked for.
pub struct SourceScan<P> {
    pending: Vec<P>,
    query: SourceQuery,
    ty_name: String,
}

/// What an event reports, as plain values.
pub enum EventModel<P> {
    /// The walk is starting.
    Begin,
    /// The visited path could not be looked at.
    Missing,
    /// A directory's entries, or `None` when they could not be listed.
    Directory(Option<Seq<P>>),
    /// A file, by its path and file name.
    File(P, Seq<char>),
    /// A file's contents, or `None` when it could not be read.
    Contents(Option<Seq<char>>),
}

/// The plain values an event reports.
pub open spec fn event_model<P>(event: ScanEvent<P>) -> EventModel<P> {
    match event {
        ScanEvent::Begin => EventModel::Begin,
        ScanEvent::Missing => EventModel::Missing,
        ScanEvent::Directory(Some(entries)) => EventModel::Directory(Some(entries@)),
        ScanEvent::Directory(None) => EventModel::Directory(None),
        ScanEvent::File(p, name) => EventModel::File(p, name@),
        ScanEvent::Contents(Some(c)) => EventModel::Contents(Some(c@)),
        ScanEvent::Contents(None) => EventModel::Contents(None),
    }
}

/// One step of the search: from the paths still to visit and what was
/// reported, the next action and the paths then still to visit. A matching
/// file ends the search with `true`; a Rust source file is read; otherwise a
/// directory's entries join the paths to visit and the last of them is
/// visited, and when none is left the search ends with `false`.
pub open spec fn spec_step<P>(
    pending: Seq<P>,
    query: SourceQuery,
    ty_name: Seq<char>,
    event: EventModel<P>,
) -> (ScanAction<P>, Seq<P>) {
    match event {
        EventModel::Contents(Some(c)) if query_holds(query, c, ty_name) => (
            ScanAction::Finish(true),
            pending,
        ),
        EventModel::File(p, name) if file_extension(name) == Some(seq!['r', 's']) => (
            ScanAction::Read(p),
            pending,
        ),
        _ => {
            let pending = match event {
                EventModel::Directory(Some(entries)) => pending + entries,
                _ => pending,
            };
            if pending.len() == 0 {
                (ScanAction::Finish(false), pending)
            } else {
                (ScanAction::Visit(pending.last()), pending.drop_last())
            }
        },
    }
}

/// What a path of a tree is, as the driver of a search would find it.
pub enum NodeModel<P> {
    /// It cannot be looked at.
    Missing,
    /// A directory, with its entries, or `None` when they cannot be listed.
    Directory(Option<Seq<P>>),
    /// A file, with its file name and its contents (`None` when unreadable).
    File(Seq<char>, Option<Seq<char>>),
}

/// The event a driver that finds the tree `tree` reports after `action`.
pub open spec fn event_for<P>(tree: spec_fn(P) -> NodeModel<P>, action: ScanAction<P>) -> EventModel<P> {
    match action {
        ScanAction::Visit(p) => match tree(p) {
            NodeModel::Missing => EventModel::Missing,
            NodeModel::Directory(entries) => EventModel::Directory(entries),
            NodeModel::File(name, _) => EventModel::File(p, name),
        },
        ScanAction::Read(p) => match tree(p) {
            NodeModel::File(_, contents) => EventModel::Contents(contents),
            _ => EventModel::Contents(None),
        },
        ScanAction::Finish(_) => EventModel::Begin,
    }
}

/// The outcome of at most `fuel` steps of a search driven by a driver that
/// finds the tree `tree`, from the paths still to visit and the pending
/// action; `None` when the fuel runs out first.
pub open spec fn driven<P>(
    tree: spec_fn(P) -> NodeModel<P>,
    query: SourceQuery,
    ty_name: Seq<char>,
    pending: Seq<P>,
    action: ScanAction<P>,
    fuel: nat,
) -> Option<bool>
    decreases fuel,
{
    match action {
        ScanAction::Finish(found) => Some(found),
        _ => if fuel == 0 {
            None
        } else {
            let (next, rest) = spec_step(pending, query, ty_name, event_for(tree, action));
            driven(tree, query, ty_name, rest, next, (fuel - 1) as nat)
        },
    }
}

/// Within `depth` levels below `p`, the tree holds a Rust source file that can
/// be read and holds what the query asks for.
pub open spec fn found_under<P>(
    tree: spec_fn(P) -> NodeModel<P>,
    query: SourceQuery,
    ty_name: Seq<char>,
    p: P,
    depth: nat,
) -> bool
    decreases depth, 0nat,
{
    if depth == 0 {
        false
    } else {
        match tree(p) {
            NodeModel::Missing => false,
            NodeModel::Directory(None) => false,
            NodeModel::Directory(Some(entries)) => found_in(tree, query, ty_name, entries, (depth - 1) as nat),
            NodeModel::File(name, contents) => file_extension(name) == Some(seq!['r', 's'])
                && match contents {
                Some(c) => query_holds(query, c, ty_name),
                None => false,
            },
        }
    }
}

/// `found_under` holds for some of the paths.
pub open spec fn found_in<P>(
    tree: spec_fn(P) -> NodeModel<P>,
    query: SourceQuery,
    ty_name: Seq<char>,
    paths: Seq<P>,
    depth: nat,
) -> bool
    decreases depth, paths.len() + 1,
{
    if paths.len() == 0 {
        false
    } else {
        found_in(tree, query, ty_name, paths.drop_last(), depth) || found_under(
            tree,
            query,
            ty_name,
            paths.last(),
            depth,
        )
    }
}

/// Every directory's entries rank below the directory: the tree has no cycles.
pub open spec fn ranked<P>(tree: spec_fn(P) -> NodeModel<P>, rank: spec_fn(P) -> nat) -> bool {
    forall|p: P|
        match #[trigger] tree(p) {
            NodeModel::Directory(Some(entries)) => forall|i: int|
                0 <= i < entries.len() ==> #[trigger] rank(entries[i]) < rank(p),
            _ => true,
        }
}

proof fn lemma_found_depth<P>(
    tree: spec_fn(P) -> NodeModel<P>,
    rank: spec_fn(P) -> nat,
    query: SourceQuery,
    ty_name: Seq<char>,
    p: P,
    d1: nat,
    d2: nat,
)
    requires
        ranked(tree, rank),
        rank(p) < d1,
        rank(p) < d2,
    ensures
        found_under(tree, query, ty_name, p, d1) == found_under(tree, query, ty_name, p, d2),
    decreases rank(p),
{
    if let NodeModel::Directory(Some(entries)) = tree(p) {
        assert forall|i: int| 0 <= i < entries.len() implies rank(#[trigger] entries[i]) < rank(p) by {
            assert(tree(p) matches NodeModel::Directory(Some(e)) && e == entries);
        }
        lemma_found_in_depth(tree, rank, query, ty_name, entries, (d1 - 1) as nat, (d2 - 1) as nat, rank(p));
    }
}

proof fn lemma_found_in_depth<P>(
    tree: spec_fn(P) -> NodeModel<P>,
    rank: spec_fn(P) -> nat,
    query: SourceQuery,
    ty_name: Seq<char>,
    paths: Seq<P>,
    d1: nat,
    d2: nat,
    bound: nat,
)
    requires
        ranked(tree, rank),
        forall|i: int| 0 <= i < paths.len() ==> rank(#[trigger] paths[i]) < bound,
        bound <= d1,
        bound <= d2,
    ensures
        found_in(tree, query, ty_name, paths, d1) == found_in(tree, query, ty_name, paths, d2),
    decreases bound, paths.len(),
{
    if paths.len() > 0 {
        assert(rank(paths[paths.len() - 1]) < bound);
        lemma_found_in_depth(tree, rank, query, ty_name, paths.drop_last(), d1, d2, bound);
        lemma_found_depth(tree, rank, query, ty_name, paths.last(), d1, d2);
    }
}

proof fn lemma_found_in_append<P>(
    tree: spec_fn(P) -> NodeModel<P>,
    query: SourceQuery,
    ty_name: Seq<char>,
    a: Seq<P>,
    b: Seq<P>,
    depth: nat,
)
    ensures
        found_in(tree, query, ty_name, a + b, depth) == (found_in(tree, query, ty_name, a, depth)
            || found_in(tree, query, ty_name, b, depth)),
    decreases b.len(),
{
    if b.len() == 0 {
        assert(a + b =~= a);
    } else {
        assert((a + b).drop_last() =~= a + b.drop_last());
        assert((a + b).last() == b.last());
        lemma_found_in_append(tree, query, ty_name, a, b.drop_last(), depth);
    }
}

/// The file at `p` can be read and holds what the query asks for.
pub open spec fn reads_match<P>(
    tree: spec_fn(P) -> NodeModel<P>,
    query: SourceQuery,
    ty_name: Seq<char>,
    p: P,
) -> bool {
    match tree(p) {
        NodeModel::File(_, Some(c)) => query_holds(query, c, ty_name),
        _ => false,
    }
}

/// What the search will answer from a state, by the tree: for a path about
/// to be visited, whether a match lies under it or under a path still to
/// visit; for a file about to be read, whether it matches or a match lies
/// under a path still to visit.
pub open spec fn answer_from<P>(
    tree: spec_fn(P) -> NodeModel<P>,
    query: SourceQuery,
    ty_name: Seq<char>,
    pending: Seq<P>,
    action: ScanAction<P>,
    depth: nat,
) -> bool {
    match action {
        ScanAction::Finish(found) => found,
        ScanAction::Visit(p) => found_under(tree, query, ty_name, p, depth) || found_in(
            tree,
            query,
            ty_name,
            pending,
            depth,
        ),
        ScanAction::Read(p) => reads_match(tree, query, ty_name, p) || found_in(
            tree,
            query,
            ty_name,
            pending,
            depth,
        ),
    }
}

proof fn lemma_driven<P>(
    tree: spec_fn(P) -> NodeModel<P>,
    rank: spec_fn(P) -> nat,
    query: SourceQuery,
    ty_name: Seq<char>,
    pending: Seq<P>,
    action: ScanAction<P>,
    fuel: nat,
    depth: nat,
)
    requires
        ranked(tree, rank),
        forall|i: int| 0 <= i < pending.len() ==> rank(#[trigger] pending[i]) + 1 < depth,
        action matches ScanAction::Visit(p) ==> rank(p) + 1 < depth,
        action matches ScanAction::Read(p) ==> rank(p) + 1 < depth,
    ensures
        driven(tree, query, ty_name, pending, action, fuel) matches Some(found) ==> found
            == answer_from(tree, query, ty_name, pending, action, depth),
    decreases fuel,
{
    if action is Finish || fuel == 0 {
        return;
    }
    let event = event_for(tree, action);
    let (next, rest) = spec_step(pending, query, ty_name, event);
    let grown = match event {
        EventModel::Directory(Some(entries)) => pending + entries,
        _ => pending,
    };
    if let ScanAction::Visit(p) = action {
        if let NodeModel::Directory(Some(entries)) = tree(p) {
            assert forall|i: int| 0 <= i < entries.len() implies rank(#[trigger] entries[i]) < rank(p) by {
                assert(tree(p) matches NodeModel::Directory(Some(e)) && e == entries);
            }
            assert(grown == pending + entries);
            assert forall|i: int| 0 <= i < grown.len() implies rank(#[trigger] grown[i]) + 1 < depth by {
                if i >= pending.len() {
                    assert(grown[i] == entries[i - pending.len()]);
                }
            }
            lemma_found_in_append(tree, query, ty_name, pending, entries, depth);
            lemma_found_in_depth(tree, rank, query, ty_name, entries, (depth - 1) as nat, depth, rank(p));
        }
    }
    let continues = match event {
        EventModel::Contents(Some(c)) => !query_holds(query, c, ty_name),
        EventModel::File(_, name) => file_extension(name) != Some(seq!['r', 's']),
        _ => true,
    };
    if continues && grown.len() > 0 {
        assert(rest == grown.drop_last());
        assert forall|i: int| 0 <= i < rest.len() implies rank(#[trigger] rest[i]) + 1 < depth by {
            assert(rest[i] == grown[i]);
        }
        assert(next == ScanAction::Visit(grown.last()));
        assert(rank(grown[grown.len() - 1]) + 1 < depth);
    }
    lemma_driven(tree, rank, query, ty_name, rest, next, (fuel - 1) as nat, depth);
}

/// A search started at `root`, whose driver reports the tree `tree` faithfully,
/// ends with `true` exactly when some Rust source file under `root` can be
/// read and holds what the query asks for (when the tree has no cycles, and
/// when the search ends within the steps counted).
pub proof fn search_finds_exactly_the_matches<P>(
    tree: spec_fn(P) -> NodeModel<P>,
    rank: spec_fn(P) -> nat,
    query: SourceQuery,
    ty_name: Seq<char>,
    root: P,
    fuel: nat,
)
    requires
        ranked(tree, rank),
    ensures
        ({
            let (first, rest) = spec_step(seq![root], query, ty_name, EventModel::Begin);
            driven(tree, query, ty_name, rest, first, fuel) matches Some(found) ==> found
                == found_under(tree, query, ty_name, root, rank(root) + 1)
        }),
{
    let (first, rest) = spec_step(seq![root], query, ty_name, EventModel::Begin);
    assert(first == ScanAction::Visit(root));
    assert(rest =~= Seq::<P>::empty());
    let depth = rank(root) + 2;
    lemma_driven(tree, rank, query, ty_name, rest, first, fuel, depth);
    lemma_found_depth(tree, rank, query, ty_name, root, depth, rank(root) + 1);
}

impl<P> SourceScan<P> {
    /// The paths still to visit; the last is visited next.
    pub closed spec fn pending(self) -> Seq<P> {
        self.pending@
    }

    /// What is searched for.
    pub closed spec fn query(self) -> SourceQuery {
        self.query
    }

    /// The name of the type searched for.
    pub closed spec fn ty_name(self) -> Seq<char> {
        self.ty_name@
    }

    /// A search that starts at `root`.
    pub fn new(root: P, query: SourceQuery, ty_name: String) -> (scan: Self)
        ensures
            scan.pending() == seq![root],
            scan.query() == query,
            scan.ty_name() == ty_name@,
    {
        let mut pending = Vec::new();
        pending.push(root);
        SourceScan { pending, query, ty_name }
    }

    /// Takes in what the driver reports about the last action and decides the
    /// next one: a matching file ends the search with `true`; a Rust source
    /// file is read; otherwise the most recently found path still pending is
    /// visited, and when none is left the search ends with `false`.
    pub fn step(&mut self, event: ScanEvent<P>) -> (action: ScanAction<P>)
        ensures
            final(self).query() == old(self).query(),
            final(self).ty_name() == old(self).ty_name(),
            (action, final(self).pending()) == spec_step(
                old(self).pending(),
                old(self).query(),
                old(self).ty_name(),
                event_model(event),
            ),
    {
        match event {
            ScanEvent::Contents(Some(contents)) => {
                if source_matches(self.query, contents.as_str(), self.ty_name.as_str()) {
                    return ScanAction::Finish(true);
                }
            },
            ScanEvent::File(path, name) => {
                if is_rust_source(name.as_str()) {
                    return ScanAction::Read(path);
                }
            },
            ScanEvent::Directory(Some(entries)) => {
                let mut entries = entries;
                self.pending.append(&mut entries);
            },
            _ => {},
        }
        match self.pending.pop() {
            Some(path) => ScanAction::Visit(path),
            None => ScanAction::Finish(false),
        }
    }
}

} // verus!
