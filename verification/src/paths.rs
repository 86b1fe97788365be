//! Resolution of paths: absolute, without `.` and `..`, with symlinks resolved along the part that
//! exists, and with any part that does not exist yet kept as it is.

use std::path::PathBuf;

use vstd::prelude::*;

use crate::trusted::path::{build_path, components, copy_path, join_path, PathPart};
#[allow(unused_imports)]
use crate::trusted::path::{
    built_path, dotless, is_name, joined_path, path_parts, proper_names,
};

verus! {

/// The components without `.` and `..`: a `..` takes the name before it away, and stays at the
/// root where there is none.
pub open spec fn collapsed(parts: Seq<PathPart>) -> Seq<PathPart>
    decreases parts.len(),
{
    if parts.len() == 0 {
        seq![]
    } else {
        let rest = collapsed(parts.drop_last());
        match parts.last() {
            PathPart::CurDir => rest,
            PathPart::ParentDir => if rest.len() > 0 && rest.last() is Normal {
                rest.drop_last()
            } else {
                rest
            },
            other => rest.push(other),
        }
    }
}

/// A copy of a component.
fn copy_part(part: &PathPart) -> (copy: PathPart)
    ensures
        copy == *part,
{
    match part {
        PathPart::Prefix(prefix) => PathPart::Prefix(copy_path(prefix)),
        PathPart::RootDir => PathPart::RootDir,
        PathPart::CurDir => PathPart::CurDir,
        PathPart::ParentDir => PathPart::ParentDir,
        PathPart::Normal(name) => PathPart::Normal(copy_path(name)),
    }
}

/// The components without `.` and `..`.
fn collapse_parts(parts: &Vec<PathPart>) -> (kept: Vec<PathPart>)
    ensures
        kept@ == collapsed(parts@),
{
    let mut kept: Vec<PathPart> = Vec::new();
    let mut i: usize = 0;
    assert(parts@.take(0) =~= seq![]);
    while i < parts.len()
        invariant
            i <= parts@.len(),
            kept@ == collapsed(parts@.take(i as int)),
        decreases parts@.len() - i,
    {
        assert(parts@.take(i + 1).drop_last() =~= parts@.take(i as int));
        match &parts[i] {
            PathPart::CurDir => {},
            PathPart::ParentDir => {
                let name = kept.len() > 0 && is_normal(&kept[kept.len() - 1]);
                if name {
                    kept.pop();
                }
            },
            other => {
                kept.push(copy_part(other));
            },
        }
        i += 1;
    }
    assert(parts@.take(i as int) =~= parts@);
    kept
}

/// Whether a component is a name.
fn is_normal(part: &PathPart) -> (normal: bool)
    ensures
        normal == (*part is Normal),
{
    match part {
        PathPart::Normal(_) => true,
        _ => false,
    }
}

/// Components as paths have them: a root directory comes first, and names are names.
pub open spec fn unprefixed(parts: Seq<PathPart>) -> bool {
    forall|i: int|
        0 <= i < parts.len() ==> match #[trigger] parts[i] {
            PathPart::Prefix(_) => false,
            PathPart::RootDir => i == 0,
            PathPart::Normal(name) => is_name(name),
            _ => true,
        }
}

/// Collapsing leaves no dots.
proof fn lemma_collapsed_is_dotless(parts: Seq<PathPart>)
    requires
        unprefixed(parts),
    ensures
        dotless(collapsed(parts)),
        collapsed(parts).len() <= parts.len(),
    decreases parts.len(),
{
    if parts.len() > 0 {
        let rest = parts.drop_last();
        assert forall|i: int| 0 <= i < rest.len() implies match #[trigger] rest[i] {
            PathPart::Prefix(_) => false,
            PathPart::RootDir => i == 0,
            PathPart::Normal(name) => is_name(name),
            _ => true,
        } by {
            assert(rest[i] == parts[i]);
        }
        lemma_collapsed_is_dotless(rest);
        assert(parts.last() == parts[parts.len() - 1]);
        let kept = collapsed(rest);
        assert forall|i: int| 0 <= i < collapsed(parts).len() implies match #[trigger] collapsed(
            parts,
        )[i] {
            PathPart::RootDir => i == 0,
            PathPart::Normal(name) => is_name(name),
            _ => false,
        } by {
            if i < kept.len() {
                assert(collapsed(parts)[i] == kept[i]);
            }
        }
    }
}

/// Lexically collapses `.` and `..` components, clamping `..` at the root.
pub fn collapse_dot_components(path: PathBuf) -> (result: PathBuf)
    ensures
        result == built_path(collapsed(path_parts(path))),
        unprefixed(path_parts(path)) ==> path_parts(result) == collapsed(path_parts(path)),
{
    let parts = components(&path);
    let kept = collapse_parts(&parts);
    proof {
        if unprefixed(parts@) {
            lemma_collapsed_is_dotless(parts@);
        }
    }
    build_path(&kept)
}

/// Collapsing keeps names as they are.
proof fn lemma_collapsed_names(parts: Seq<PathPart>)
    requires
        proper_names(parts),
    ensures
        proper_names(collapsed(parts)),
    decreases parts.len(),
{
    if parts.len() > 0 {
        let rest = parts.drop_last();
        assert forall|i: int| 0 <= i < rest.len() implies (#[trigger] rest[i] matches PathPart::Normal(
            name,
        ) ==> is_name(name)) by {
            assert(rest[i] == parts[i]);
        }
        lemma_collapsed_names(rest);
        assert(parts.last() == parts[parts.len() - 1]);
        let kept = collapsed(rest);
        assert forall|i: int| 0 <= i < collapsed(parts).len() implies (#[trigger] collapsed(
            parts,
        )[i] matches PathPart::Normal(name) ==> is_name(name)) by {
            if i < kept.len() {
                assert(collapsed(parts)[i] == kept[i]);
            }
        }
    }
}

/// The first components of dotless ones are dotless.
proof fn lemma_dotless_parts(parts: Seq<PathPart>, n: int)
    requires
        dotless(parts),
        0 <= n <= parts.len(),
    ensures
        dotless(parts.take(n)),
{
    assert forall|i: int| 0 <= i < n implies match #[trigger] parts.take(n)[i] {
        PathPart::RootDir => i == 0,
        PathPart::Normal(name) => is_name(name),
        _ => false,
    } by {
        assert(parts.take(n)[i] == parts[i]);
    }
}

/// The resolution of one path, a question at a time: [`Self::probe`] names the path whose
/// existence decides, [`Self::answer`] takes the answer, and [`Self::finish`] puts the resolved
/// path together.
pub struct PathResolver {
    parts: Vec<PathPart>,
    kept: usize,
    settled: bool,
}

/// How far the resolution of one path has come.
pub struct ResolverView {
    /// The components of the absolute path, without dots.
    pub parts: Seq<PathPart>,
    /// How many of them the part of the path that exists may have.
    pub kept: int,
    /// Whether that number is final.
    pub settled: bool,
}

impl View for PathResolver {
    type V = ResolverView;

    closed spec fn view(&self) -> ResolverView {
        ResolverView { parts: self.parts@, kept: self.kept as int, settled: self.settled }
    }
}

impl ResolverView {
    /// The number of kept components is in range, and what is left out are names.
    pub open spec fn valid(self) -> bool {
        &&& proper_names(self.parts)
        &&& 0 <= self.kept <= self.parts.len()
        &&& forall|i: int|
            self.kept <= i < self.parts.len() ==> (#[trigger] self.parts[i]) is Normal
    }

    /// The kept part of the path.
    pub open spec fn prefix(self) -> PathBuf {
        built_path(self.parts.take(self.kept))
    }

    /// The state after the answer to whether the kept part exists: one that does not loses its
    /// last name, unless it has none.
    pub open spec fn answered(self, present: bool) -> ResolverView {
        if self.settled {
            self
        } else if !present && self.kept > 0 && self.parts[self.kept - 1] is Normal {
            ResolverView { kept: self.kept - 1, ..self }
        } else {
            ResolverView { settled: true, ..self }
        }
    }
}

/// A path extended by the names among some components.
pub open spec fn extended(base: PathBuf, parts: Seq<PathPart>) -> PathBuf
    decreases parts.len(),
{
    if parts.len() == 0 {
        base
    } else {
        let rest = extended(base, parts.drop_last());
        match parts.last() {
            PathPart::Normal(name) => joined_path(rest, name),
            _ => rest,
        }
    }
}

/// The resolution of an absolute path has begun: nothing is left out of it yet.
pub open spec fn begun(absolute: PathBuf, state: ResolverView) -> bool {
    &&& state.valid()
    &&& state.parts == collapsed(path_parts(absolute))
    &&& state.kept == state.parts.len()
    &&& !state.settled
}

/// The resolved path: the canonical form of the kept part, or the kept part as it is where there
/// is none, extended by the names left out.
pub open spec fn finished(state: ResolverView, canonical: Option<PathBuf>, path: PathBuf) -> bool {
    let tail = state.parts.skip(state.kept);
    match canonical {
        Some(canonical) => path == extended(canonical, tail) && path_parts(path) == path_parts(
            canonical,
        ) + tail,
        None => path == extended(state.prefix(), tail) && path_parts(path) == path_parts(
            state.prefix(),
        ) + tail && (dotless(state.parts) ==> path_parts(path) == state.parts),
    }
}

/// Whether a path is empty.
pub fn is_empty_path(path: &PathBuf) -> (empty: bool)
    ensures
        empty == (path_parts(*path).len() == 0),
{
    components(path).len() == 0
}

/// The first components.
fn take_parts(parts: &Vec<PathPart>, n: usize) -> (taken: Vec<PathPart>)
    requires
        n <= parts@.len(),
    ensures
        taken@ == parts@.take(n as int),
{
    let mut taken: Vec<PathPart> = Vec::new();
    let mut i: usize = 0;
    while i < n
        invariant
            i <= n <= parts@.len(),
            taken@ == parts@.take(i as int),
        decreases n - i,
    {
        taken.push(copy_part(&parts[i]));
        assert(parts@.take(i + 1) =~= parts@.take(i as int).push(parts@[i as int]));
        i += 1;
    }
    taken
}

impl PathResolver {
    /// Begins the resolution of an absolute path.
    pub fn new(absolute: &PathBuf) -> (resolver: Self)
        ensures
            begun(*absolute, resolver@),
    {
        let all = components(absolute);
        let parts = collapse_parts(&all);
        proof {
            lemma_collapsed_names(all@);
        }
        let kept = parts.len();
        PathResolver { parts, kept, settled: false }
    }

    /// The path whose existence decides next; `None` once the kept part is final.
    pub fn probe(&self) -> (path: Option<PathBuf>)
        requires
            self@.valid(),
        ensures
            match path {
                Some(path) => !self@.settled && path == self@.prefix(),
                None => self@.settled,
            },
    {
        if self.settled {
            None
        } else {
            Some(self.prefix())
        }
    }

    /// Takes the answer to whether the probed path exists.
    pub fn answer(&mut self, present: bool)
        requires
            old(self)@.valid(),
        ensures
            final(self)@.valid(),
            final(self)@ == old(self)@.answered(present),
    {
        if self.settled {
            return;
        }
        let name = self.kept > 0 && is_normal(&self.parts[self.kept - 1]);
        if !present && name {
            self.kept = self.kept - 1;
        } else {
            self.settled = true;
        }
    }

    /// The kept part of the path, to be made canonical.
    pub fn prefix(&self) -> (path: PathBuf)
        requires
            self@.valid(),
        ensures
            path == self@.prefix(),
            dotless(self@.parts) ==> path_parts(path) == self@.parts.take(self@.kept),
    {
        proof {
            if dotless(self.parts@) {
                lemma_dotless_parts(self.parts@, self.kept as int);
            }
        }
        build_path(&take_parts(&self.parts, self.kept))
    }

    /// The resolved path: the canonical form of the kept part, or the kept part as it is where
    /// there is none, extended by the names left out.
    pub fn finish(&self, canonical: Option<PathBuf>) -> (path: PathBuf)
        requires
            self@.valid(),
        ensures
            finished(self@, canonical, path),
    {
        let mut path = match canonical {
            Some(canonical) => canonical,
            None => self.prefix(),
        };
        let ghost base = path;
        let ghost tail = self.parts@.skip(self.kept as int);
        let mut i: usize = self.kept;
        assert(tail.take(0) =~= seq![]);
        assert(path_parts(path) =~= path_parts(base) + tail.take(0));
        while i < self.parts.len()
            invariant
                self@.valid(),
                self.kept <= i <= self.parts@.len(),
                tail == self.parts@.skip(self.kept as int),
                path == extended(base, tail.take(i - self.kept)),
                path_parts(path) == path_parts(base) + tail.take(i - self.kept),
            decreases self.parts@.len() - i,
        {
            let ghost n = i - self.kept;
            assert(tail.take(n + 1).drop_last() =~= tail.take(n));
            assert(tail.take(n + 1) =~= tail.take(n).push(self.parts@[i as int]));
            assert(path_parts(base) + tail.take(n + 1) =~= (path_parts(base) + tail.take(n)).push(
                self.parts@[i as int],
            ));
            if let PathPart::Normal(name) = &self.parts[i] {
                path = join_path(&path, name);
            }
            i += 1;
        }
        assert(tail.take(tail.len() as int) =~= tail);
        assert(self.parts@.take(self.kept as int) + tail =~= self.parts@);
        path
    }
}

/// Collapsing leaves no `.` and no `..`, on a path without a prefix.
pub proof fn law_collapsing_leaves_no_dots(parts: Seq<PathPart>)
    requires
        unprefixed(parts),
    ensures
        dotless(collapsed(parts)),
{
    lemma_collapsed_is_dotless(parts);
}

/// Components without dots stay as they are, so collapsing again changes nothing.
pub proof fn law_collapsing_is_idempotent(parts: Seq<PathPart>)
    ensures
        collapsed(collapsed(parts)) == collapsed(parts),
{
    lemma_collapsed_keeps_no_dots(parts);
    lemma_without_dots_is_collapsed(collapsed(parts));
}

/// Collapsing keeps an absolute path absolute: a `..` at the root stays at the root.
pub proof fn law_parents_clamp_at_the_root(parts: Seq<PathPart>)
    requires
        parts.len() > 0,
        parts[0] is RootDir,
    ensures
        collapsed(parts).len() > 0,
        collapsed(parts)[0] is RootDir,
        collapsed(parts) == seq![PathPart::RootDir] ==> collapsed(parts.push(PathPart::ParentDir))
            == seq![PathPart::RootDir],
{
    lemma_root_stays(parts);
    assert(parts.push(PathPart::ParentDir).drop_last() =~= parts);
}

proof fn lemma_root_stays(parts: Seq<PathPart>)
    requires
        parts.len() > 0,
        parts[0] is RootDir,
    ensures
        collapsed(parts).len() > 0,
        collapsed(parts)[0] is RootDir,
    decreases parts.len(),
{
    let rest = parts.drop_last();
    if rest.len() > 0 {
        lemma_root_stays(rest);
    } else {
        assert(collapsed(rest) =~= seq![]);
    }
}

proof fn lemma_collapsed_keeps_no_dots(parts: Seq<PathPart>)
    ensures
        forall|i: int|
            0 <= i < collapsed(parts).len() ==> !(#[trigger] collapsed(parts)[i] is CurDir) && !(
            collapsed(parts)[i] is ParentDir),
    decreases parts.len(),
{
    if parts.len() > 0 {
        lemma_collapsed_keeps_no_dots(parts.drop_last());
        let rest = collapsed(parts.drop_last());
        assert forall|i: int| 0 <= i < collapsed(parts).len() implies !(#[trigger] collapsed(
            parts,
        )[i] is CurDir) && !(collapsed(parts)[i] is ParentDir) by {
            if i < rest.len() {
                assert(collapsed(parts)[i] == rest[i]);
            }
        }
    }
}

proof fn lemma_without_dots_is_collapsed(parts: Seq<PathPart>)
    requires
        forall|i: int|
            0 <= i < parts.len() ==> !(#[trigger] parts[i] is CurDir) && !(parts[i] is ParentDir),
    ensures
        collapsed(parts) == parts,
    decreases parts.len(),
{
    if parts.len() > 0 {
        let rest = parts.drop_last();
        assert forall|i: int| 0 <= i < rest.len() implies !(#[trigger] rest[i] is CurDir) && !(
        rest[i] is ParentDir) by {
            assert(rest[i] == parts[i]);
        }
        lemma_without_dots_is_collapsed(rest);
        assert(parts.last() == parts[parts.len() - 1]);
        assert(rest.push(parts.last()) =~= parts);
    }
}

/// The state in which resolution ends, when `present` says which components lead to a path that
/// exists.
pub open spec fn resolved(state: ResolverView, present: spec_fn(Seq<PathPart>) -> bool) -> ResolverView
    decreases
            (if state.settled {
                0
            } else {
                state.kept + 1
            }),
    when state.kept >= 0
{
    if state.settled {
        state
    } else {
        resolved(state.answered(present(state.parts.take(state.kept))), present)
    }
}

/// Resolution keeps the longest part of the path that exists, and everything behind it: each
/// longer part does not exist, and what is left out are names, in order.
pub proof fn law_resolution_keeps_the_longest_existing_part(
    state: ResolverView,
    present: spec_fn(Seq<PathPart>) -> bool,
)
    requires
        state.valid(),
        !state.settled,
    ensures
        ({
            let end = resolved(state, present);
            &&& end.valid()
            &&& end.settled
            &&& end.parts == state.parts
            &&& end.kept <= state.kept
            &&& present(end.parts.take(end.kept)) || end.kept == 0 || !(end.parts[end.kept - 1] is Normal)
            &&& forall|k: int|
                end.kept < k <= state.kept ==> !present(#[trigger] end.parts.take(k))
        }),
    decreases state.kept,
{
    let next = state.answered(present(state.parts.take(state.kept)));
    if next.settled {
        assert(resolved(next, present) == next);
    } else {
        law_resolution_keeps_the_longest_existing_part(next, present);
    }
}

/// A file system that does not change: which components lead to a path that exists, and what the
/// canonical form of the path with some components is.
pub struct FileSystem {
    /// These components lead to a path that exists.
    pub present: spec_fn(Seq<PathPart>) -> bool,
    /// The canonical form of the path with these components, if it has one.
    pub canonical: spec_fn(Seq<PathPart>) -> Option<PathBuf>,
}

/// Every component is a name.
pub open spec fn only_names(parts: Seq<PathPart>) -> bool {
    forall|i: int| 0 <= i < parts.len() ==> (#[trigger] parts[i]) is Normal
}

impl FileSystem {
    /// What a canonical form is: an absolute path without dots, which exists, is its own canonical
    /// form, and leads to the same place as the path it is the form of.
    pub open spec fn coherent(self) -> bool {
        forall|parts: Seq<PathPart>|
            (#[trigger] (self.canonical)(parts)) matches Some(form) ==> {
                &&& absolute(path_parts(form))
                &&& (self.present)(path_parts(form))
                &&& (self.canonical)(path_parts(form)) == Some(form)
                &&& forall|tail: Seq<PathPart>|
                    only_names(tail) ==> (#[trigger] (self.present)(path_parts(form) + tail)
                        == (self.present)(parts + tail))
            }
    }

    /// What making the kept part of a path canonical gives.
    pub open spec fn form(self, state: ResolverView) -> Option<PathBuf> {
        (self.canonical)(state.parts.take(state.kept))
    }
}

/// The components of an absolute path without dots.
pub open spec fn absolute(parts: Seq<PathPart>) -> bool {
    dotless(parts) && parts.len() > 0 && parts[0] is RootDir
}

/// Resolving an absolute path gives an absolute path without dots, and resolving that again gives
/// the same, on a file system that has not changed.
pub proof fn law_resolving_again_changes_nothing(
    system: FileSystem,
    path: PathBuf,
    first: ResolverView,
    once: PathBuf,
    second: ResolverView,
    twice: PathBuf,
)
    requires
        system.coherent(),
        unprefixed(path_parts(path)),
        path_parts(path).len() > 0,
        path_parts(path)[0] is RootDir,
        begun(path, first),
        finished(
            resolved(first, system.present),
            system.form(resolved(first, system.present)),
            once,
        ),
        begun(once, second),
        finished(
            resolved(second, system.present),
            system.form(resolved(second, system.present)),
            twice,
        ),
    ensures
        absolute(path_parts(once)),
        twice == once,
{
    lemma_collapsed_is_dotless(path_parts(path));
    lemma_root_stays(path_parts(path));
    law_resolution_keeps_the_longest_existing_part(first, system.present);
    law_resolution_keeps_the_longest_existing_part(second, system.present);
    let end = resolved(first, system.present);
    let tail = end.parts.skip(end.kept);
    let parts = path_parts(once);
    match system.form(end) {
        None => {
            assert(parts == first.parts);
            lemma_dotless_is_collapsed(parts);
            assert(second.parts == first.parts);
            assert(second == first);
        },
        Some(form) => {
            let head = path_parts(form);
            let m = head.len() as int;
            assert(parts == head + tail);
            assert(dotless(parts)) by {
                assert forall|i: int| 0 <= i < parts.len() implies match #[trigger] parts[i] {
                    PathPart::RootDir => i == 0,
                    PathPart::Normal(name) => is_name(name),
                    _ => false,
                } by {
                    if i < m {
                        assert(parts[i] == head[i]);
                    } else {
                        assert(parts[i] == end.parts[end.kept + i - m]);
                    }
                }
            }
            assert(parts[0] == head[0]);
            lemma_dotless_is_collapsed(parts);
            assert(second.parts == parts);
            let last = resolved(second, system.present);
            assert(last.parts.take(m) =~= head);
            assert(last.kept >= m);
            if last.kept > m {
                let more = tail.take(last.kept - m);
                assert(last.parts.take(last.kept) =~= head + more);
                assert(last.parts[last.kept - 1] == end.parts[end.kept + last.kept - 1 - m]);
                assert(only_names(more));
                assert((system.present)(head + more) == (system.present)(
                    end.parts.take(end.kept) + more,
                ));
                assert(end.parts.take(end.kept) + more =~= end.parts.take(
                    end.kept + last.kept - m,
                ));
                assert(false);
            }
            assert(last.parts.skip(m) =~= tail);
        },
    }
}

/// Dotless components stay as they are.
proof fn lemma_dotless_is_collapsed(parts: Seq<PathPart>)
    requires
        dotless(parts),
    ensures
        collapsed(parts) == parts,
{
    assert forall|i: int| 0 <= i < parts.len() implies !(#[trigger] parts[i] is CurDir) && !(
    parts[i] is ParentDir) by {}
    lemma_without_dots_is_collapsed(parts);
}

/// Collapsing goes component by component: a name stays behind what came before it, a `.` falls
/// away, and each `..` takes the last name that is left away, or falls away where none is.
pub proof fn law_each_parent_takes_one_name(parts: Seq<PathPart>, name: PathBuf)
    ensures
        collapsed(seq![]) == Seq::<PathPart>::empty(),
        collapsed(parts.push(PathPart::Normal(name))) == collapsed(parts).push(
            PathPart::Normal(name),
        ),
        collapsed(parts.push(PathPart::RootDir)) == collapsed(parts).push(PathPart::RootDir),
        collapsed(parts.push(PathPart::Prefix(name))) == collapsed(parts).push(
            PathPart::Prefix(name),
        ),
        collapsed(parts.push(PathPart::CurDir)) == collapsed(parts),
        collapsed(parts).len() > 0 && collapsed(parts).last() is Normal ==> collapsed(
            parts.push(PathPart::ParentDir),
        ) == collapsed(parts).drop_last(),
        collapsed(parts).len() == 0 || !(collapsed(parts).last() is Normal) ==> collapsed(
            parts.push(PathPart::ParentDir),
        ) == collapsed(parts),
{
    assert(parts.push(PathPart::Normal(name)).drop_last() =~= parts);
    assert(parts.push(PathPart::RootDir).drop_last() =~= parts);
    assert(parts.push(PathPart::Prefix(name)).drop_last() =~= parts);
    assert(parts.push(PathPart::CurDir).drop_last() =~= parts);
    assert(parts.push(PathPart::ParentDir).drop_last() =~= parts);
}

/// As many `..` as there are names before them take exactly these names away.
pub proof fn law_parents_cancel_names(
    parts: Seq<PathPart>,
    names: Seq<PathPart>,
    parents: Seq<PathPart>,
)
    requires
        names.len() == parents.len(),
        forall|i: int| 0 <= i < names.len() ==> (#[trigger] names[i]) is Normal,
        forall|i: int| 0 <= i < parents.len() ==> (#[trigger] parents[i]) is ParentDir,
    ensures
        collapsed(parts + names + parents) == collapsed(parts),
        collapsed(parts + names) == collapsed(parts) + names,
    decreases names.len(),
{
    lemma_names_stay(parts, names);
    lemma_parents_take(parts + names, parents, parents.len() as int);
    assert(parts + names + parents =~= (parts + names) + parents);
    assert((collapsed(parts) + names).take(collapsed(parts).len() as int) =~= collapsed(parts));
}

proof fn lemma_names_stay(parts: Seq<PathPart>, names: Seq<PathPart>)
    requires
        forall|i: int| 0 <= i < names.len() ==> (#[trigger] names[i]) is Normal,
    ensures
        collapsed(parts + names) == collapsed(parts) + names,
    decreases names.len(),
{
    if names.len() == 0 {
        assert(parts + names =~= parts);
        assert(collapsed(parts) + names =~= collapsed(parts));
    } else {
        let rest = names.drop_last();
        assert forall|i: int| 0 <= i < rest.len() implies (#[trigger] rest[i]) is Normal by {
            assert(rest[i] == names[i]);
        }
        lemma_names_stay(parts, rest);
        assert(names[names.len() - 1] is Normal);
        assert((parts + names).drop_last() =~= parts + rest);
        assert((parts + names).last() == names.last());
        assert(collapsed(parts) + names =~= (collapsed(parts) + rest).push(names.last()));
    }
}

proof fn lemma_parents_take(parts: Seq<PathPart>, parents: Seq<PathPart>, n: int)
    requires
        0 <= n <= parents.len(),
        n <= collapsed(parts).len(),
        forall|i: int| 0 <= i < parents.len() ==> (#[trigger] parents[i]) is ParentDir,
        forall|i: int|
            collapsed(parts).len() - n <= i < collapsed(parts).len() ==> (#[trigger] collapsed(
                parts,
            )[i]) is Normal,
    ensures
        collapsed(parts + parents.take(n)) == collapsed(parts).take(collapsed(parts).len() - n),
        n == parents.len() ==> collapsed(parts + parents) == collapsed(parts).take(
            collapsed(parts).len() - n,
        ),
    decreases n,
{
    let kept = collapsed(parts);
    if n == 0 {
        assert(parts + parents.take(0) =~= parts);
        assert(kept.take(kept.len() as int) =~= kept);
    } else {
        lemma_parents_take(parts, parents, n - 1);
        let before = parts + parents.take(n - 1);
        assert(parents[n - 1] is ParentDir);
        assert((parts + parents.take(n)).drop_last() =~= before);
        assert((parts + parents.take(n)).last() == parents[n - 1]);
        assert(collapsed(before).last() == kept[kept.len() - n]);
        assert(collapsed(before).drop_last() =~= kept.take(kept.len() - n));
    }
    if n == parents.len() {
        assert(parents.take(n) =~= parents);
    }
}

/// What a path leads to depends on what came before only by what is left of it: collapsing the front
/// first changes nothing.
pub proof fn law_the_front_may_be_collapsed_first(front: Seq<PathPart>, back: Seq<PathPart>)
    ensures
        collapsed(front + back) == collapsed(collapsed(front) + back),
    decreases back.len(),
{
    if back.len() == 0 {
        assert(front + back =~= front);
        assert(collapsed(front) + back =~= collapsed(front));
        law_collapsing_is_idempotent(front);
    } else {
        law_the_front_may_be_collapsed_first(front, back.drop_last());
        assert((front + back).drop_last() =~= front + back.drop_last());
        assert((collapsed(front) + back).drop_last() =~= collapsed(front) + back.drop_last());
        assert((front + back).last() == back.last());
        assert((collapsed(front) + back).last() == back.last());
    }
}

/// What [`collapse_dot_components`] gives has the collapsed components, and a resolver begins with
/// all of these, nothing settled.
pub proof fn law_resolution_begins_with_the_whole_path(
    path: PathBuf,
    result: PathBuf,
    resolver: PathResolver,
)
    requires
        call_ensures(collapse_dot_components, (path,), result),
        call_ensures(PathResolver::new, (&path,), resolver),
        unprefixed(path_parts(path)),
    ensures
        path_parts(result) == collapsed(path_parts(path)),
        resolver@.parts == collapsed(path_parts(path)),
        resolver@.kept == resolver@.parts.len(),
        !resolver@.settled,
{
}

/// A resolver asks for the kept part until that is settled. An answer that it exists settles it; an
/// answer that it does not takes its last name, and settles it where it has none. Once settled, it
/// stays.
pub proof fn law_probing_shortens_until_something_exists(
    resolver: &mut PathResolver,
    present: bool,
    probe: Option<PathBuf>,
)
    requires
        call_ensures(PathResolver::answer, (resolver, present), ()),
        call_ensures(PathResolver::probe, (&*old(resolver),), probe),
    ensures
        probe is None <==> old(resolver)@.settled,
        probe matches Some(path) ==> path == built_path(
            old(resolver)@.parts.take(old(resolver)@.kept),
        ),
        final(resolver)@.parts == old(resolver)@.parts,
        old(resolver)@.settled ==> final(resolver)@ == old(resolver)@,
        !old(resolver)@.settled && present ==> final(resolver)@.settled && final(resolver)@.kept
            == old(resolver)@.kept,
        !old(resolver)@.settled && !present && old(resolver)@.kept > 0
            && old(resolver)@.parts[old(resolver)@.kept - 1] is Normal ==> !final(resolver)@.settled
            && final(resolver)@.kept == old(resolver)@.kept - 1,
        !old(resolver)@.settled && !present && (old(resolver)@.kept == 0
            || !(old(resolver)@.parts[old(resolver)@.kept - 1] is Normal)) ==> final(
            resolver
        )@.settled && final(resolver)@.kept == old(resolver)@.kept,
{
}

/// The resolved path is the canonical form of the kept part, or the kept part itself where it has
/// none, joined by each name that was left out, in order.
pub proof fn law_the_names_left_out_are_joined_again(
    resolver: PathResolver,
    canonical: Option<PathBuf>,
    path: PathBuf,
)
    requires
        call_ensures(PathResolver::finish, (&resolver, canonical), path),
    ensures
        ({
            let base = match canonical {
                Some(form) => form,
                None => built_path(resolver@.parts.take(resolver@.kept)),
            };
            let left = resolver@.parts.skip(resolver@.kept);
            &&& path_parts(path) == path_parts(base) + left
            &&& left.len() == 0 ==> path == base
            &&& left.len() == 1 && left[0] is Normal ==> path == joined_path(base, left[0]->Normal_0)
        }),
{
    let left = resolver@.parts.skip(resolver@.kept);
    let base = match canonical {
        Some(form) => form,
        None => built_path(resolver@.parts.take(resolver@.kept)),
    };
    assert(path == extended(base, left));
    assert(extended(base, seq![]) == base);
    if left.len() == 1 {
        assert(left.drop_last() =~= seq![]);
    }
}

/// A path is extended by one name after the other; components that are no names add nothing.
pub proof fn law_paths_are_extended_name_by_name(base: PathBuf, parts: Seq<PathPart>, name: PathBuf)
    ensures
        extended(base, seq![]) == base,
        extended(base, parts.push(PathPart::Normal(name))) == joined_path(
            extended(base, parts),
            name,
        ),
        extended(base, parts.push(PathPart::CurDir)) == extended(base, parts),
{
    assert(parts.push(PathPart::Normal(name)).drop_last() =~= parts);
    assert(parts.push(PathPart::CurDir).drop_last() =~= parts);
}

/// Only a path without components is empty.
pub proof fn law_only_a_path_without_components_is_empty(path: PathBuf, empty: bool)
    requires
        call_ensures(is_empty_path, (&path,), empty),
    ensures
        empty <==> path_parts(path).len() == 0,
{
}

/// The kept part of a path is its first components, as many as are kept.
pub proof fn law_the_kept_part_is_the_front(resolver: PathResolver, path: PathBuf)
    requires
        call_ensures(PathResolver::prefix, (&resolver,), path),
        dotless(resolver@.parts),
        0 <= resolver@.kept <= resolver@.parts.len(),
    ensures
        path_parts(path).len() == resolver@.kept,
        path_parts(path) == resolver@.parts.take(resolver@.kept),
        path_parts(path) + resolver@.parts.skip(resolver@.kept) == resolver@.parts,
{
    assert(resolver@.parts.take(resolver@.kept) + resolver@.parts.skip(resolver@.kept)
        =~= resolver@.parts);
}

} // verus!
