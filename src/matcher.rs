use vstd::prelude::*;
use vstd::slice::{slice_subrange, slice_to_vec};

use crate::bytes::{bytes_equal, find_byte, first_of, push_range};
use crate::compile::{compiled, negative_marked};
use crate::types::{Operation, has_single_glob, Instruction, InstructionView, Shape, GLOB};

verus! {

/// A ref of the snapshot that is matched against: its full name and the id
/// of the object it points to.
#[derive(Debug)]
pub struct Candidate {
    pub name: Vec<u8>,
    pub target: Vec<u8>,
}

/// An update that a refspec asks for: the ref read, the ref written (none
/// where the ref is only fetched), and whether a non-fast-forward update of
/// the destination is permitted.
#[derive(Debug)]
pub struct Update {
    pub src: Vec<u8>,
    pub dest: Option<Vec<u8>>,
    pub allow_non_fast_forward: bool,
}

/// The outcome of applying one instruction to a snapshot: the updates it
/// asks for, and the ref names it removes from what the other refspecs of
/// the session matched.
#[derive(Debug)]
pub struct MatchResult {
    pub updates: Vec<Update>,
    pub exclusions: Vec<Vec<u8>>,
}

/// Why an instruction could not be applied to a snapshot.
#[derive(PartialEq, Eq, Structural, Copy, Clone, Debug)]
pub enum MatchError {
    /// A glob matched the same name twice: the snapshot holds duplicates.
    AmbiguousGlobSubstitution,
}

pub struct UpdateView {
    pub src: Seq<u8>,
    pub dest: Option<Seq<u8>>,
    pub allow_non_fast_forward: bool,
}

pub struct MatchResultView {
    pub updates: Seq<UpdateView>,
    pub exclusions: Seq<Seq<u8>>,
}

pub open spec fn opt_view(o: Option<Vec<u8>>) -> Option<Seq<u8>> {
    match o {
        Some(v) => Some(v@),
        None => None,
    }
}

impl Update {
    pub open spec fn view(&self) -> UpdateView {
        UpdateView {
            src: self.src@,
            dest: opt_view(self.dest),
            allow_non_fast_forward: self.allow_non_fast_forward,
        }
    }
}

pub open spec fn updates_view(u: Seq<Update>) -> Seq<UpdateView> {
    u.map_values(|x: Update| x@)
}

pub open spec fn names_view(v: Seq<Vec<u8>>) -> Seq<Seq<u8>> {
    v.map_values(|x: Vec<u8>| x@)
}

impl MatchResult {
    pub open spec fn view(&self) -> MatchResultView {
        MatchResultView {
            updates: updates_view(self.updates@),
            exclusions: names_view(self.exclusions@),
        }
    }
}

/// The names of the refs of a snapshot, in order.
pub open spec fn candidate_names(c: Seq<Candidate>) -> Seq<Seq<u8>> {
    c.map_values(|x: Candidate| x.name@)
}

/// The position of the `*` of a glob pattern.
pub open spec fn star_of(pattern: Seq<u8>) -> int {
    match first_of(pattern, GLOB) {
        Some(p) => p,
        None => 0,
    }
}

/// How many bytes follow the `*` of a glob pattern.
pub open spec fn suffix_len(pattern: Seq<u8>) -> int {
    pattern.len() - star_of(pattern) - 1
}

/// Whether `name` matches the glob `pattern`: it starts with what precedes
/// the `*` and ends with what follows it, and these do not overlap.
pub open spec fn glob_matches(pattern: Seq<u8>, name: Seq<u8>) -> bool {
    let p = star_of(pattern);
    let s = suffix_len(pattern);
    name.len() >= pattern.len() - 1 && name.subrange(0, p) == pattern.subrange(0, p)
        && name.subrange(name.len() - s, name.len() as int) == pattern.subrange(
        p + 1,
        pattern.len() as int,
    )
}

/// The part of `name` that the `*` of `pattern` stands for.
pub open spec fn captured(pattern: Seq<u8>, name: Seq<u8>) -> Seq<u8> {
    name.subrange(star_of(pattern), name.len() - suffix_len(pattern))
}

/// `pattern` with its `*` replaced by `fill`.
pub open spec fn substituted(pattern: Seq<u8>, fill: Seq<u8>) -> Seq<u8> {
    let q = star_of(pattern);
    pattern.subrange(0, q) + fill + pattern.subrange(q + 1, pattern.len() as int)
}

/// The names, in order, that match the glob `pattern`.
pub open spec fn glob_matched(pattern: Seq<u8>, names: Seq<Seq<u8>>) -> Seq<Seq<u8>>
    decreases names.len(),
{
    if names.len() == 0 {
        Seq::empty()
    } else {
        let rest = glob_matched(pattern, names.drop_last());
        if glob_matches(pattern, names.last()) {
            rest.push(names.last())
        } else {
            rest
        }
    }
}

/// The updates, in order, that a glob instruction asks for.
pub open spec fn glob_updates(i: InstructionView, names: Seq<Seq<u8>>) -> Seq<UpdateView>
    decreases names.len(),
{
    if names.len() == 0 {
        Seq::empty()
    } else {
        let rest = glob_updates(i, names.drop_last());
        let n = names.last();
        if glob_matches(i.src, n) {
            rest.push(
                UpdateView {
                    src: n,
                    dest: Some(substituted(i.dest.unwrap(), captured(i.src, n))),
                    allow_non_fast_forward: i.allow_non_fast_forward,
                },
            )
        } else {
            rest
        }
    }
}

/// Whether some name occurs twice in `s`.
pub open spec fn has_duplicates(s: Seq<Seq<u8>>) -> bool {
    exists|a: int, b: int| 0 <= a < b < s.len() && s[a] == s[b]
}

/// What applying `i` to a snapshot with these ref names yields.
pub open spec fn applied(i: InstructionView, names: Seq<Seq<u8>>) -> Result<
    MatchResultView,
    MatchError,
> {
    match i.shape {
        Shape::Literal | Shape::LiteralToLiteral => Ok(
            MatchResultView {
                updates: if names.contains(i.src) {
                    seq![
                        UpdateView {
                            src: i.src,
                            dest: i.dest,
                            allow_non_fast_forward: i.allow_non_fast_forward,
                        },
                    ]
                } else {
                    Seq::empty()
                },
                exclusions: Seq::empty(),
            },
        ),
        Shape::GlobToGlob => if has_duplicates(glob_matched(i.src, names)) {
            Err(MatchError::AmbiguousGlobSubstitution)
        } else {
            Ok(MatchResultView { updates: glob_updates(i, names), exclusions: Seq::empty() })
        },
        Shape::ExcludeLiteral => Ok(
            MatchResultView { updates: Seq::empty(), exclusions: seq![i.src] },
        ),
        Shape::ExcludeGlob => Ok(
            MatchResultView { updates: Seq::empty(), exclusions: glob_matched(i.src, names) },
        ),
    }
}

/// A literal instruction whose source is absent from the snapshot asks for
/// nothing and fails on nothing.
pub proof fn lemma_absent_source_is_no_error(i: InstructionView, names: Seq<Seq<u8>>)
    requires
        i.shape == Shape::Literal || i.shape == Shape::LiteralToLiteral,
        !names.contains(i.src),
    ensures
        applied(i, names) == Ok::<MatchResultView, MatchError>(
            MatchResultView { updates: Seq::empty(), exclusions: Seq::empty() },
        ),
{
}

/// A negative refspec, once compiled, never asks for an update and never
/// fails to apply: it only names refs to exclude.
pub proof fn lemma_negative_never_updates(
    raw: Seq<u8>,
    operation: Operation,
    names: Seq<Seq<u8>>,
)
    requires
        negative_marked(raw),
        compiled(raw, operation) is Ok,
    ensures
        applied(compiled(raw, operation)->Ok_0, names) matches Ok(m) && m.updates.len() == 0,
{
}

/// Whether `name` matches the glob `pattern`, whose `*` stands at `p`.
fn matches_glob(pattern: &[u8], p: usize, name: &[u8]) -> (r: bool)
    requires
        first_of(pattern@, GLOB) == Some(p as int),
    ensures
        r == glob_matches(pattern@, name@),
{
    let plen = pattern.len();
    let nlen = name.len();
    if nlen < plen - 1 {
        return false;
    }
    let s = plen - p - 1;
    bytes_equal(slice_subrange(name, 0, p), slice_subrange(pattern, 0, p)) && bytes_equal(
        slice_subrange(name, nlen - s, nlen),
        slice_subrange(pattern, p + 1, plen),
    )
}

/// Whether some name occurs twice in `names`.
fn find_duplicate(names: &Vec<Vec<u8>>) -> (r: bool)
    ensures
        r == has_duplicates(names_view(names@)),
{
    let ghost ns = names_view(names@);
    let mut b: usize = 0;
    while b < names.len()
        invariant
            b <= names@.len(),
            ns == names_view(names@),
            forall|x: int, y: int| 0 <= x < y < b ==> ns[x] != ns[y],
        decreases names@.len() - b,
    {
        let mut a: usize = 0;
        while a < b
            invariant
                a <= b < names@.len(),
                ns == names_view(names@),
                forall|x: int, y: int| 0 <= x < y < b ==> ns[x] != ns[y],
                forall|x: int| 0 <= x < a ==> ns[x] != ns[b as int],
            decreases b - a,
        {
            if bytes_equal(names[a].as_slice(), names[b].as_slice()) {
                assert(ns[a as int] == ns[b as int]);
                return true;
            }
            a = a + 1;
        }
        b = b + 1;
    }
    false
}

/// The position of the `*` of a pattern that holds exactly one.
fn star_position(pattern: &[u8]) -> (r: usize)
    requires
        has_single_glob(pattern@),
    ensures
        first_of(pattern@, GLOB) == Some(r as int),
        r < pattern@.len(),
{
    match find_byte(pattern, GLOB) {
        Some(p) => p,
        None => {
            assert(false);
            0
        },
    }
}

/// Whether some candidate is named exactly `name`.
fn contains_name(candidates: &[Candidate], name: &[u8]) -> (r: bool)
    ensures
        r == candidate_names(candidates@).contains(name@),
{
    let ghost cn = candidate_names(candidates@);
    let mut k: usize = 0;
    while k < candidates.len()
        invariant
            k <= candidates@.len(),
            cn == candidate_names(candidates@),
            forall|x: int| 0 <= x < k ==> cn[x] != name@,
        decreases candidates@.len() - k,
    {
        if bytes_equal(candidates[k].name.as_slice(), name) {
            assert(cn[k as int] == name@);
            return true;
        }
        k = k + 1;
    }
    false
}

/// The names of the candidates that match `pattern`, in order.
fn matched_names(pattern: &[u8], candidates: &[Candidate]) -> (r: Vec<Vec<u8>>)
    requires
        has_single_glob(pattern@),
    ensures
        names_view(r@) == glob_matched(pattern@, candidate_names(candidates@)),
{
    let ghost cn = candidate_names(candidates@);
    let p = star_position(pattern);
    let mut out: Vec<Vec<u8>> = Vec::new();
    let mut k: usize = 0;
    while k < candidates.len()
        invariant
            k <= candidates@.len(),
            cn == candidate_names(candidates@),
            first_of(pattern@, GLOB) == Some(p as int),
            names_view(out@) == glob_matched(pattern@, cn.subrange(0, k as int)),
        decreases candidates@.len() - k,
    {
        let name = candidates[k].name.as_slice();
        assert(cn.subrange(0, k + 1).drop_last() =~= cn.subrange(0, k as int));
        assert(cn.subrange(0, k + 1).last() == name@);
        if matches_glob(pattern, p, name) {
            let ghost before = out@;
            out.push(slice_to_vec(name));
            assert(names_view(out@) =~= names_view(before).push(name@));
        }
        k = k + 1;
    }
    assert(cn.subrange(0, candidates@.len() as int) =~= cn);
    out
}

/// The updates that the glob instruction `i` asks for, in order.
fn glob_update_list(i: &Instruction, candidates: &[Candidate]) -> (r: Vec<Update>)
    requires
        i.wf(),
        i@.shape == Shape::GlobToGlob,
    ensures
        updates_view(r@) == glob_updates(i@, candidate_names(candidates@)),
{
    let ghost cn = candidate_names(candidates@);
    let src = i.source();
    let dest = match i.destination() {
        Some(d) => d,
        None => {
            assert(false);
            src
        },
    };
    let allow = i.allow_non_fast_forward();
    let p = star_position(src);
    let q = star_position(dest);
    let s = src.len() - p - 1;
    let mut out: Vec<Update> = Vec::new();
    let mut k: usize = 0;
    while k < candidates.len()
        invariant
            k <= candidates@.len(),
            cn == candidate_names(candidates@),
            src@ == i@.src,
            i@.dest == Some(dest@),
            allow == i@.allow_non_fast_forward,
            first_of(src@, GLOB) == Some(p as int),
            first_of(dest@, GLOB) == Some(q as int),
            p < src@.len(),
            q < dest.len(),
            s == suffix_len(src@),
            updates_view(out@) == glob_updates(i@, cn.subrange(0, k as int)),
        decreases candidates@.len() - k,
    {
        let name = candidates[k].name.as_slice();
        assert(cn.subrange(0, k + 1).drop_last() =~= cn.subrange(0, k as int));
        assert(cn.subrange(0, k + 1).last() == name@);
        if matches_glob(src, p, name) {
            let nlen = name.len();
            let mut target: Vec<u8> = Vec::new();
            push_range(&mut target, dest, 0, q);
            push_range(&mut target, name, p, nlen - s);
            push_range(&mut target, dest, q + 1, dest.len());
            assert(target@ == substituted(dest@, captured(src@, name@)));
            let ghost before = out@;
            let u = Update { src: slice_to_vec(name), dest: Some(target), allow_non_fast_forward: allow };
            out.push(u);
            assert(updates_view(out@) =~= updates_view(before).push(u@));
        }
        k = k + 1;
    }
    assert(cn.subrange(0, candidates@.len() as int) =~= cn);
    out
}

/// Applies a compiled instruction to a snapshot of refs.
///
/// Literal instructions ask for one update where a ref of that name exists
/// and for none otherwise; glob instructions ask for one update per matching
/// ref; negative instructions name the refs to remove from what the other
/// refspecs of the session matched.
pub fn apply(instruction: &Instruction, candidates: &[Candidate]) -> (r: Result<
    MatchResult,
    MatchError,
>)
    requires
        instruction.wf(),
    ensures
        match r {
            Ok(m) => applied(instruction@, candidate_names(candidates@)) == Ok::<
                MatchResultView,
                MatchError,
            >(m@),
            Err(e) => applied(instruction@, candidate_names(candidates@)) == Err::<
                MatchResultView,
                MatchError,
            >(e),
        },
{
    let src = instruction.source();
    match instruction.shape() {
        Shape::Literal | Shape::LiteralToLiteral => {
            let mut updates: Vec<Update> = Vec::new();
            if contains_name(candidates, src) {
                let dest = match instruction.destination() {
                    Some(d) => Some(slice_to_vec(d)),
                    None => None,
                };
                let u = Update {
                    src: slice_to_vec(src),
                    dest,
                    allow_non_fast_forward: instruction.allow_non_fast_forward(),
                };
                updates.push(u);
                assert(updates_view(updates@) =~= seq![u@]);
            } else {
                assert(updates_view(updates@) =~= Seq::empty());
            }
            let m = MatchResult { updates, exclusions: Vec::new() };
            assert(m@.exclusions =~= Seq::empty());
            Ok(m)
        },
        Shape::ExcludeLiteral => {
            let mut exclusions: Vec<Vec<u8>> = Vec::new();
            exclusions.push(slice_to_vec(src));
            let m = MatchResult { updates: Vec::new(), exclusions };
            assert(m@.exclusions =~= seq![src@]);
            assert(m@.updates =~= Seq::empty());
            Ok(m)
        },
        Shape::ExcludeGlob => {
            let m = MatchResult { updates: Vec::new(), exclusions: matched_names(src, candidates) };
            assert(m@.updates =~= Seq::empty());
            Ok(m)
        },
        Shape::GlobToGlob => {
            let names = matched_names(src, candidates);
            if find_duplicate(&names) {
                Err(MatchError::AmbiguousGlobSubstitution)
            } else {
                let m = MatchResult {
                    updates: glob_update_list(instruction, candidates),
                    exclusions: Vec::new(),
                };
                assert(m@.exclusions =~= Seq::empty());
                Ok(m)
            }
        },
    }
}

} // verus!
