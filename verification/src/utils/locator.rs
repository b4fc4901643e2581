//! The search for a browser executable, step by step: which path of the plan
//! is tried next, and which is the executable.
//!
//! The caller tries one path at a time on its file system and says what it
//! found there. The executable is the first candidate that resolves: the
//! candidate whose first path that is anything at all is a regular file.

use crate::utils::launcher::Probe;
use vstd::prelude::*;

verus! {

/// What the file system says of one path.
#[derive(Debug, Clone, Copy, PartialEq, Eq)]
pub enum Probed {
    /// A regular file, and its full path is known.
    Regular,
    /// Nothing, or something that is no regular file, such as a directory.
    Other,
    /// Something whose kind or full path cannot be had: its candidate is
    /// given up.
    Unresolved,
}

/// What the answers of the file system say of a path.
///
/// `resolved` says whether the full path can be had. `regular` says whether
/// a regular file is there, and is `None` where that cannot be told; of a
/// candidate as it is, it is asked of the full path, and only if that can be
/// had.
///
/// A candidate as it is, without a full path, is nothing; one whose kind
/// cannot be told is unresolved. A path in a directory is nothing unless a
/// regular file is there, and unresolved if its full path cannot be had.
pub open spec fn probed_spec(direct: bool, resolved: bool, regular: Option<bool>) -> Probed {
    if direct {
        if !resolved {
            Probed::Other
        } else {
            match regular {
                Some(true) => Probed::Regular,
                Some(false) => Probed::Other,
                None => Probed::Unresolved,
            }
        }
    } else {
        match regular {
            Some(true) => if resolved {
                Probed::Regular
            } else {
                Probed::Unresolved
            },
            _ => Probed::Other,
        }
    }
}

/// What the answers of the file system say of `probe`.
pub fn probed(probe: &Probe, resolved: bool, regular: Option<bool>) -> (found: Probed)
    ensures
        found == probed_spec(probe.dir is None, resolved, regular),
{
    match probe.dir {
        None => {
            if !resolved {
                return Probed::Other;
            }
            match regular {
                Some(true) => Probed::Regular,
                Some(false) => Probed::Other,
                None => Probed::Unresolved,
            }
        },
        Some(_) => match regular {
            Some(true) => {
                if resolved {
                    Probed::Regular
                } else {
                    Probed::Unresolved
                }
            },
            _ => Probed::Other,
        },
    }
}

/// What the caller does next: try a path of the plan and come back with
/// what it found, or take the result.
#[derive(Debug, Clone, Copy, PartialEq, Eq)]
pub enum LookStep {
    /// Try the path at position `probe` of the candidate at position
    /// `candidate`.
    Try { candidate: usize, probe: usize },
    /// The executable is the path that was tried last.
    Found { candidate: usize, probe: usize },
    /// No candidate is installed.
    NotFound,
}

/// The number of paths that a plan holds for each candidate.
pub open spec fn shape(plan: Seq<Vec<Probe>>) -> Seq<nat> {
    Seq::new(plan.len(), |i: int| plan[i]@.len())
}

/// The plan holds a path at this position.
pub open spec fn in_plan(sizes: Seq<nat>, candidate: int, probe: int) -> bool {
    0 <= candidate < sizes.len() && 0 <= probe < sizes[candidate]
}

/// The positions of the plan can be counted by the machine.
pub open spec fn countable(sizes: Seq<nat>) -> bool {
    &&& sizes.len() <= usize::MAX
    &&& forall|i: int| 0 <= i < sizes.len() ==> #[trigger] sizes[i] <= usize::MAX
}

/// The step that tries the first path at or after a position: the path at
/// the position itself if there is one, else the first path of the next
/// candidate that has any.
pub open spec fn seek(sizes: Seq<nat>, candidate: int, probe: int) -> LookStep
    decreases sizes.len() - candidate,
{
    if candidate < 0 || candidate >= sizes.len() || probe < 0 {
        LookStep::NotFound
    } else if probe < sizes[candidate] {
        LookStep::Try { candidate: candidate as usize, probe: probe as usize }
    } else {
        seek(sizes, candidate + 1, 0)
    }
}

/// What follows from what was found at a position. A regular file is the
/// executable. After anything else the next path of the same candidate is
/// tried, and the next candidate after its last. A path that cannot be
/// resolved gives up its candidate: the next candidate is tried at once.
pub open spec fn look_next(sizes: Seq<nat>, candidate: int, probe: int, found: Probed)
    -> LookStep {
    if !in_plan(sizes, candidate, probe) {
        LookStep::NotFound
    } else {
        match found {
            Probed::Regular => LookStep::Found {
                candidate: candidate as usize,
                probe: probe as usize,
            },
            Probed::Other => seek(sizes, candidate, probe + 1),
            Probed::Unresolved => seek(sizes, candidate + 1, 0),
        }
    }
}

/// The candidate resolves at `probe`: that path is a regular file, and none
/// of the candidate's paths before it is anything.
pub open spec fn resolves_at(answers: Seq<Probed>, size: nat, probe: int) -> bool {
    &&& 0 <= probe < size
    &&& answers[probe] == Probed::Regular
    &&& forall|earlier: int| 0 <= earlier < probe ==> #[trigger] answers[earlier] == Probed::Other
}

/// The candidate resolves: one of its paths is where it resolves.
pub open spec fn resolves(answers: Seq<Probed>, size: nat) -> bool {
    exists|probe: int| resolves_at(answers, size, probe)
}

/// The executable is at this position: the candidate resolves there, and no
/// candidate before it resolves. `answers` holds, for each path of the plan,
/// what the file system says of it.
pub open spec fn is_found(sizes: Seq<nat>, answers: Seq<Seq<Probed>>, candidate: int, probe: int)
    -> bool {
    &&& 0 <= candidate < sizes.len()
    &&& resolves_at(answers[candidate], sizes[candidate], probe)
    &&& forall|earlier: int|
        0 <= earlier < candidate ==> !resolves(#[trigger] answers[earlier], sizes[earlier])
}

/// Where a search ends that is about to try a position, on a file system
/// that answers as `answers` says.
pub open spec fn look_from(sizes: Seq<nat>, answers: Seq<Seq<Probed>>, candidate: int, probe: int)
    -> Option<(int, int)>
    decreases
            sizes.len() - candidate,
            (if 0 <= candidate < sizes.len() {
                sizes[candidate] - probe
            } else {
                0
            }),
{
    if candidate < 0 || candidate >= sizes.len() || probe < 0 {
        None
    } else if probe >= sizes[candidate] {
        look_from(sizes, answers, candidate + 1, 0)
    } else {
        match answers[candidate][probe] {
            Probed::Regular => Some((candidate, probe)),
            Probed::Other => look_from(sizes, answers, candidate, probe + 1),
            Probed::Unresolved => look_from(sizes, answers, candidate + 1, 0),
        }
    }
}

/// Where a search ends that stands at `step`.
pub open spec fn look_end(sizes: Seq<nat>, answers: Seq<Seq<Probed>>, step: LookStep) -> Option<
    (int, int),
> {
    match step {
        LookStep::Try { candidate, probe } => look_from(
            sizes,
            answers,
            candidate as int,
            probe as int,
        ),
        LookStep::Found { candidate, probe } => Some((candidate as int, probe as int)),
        LookStep::NotFound => None,
    }
}

/// The step that tries the first path at or after a position.
fn seek_from(plan: &Vec<Vec<Probe>>, candidate: usize, probe: usize) -> (step: LookStep)
    ensures
        step == seek(shape(plan@), candidate as int, probe as int),
{
    let mut c: usize = candidate;
    let mut p: usize = probe;
    while c < plan.len()
        invariant
            seek(shape(plan@), c as int, p as int) == seek(
                shape(plan@),
                candidate as int,
                probe as int,
            ),
        decreases plan.len() - c,
    {
        if p < plan[c].len() {
            return LookStep::Try { candidate: c, probe: p };
        }
        c += 1;
        p = 0;
    }
    LookStep::NotFound
}

/// Begins the search: the first path of the plan is tried, if the plan holds
/// any.
pub fn look_begin(plan: &Vec<Vec<Probe>>) -> (step: LookStep)
    ensures
        step == seek(shape(plan@), 0, 0),
{
    seek_from(plan, 0, 0)
}

/// What follows from what the file system says of the path that was tried:
/// `found` is its answer for the path at `probe` of the candidate at
/// `candidate`.
pub fn look_advance(plan: &Vec<Vec<Probe>>, candidate: usize, probe: usize, found: Probed) -> (step:
    LookStep)
    ensures
        step == look_next(shape(plan@), candidate as int, probe as int, found),
{
    if candidate < plan.len() && probe < plan[candidate].len() {
        match found {
            Probed::Regular => LookStep::Found { candidate, probe },
            Probed::Other => seek_from(plan, candidate, probe + 1),
            Probed::Unresolved => seek_from(plan, candidate + 1, 0),
        }
    } else {
        LookStep::NotFound
    }
}

/// A step that tries a path tries one of the plan, at or after the position
/// that was sought from.
pub proof fn lemma_seek(sizes: Seq<nat>, answers: Seq<Seq<Probed>>, candidate: int, probe: int)
    requires
        countable(sizes),
        0 <= candidate,
        0 <= probe,
    ensures
        look_end(sizes, answers, seek(sizes, candidate, probe)) == look_from(
            sizes,
            answers,
            candidate,
            probe,
        ),
        seek(sizes, candidate, probe) matches LookStep::Try { candidate: c, probe: p } ==> in_plan(
            sizes,
            c as int,
            p as int,
        ) && (c > candidate || (c == candidate && p == probe)),
        !(seek(sizes, candidate, probe) is Found),
    decreases sizes.len() - candidate,
{
    if candidate < sizes.len() && probe >= sizes[candidate] {
        lemma_seek(sizes, answers, candidate + 1, 0);
    }
}

/// The steps of a search lead where the file system's answers say: each
/// step ends where the search from its position ends, and each path that is
/// tried lies after the one before, so that no search goes on without end.
pub proof fn lemma_look_next(sizes: Seq<nat>, answers: Seq<Seq<Probed>>, candidate: int, probe: int)
    requires
        countable(sizes),
        in_plan(sizes, candidate, probe),
    ensures
        ({
            let step = look_next(sizes, candidate, probe, answers[candidate][probe]);
            &&& look_end(sizes, answers, step) == look_from(sizes, answers, candidate, probe)
            &&& step matches LookStep::Try { candidate: c, probe: p } ==> in_plan(
                sizes,
                c as int,
                p as int,
            ) && (c > candidate || (c == candidate && p > probe))
            &&& step matches LookStep::Found { candidate: c, probe: p } ==> c == candidate && p
                == probe && answers[candidate][probe] == Probed::Regular
        }),
{
    lemma_seek(sizes, answers, candidate, probe + 1);
    lemma_seek(sizes, answers, candidate + 1, 0);
}

/// A candidate resolves at one path at most.
pub proof fn lemma_resolves_once(answers: Seq<Probed>, size: nat, one: int, other: int)
    requires
        resolves_at(answers, size, one),
        resolves_at(answers, size, other),
    ensures
        one == other,
{
    if one < other {
        assert(answers[one] == Probed::Other);
    } else if other < one {
        assert(answers[other] == Probed::Other);
    }
}

/// Where a search from a position ends, given that nothing before the
/// position resolved.
proof fn lemma_look_from(sizes: Seq<nat>, answers: Seq<Seq<Probed>>, candidate: int, probe: int)
    requires
        0 <= candidate <= sizes.len(),
        0 <= probe,
        candidate < sizes.len() ==> probe <= sizes[candidate],
        candidate < sizes.len() ==> forall|earlier: int|
            0 <= earlier < probe ==> #[trigger] answers[candidate][earlier] == Probed::Other,
        forall|earlier: int|
            0 <= earlier < candidate ==> !resolves(#[trigger] answers[earlier], sizes[earlier]),
    ensures
        match look_from(sizes, answers, candidate, probe) {
            Some((c, p)) => is_found(sizes, answers, c, p),
            None => forall|any: int|
                0 <= any < sizes.len() ==> !resolves(#[trigger] answers[any], sizes[any]),
        },
    decreases
            sizes.len() - candidate,
            (if 0 <= candidate < sizes.len() {
                sizes[candidate] - probe
            } else {
                0
            }),
{
    if candidate >= sizes.len() {
    } else if probe >= sizes[candidate] {
        assert(!resolves(answers[candidate], sizes[candidate])) by {
            if resolves(answers[candidate], sizes[candidate]) {
                let at = choose|at: int| resolves_at(answers[candidate], sizes[candidate], at);
                assert(answers[candidate][at] == Probed::Other);
            }
        }
        lemma_look_from(sizes, answers, candidate + 1, 0);
    } else {
        match answers[candidate][probe] {
            Probed::Regular => {
                assert(resolves_at(answers[candidate], sizes[candidate], probe));
            },
            Probed::Other => {
                lemma_look_from(sizes, answers, candidate, probe + 1);
            },
            Probed::Unresolved => {
                assert(!resolves(answers[candidate], sizes[candidate])) by {
                    if resolves(answers[candidate], sizes[candidate]) {
                        let at = choose|at: int|
                            resolves_at(answers[candidate], sizes[candidate], at);
                        if at < probe {
                            assert(answers[candidate][at] == Probed::Other);
                        } else if at > probe {
                            assert(answers[candidate][probe] == Probed::Other);
                        }
                    }
                }
                lemma_look_from(sizes, answers, candidate + 1, 0);
            },
        }
    }
}

/// What a search finds. The executable is found exactly at the path where
/// the first candidate that resolves does so: a candidate later in the list
/// changes nothing, and within a candidate the first path that is a regular
/// file wins, while a directory of that name is passed over. Nothing is found
/// exactly where no candidate resolves.
pub proof fn lemma_look_result(sizes: Seq<nat>, answers: Seq<Seq<Probed>>)
    ensures
        forall|candidate: int, probe: int|
            look_from(sizes, answers, 0, 0) == Some((candidate, probe)) <==> #[trigger] is_found(
                sizes,
                answers,
                candidate,
                probe,
            ),
        look_from(sizes, answers, 0, 0) is None <==> forall|any: int|
            0 <= any < sizes.len() ==> !resolves(#[trigger] answers[any], sizes[any]),
{
    lemma_look_from(sizes, answers, 0, 0);
    let end = look_from(sizes, answers, 0, 0);
    assert forall|candidate: int, probe: int| #[trigger]
        is_found(sizes, answers, candidate, probe) implies end == Some((candidate, probe)) by {
        assert(resolves(answers[candidate], sizes[candidate]));
        let (c, p) = end->Some_0;
        assert(is_found(sizes, answers, c, p));
        if c < candidate {
            assert(resolves(answers[c], sizes[c]));
        } else if candidate < c {
        } else {
            lemma_resolves_once(answers[c], sizes[c], p, probe);
        }
    }
    if end is Some {
        let (c, p) = end->Some_0;
        assert(resolves(answers[c], sizes[c]));
    }
}

/// A regular file is at this position of the plan.
pub open spec fn regular_at(sizes: Seq<nat>, answers: Seq<Seq<Probed>>, candidate: int, probe: int)
    -> bool {
    in_plan(sizes, candidate, probe) && answers[candidate][probe] == Probed::Regular
}

/// The first position comes before the second in the order of the plan.
pub open spec fn comes_before(candidate: int, probe: int, later: int, later_probe: int) -> bool {
    candidate < later || (candidate == later && probe < later_probe)
}

/// This is the first position of the plan at which a regular file is.
pub open spec fn is_first_regular(
    sizes: Seq<nat>,
    answers: Seq<Seq<Probed>>,
    candidate: int,
    probe: int,
) -> bool {
    &&& regular_at(sizes, answers, candidate, probe)
    &&& forall|c: int, p: int| #[trigger]
        regular_at(sizes, answers, c, p) ==> !comes_before(c, p, candidate, probe)
}

/// Every path of the plan can be told for what it is.
pub open spec fn all_resolved(sizes: Seq<nat>, answers: Seq<Seq<Probed>>) -> bool {
    forall|c: int, p: int| #[trigger] in_plan(sizes, c, p) ==> answers[c][p] != Probed::Unresolved
}

/// Where every path can be told for what it is, a candidate with a regular
/// file among its paths resolves, at that path or before it.
proof fn lemma_regular_resolves(
    sizes: Seq<nat>,
    answers: Seq<Seq<Probed>>,
    candidate: int,
    probe: int,
)
    requires
        all_resolved(sizes, answers),
        regular_at(sizes, answers, candidate, probe),
    ensures
        exists|at: int|
            0 <= at <= probe && #[trigger] resolves_at(answers[candidate], sizes[candidate], at),
        resolves(answers[candidate], sizes[candidate]),
    decreases probe,
{
    if forall|earlier: int|
        0 <= earlier < probe ==> #[trigger] answers[candidate][earlier] != Probed::Regular {
        assert forall|earlier: int| 0 <= earlier < probe implies #[trigger] answers[candidate][earlier]
            == Probed::Other by {
            assert(in_plan(sizes, candidate, earlier));
        }
        assert(resolves_at(answers[candidate], sizes[candidate], probe));
    } else {
        let earlier = choose|earlier: int|
            0 <= earlier < probe && #[trigger] answers[candidate][earlier] == Probed::Regular;
        lemma_regular_resolves(sizes, answers, candidate, earlier);
    }
}

/// On a file system that can tell every path for what it is, the executable
/// is found exactly at the first path of the plan that is a regular file,
/// and nothing is found exactly where no path of the plan is one.
pub proof fn lemma_first_regular_is_found(sizes: Seq<nat>, answers: Seq<Seq<Probed>>)
    requires
        all_resolved(sizes, answers),
    ensures
        forall|candidate: int, probe: int|
            look_from(sizes, answers, 0, 0) == Some((candidate, probe))
                <==> #[trigger] is_first_regular(sizes, answers, candidate, probe),
        look_from(sizes, answers, 0, 0) is None <==> forall|c: int, p: int|
            !#[trigger] regular_at(sizes, answers, c, p),
{
    lemma_look_result(sizes, answers);
    let end = look_from(sizes, answers, 0, 0);
    assert forall|candidate: int, probe: int| #[trigger]
        is_found(sizes, answers, candidate, probe) implies is_first_regular(
        sizes,
        answers,
        candidate,
        probe,
    ) by {
        assert forall|c: int, p: int| #[trigger] regular_at(sizes, answers, c, p) implies !comes_before(
            c,
            p,
            candidate,
            probe,
        ) by {
            if c < candidate {
                lemma_regular_resolves(sizes, answers, c, p);
            } else if c == candidate && p < probe {
                assert(answers[candidate][p] == Probed::Other);
            }
        }
    }
    assert forall|candidate: int, probe: int| #[trigger]
        is_first_regular(sizes, answers, candidate, probe) implies is_found(
        sizes,
        answers,
        candidate,
        probe,
    ) by {
        lemma_regular_resolves(sizes, answers, candidate, probe);
        let at = choose|at: int|
            0 <= at <= probe && #[trigger] resolves_at(answers[candidate], sizes[candidate], at);
        assert(regular_at(sizes, answers, candidate, at));
        assert(!comes_before(candidate, at, candidate, probe));
        assert forall|earlier: int| 0 <= earlier < candidate implies !resolves(
            #[trigger] answers[earlier],
            sizes[earlier],
        ) by {
            if resolves(answers[earlier], sizes[earlier]) {
                let r = choose|r: int| resolves_at(answers[earlier], sizes[earlier], r);
                assert(regular_at(sizes, answers, earlier, r));
                assert(comes_before(earlier, r, candidate, probe));
            }
        }
    }
    if end is None {
        assert forall|c: int, p: int| !#[trigger] regular_at(sizes, answers, c, p) by {
            if regular_at(sizes, answers, c, p) {
                lemma_regular_resolves(sizes, answers, c, p);
            }
        }
    } else {
        let (c, p) = end->Some_0;
        assert(is_found(sizes, answers, c, p));
        assert(regular_at(sizes, answers, c, p));
    }
}

} // verus!
