//! Running a quest: which test cases to run, how a case is judged, the tally
//! of a run, and what to delete afterwards. Reading files and running the
//! program happen outside the library, which hands each result back here.
use crate::error::OwlError;
use crate::lang::opt_texts;
use crate::path::{ext_of, extension, file_stem, sibling, sibling_of, stem_of};
use crate::process::{tag_text, tagged, texts, Invocation};
use vstd::prelude::*;

verus! {

/// Whether the case at 1-based `position` among `total` is run for the
/// requested case id: with no id, or id 0, every case runs; otherwise the
/// case whose position agrees with the id modulo `total`.
pub open spec fn is_selected(total: nat, case_id: Option<usize>, position: nat) -> bool {
    match case_id {
        None => true,
        Some(k) => k == 0 || position % total == k as nat % total,
    }
}

/// The 0-based indices below `upto` of the cases that run, in order.
pub open spec fn selected_below(total: nat, case_id: Option<usize>, upto: nat) -> Seq<usize>
    decreases upto,
{
    if upto == 0 {
        Seq::empty()
    } else {
        let rest = selected_below(total, case_id, (upto - 1) as nat);
        if is_selected(total, case_id, upto) {
            rest.push((upto - 1) as usize)
        } else {
            rest
        }
    }
}

/// The 0-based indices of the cases that run, in discovery order.
pub open spec fn selection(total: nat, case_id: Option<usize>) -> Seq<usize> {
    selected_below(total, case_id, total)
}

/// The 1-based position that case id `k` (at least 1) picks among `total`.
pub open spec fn wrapped_position(total: nat, k: nat) -> nat {
    if k % total == 0 {
        total
    } else {
        k % total
    }
}

proof fn lemma_selected_below(total: nat, case_id: Option<usize>, upto: nat)
    requires
        upto <= total,
        total <= usize::MAX,
    ensures
        forall|j: int|
            0 <= j < selected_below(total, case_id, upto).len() ==> selected_below(total, case_id, upto)[j]
                < upto,
        forall|j: int|
            #![trigger selected_below(total, case_id, upto)[j]]
            0 <= j < selected_below(total, case_id, upto).len() ==> is_selected(
                total,
                case_id,
                selected_below(total, case_id, upto)[j] as nat + 1,
            ),
        forall|j: int, l: int|
            0 <= j < l < selected_below(total, case_id, upto).len() ==> selected_below(total, case_id, upto)[j]
                < selected_below(total, case_id, upto)[l],
        forall|p: nat|
            1 <= p <= upto && #[trigger] is_selected(total, case_id, p) ==> selected_below(
                total,
                case_id,
                upto,
            ).contains((p - 1) as usize),
    decreases upto,
{
    if upto > 0 {
        let rest = selected_below(total, case_id, (upto - 1) as nat);
        lemma_selected_below(total, case_id, (upto - 1) as nat);
        let s = selected_below(total, case_id, upto);
        assert forall|p: nat| 1 <= p <= upto && #[trigger] is_selected(total, case_id, p) implies s.contains(
            (p - 1) as usize,
        ) by {
            if p < upto {
                let j = choose|j: int| 0 <= j < rest.len() && rest[j] == (p - 1) as usize;
                assert(s[j] == (p - 1) as usize);
            } else {
                assert(s[s.len() - 1] == (p - 1) as usize);
            }
        }
    }
}

/// With case id 0 or none, every case runs; with case id `k` of at least 1,
/// exactly the case at the wrapped position runs.
pub proof fn lemma_case_id_wraps(total: nat, case_id: Option<usize>, position: nat)
    requires
        1 <= position <= total,
    ensures
        (case_id is None || case_id == Some(0usize)) ==> is_selected(total, case_id, position),
        match case_id {
            Some(k) => k >= 1 ==> (is_selected(total, case_id, position) <==> position
                == wrapped_position(total, k as nat)),
            None => true,
        },
{
    if let Some(k) = case_id {
        if k >= 1 {
            let w = wrapped_position(total, k as nat);
            assert(w % total == k as nat % total) by (nonlinear_arith)
                requires
                    w == (if k as nat % total == 0 { total } else { k as nat % total }),
                    total >= 1,
            {
                if k as nat % total == 0 {
                    assert(total % total == 0) by (nonlinear_arith) requires total >= 1;
                } else {
                    assert((k as nat % total) % total == k as nat % total) by (nonlinear_arith) requires total >= 1;
                }
            }
            if position % total == k as nat % total {
                if position == total {
                    assert(total % total == 0) by (nonlinear_arith) requires total >= 1;
                } else {
                    assert(position % total == position) by (nonlinear_arith)
                        requires 1 <= position < total;
                }
            }
        }
    }
}

proof fn lemma_selected_below_single(total: nat, k: usize, upto: nat)
    requires
        total >= 1,
        k >= 1,
        upto <= total,
    ensures
        upto < wrapped_position(total, k as nat) ==> selected_below(total, Some(k), upto) =~= Seq::<usize>::empty(),
        upto >= wrapped_position(total, k as nat) ==> selected_below(total, Some(k), upto) =~= seq![
            (wrapped_position(total, k as nat) - 1) as usize,
        ],
    decreases upto,
{
    if upto > 0 {
        lemma_selected_below_single(total, k, (upto - 1) as nat);
        lemma_case_id_wraps(total, Some(k), upto);
    }
}

/// With a case id `k` of at least 1, exactly one case runs: the one at the
/// 1-based position `p` with `p mod total == k mod total`.
pub proof fn lemma_one_case_selected(total: nat, k: usize)
    requires
        total >= 1,
        k >= 1,
    ensures
        selection(total, Some(k)) == seq![(wrapped_position(total, k as nat) - 1) as usize],
        wrapped_position(total, k as nat) % total == k as nat % total,
        1 <= wrapped_position(total, k as nat) <= total,
{
    assert(1 <= wrapped_position(total, k as nat) <= total) by (nonlinear_arith)
        requires
            total >= 1,
            wrapped_position(total, k as nat) == (if k as nat % total == 0 {
                total
            } else {
                k as nat % total
            }),
    {
    }
    lemma_case_id_wraps(total, Some(k), wrapped_position(total, k as nat));
    lemma_selected_below_single(total, k, total);
}

/// Case id 0, or none, runs every case, in discovery order.
pub proof fn lemma_no_filter_selects_all(total: nat, case_id: Option<usize>)
    requires
        case_id is None || case_id == Some(0usize),
        total <= usize::MAX,
    ensures
        selection(total, case_id) == Seq::new(total, |i: int| i as usize),
{
    lemma_all_selected_below(total, case_id, total);
}

proof fn lemma_all_selected_below(total: nat, case_id: Option<usize>, upto: nat)
    requires
        case_id is None || case_id == Some(0usize),
        upto <= total <= usize::MAX,
    ensures
        selected_below(total, case_id, upto) =~= Seq::new(upto, |i: int| i as usize),
    decreases upto,
{
    if upto > 0 {
        lemma_all_selected_below(total, case_id, (upto - 1) as nat);
    }
}

/// The 0-based indices of the cases that run among `total` discovered cases,
/// in discovery order.
pub fn select_cases(total: usize, case_id: Option<usize>) -> (r: Vec<usize>)
    ensures
        r@ == selection(total as nat, case_id),
        forall|j: int| 0 <= j < r@.len() ==> r@[j] < total && is_selected(total as nat, case_id, r@[j] as nat + 1),
        forall|j: int, l: int| 0 <= j < l < r@.len() ==> r@[j] < r@[l],
        forall|p: nat|
            1 <= p <= total && #[trigger] is_selected(total as nat, case_id, p) ==> r@.contains((p - 1) as usize),
{
    let mut r: Vec<usize> = Vec::new();
    let mut i: usize = 0;
    while i < total
        invariant
            i <= total,
            r@ == selected_below(total as nat, case_id, i as nat),
        decreases total - i,
    {
        let position = i + 1;
        let chosen = match case_id {
            None => true,
            Some(k) => k == 0 || position % total == k % total,
        };
        if chosen {
            r.push(i);
        }
        i = i + 1;
    }
    proof {
        lemma_selected_below(total as nat, case_id, total as nat);
    }
    r
}

/// A case passes exactly when the program's output equals the expected
/// answer, character for character: no whitespace or trailing newline is
/// ignored.
pub fn outputs_match(actual: &str, expected: &str) -> (r: bool)
    ensures
        r == (actual@ == expected@),
{
    String::from_str(actual) == String::from_str(expected)
}

/// Whether a case passes: the program ran, and its output equals the
/// expected answer exactly.
pub open spec fn passes(run: Result<(String, u64), OwlError>, expected: Seq<char>) -> bool {
    run matches Ok((actual, _)) && actual@ == expected
}

/// The verdict on one case from the result of running the program on its
/// input: its elapsed time where the output matched the answer; the run's
/// own error where it failed; a `TestFailure` where the output differed.
pub fn check_output(run: Result<(String, u64), OwlError>, expected: &str) -> (r: Result<
    u64,
    OwlError,
>)
    ensures
        r is Ok <==> passes(run, expected@),
        match run {
            Ok((actual, elapsed)) => if actual@ == expected@ {
                r == Ok::<u64, OwlError>(elapsed)
            } else {
                (r matches Err(OwlError::TestFailure(x)) && x@ == "failed test"@)
            },
            Err(e) => r == Err::<u64, OwlError>(e),
        },
{
    match run {
        Ok((actual, elapsed)) => {
            if outputs_match(actual.as_str(), expected) {
                Ok(elapsed)
            } else {
                Err(OwlError::TestFailure(String::from_str("failed test")))
            }
        },
        Err(e) => Err(e),
    }
}

/// `a + b`, or the largest `u64` where the sum exceeds it.
pub open spec fn saturating_sum(a: u64, b: u64) -> u64 {
    if a + b > u64::MAX {
        u64::MAX
    } else {
        (a + b) as u64
    }
}

/// The state of a quest run: the selected cases, how many have been
/// judged, and the tally so far. Elapsed time counts passing cases only.
pub struct QuestRun {
    pub total: usize,
    pub selected: Vec<usize>,
    pub judged: usize,
    pub passed: usize,
    pub failed: usize,
    pub elapsed: u64,
}

impl QuestRun {
    /// Every judged case has been counted once, as passed or failed.
    pub open spec fn wf(&self) -> bool {
        &&& self.judged <= self.selected@.len()
        &&& self.passed + self.failed == self.judged
        &&& forall|j: int| 0 <= j < self.selected@.len() ==> self.selected@[j] < self.total
    }

    /// Whether every selected case has been judged.
    pub open spec fn done(&self) -> bool {
        self.judged == self.selected@.len()
    }

    /// A run over `total` discovered cases with the requested case id.
    pub fn new(total: usize, case_id: Option<usize>) -> (r: QuestRun)
        ensures
            r.wf(),
            r.total == total,
            r.selected@ == selection(total as nat, case_id),
            r.judged == 0,
            r.passed == 0,
            r.failed == 0,
            r.elapsed == 0,
    {
        QuestRun { total, selected: select_cases(total, case_id), judged: 0, passed: 0, failed: 0, elapsed: 0 }
    }

    /// The index of the next case to run, or `None` when all are judged.
    pub fn next_case(&self) -> (r: Option<usize>)
        requires
            self.wf(),
        ensures
            self.done() ==> r is None,
            !self.done() ==> r == Some(self.selected@[self.judged as int]),
            r matches Some(i) ==> i < self.total,
    {
        if self.judged < self.selected.len() {
            Some(self.selected[self.judged])
        } else {
            None
        }
    }

    /// Counts the verdict on the next case: a pass adds its elapsed time.
    pub fn record(&mut self, verdict: &Result<u64, OwlError>)
        requires
            old(self).wf(),
            !old(self).done(),
        ensures
            final(self).wf(),
            final(self).total == old(self).total,
            final(self).selected == old(self).selected,
            final(self).judged == old(self).judged + 1,
            verdict matches Ok(t) ==> final(self).passed == old(self).passed + 1 && final(self).failed
                == old(self).failed && final(self).elapsed == saturating_sum(old(self).elapsed, *t),
            verdict is Err ==> final(self).passed == old(self).passed && final(self).failed == old(
                self,
            ).failed + 1 && final(self).elapsed == old(self).elapsed,
    {
        let n = self.selected.len();
        assert(self.judged < n);
        match verdict {
            Ok(t) => {
                self.passed = self.passed + 1;
                self.elapsed = if self.elapsed <= u64::MAX - *t {
                    self.elapsed + *t
                } else {
                    u64::MAX
                };
            },
            Err(_) => {
                self.failed = self.failed + 1;
            },
        }
        self.judged = self.judged + 1;
    }

    /// Judges the next case from the result of running the program on its
    /// input: it passes exactly when the program ran and its output equals
    /// `expected`, and only a pass adds its elapsed time; a mismatch or a
    /// failed run counts as a failure and the run goes on.
    pub fn judge(&mut self, run: Result<(String, u64), OwlError>, expected: &str) -> (r: Result<u64, OwlError>)
        requires
            old(self).wf(),
            !old(self).done(),
        ensures
            final(self).wf(),
            final(self).total == old(self).total,
            final(self).selected == old(self).selected,
            final(self).judged == old(self).judged + 1,
            r is Ok <==> passes(run, expected@),
            passes(run, expected@) ==> final(self).passed == old(self).passed + 1 && final(self).failed
                == old(self).failed && final(self).elapsed == saturating_sum(old(self).elapsed, run->Ok_0.1),
            !passes(run, expected@) ==> final(self).passed == old(self).passed && final(self).failed == old(
                self,
            ).failed + 1 && final(self).elapsed == old(self).elapsed,
    {
        let verdict = check_output(run, expected);
        self.record(&verdict);
        verdict
    }

    /// The run's terminal status: a `TestFailure` exactly when a case failed.
    pub fn finish(&self) -> (r: Result<(), OwlError>)
        ensures
            r is Ok <==> self.failed == 0,
            r matches Err(e) ==> (e matches OwlError::TestFailure(x) && x@ == "test failures"@),
    {
        if self.failed > 0 {
            Err(OwlError::TestFailure(String::from_str("test failures")))
        } else {
            Ok(())
        }
    }
}

/// Once every selected case is judged, passes and failures together are
/// the number of selected cases, and the run fails exactly when one failed.
pub proof fn lemma_tally_complete(run: QuestRun)
    requires
        run.wf(),
        run.done(),
    ensures
        run.passed + run.failed == run.selected@.len(),
        run.failed > 0 <==> run.passed < run.selected@.len(),
{
}

/// The paths to delete after a run, in order: the target where it is not
/// the source itself, then the incidental build files.
pub open spec fn cleanup_plan(prog: Seq<char>, target: Seq<char>, build_files: Option<Seq<Seq<char>>>) -> Seq<
    Seq<char>,
> {
    let first: Seq<Seq<char>> = if target != prog {
        seq![target]
    } else {
        Seq::empty()
    };
    match build_files {
        Some(fs) => first + fs,
        None => first,
    }
}

/// What remains of the existing paths once `paths` are deleted; deleting a
/// path that does not exist changes nothing.
pub open spec fn after_removing(existing: Set<Seq<char>>, paths: Seq<Seq<char>>) -> Set<Seq<char>> {
    existing.difference(paths.to_set())
}

/// Cleaning up twice leaves the same paths as cleaning up once, and after
/// either no planned path is left.
pub proof fn lemma_cleanup_idempotent(
    existing: Set<Seq<char>>,
    prog: Seq<char>,
    target: Seq<char>,
    build_files: Option<Seq<Seq<char>>>,
)
    ensures
        ({
            let plan = cleanup_plan(prog, target, build_files);
            &&& after_removing(after_removing(existing, plan), plan) == after_removing(existing, plan)
            &&& forall|j: int| 0 <= j < plan.len() ==> !after_removing(existing, plan).contains(#[trigger] plan[j])
        }),
{
    let plan = cleanup_plan(prog, target, build_files);
    assert(after_removing(after_removing(existing, plan), plan) =~= after_removing(existing, plan));
    assert forall|j: int| 0 <= j < plan.len() implies !after_removing(existing, plan).contains(#[trigger] plan[j]) by {
        assert(plan.to_set().contains(plan[j]));
    }
}

/// The paths to delete after running `target`, built from `prog`.
pub fn cleanup_program(prog: &str, target: &str, build_files: Option<Vec<String>>) -> (r: Vec<String>)
    ensures
        texts(r@) == cleanup_plan(prog@, target@, opt_texts(build_files)),
{
    let mut r: Vec<String> = Vec::new();
    if !outputs_match(target, prog) {
        r.push(String::from_str(target));
    }
    let ghost first = texts(r@);
    assert(first =~= (if target@ != prog@ { seq![target@] } else { Seq::<Seq<char>>::empty() }));
    match build_files {
        Some(fs) => {
            let mut i: usize = 0;
            while i < fs.len()
                invariant
                    i <= fs@.len(),
                    texts(r@) =~= first + texts(fs@.subrange(0, i as int)),
                decreases fs@.len() - i,
            {
                let ghost before = r@;
                r.push(fs[i].clone());
                assert(texts(r@) =~= texts(before).push(fs@[i as int]@));
                assert(fs@.subrange(0, i + 1) =~= fs@.subrange(0, i as int).push(fs@[i as int]));
                assert(texts(fs@.subrange(0, i + 1)) =~= texts(fs@.subrange(0, i as int)).push(fs@[i as int]@));
                i = i + 1;
            }
            assert(fs@.subrange(0, i as int) =~= fs@);
        },
        None => {},
    }
    r
}

/// The answer file for an input file: same directory and stem, extension
/// `ans`.
pub fn as_ans_file(in_file: &str) -> (r: Result<String, OwlError>)
    ensures
        match stem_of(in_file@) {
            Some(s) => (r matches Ok(a) && a@ == sibling_of(in_file@, s + ".ans"@)),
            None => (r matches Err(OwlError::UriError(x, _)) && x@ == tagged(in_file@, "': has no file stem"@)),
        },
{
    match file_stem(in_file) {
        Some(s) => Ok(sibling(in_file, s.concat(".ans").as_str())),
        None => Err(OwlError::UriError(tag_text(in_file, "': has no file stem"), String::new())),
    }
}

/// The hint file for an input file: same directory and stem, extension `md`.
pub fn as_hint_file(in_file: &str) -> (r: Option<String>)
    ensures
        match stem_of(in_file@) {
            Some(s) => (r matches Some(h) && h@ == sibling_of(in_file@, s + ".md"@)),
            None => r is None,
        },
{
    match file_stem(in_file) {
        Some(s) => Some(sibling(in_file, s.concat(".md").as_str())),
        None => None,
    }
}

/// Whether the file at `f` has extension `ext`.
pub open spec fn has_ext(f: Seq<char>, ext: Seq<char>) -> bool {
    ext_of(f) == Some(ext)
}

/// The files of `files` with extension `ext`, in order.
pub open spec fn with_ext(files: Seq<Seq<char>>, ext: Seq<char>) -> Seq<Seq<char>>
    decreases files.len(),
{
    if files.len() == 0 {
        files
    } else {
        let rest = with_ext(files.drop_last(), ext);
        if has_ext(files.last(), ext) {
            rest.push(files.last())
        } else {
            rest
        }
    }
}

fn is_ext(f: &str, ext: &str) -> (r: bool)
    ensures
        r == has_ext(f@, ext@),
{
    match extension(f) {
        Some(e) => outputs_match(e.as_str(), ext),
        None => false,
    }
}

/// The test cases among the files found under `root_dir`: those with
/// extension `target_ext`, in the order found. Finding none is an error.
pub fn find_by_ext(root_dir: &str, files: &Vec<String>, target_ext: &str) -> (r: Result<
    Vec<String>,
    OwlError,
>)
    ensures
        with_ext(texts(files@), target_ext@).len() > 0 ==> (r matches Ok(v) && texts(v@) == with_ext(
            texts(files@),
            target_ext@,
        )),
        with_ext(texts(files@), target_ext@).len() == 0 ==> r matches Err(OwlError::FileError(_, _)),
{
    let mut out: Vec<String> = Vec::new();
    let mut i: usize = 0;
    assert(texts(files@).subrange(0, 0) =~= Seq::<Seq<char>>::empty());
    assert(texts(out@) =~= Seq::<Seq<char>>::empty());
    while i < files.len()
        invariant
            i <= files@.len(),
            texts(out@) == with_ext(texts(files@).subrange(0, i as int), target_ext@),
        decreases files@.len() - i,
    {
        let ghost before = out@;
        assert(texts(files@).subrange(0, i + 1).drop_last() =~= texts(files@).subrange(0, i as int));
        if is_ext(files[i].as_str(), target_ext) {
            out.push(files[i].clone());
            assert(texts(out@) =~= texts(before).push(files@[i as int]@));
        }
        i = i + 1;
    }
    assert(texts(files@).subrange(0, i as int) =~= texts(files@));
    if out.len() == 0 {
        let what = String::from_str("No matches found in '").concat(root_dir).concat(
            "' with ext matching '",
        ).concat(target_ext).concat("'");
        Err(OwlError::FileError(what, String::new()))
    } else {
        Ok(out)
    }
}

/// Whether the file at `f` has stem `stem` and extension `ext`.
pub open spec fn has_stem_and_ext(f: Seq<char>, stem: Seq<char>, ext: Seq<char>) -> bool {
    stem_of(f) == Some(stem) && ext_of(f) == Some(ext)
}

/// The first of the files found under `root_dir` with stem `target_stem`
/// and extension `target_ext`. Finding none is an error.
pub fn find_by_stem_and_ext(root_dir: &str, files: &Vec<String>, target_stem: &str, target_ext: &str) -> (r:
    Result<String, OwlError>)
    ensures
        match r {
            Ok(f) => exists|i: int|
                0 <= i < files@.len() && files@[i]@ == f@ && has_stem_and_ext(f@, target_stem@, target_ext@)
                    && forall|j: int| 0 <= j < i ==> !has_stem_and_ext(files@[j]@, target_stem@, target_ext@),
            Err(e) => (e matches OwlError::FileError(_, _)) && forall|j: int|
                0 <= j < files@.len() ==> !has_stem_and_ext(files@[j]@, target_stem@, target_ext@),
        },
{
    let mut i: usize = 0;
    while i < files.len()
        invariant
            i <= files@.len(),
            forall|j: int| 0 <= j < i ==> !has_stem_and_ext(files@[j]@, target_stem@, target_ext@),
        decreases files@.len() - i,
    {
        let f = files[i].as_str();
        let stem_ok = match file_stem(f) {
            Some(s) => outputs_match(s.as_str(), target_stem),
            None => false,
        };
        if stem_ok && is_ext(f, target_ext) {
            return Ok(files[i].clone());
        }
        i = i + 1;
    }
    let what = String::from_str("No matches found in '").concat(root_dir).concat("' matching '").concat(
        target_stem,
    ).concat(".").concat(target_ext).concat("'");
    Err(OwlError::FileError(what, String::new()))
}

/// A way to show a hint file; they are tried in order until one works.
pub enum HintDisplay {
    Bat,
    Glow,
    Plain,
}

/// The ways to show a hint, in the order they are tried: `bat`, `glow`,
/// then the plain text.
pub fn hint_displays() -> (r: Vec<HintDisplay>)
    ensures
        r@ == seq![HintDisplay::Bat, HintDisplay::Glow, HintDisplay::Plain],
{
    let mut r: Vec<HintDisplay> = Vec::new();
    r.push(HintDisplay::Bat);
    r.push(HintDisplay::Glow);
    r.push(HintDisplay::Plain);
    assert(r@ =~= seq![HintDisplay::Bat, HintDisplay::Glow, HintDisplay::Plain]);
    r
}

/// The viewer that shows the hint at `path`; plain text needs none.
pub fn viewer_cmd(display: &HintDisplay, path: &str) -> (r: Option<Invocation>)
    ensures
        match display {
            HintDisplay::Bat => (r matches Some(inv) && inv.program@ == "bat"@ && texts(inv.args@) == seq![path@]),
            HintDisplay::Glow => (r matches Some(inv) && inv.program@ == "glow"@ && texts(inv.args@) == seq![path@]),
            HintDisplay::Plain => r is None,
        },
{
    let program = match display {
        HintDisplay::Bat => String::from_str("bat"),
        HintDisplay::Glow => String::from_str("glow"),
        HintDisplay::Plain => {
            return None;
        },
    };
    let mut args: Vec<String> = Vec::new();
    args.push(String::from_str(path));
    assert(texts(args@) =~= seq![path@]);
    Some(Invocation { program, args })
}

} // verus!
