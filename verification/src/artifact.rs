//! Artifact discovery: from the listing of the build-output directory to the
//! one compiled test script that will be run.
//!
//! Among several candidates the one modified last is chosen. Candidates with
//! the same modification time are told apart by their paths: the path that
//! comes last in lexicographic order by code point wins, so the choice never
//! depends on the order in which the directory was listed.

use vstd::prelude::*;
use crate::failure::{failure, failure_about, outcome, ErrorKind, Failure, FailureModel};
use crate::naming::{is_test_js, is_test_js_name};
use crate::text::{
    join_path, joined_path, lemma_lex_le_antisymmetric, lemma_lex_le_reflexive,
    lemma_lex_le_total, lemma_lex_le_transitive, lex_le, precedes_or_equals, views,
};

verus! {

/// One entry of a directory listing: its file name and, where the file system
/// gave one, its modification time.
#[derive(Clone, Debug, PartialEq, Eq)]
pub struct DirectoryEntry {
    pub name: String,
    pub modified_at: Option<i128>,
}

/// What a [`DirectoryEntry`] stands for.
pub struct EntryModel {
    pub name: Seq<char>,
    pub modified_at: Option<i128>,
}

impl View for DirectoryEntry {
    type V = EntryModel;

    open spec fn view(&self) -> EntryModel {
        EntryModel { name: self.name@, modified_at: self.modified_at }
    }
}

/// A compiled test script found in the build-output directory.
#[derive(Clone, Debug, PartialEq, Eq)]
pub struct ArtifactCandidate {
    pub path: String,
    pub modified_at: Option<i128>,
}

/// What an [`ArtifactCandidate`] stands for.
pub struct CandidateModel {
    pub path: Seq<char>,
    pub modified_at: Option<i128>,
}

impl View for ArtifactCandidate {
    type V = CandidateModel;

    open spec fn view(&self) -> CandidateModel {
        CandidateModel { path: self.path@, modified_at: self.modified_at }
    }
}

/// The artifact that was chosen, and whether it had to be chosen among several.
#[derive(Clone, Debug, PartialEq, Eq)]
pub struct Selection {
    pub path: String,
    pub multiple: bool,
}

/// What a [`Selection`] stands for.
pub struct SelectionModel {
    pub path: Seq<char>,
    pub multiple: bool,
}

impl View for Selection {
    type V = SelectionModel;

    open spec fn view(&self) -> SelectionModel {
        SelectionModel { path: self.path@, multiple: self.multiple }
    }
}

/// The lines that warn of a selection among several candidates: none where
/// there was but one.
pub open spec fn warnings_of(selection: SelectionModel) -> Seq<Seq<char>> {
    if selection.multiple {
        seq!["Multiple js test file has found."@, "Use the latest one, "@ + selection.path]
    } else {
        Seq::empty()
    }
}

impl Selection {
    /// The warning to show for this selection, line by line.
    pub fn warnings(&self) -> (lines: Vec<String>)
        ensures
            views(lines@) == warnings_of(self@),
    {
        let mut lines: Vec<String> = Vec::new();
        if self.multiple {
            lines.push("Multiple js test file has found.".to_owned());
            let mut second = "Use the latest one, ".to_owned();
            second.append(self.path.as_str());
            lines.push(second);
        }
        assert(views(lines@) =~= warnings_of(self@));
        lines
    }
}

/// The models of a list of entries.
pub open spec fn entry_models(entries: Seq<DirectoryEntry>) -> Seq<EntryModel> {
    Seq::new(entries.len(), |i: int| entries[i]@)
}

/// The models of a list of candidates.
pub open spec fn candidate_models(candidates: Seq<ArtifactCandidate>) -> Seq<CandidateModel> {
    Seq::new(candidates.len(), |i: int| candidates[i]@)
}

/// The build-output directory of `target` below the project root.
pub open spec fn output_dir_of(root: Seq<char>, target: Seq<char>) -> Seq<char> {
    joined_path(joined_path(joined_path(root, "target"@), target), "debug"@)
}

/// The directory `<root>/target/<target>/debug` in which the build leaves its
/// artifacts.
pub fn build_output_dir(proj_root: &str, target: &str) -> (dir: String)
    ensures
        dir@ == output_dir_of(proj_root@, target@),
{
    let base = join_path(proj_root, "target");
    let of_target = join_path(base.as_str(), target);
    join_path(of_target.as_str(), "debug")
}

/// The entry's name follows the naming convention.
pub open spec fn conforms(entry: EntryModel) -> bool {
    is_test_js_name(entry.name)
}

/// The entries whose names follow the naming convention, in listing order.
pub open spec fn conforming(entries: Seq<EntryModel>) -> Seq<EntryModel> {
    entries.filter(|e: EntryModel| conforms(e))
}

/// The candidate that `entry` is once it is known to lie in `dir`.
pub open spec fn candidate_in(dir: Seq<char>, entry: EntryModel) -> CandidateModel {
    CandidateModel { path: joined_path(dir, entry.name), modified_at: entry.modified_at }
}

/// The candidates in `dir`: the conforming entries, each under its full path.
pub open spec fn candidates_of(dir: Seq<char>, entries: Seq<EntryModel>) -> Seq<CandidateModel> {
    conforming(entries).map_values(|e: EntryModel| candidate_in(dir, e))
}

/// Filters a listing of the build-output directory of `target` down to the
/// compiled test scripts, each under its full path. Entries with other names
/// are passed over.
pub fn find_test_jss(proj_root: &str, target: &str, entries: &Vec<DirectoryEntry>) -> (found: Vec<
    ArtifactCandidate,
>)
    ensures
        candidate_models(found@) == candidates_of(
            output_dir_of(proj_root@, target@),
            entry_models(entries@),
        ),
{
    let dir = build_output_dir(proj_root, target);
    let mut found: Vec<ArtifactCandidate> = Vec::new();
    let mut i: usize = 0;
    proof {
        reveal(Seq::filter);
        assert(entry_models(entries@).take(0) =~= Seq::<EntryModel>::empty());
        assert(candidate_models(found@) =~= candidates_of(dir@, entry_models(entries@).take(0)));
    }
    while i < entries.len()
        invariant
            i <= entries.len(),
            dir@ == output_dir_of(proj_root@, target@),
            candidate_models(found@) == candidates_of(dir@, entry_models(entries@).take(i as int)),
        decreases entries.len() - i,
    {
        let entry = &entries[i];
        proof {
            let all = entry_models(entries@);
            let seen = all.take(i as int);
            assert(all.take(i + 1) =~= seen.push(entry@));
            seen.lemma_filter_push(entry@, |e: EntryModel| conforms(e));
        }
        if is_test_js(entry.name.as_str()) {
            let ghost before = candidate_models(found@);
            let path = join_path(dir.as_str(), entry.name.as_str());
            found.push(ArtifactCandidate { path, modified_at: entry.modified_at });
            proof {
                assert(candidate_models(found@) =~= before.push(candidate_in(dir@, entry@)));
                assert(candidates_of(dir@, entry_models(entries@).take(i + 1)) =~= before.push(
                    candidate_in(dir@, entry@),
                ));
            }
        }
        i = i + 1;
    }
    proof {
        assert(entry_models(entries@).take(entries.len() as int) =~= entry_models(entries@));
    }
    found
}

/// `a` does not rank above `b`: it was modified earlier, or at the same time
/// with a path that comes no later.
pub open spec fn ranks_no_higher(a: CandidateModel, b: CandidateModel) -> bool {
    a.modified_at->0 < b.modified_at->0 || (a.modified_at->0 == b.modified_at->0 && lex_le(
        a.path,
        b.path,
    ))
}

/// No candidate ranks above the one at index `i`.
pub open spec fn is_latest(candidates: Seq<CandidateModel>, i: int) -> bool {
    &&& 0 <= i < candidates.len()
    &&& forall|j: int| 0 <= j < candidates.len() ==> ranks_no_higher(candidates[j], candidates[i])
}

/// `path` is the path of a candidate above which none ranks.
pub open spec fn selects(candidates: Seq<CandidateModel>, path: Seq<char>) -> bool {
    exists|i: int| is_latest(candidates, i) && candidates[i].path == path
}

/// Every candidate has a modification time.
pub open spec fn all_stamped(candidates: Seq<CandidateModel>) -> bool {
    forall|i: int| 0 <= i < candidates.len() ==> (#[trigger] candidates[i]).modified_at is Some
}

/// The candidate at index `i` is the first without a modification time.
pub open spec fn first_unstamped(candidates: Seq<CandidateModel>, i: int) -> bool {
    &&& 0 <= i < candidates.len()
    &&& candidates[i].modified_at is None
    &&& forall|j: int| 0 <= j < i ==> (#[trigger] candidates[j]).modified_at is Some
}

/// The message for a build-output directory that holds no test script.
pub open spec fn no_artifact_message(dir: Seq<char>) -> Seq<char> {
    "No test script found in "@ + dir
}

/// The message for a candidate whose modification time is needed and unknown.
pub open spec fn no_timestamp_message(path: Seq<char>) -> Seq<char> {
    "Several test scripts found and no modification time for "@ + path
}

/// The message for a build-output directory that does not exist.
pub open spec fn no_directory_message(dir: Seq<char>) -> Seq<char> {
    "Directory "@ + dir + " not found"@
}

/// The path that is selected among `candidates`: that of the candidate above
/// which none ranks. Among candidates that all have a modification time there
/// is such a path ([`lemma_latest_exists`]) and only one
/// ([`lemma_selection_is_unique`]).
pub open spec fn latest_path(candidates: Seq<CandidateModel>) -> Seq<char> {
    choose|path: Seq<char>| selects(candidates, path)
}

/// The index of the first candidate without a modification time, where
/// there is one.
pub open spec fn first_unstamped_index(candidates: Seq<CandidateModel>) -> int {
    choose|i: int| first_unstamped(candidates, i)
}

/// What selecting among `candidates` found in `dir` gives:
/// - none: a discovery error;
/// - one: that one, whatever is known of its modification time;
/// - several, each with a modification time: the path of the candidate above
///   which none ranks, marked as chosen among several;
/// - several otherwise: a discovery error that names the first candidate
///   without a modification time.
pub open spec fn selection(dir: Seq<char>, candidates: Seq<CandidateModel>) -> Result<
    SelectionModel,
    FailureModel,
> {
    if candidates.len() == 0 {
        Err(failure(ErrorKind::Discovery, no_artifact_message(dir)))
    } else if candidates.len() == 1 {
        Ok(SelectionModel { path: candidates[0].path, multiple: false })
    } else if all_stamped(candidates) {
        Ok(SelectionModel { path: latest_path(candidates), multiple: true })
    } else {
        Err(
            failure(
                ErrorKind::Discovery,
                no_timestamp_message(candidates[first_unstamped_index(candidates)].path),
            ),
        )
    }
}

/// What locating the artifact of `target` below `root` gives, given the
/// listing of the build-output directory, or none where it could not be
/// listed.
pub open spec fn located_artifact(
    root: Seq<char>,
    target: Seq<char>,
    listing: Option<Seq<EntryModel>>,
) -> Result<SelectionModel, FailureModel> {
    let dir = output_dir_of(root, target);
    match listing {
        None => Err(failure(ErrorKind::Discovery, no_directory_message(dir))),
        Some(entries) => selection(dir, candidates_of(dir, entries)),
    }
}

/// The models of an optional listing.
pub open spec fn listing_model(listing: Option<&Vec<DirectoryEntry>>) -> Option<Seq<EntryModel>> {
    match listing {
        Some(entries) => Some(entry_models(entries@)),
        None => None,
    }
}

/// The ranking is reflexive.
pub proof fn lemma_rank_reflexive(a: CandidateModel)
    ensures
        ranks_no_higher(a, a),
{
    lemma_lex_le_reflexive(a.path);
}

/// Of two candidates one does not rank above the other.
pub proof fn lemma_rank_total(a: CandidateModel, b: CandidateModel)
    ensures
        ranks_no_higher(a, b) || ranks_no_higher(b, a),
{
    lemma_lex_le_total(a.path, b.path);
}

/// The ranking is transitive.
pub proof fn lemma_rank_transitive(a: CandidateModel, b: CandidateModel, c: CandidateModel)
    requires
        ranks_no_higher(a, b),
        ranks_no_higher(b, c),
    ensures
        ranks_no_higher(a, c),
{
    if a.modified_at->0 == b.modified_at->0 && b.modified_at->0 == c.modified_at->0 {
        lemma_lex_le_transitive(a.path, b.path, c.path);
    }
}

/// At most one path is selected: two candidates above which none ranks
/// have the same modification time and the same path.
pub proof fn lemma_selection_is_unique(
    candidates: Seq<CandidateModel>,
    first: Seq<char>,
    second: Seq<char>,
)
    requires
        selects(candidates, first),
        selects(candidates, second),
    ensures
        first == second,
{
    let i = choose|i: int| is_latest(candidates, i) && candidates[i].path == first;
    let j = choose|j: int| is_latest(candidates, j) && candidates[j].path == second;
    assert(ranks_no_higher(candidates[j], candidates[i]));
    assert(ranks_no_higher(candidates[i], candidates[j]));
    lemma_lex_le_antisymmetric(first, second);
}

/// Whether `a` does not rank above `b`.
fn not_ranked_above(a: &ArtifactCandidate, b: &ArtifactCandidate) -> (r: bool)
    requires
        a.modified_at is Some,
        b.modified_at is Some,
    ensures
        r == ranks_no_higher(a@, b@),
{
    let ta: i128 = a.modified_at.unwrap();
    let tb: i128 = b.modified_at.unwrap();
    if ta < tb {
        true
    } else if ta == tb {
        precedes_or_equals(a.path.as_str(), b.path.as_str())
    } else {
        false
    }
}

/// Chooses the one artifact to run among the candidates found in `dir`.
pub fn select_artifact(dir: &str, candidates: &Vec<ArtifactCandidate>) -> (r: Result<
    Selection,
    Failure,
>)
    ensures
        outcome(r) == selection(dir@, candidate_models(candidates@)),
{
    let ghost models = candidate_models(candidates@);
    let n: usize = candidates.len();
    if n == 0 {
        return Err(failure_about(ErrorKind::Discovery, "No test script found in ", dir));
    }
    if n == 1 {
        return Ok(Selection { path: candidates[0].path.clone(), multiple: false });
    }
    let mut k: usize = 0;
    while k < n
        invariant
            k <= n,
            2 <= n == candidates.len(),
            models == candidate_models(candidates@),
            forall|j: int| 0 <= j < k ==> (#[trigger] models[j]).modified_at is Some,
        decreases n - k,
    {
        if candidates[k].modified_at.is_none() {
            proof {
                assert(first_unstamped(models, k as int));
                assert(!all_stamped(models));
                let first = first_unstamped_index(models);
                assert(first_unstamped(models, first));
                assert(first == k);
            }
            return Err(
                failure_about(
                    ErrorKind::Discovery,
                    "Several test scripts found and no modification time for ",
                    candidates[k].path.as_str(),
                ),
            );
        }
        k = k + 1;
    }
    assert(all_stamped(models));
    let mut best: usize = 0;
    let mut i: usize = 1;
    proof {
        lemma_rank_reflexive(models[0]);
    }
    while i < n
        invariant
            1 <= i <= n,
            best < i,
            n == candidates.len(),
            models == candidate_models(candidates@),
            all_stamped(models),
            forall|j: int| 0 <= j < i ==> ranks_no_higher(#[trigger] models[j], models[best as int]),
        decreases n - i,
    {
        assert(models[best as int].modified_at is Some);
        assert(models[i as int].modified_at is Some);
        if not_ranked_above(&candidates[best], &candidates[i]) {
            proof {
                lemma_rank_reflexive(models[i as int]);
                assert forall|j: int| 0 <= j < i + 1 implies ranks_no_higher(
                    #[trigger] models[j],
                    models[i as int],
                ) by {
                    if j < i {
                        lemma_rank_transitive(models[j], models[best as int], models[i as int]);
                    }
                }
            }
            best = i;
        } else {
            proof {
                lemma_rank_total(models[best as int], models[i as int]);
            }
        }
        i = i + 1;
    }
    proof {
        assert(is_latest(models, best as int));
        assert(selects(models, models[best as int].path));
        lemma_selection_is_unique(models, latest_path(models), models[best as int].path);
    }
    Ok(Selection { path: candidates[best].path.clone(), multiple: true })
}

/// Finds the one compiled test script to run. `listing` is what the
/// build-output directory of `target` holds, or `None` where that directory
/// could not be listed.
pub fn locate_artifact(
    proj_root: &str,
    target: &str,
    listing: Option<&Vec<DirectoryEntry>>,
) -> (r: Result<Selection, Failure>)
    ensures
        outcome(r) == located_artifact(proj_root@, target@, listing_model(listing)),
{
    let dir = build_output_dir(proj_root, target);
    match listing {
        None => {
            let mut message = "Directory ".to_owned();
            message.append(dir.as_str());
            message.append(" not found");
            Err(Failure::new(ErrorKind::Discovery, message))
        },
        Some(entries) => {
            let candidates = find_test_jss(proj_root, target, entries);
            select_artifact(dir.as_str(), &candidates)
        },
    }
}

/// Among candidates there is always one above which none ranks.
pub proof fn lemma_latest_exists(candidates: Seq<CandidateModel>)
    requires
        candidates.len() > 0,
    ensures
        exists|i: int| is_latest(candidates, i),
        selects(candidates, latest_path(candidates)),
    decreases candidates.len(),
{
    let last = candidates.len() - 1;
    if candidates.len() == 1 {
        lemma_rank_reflexive(candidates[0]);
        assert(is_latest(candidates, 0));
    } else {
        let rest = candidates.drop_last();
        lemma_latest_exists(rest);
        let i = choose|i: int| is_latest(rest, i);
        lemma_rank_total(rest[i], candidates[last]);
        if ranks_no_higher(rest[i], candidates[last]) {
            lemma_rank_reflexive(candidates[last]);
            assert forall|j: int| 0 <= j < candidates.len() implies ranks_no_higher(
                candidates[j],
                candidates[last],
            ) by {
                if j < last {
                    assert(candidates[j] == rest[j]);
                    assert(ranks_no_higher(rest[j], rest[i]));
                    lemma_rank_transitive(rest[j], rest[i], candidates[last]);
                }
            }
            assert(is_latest(candidates, last));
        } else {
            assert forall|j: int| 0 <= j < candidates.len() implies ranks_no_higher(
                candidates[j],
                candidates[i],
            ) by {
                if j < last {
                    assert(candidates[j] == rest[j]);
                    assert(ranks_no_higher(rest[j], rest[i]));
                }
            }
            assert(is_latest(candidates, i));
        }
    }
    let k = choose|k: int| is_latest(candidates, k);
    assert(selects(candidates, candidates[k].path));
}

/// The selected path belongs to a candidate whose modification time is the
/// greatest of all.
pub proof fn lemma_selected_is_newest(candidates: Seq<CandidateModel>, path: Seq<char>)
    requires
        selects(candidates, path),
    ensures
        exists|i: int|
            0 <= i < candidates.len() && (#[trigger] candidates[i]).path == path && forall|j: int|
                0 <= j < candidates.len() ==> (#[trigger] candidates[j]).modified_at->0
                    <= candidates[i].modified_at->0,
{
    let i = choose|i: int| is_latest(candidates, i) && candidates[i].path == path;
    assert forall|j: int| 0 <= j < candidates.len() implies (#[trigger] candidates[j]).modified_at->0
        <= candidates[i].modified_at->0 by {
        assert(ranks_no_higher(candidates[j], candidates[i]));
    }
}

/// A candidate modified strictly later than every other one is selected,
/// wherever its path stands in lexicographic order.
pub proof fn lemma_strictly_newest_is_selected(
    candidates: Seq<CandidateModel>,
    newest: int,
    path: Seq<char>,
)
    requires
        0 <= newest < candidates.len(),
        forall|j: int|
            0 <= j < candidates.len() && j != newest ==> (#[trigger] candidates[j]).modified_at->0
                < candidates[newest].modified_at->0,
    ensures
        selects(candidates, path) <==> path == candidates[newest].path,
{
    lemma_rank_reflexive(candidates[newest]);
    assert(is_latest(candidates, newest));
    if selects(candidates, path) {
        lemma_selection_is_unique(candidates, path, candidates[newest].path);
    }
}

/// Selection does not depend on the order of the candidates: what is selected
/// among them is selected among any rearrangement of them.
pub proof fn lemma_selection_ignores_order(
    candidates: Seq<CandidateModel>,
    rearranged: Seq<CandidateModel>,
    path: Seq<char>,
)
    requires
        candidates.to_multiset() == rearranged.to_multiset(),
        selects(candidates, path),
    ensures
        selects(rearranged, path),
{
    candidates.to_multiset_ensures();
    rearranged.to_multiset_ensures();
    let i = choose|i: int| is_latest(candidates, i) && candidates[i].path == path;
    assert(candidates.contains(candidates[i]));
    assert(candidates.to_multiset().count(candidates[i]) > 0);
    assert(rearranged.to_multiset().count(candidates[i]) > 0);
    assert(rearranged.contains(candidates[i]));
    let k = choose|k: int| 0 <= k < rearranged.len() && rearranged[k] == candidates[i];
    assert forall|j: int| 0 <= j < rearranged.len() implies ranks_no_higher(
        rearranged[j],
        rearranged[k],
    ) by {
        assert(rearranged.contains(rearranged[j]));
        assert(rearranged.to_multiset().count(rearranged[j]) > 0);
        assert(candidates.to_multiset().count(rearranged[j]) > 0);
        assert(candidates.contains(rearranged[j]));
        let m = choose|m: int| 0 <= m < candidates.len() && candidates[m] == rearranged[j];
        assert(ranks_no_higher(candidates[m], candidates[i]));
    }
    assert(is_latest(rearranged, k));
}

/// The conforming entries of a listing in which the entry at index `only`
/// conforms and no other does.
proof fn lemma_conforming_single(entries: Seq<EntryModel>, only: int)
    requires
        0 <= only < entries.len(),
        conforms(entries[only]),
        forall|j: int| 0 <= j < entries.len() && j != only ==> !conforms(#[trigger] entries[j]),
    ensures
        conforming(entries) == seq![entries[only]],
    decreases entries.len(),
{
    reveal(Seq::filter);
    let rest = entries.drop_last();
    if only == entries.len() - 1 {
        assert(rest.all(|e: EntryModel| !(|e: EntryModel| conforms(e))(e))) by {
            assert forall|j: int| 0 <= j < rest.len() implies !conforms(#[trigger] rest[j]) by {
                assert(rest[j] == entries[j]);
            }
        }
        rest.lemma_all_neg_filter_empty(|e: EntryModel| conforms(e));
        assert(conforming(rest) =~= Seq::<EntryModel>::empty());
        assert(conforming(entries) =~= seq![entries[only]]);
    } else {
        assert forall|j: int| 0 <= j < rest.len() && j != only implies !conforms(
            #[trigger] rest[j],
        ) by {
            assert(rest[j] == entries[j]);
        }
        assert(rest[only] == entries[only]);
        lemma_conforming_single(rest, only);
        assert(!conforms(entries[entries.len() - 1]));
    }
}

/// Where exactly one entry of the listing follows the naming convention, that
/// entry is selected, whatever else the directory holds.
pub proof fn lemma_single_script_is_selected(dir: Seq<char>, entries: Seq<EntryModel>, only: int)
    requires
        0 <= only < entries.len(),
        conforms(entries[only]),
        forall|j: int| 0 <= j < entries.len() && j != only ==> !conforms(#[trigger] entries[j]),
    ensures
        selection(dir, candidates_of(dir, entries)) == Ok::<SelectionModel, FailureModel>(
            SelectionModel { path: joined_path(dir, entries[only].name), multiple: false },
        ),
{
    lemma_conforming_single(entries, only);
    assert(candidates_of(dir, entries) =~= seq![candidate_in(dir, entries[only])]);
}

/// Where no entry of the listing follows the naming convention, locating
/// fails with a discovery error.
pub proof fn lemma_no_script_is_an_error(dir: Seq<char>, entries: Seq<EntryModel>)
    requires
        forall|j: int| 0 <= j < entries.len() ==> !conforms(#[trigger] entries[j]),
    ensures
        selection(dir, candidates_of(dir, entries)) == Err::<SelectionModel, FailureModel>(
            failure(ErrorKind::Discovery, no_artifact_message(dir)),
        ),
{
    assert(entries.all(|e: EntryModel| !(|e: EntryModel| conforms(e))(e)));
    entries.lemma_all_neg_filter_empty(|e: EntryModel| conforms(e));
    assert(candidates_of(dir, entries).len() == 0);
}

/// Where several candidates are found and each has a modification time,
/// selecting succeeds, marks the selection as one among several, and gives
/// the path of a candidate whose modification time is the greatest of all.
pub proof fn lemma_several_scripts_give_the_newest(dir: Seq<char>, candidates: Seq<CandidateModel>)
    requires
        candidates.len() >= 2,
        all_stamped(candidates),
    ensures
        selection(dir, candidates) matches Ok(s) && s.multiple && exists|i: int|
            0 <= i < candidates.len() && (#[trigger] candidates[i]).path == s.path && forall|
                j: int,
            |
                0 <= j < candidates.len() ==> (#[trigger] candidates[j]).modified_at->0
                    <= candidates[i].modified_at->0,
{
    lemma_latest_exists(candidates);
    lemma_selected_is_newest(candidates, latest_path(candidates));
}

/// Of several candidates that each have a modification time, the one modified
/// strictly later than every other is selected, wherever its path stands in
/// lexicographic order.
pub proof fn lemma_strictly_newest_wins(dir: Seq<char>, candidates: Seq<CandidateModel>, newest: int)
    requires
        candidates.len() >= 2,
        all_stamped(candidates),
        0 <= newest < candidates.len(),
        forall|j: int|
            0 <= j < candidates.len() && j != newest ==> (#[trigger] candidates[j]).modified_at->0
                < candidates[newest].modified_at->0,
    ensures
        selection(dir, candidates) == Ok::<SelectionModel, FailureModel>(
            SelectionModel { path: candidates[newest].path, multiple: true },
        ),
{
    lemma_latest_exists(candidates);
    lemma_strictly_newest_is_selected(candidates, newest, latest_path(candidates));
}

/// What is selected does not depend on the order in which the candidates
/// were found.
pub proof fn lemma_selection_ignores_listing_order(
    dir: Seq<char>,
    candidates: Seq<CandidateModel>,
    rearranged: Seq<CandidateModel>,
)
    requires
        candidates.to_multiset() == rearranged.to_multiset(),
        all_stamped(candidates),
    ensures
        selection(dir, candidates) matches Ok(s) ==> selection(dir, rearranged) == Ok::<
            SelectionModel,
            FailureModel,
        >(s),
{
    candidates.to_multiset_ensures();
    rearranged.to_multiset_ensures();
    if candidates.len() == 1 {
        assert(rearranged.contains(rearranged[0]));
        assert(rearranged.to_multiset().count(rearranged[0]) > 0);
        assert(candidates.to_multiset().count(rearranged[0]) > 0);
        assert(candidates.contains(rearranged[0]));
    } else if candidates.len() >= 2 {
        assert forall|i: int| 0 <= i < rearranged.len() implies (#[trigger] rearranged[i]).modified_at is Some by {
            assert(rearranged.contains(rearranged[i]));
            assert(rearranged.to_multiset().count(rearranged[i]) > 0);
            assert(candidates.to_multiset().count(rearranged[i]) > 0);
            assert(candidates.contains(rearranged[i]));
        }
        lemma_latest_exists(candidates);
        lemma_latest_exists(rearranged);
        lemma_selection_ignores_order(candidates, rearranged, latest_path(candidates));
        lemma_selection_is_unique(rearranged, latest_path(candidates), latest_path(rearranged));
    }
}

} // verus!
