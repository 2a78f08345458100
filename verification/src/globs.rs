use vstd::prelude::*;
use crate::args::RawArguments;
use crate::error::{ConfigError, ConfigErrorView};

verus! {

/// What expanding one glob pattern against the file system gave.
#[derive(Clone, Debug, PartialEq, Eq)]
pub enum GlobOutcome {
    /// The pattern is not a valid glob pattern.
    InvalidPattern,
    /// The entries in the order of enumeration; `None` stands for an entry
    /// that could not be read or whose path is not text.
    Entries(Vec<Option<String>>),
}

/// The character sequences of a list of texts.
pub open spec fn texts(v: Seq<String>) -> Seq<Seq<char>> {
    Seq::new(v.len(), |i: int| v[i]@)
}

/// The paths of a pattern's entries, if every entry was read.
pub open spec fn entry_paths(entries: Seq<Option<String>>) -> Option<Seq<Seq<char>>> {
    if forall|i: int| 0 <= i < entries.len() ==> (#[trigger] entries[i]) is Some {
        Some(Seq::new(entries.len(), |i: int| entries[i]->Some_0@))
    } else {
        None
    }
}

/// The paths that one outcome contributes, `None` where it is a failure.
pub open spec fn outcome_paths(outcome: GlobOutcome) -> Option<Seq<Seq<char>>> {
    match outcome {
        GlobOutcome::InvalidPattern => None,
        GlobOutcome::Entries(entries) => entry_paths(entries@),
    }
}

/// The matches of all patterns: those of the first pattern in their
/// order, then those of the second, and so on; `None` if any outcome is a
/// failure.
pub open spec fn expanded(outcomes: Seq<GlobOutcome>) -> Option<Seq<Seq<char>>>
    decreases outcomes.len(),
{
    if outcomes.len() == 0 {
        Some(Seq::empty())
    } else {
        match expanded(outcomes.drop_last()) {
            None => None,
            Some(acc) => match outcome_paths(outcomes.last()) {
                None => None,
                Some(paths) => Some(acc + paths),
            },
        }
    }
}

/// A failure among the first `k` outcomes fails the whole expansion.
pub proof fn lemma_glob_failure_stays(outcomes: Seq<GlobOutcome>, k: int)
    requires
        0 <= k <= outcomes.len(),
        expanded(outcomes.take(k)) is None,
    ensures
        expanded(outcomes) is None,
    decreases outcomes.len() - k,
{
    if k < outcomes.len() {
        assert(outcomes.take(k + 1).drop_last() =~= outcomes.take(k));
        lemma_glob_failure_stays(outcomes, k + 1);
    } else {
        assert(outcomes.take(k) =~= outcomes);
    }
}

/// Trusted: `glob::glob`, with the paths it yields turned into text.
/// Nothing is claimed of the result: it depends on the file system.
/// `None` stands for the crate's pattern error; within the list, `None`
/// stands for an entry that the iterator reported as an error, or whose
/// path is not valid text.
#[verifier::external_body]
fn expand_pattern(pattern: &str) -> (r: Option<Vec<Option<String>>>) {
    match glob::glob(pattern) {
        Ok(paths) => Some(
            paths.map(|entry| entry.ok().and_then(|p| p.into_os_string().into_string().ok()))
                .collect(),
        ),
        Err(_) => None,
    }
}

/// Appends the paths of `entries` to `files`; stops and reports `false` at
/// an entry that could not be read.
fn append_entries(files: &mut Vec<String>, entries: &Vec<Option<String>>) -> (complete: bool)
    ensures
        match entry_paths(entries@) {
            Some(paths) => complete && texts(final(files)@) == texts(old(files)@) + paths,
            None => !complete,
        },
{
    let ghost before = files@;
    let mut i: usize = 0;
    while i < entries.len()
        invariant
            i <= entries.len(),
            forall|j: int| 0 <= j < i ==> (#[trigger] entries@[j]) is Some,
            files@.len() == before.len() + i,
            forall|j: int| 0 <= j < before.len() ==> files@[j] == before[j],
            forall|j: int| 0 <= j < i ==> (#[trigger] files@[before.len() + j])@ == entries@[j]->Some_0@,
        decreases entries.len() - i,
    {
        match &entries[i] {
            Some(path) => {
                files.push(path.clone());
            },
            None => {
                return false;
            },
        }
        i += 1;
    }
    proof {
        let paths = entry_paths(entries@)->Some_0;
        let joined = texts(before) + paths;
        assert(texts(files@).len() == joined.len());
        assert forall|j: int| 0 <= j < joined.len() implies texts(files@)[j] == joined[j] by {
            if j >= before.len() {
                let k = j - before.len();
                assert(files@[before.len() + k]@ == entries@[k]->Some_0@);
            }
        }
        assert(texts(files@) =~= joined);
    }
    true
}

/// The matches of all patterns in order, from the outcome of each one.
pub fn collect_matches(outcomes: &Vec<GlobOutcome>) -> (r: Result<Vec<String>, ConfigError>)
    ensures
        match r {
            Ok(files) => expanded(outcomes@) == Some(texts(files@)),
            Err(e) => e@ == ConfigErrorView::GlobFailure && expanded(outcomes@) is None,
        },
{
    let mut files: Vec<String> = Vec::new();
    let mut i: usize = 0;
    assert(outcomes@.take(0) =~= Seq::<GlobOutcome>::empty());
    assert(texts(files@) =~= Seq::<Seq<char>>::empty());
    while i < outcomes.len()
        invariant
            i <= outcomes.len(),
            expanded(outcomes@.take(i as int)) == Some(texts(files@)),
        decreases outcomes.len() - i,
    {
        proof {
            assert(outcomes@.take(i + 1).drop_last() =~= outcomes@.take(i as int));
            assert(outcomes@.take(i + 1).last() == outcomes@[i as int]);
        }
        let complete = match &outcomes[i] {
            GlobOutcome::InvalidPattern => false,
            GlobOutcome::Entries(entries) => append_entries(&mut files, entries),
        };
        if !complete {
            proof {
                assert(expanded(outcomes@.take(i + 1)) is None);
                lemma_glob_failure_stays(outcomes@, i + 1);
            }
            return Err(ConfigError::GlobFailure);
        }
        i += 1;
    }
    proof {
        assert(outcomes@.take(i as int) =~= outcomes@);
    }
    Ok(files)
}

/// Expands each pattern in order against the file system and stops after
/// the first that fails. What comes back depends on the file system:
/// there is one outcome per pattern tried, and only the last can be a
/// failure.
pub fn probe_globs(patterns: &Vec<String>) -> (r: Vec<GlobOutcome>)
    ensures
        r@.len() <= patterns@.len(),
        expanded(r@) is Some ==> r@.len() == patterns@.len(),
        r@.len() > 0 ==> expanded(r@.drop_last()) is Some,
{
    let mut outcomes: Vec<GlobOutcome> = Vec::new();
    let mut i: usize = 0;
    while i < patterns.len()
        invariant
            i <= patterns.len(),
            outcomes@.len() == i,
            expanded(outcomes@) is Some,
        decreases patterns.len() - i,
    {
        let outcome = match expand_pattern(patterns[i].as_str()) {
            None => GlobOutcome::InvalidPattern,
            Some(entries) => GlobOutcome::Entries(entries),
        };
        let ghost before = outcomes@;
        let failed = match &outcome {
            GlobOutcome::InvalidPattern => true,
            GlobOutcome::Entries(entries) => !all_read(entries),
        };
        outcomes.push(outcome);
        proof {
            assert(outcomes@.drop_last() =~= before);
        }
        if failed {
            return outcomes;
        }
        i += 1;
    }
    outcomes
}

/// Whether every entry was read.
fn all_read(entries: &Vec<Option<String>>) -> (r: bool)
    ensures
        r == entry_paths(entries@) is Some,
{
    let mut i: usize = 0;
    while i < entries.len()
        invariant
            i <= entries.len(),
            forall|j: int| 0 <= j < i ==> (#[trigger] entries@[j]) is Some,
        decreases entries.len() - i,
    {
        if entries[i].is_none() {
            return false;
        }
        i += 1;
    }
    true
}

/// Expands the `--glob` patterns in flag order against the file system.
/// With no pattern the list is empty. Otherwise the result is what
/// `expanded` makes of the outcomes that the file system gave, one per
/// pattern: all matches in order, or a glob failure and no list.
pub fn match_glob_files(args: &RawArguments) -> (r: Result<Vec<String>, ConfigError>)
    ensures
        args.glob@.len() == 0 ==> r is Ok && r->Ok_0@.len() == 0,
        exists|outcomes: Seq<GlobOutcome>|
            outcomes.len() <= args.glob@.len() && match r {
                Ok(files) => outcomes.len() == args.glob@.len() && #[trigger] expanded(outcomes)
                    == Some(texts(files@)),
                Err(e) => e@ == ConfigErrorView::GlobFailure && expanded(outcomes) is None,
            },
{
    let outcomes = probe_globs(&args.glob);
    let r = collect_matches(&outcomes);
    proof {
        if args.glob@.len() == 0 {
            assert(outcomes@ =~= Seq::<GlobOutcome>::empty());
            assert(expanded(outcomes@) == Some(Seq::<Seq<char>>::empty()));
            if r is Ok {
                assert(texts(r->Ok_0@).len() == r->Ok_0@.len());
            }
        }
    }
    r
}

} // verus!
