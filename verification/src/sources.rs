use vstd::prelude::*;
use vstd::string::*;
use crate::error::{ConfigError, ConfigErrorView, FileRole};
use crate::variables::{
    assignment_views, last_assigned, lemma_overlaid_lookup, lookup, overlaid, Assignment,
    AssignmentView, Value, ValueView, Variables,
};

verus! {

/// One environment variable; `value` is its text as the value parser read
/// it, `None` where the parser rejected it.
#[derive(Clone, Debug, PartialEq, Eq)]
pub struct EnvEntry {
    pub name: String,
    pub value: Option<Value>,
}

/// One line of the variables file.
#[derive(Clone, Debug, PartialEq, Eq)]
pub enum FileLine {
    /// The line could not be read as text.
    Unreadable,
    /// The line's text, and the assignment that the parser made of it
    /// (`None` where it rejected the line).
    Read { text: String, assignment: Option<Assignment> },
}

/// One `--variable` occurrence: its text, and the assignment that the
/// parser made of it (`None` where it rejected the text).
#[derive(Clone, Debug, PartialEq, Eq)]
pub struct InlineVariable {
    pub text: String,
    pub assignment: Option<Assignment>,
}

/// What one item of a variable source contributes.
#[derive(Clone, Debug, PartialEq, Eq)]
pub enum Step {
    Skip,
    Assign(Assignment),
    Fail(ConfigError),
}

/// A `Step` with its texts as character sequences.
pub enum StepView {
    Skip,
    Assign(AssignmentView),
    Fail(ConfigErrorView),
}

impl View for Step {
    type V = StepView;

    open spec fn view(&self) -> StepView {
        match *self {
            Step::Skip => StepView::Skip,
            Step::Assign(a) => StepView::Assign(a@),
            Step::Fail(e) => StepView::Fail(e@),
        }
    }
}

/// The views of a list of steps, in the same order.
pub open spec fn step_views(steps: Seq<Step>) -> Seq<StepView> {
    Seq::new(steps.len(), |i: int| steps[i]@)
}

/// Whether an environment name starts with `HURL_`.
pub open spec fn has_env_prefix(name: Seq<char>) -> bool {
    name.len() >= 5 && name[0] == 'H' && name[1] == 'U' && name[2] == 'R' && name[3] == 'L'
        && name[4] == '_'
}

/// An environment name without its first five characters.
pub open spec fn without_env_prefix(name: Seq<char>) -> Seq<char> {
    name.subrange(5, name.len() as int)
}

/// Whether `c` has the Unicode property White_Space.
pub open spec fn is_whitespace(c: char) -> bool {
    let n = c as u32;
    (0x09 <= n <= 0x0d) || n == 0x20 || n == 0x85 || n == 0xa0 || n == 0x1680 || (0x2000 <= n
        <= 0x200a) || n == 0x2028 || n == 0x2029 || n == 0x202f || n == 0x205f || n == 0x3000
}

/// The first character of `s` that is not white space.
pub open spec fn first_visible(s: Seq<char>) -> Option<char>
    decreases s.len(),
{
    if s.len() == 0 {
        None
    } else if is_whitespace(s[0]) {
        first_visible(s.subrange(1, s.len() as int))
    } else {
        Some(s[0])
    }
}

/// Whether a line of the variables file carries no assignment: it is
/// blank, or its first visible character is `#`.
pub open spec fn is_skipped(line: Seq<char>) -> bool {
    match first_visible(line) {
        None => true,
        Some(c) => c == '#',
    }
}

/// What an environment variable contributes.
pub open spec fn env_step(e: EnvEntry) -> StepView {
    if has_env_prefix(e.name@) {
        match e.value {
            Some(v) => StepView::Assign(
                AssignmentView { name: without_env_prefix(e.name@), value: v@ },
            ),
            None => StepView::Fail(ConfigErrorView::InvalidVariable(e.name@)),
        }
    } else {
        StepView::Skip
    }
}

/// What line `index` (from 0) of the variables file at `path` contributes.
pub open spec fn file_step(path: Seq<char>, index: int, line: FileLine) -> StepView {
    let failure = StepView::Fail(
        ConfigErrorView::ParseFailure { line: (index + 1) as nat, source: path },
    );
    match line {
        FileLine::Unreadable => failure,
        FileLine::Read { text, assignment } => if is_skipped(text@) {
            StepView::Skip
        } else {
            match assignment {
                Some(a) => StepView::Assign(a@),
                None => failure,
            }
        },
    }
}

/// What an inline assignment contributes.
pub open spec fn inline_step(v: InlineVariable) -> StepView {
    match v.assignment {
        Some(a) => StepView::Assign(a@),
        None => StepView::Fail(ConfigErrorView::InvalidVariable(v.text@)),
    }
}

/// The steps of the environment, in its order.
pub open spec fn env_steps(env: Seq<EnvEntry>) -> Seq<StepView> {
    Seq::new(env.len(), |i: int| env_step(env[i]))
}

/// The steps of the variables file: none without a path, one failure
/// where the file does not exist (`lines` is `None`), else one per line.
pub open spec fn file_steps(path: Option<String>, lines: Option<Vec<FileLine>>) -> Seq<StepView> {
    match path {
        None => Seq::empty(),
        Some(p) => match lines {
            None => seq![
                StepView::Fail(ConfigErrorView::FileNotFound(FileRole::VariablesFile, p@)),
            ],
            Some(ls) => Seq::new(ls@.len(), |i: int| file_step(p@, i, ls@[i])),
        },
    }
}

/// The steps of the inline assignments, left to right.
pub open spec fn inline_steps(inline: Seq<InlineVariable>) -> Seq<StepView> {
    Seq::new(inline.len(), |i: int| inline_step(inline[i]))
}

/// The assignments of a list of steps in order, or its first failure.
pub open spec fn gathered(steps: Seq<StepView>) -> Result<Seq<AssignmentView>, ConfigErrorView>
    decreases steps.len(),
{
    if steps.len() == 0 {
        Ok(Seq::empty())
    } else {
        match gathered(steps.drop_last()) {
            Err(e) => Err(e),
            Ok(acc) => match steps.last() {
                StepView::Skip => Ok(acc),
                StepView::Assign(a) => Ok(acc.push(a)),
                StepView::Fail(e) => Err(e),
            },
        }
    }
}

/// The merged mapping: the environment first, the file over it, the inline
/// assignments over both; or the first failure in that order.
pub open spec fn merged(
    env: Seq<EnvEntry>,
    path: Option<String>,
    lines: Option<Vec<FileLine>>,
    inline: Seq<InlineVariable>,
) -> Result<Map<Seq<char>, ValueView>, ConfigErrorView> {
    match gathered(env_steps(env)) {
        Err(e) => Err(e),
        Ok(from_env) => match gathered(file_steps(path, lines)) {
            Err(e) => Err(e),
            Ok(from_file) => match gathered(inline_steps(inline)) {
                Err(e) => Err(e),
                Ok(from_inline) => Ok(
                    overlaid(
                        overlaid(overlaid(Map::empty(), from_env), from_file),
                        from_inline,
                    ),
                ),
            },
        },
    }
}

/// A failure among the first `k` steps is the failure of the whole list.
pub proof fn lemma_failure_stays(steps: Seq<StepView>, k: int)
    requires
        0 <= k <= steps.len(),
        gathered(steps.take(k)) is Err,
    ensures
        gathered(steps) == gathered(steps.take(k)),
    decreases steps.len() - k,
{
    if k < steps.len() {
        assert(steps.take(k + 1).drop_last() =~= steps.take(k));
        lemma_failure_stays(steps, k + 1);
    } else {
        assert(steps.take(k) =~= steps);
    }
}

/// Precedence: wherever the merge succeeds, a name has the value of the
/// last inline assignment to it; where there is none, of the last
/// assignment in the file; where there is none either, of the last
/// prefixed environment variable; and otherwise no value.
pub proof fn lemma_merge_precedence(
    env: Seq<EnvEntry>,
    path: Option<String>,
    lines: Option<Vec<FileLine>>,
    inline: Seq<InlineVariable>,
    name: Seq<char>,
)
    requires
        merged(env, path, lines, inline) is Ok,
    ensures
        lookup(merged(env, path, lines, inline)->Ok_0, name) == match last_assigned(
            gathered(inline_steps(inline))->Ok_0,
            name,
        ) {
            Some(v) => Some(v),
            None => match last_assigned(gathered(file_steps(path, lines))->Ok_0, name) {
                Some(v) => Some(v),
                None => last_assigned(gathered(env_steps(env))->Ok_0, name),
            },
        },
{
    let from_env = gathered(env_steps(env))->Ok_0;
    let from_file = gathered(file_steps(path, lines))->Ok_0;
    let from_inline = gathered(inline_steps(inline))->Ok_0;
    let empty = Map::<Seq<char>, ValueView>::empty();
    lemma_overlaid_lookup(empty, from_env, name);
    lemma_overlaid_lookup(overlaid(empty, from_env), from_file, name);
    lemma_overlaid_lookup(overlaid(overlaid(empty, from_env), from_file), from_inline, name);
}

/// Whether `c` has the Unicode property White_Space.
pub fn char_is_whitespace(c: char) -> (r: bool)
    ensures
        r == is_whitespace(c),
{
    let n: u32 = c as u32;
    (0x09 <= n && n <= 0x0d) || n == 0x20 || n == 0x85 || n == 0xa0 || n == 0x1680 || (0x2000 <= n
        && n <= 0x200a) || n == 0x2028 || n == 0x2029 || n == 0x202f || n == 0x205f || n == 0x3000
}

/// Whether a line of the variables file carries no assignment.
pub fn line_is_skipped(line: &str) -> (r: bool)
    ensures
        r == is_skipped(line@),
{
    let n: usize = line.unicode_len();
    let mut i: usize = 0;
    assert(line@.subrange(0, n as int) =~= line@);
    while i < n
        invariant
            n == line@.len(),
            i <= n,
            first_visible(line@) == first_visible(line@.subrange(i as int, n as int)),
        decreases n - i,
    {
        let c = line.get_char(i);
        proof {
            let rest = line@.subrange(i as int, n as int);
            assert(rest[0] == c);
            assert(rest.subrange(1, rest.len() as int) =~= line@.subrange(i + 1, n as int));
        }
        if !char_is_whitespace(c) {
            return c == '#';
        }
        i += 1;
    }
    true
}

/// The name of a user variable that an environment name carries: the
/// name without `HURL_` where it starts so, else `None`.
pub fn strip_env_prefix(name: &str) -> (r: Option<String>)
    ensures
        match r {
            Some(s) => has_env_prefix(name@) && s@ == without_env_prefix(name@),
            None => !has_env_prefix(name@),
        },
{
    let n: usize = name.unicode_len();
    if n >= 5 && name.get_char(0) == 'H' && name.get_char(1) == 'U' && name.get_char(2) == 'R'
        && name.get_char(3) == 'L' && name.get_char(4) == '_' {
        Some(name.substring_char(5, n).to_owned())
    } else {
        None
    }
}

/// The assignments of `steps` in order, or the first failure.
pub fn gather(steps: Vec<Step>) -> (r: Result<Vec<Assignment>, ConfigError>)
    ensures
        match r {
            Ok(v) => gathered(step_views(steps@)) == Ok::<_, ConfigErrorView>(
                assignment_views(v@),
            ),
            Err(e) => gathered(step_views(steps@)) == Err::<Seq<AssignmentView>, _>(e@),
        },
{
    let ghost views = step_views(steps@);
    let mut out: Vec<Assignment> = Vec::new();
    let mut i: usize = 0;
    assert(assignment_views(out@) =~= Seq::<AssignmentView>::empty());
    assert(views.take(0) =~= Seq::<StepView>::empty());
    while i < steps.len()
        invariant
            i <= steps.len(),
            views == step_views(steps@),
            gathered(views.take(i as int)) == Ok::<_, ConfigErrorView>(assignment_views(out@)),
        decreases steps.len() - i,
    {
        proof {
            assert(views.take(i + 1).drop_last() =~= views.take(i as int));
            assert(views.take(i + 1).last() == steps@[i as int]@);
        }
        match &steps[i] {
            Step::Skip => {},
            Step::Assign(a) => {
                let ghost before = assignment_views(out@);
                out.push(a.duplicate());
                assert(assignment_views(out@) =~= before.push(a@));
            },
            Step::Fail(e) => {
                let err = copy_error(e);
                proof {
                    assert(gathered(views.take(i + 1)) == Err::<Seq<AssignmentView>, _>(e@));
                    lemma_failure_stays(views, i + 1);
                }
                return Err(err);
            },
        }
        i += 1;
    }
    proof {
        assert(views.take(i as int) =~= views);
    }
    Ok(out)
}

/// A copy of an error with the same view.
pub fn copy_error(e: &ConfigError) -> (r: ConfigError)
    ensures
        r@ == e@,
{
    match e {
        ConfigError::FileNotFound(role, path) => ConfigError::FileNotFound(*role, path.clone()),
        ConfigError::InvalidDirectory(path) => ConfigError::InvalidDirectory(path.clone()),
        ConfigError::DirectoryNotCreated(path) => ConfigError::DirectoryNotCreated(path.clone()),
        ConfigError::InvalidNumber(option) => ConfigError::InvalidNumber(*option),
        ConfigError::GlobFailure => ConfigError::GlobFailure,
        ConfigError::ParseFailure { line, source } => ConfigError::ParseFailure {
            line: *line,
            source: source.clone(),
        },
        ConfigError::InvalidVariable(text) => ConfigError::InvalidVariable(text.clone()),
        ConfigError::ConflictingFlags(conflict) => ConfigError::ConflictingFlags(*conflict),
    }
}

/// The steps of the environment.
pub fn environment_steps(env: &Vec<EnvEntry>) -> (r: Vec<Step>)
    ensures
        step_views(r@) == env_steps(env@),
{
    let mut out: Vec<Step> = Vec::new();
    let mut i: usize = 0;
    while i < env.len()
        invariant
            i <= env.len(),
            out@.len() == i,
            forall|j: int| 0 <= j < i ==> (#[trigger] out@[j])@ == env_step(env@[j]),
        decreases env.len() - i,
    {
        let entry = &env[i];
        let step = match strip_env_prefix(entry.name.as_str()) {
            None => Step::Skip,
            Some(name) => match &entry.value {
                Some(v) => Step::Assign(Assignment { name, value: v.duplicate() }),
                None => Step::Fail(ConfigError::InvalidVariable(entry.name.clone())),
            },
        };
        out.push(step);
        i += 1;
    }
    assert(step_views(out@) =~= env_steps(env@));
    out
}

/// The steps of the variables file.
pub fn variables_file_steps(path: &Option<String>, lines: &Option<Vec<FileLine>>) -> (r: Vec<Step>)
    ensures
        step_views(r@) == file_steps(*path, *lines),
{
    let mut out: Vec<Step> = Vec::new();
    match path {
        None => {
            assert(step_views(out@) =~= file_steps(*path, *lines));
        },
        Some(p) => match lines {
            None => {
                out.push(Step::Fail(ConfigError::FileNotFound(FileRole::VariablesFile, p.clone())));
                assert(step_views(out@) =~= file_steps(*path, *lines));
            },
            Some(ls) => {
                let mut i: usize = 0;
                while i < ls.len()
                    invariant
                        i <= ls.len(),
                        out@.len() == i,
                        forall|j: int|
                            0 <= j < i ==> (#[trigger] out@[j])@ == file_step(p@, j, ls@[j]),
                    decreases ls.len() - i,
                {
                    let step = match &ls[i] {
                        FileLine::Unreadable => Step::Fail(
                            ConfigError::ParseFailure { line: i + 1, source: p.clone() },
                        ),
                        FileLine::Read { text, assignment } => {
                            if line_is_skipped(text.as_str()) {
                                Step::Skip
                            } else {
                                match assignment {
                                    Some(a) => Step::Assign(a.duplicate()),
                                    None => Step::Fail(
                                        ConfigError::ParseFailure { line: i + 1, source: p.clone() },
                                    ),
                                }
                            }
                        },
                    };
                    out.push(step);
                    i += 1;
                }
                assert(step_views(out@) =~= file_steps(*path, *lines));
            },
        },
    }
    out
}

/// The steps of the inline assignments.
pub fn inline_variable_steps(inline: &Vec<InlineVariable>) -> (r: Vec<Step>)
    ensures
        step_views(r@) == inline_steps(inline@),
{
    let mut out: Vec<Step> = Vec::new();
    let mut i: usize = 0;
    while i < inline.len()
        invariant
            i <= inline.len(),
            out@.len() == i,
            forall|j: int| 0 <= j < i ==> (#[trigger] out@[j])@ == inline_step(inline@[j]),
        decreases inline.len() - i,
    {
        let step = match &inline[i].assignment {
            Some(a) => Step::Assign(a.duplicate()),
            None => Step::Fail(ConfigError::InvalidVariable(inline[i].text.clone())),
        };
        out.push(step);
        i += 1;
    }
    assert(step_views(out@) =~= inline_steps(inline@));
    out
}

/// Merges the three variable sources. `lines` is what the file at `path`
/// holds, `None` where it does not exist; without a path it is not read.
pub fn merge(
    env: &Vec<EnvEntry>,
    path: &Option<String>,
    lines: &Option<Vec<FileLine>>,
    inline: &Vec<InlineVariable>,
) -> (r: Result<Variables, ConfigError>)
    ensures
        match r {
            Ok(v) => v.wf() && merged(env@, *path, *lines, inline@) == Ok::<_, ConfigErrorView>(v@),
            Err(e) => merged(env@, *path, *lines, inline@) == Err::<
                Map<Seq<char>, ValueView>,
                _,
            >(e@),
        },
{
    let from_env = match gather(environment_steps(env)) {
        Ok(v) => v,
        Err(e) => { return Err(e); },
    };
    let from_file = match gather(variables_file_steps(path, lines)) {
        Ok(v) => v,
        Err(e) => { return Err(e); },
    };
    let from_inline = match gather(inline_variable_steps(inline)) {
        Ok(v) => v,
        Err(e) => { return Err(e); },
    };
    let mut variables = Variables::new();
    variables.apply(from_env);
    variables.apply(from_file);
    variables.apply(from_inline);
    Ok(variables)
}

} // verus!
