use vstd::prelude::*;
use crate::args::RawArguments;
use crate::error::{ConfigErrorView, NumberOption};
use crate::format::{Action, Event, ExitCode, FormatArguments};
use crate::globs::{expanded, outcome_paths, GlobOutcome};
use crate::text::{decimal, decimal_up_to, is_digit, unsigned_part};
use crate::options::{
    resolved, resolved_checked, spec_max_redirect, unlimited_text, Context, OutputType,
};
use crate::sources::{file_step, is_skipped, FileLine, StepView};

verus! {

/// The redirect limit: without the option it is 50; `-1` means no limit;
/// a decimal number within range is that number; every other text is
/// refused as an invalid number.
pub proof fn lemma_max_redirect(text: Option<String>)
    ensures
        text is None ==> spec_max_redirect(text) == Ok::<_, ConfigErrorView>(Some(50usize)),
        text is Some && text->Some_0@ == unlimited_text() ==> spec_max_redirect(text) == Ok::<
            _,
            ConfigErrorView,
        >(None::<usize>),
        text is Some && text->Some_0@ != unlimited_text() ==> (match decimal(text->Some_0@) {
            Some(n) if n <= usize::MAX => spec_max_redirect(text) == Ok::<_, ConfigErrorView>(
                Some(n as usize),
            ),
            _ => spec_max_redirect(text) == Err::<Option<usize>, _>(
                ConfigErrorView::InvalidNumber(NumberOption::MaxRedirects),
            ),
        }),
{
}

/// A text with a character that is no digit, other than a plus sign in
/// front, writes no number.
pub proof fn lemma_non_digit_is_no_number(s: Seq<char>, i: int)
    requires
        0 <= i < s.len(),
        !is_digit(s[i]),
        !(i == 0 && s[0] == '+'),
    ensures
        decimal(s) is None,
        decimal_up_to(s, usize::MAX as nat) is None,
{
    let d = unsigned_part(s);
    if s[0] == '+' {
        assert(d[i - 1] == s[i]);
    } else {
        assert(d[i] == s[i]);
    }
}

/// `--json` together with `--no-output` is refused as a conflict,
/// whatever else was given and whatever the context.
pub proof fn lemma_json_excludes_no_output(args: RawArguments, ctx: Context)
    requires
        args.json,
        args.no_output,
    ensures
        resolved_checked(args, ctx) matches Err(ConfigErrorView::ConflictingFlags(_)),
{
}

/// `--interactive` together with a `--to-entry` value is refused as a
/// conflict, whatever else was given and whatever the context.
pub proof fn lemma_interactive_excludes_to_entry(args: RawArguments, ctx: Context)
    requires
        args.interactive,
        args.to_entry is Some,
    ensures
        resolved_checked(args, ctx) matches Err(ConfigErrorView::ConflictingFlags(_)),
{
}

/// What holds of every resolved configuration: test mode turns on
/// progress and summary and, unless JSON was asked for, turns the output
/// off; interactive mode is verbose; failing fast is off exactly with
/// `--fail-at-end`; and the no-proxy list is the proxy address.
pub proof fn lemma_resolved_flags(args: RawArguments, ctx: Context)
    requires
        resolved(args, ctx) is Ok,
    ensures
        ({
            let o = resolved(args, ctx)->Ok_0;
            &&& args.test ==> o.progress && o.summary && o.output_type != OutputType::ResponseBody
            &&& args.test && !args.json ==> o.output_type == OutputType::NoOutput
            &&& args.json ==> o.output_type == OutputType::Json
            &&& o.interactive ==> o.verbose
            &&& o.fail_fast == !args.fail_at_end
            &&& o.no_proxy == o.proxy
        }),
{
}

/// A configuration that passed the conflict check never has both the
/// interactive flag and an entry cutoff.
pub proof fn lemma_interactive_without_cutoff(args: RawArguments, ctx: Context)
    requires
        resolved_checked(args, ctx) is Ok,
    ensures
        !(resolved_checked(args, ctx)->Ok_0.interactive && resolved_checked(
            args,
            ctx,
        )->Ok_0.to_entry is Some),
{
}

/// A line of the variables file that is blank or a comment contributes
/// nothing, whatever the parser made of it.
pub proof fn lemma_skipped_line_adds_nothing(path: Seq<char>, index: int, line: FileLine)
    requires
        line matches FileLine::Read { text, .. } && is_skipped(text@),
    ensures
        file_step(path, index, line) == StepView::Skip,
{
}

/// Two patterns: the list holds the matches of the first in their order,
/// then those of the second.
pub proof fn lemma_two_patterns(first: GlobOutcome, second: GlobOutcome)
    requires
        outcome_paths(first) is Some,
        outcome_paths(second) is Some,
    ensures
        expanded(seq![first, second]) == Some(
            outcome_paths(first)->Some_0 + outcome_paths(second)->Some_0,
        ),
{
    let both = seq![first, second];
    let one = both.drop_last();
    assert(one.drop_last() =~= Seq::<GlobOutcome>::empty());
    assert(one.last() == first);
    assert(expanded(one.drop_last()) == Some(Seq::<Seq<char>>::empty()));
    assert(Seq::<Seq<char>>::empty() + outcome_paths(first)->Some_0 =~= outcome_paths(
        first,
    )->Some_0);
    assert(expanded(one) == Some(outcome_paths(first)->Some_0));
    assert(both.last() == second);
}

/// Check mode ends with exit code 1 once the findings are logged, however
/// many there were; and a valid document in check mode is never rendered.
pub proof fn lemma_check_mode_fails(args: FormatArguments)
    requires
        args.check,
    ensures
        args.spec_next(Event::Parsed { valid: true }) == Action::LogFindings,
        args.spec_next(Event::FindingsLogged) matches Action::Exit(o)
            && o.spec_exit_code().spec_code() == 1,
{
}

/// A named input that does not exist ends the run with exit code 1; an
/// input that could not be read, or is not a valid document, with 2.
pub proof fn lemma_input_failures(args: FormatArguments, stdin_is_terminal: bool)
    ensures
        !args.spec_reads_stdin() ==> (args.spec_next(
            Event::InputProbed { stdin_is_terminal, input_exists: false },
        ) matches Action::Exit(o) && o.spec_exit_code().spec_code() == 1),
        args.spec_next(Event::InputRead { readable: false }) matches Action::Exit(o)
            && o.spec_exit_code().spec_code() == 2,
        args.spec_next(Event::Parsed { valid: false }) matches Action::Exit(o)
            && o.spec_exit_code().spec_code() == 2,
{
}

/// `--in-place` with standard input is refused at the start, with exit
/// code 1, before the input is looked at or read.
pub proof fn lemma_in_place_needs_a_file(args: FormatArguments)
    requires
        args.in_place,
        args.spec_reads_stdin(),
    ensures
        args.spec_next(Event::Started) matches Action::Exit(o) && o.spec_exit_code()
            == ExitCode::ValidationOrUsageFailure,
{
}

/// Conflicting formatter flags end the run at the start with exit code
/// 1, before the input is looked at or read.
pub proof fn lemma_format_conflict_rejected(args: FormatArguments)
    requires
        args.spec_conflict() is Some,
    ensures
        args.spec_next(Event::Started) matches Action::Exit(o) && o.spec_exit_code()
            == ExitCode::ValidationOrUsageFailure,
{
}

/// Only a run that formatted and wrote its document exits with 0.
pub proof fn lemma_success_means_written(args: FormatArguments, event: Event)
    requires
        args.spec_next(event) matches Action::Exit(o) && o.spec_exit_code() == ExitCode::Success,
    ensures
        event == Event::Written,
{
}

} // verus!
