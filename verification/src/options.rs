use vstd::prelude::*;
use vstd::string::*;
use crate::args::RawArguments;
use crate::error::{ConfigError, ConfigErrorView, FileRole, NumberOption};
use crate::globs::{collect_matches, expanded, texts, GlobOutcome};
use crate::text::{decimal_up_to, parse_u64, parse_usize, same_text};
use crate::sources::{merge, merged, EnvEntry, FileLine, InlineVariable};
use crate::terminal::{is_terminal, StandardStream};
use crate::variables::{ValueView, Variables};

verus! {

/// Seconds allowed for connecting when `--connect-timeout` is absent.
pub const DEFAULT_CONNECT_TIMEOUT: u64 = 300;

/// Seconds allowed for a transfer when `--max-time` is absent.
pub const DEFAULT_TIMEOUT: u64 = 300;

/// Redirects followed when `--max-redirs` is absent.
pub const DEFAULT_MAX_REDIRECT: usize = 50;

/// What a run writes to its output.
#[derive(Clone, Copy, Debug, PartialEq, Eq, Structural)]
pub enum OutputType {
    ResponseBody,
    Json,
    NoOutput,
}

/// What a path names on the file system.
#[derive(Clone, Copy, Debug, PartialEq, Eq, Structural)]
pub enum PathState {
    Missing,
    Directory,
    Other,
}

/// What resolution learns from outside the argument list: the terminal,
/// the file system, the environment, and the value parser's reading of
/// each variable text.
#[derive(Clone, Debug, PartialEq, Eq)]
pub struct Context {
    /// Whether standard output is attached to an interactive terminal.
    pub stdout_is_terminal: bool,
    /// Whether the `--cacert` path names an existing regular file.
    pub cacert_is_file: bool,
    /// The outcome of expanding each `--glob` pattern, in flag order.
    pub glob_outcomes: Vec<GlobOutcome>,
    /// What the `--report-html` path names.
    pub html_dir: PathState,
    /// Whether creating the missing report directory succeeded; read only
    /// where `creates_html_dir` holds.
    pub html_dir_created: bool,
    /// The environment, in the order it was enumerated.
    pub environment: Vec<EnvEntry>,
    /// The lines of the `--variables-file`, `None` where it does not exist.
    pub variables_file_lines: Option<Vec<FileLine>>,
    /// The `--variable` occurrences, left to right.
    pub inline_variables: Vec<InlineVariable>,
}

impl Context {
    /// Whether a context reports nothing: no terminal, no file, no
    /// directory, an empty environment.
    pub open spec fn is_bare(self) -> bool {
        &&& !self.stdout_is_terminal
        &&& !self.cacert_is_file
        &&& self.glob_outcomes@.len() == 0
        &&& self.html_dir == PathState::Missing
        &&& !self.html_dir_created
        &&& self.environment@.len() == 0
        &&& self.variables_file_lines is None
        &&& self.inline_variables@.len() == 0
    }

    /// Looks whether standard output is attached to a terminal and
    /// records the answer; the rest of the context stays as it is.
    pub fn observe_terminal(&mut self)
        ensures
            final(self).cacert_is_file == old(self).cacert_is_file,
            final(self).glob_outcomes == old(self).glob_outcomes,
            final(self).html_dir == old(self).html_dir,
            final(self).html_dir_created == old(self).html_dir_created,
            final(self).environment == old(self).environment,
            final(self).variables_file_lines == old(self).variables_file_lines,
            final(self).inline_variables == old(self).inline_variables,
    {
        self.stdout_is_terminal = is_terminal(StandardStream::Stdout);
    }

    /// The context that reports nothing.
    pub fn new() -> (r: Context)
        ensures
            r.is_bare(),
    {
        Context {
            stdout_is_terminal: false,
            cacert_is_file: false,
            glob_outcomes: Vec::new(),
            html_dir: PathState::Missing,
            html_dir_created: false,
            environment: Vec::new(),
            variables_file_lines: None,
            inline_variables: Vec::new(),
        }
    }
}

/// The resolved configuration. Times are in seconds; `max_redirect` is
/// `None` for no limit.
#[derive(Clone, Debug, PartialEq, Eq)]
pub struct CliOptions {
    pub cacert_file: Option<String>,
    pub color: bool,
    pub compressed: bool,
    pub connect_timeout: u64,
    pub cookie_input_file: Option<String>,
    pub cookie_output_file: Option<String>,
    pub fail_fast: bool,
    pub file_root: Option<String>,
    pub follow_location: bool,
    pub glob_files: Vec<String>,
    pub html_dir: Option<String>,
    pub ignore_asserts: bool,
    pub include_headers: bool,
    pub insecure: bool,
    pub interactive: bool,
    pub junit_file: Option<String>,
    pub max_redirect: Option<usize>,
    pub no_proxy: Option<String>,
    pub output: Option<String>,
    pub output_type: OutputType,
    pub progress: bool,
    pub proxy: Option<String>,
    pub summary: bool,
    pub timeout: u64,
    pub to_entry: Option<usize>,
    pub user: Option<String>,
    pub user_agent: Option<String>,
    pub variables: Variables,
    pub verbose: bool,
}

/// A `CliOptions` with its texts as character sequences and its variables
/// as a mapping.
pub struct CliOptionsView {
    pub cacert_file: Option<Seq<char>>,
    pub color: bool,
    pub compressed: bool,
    pub connect_timeout: u64,
    pub cookie_input_file: Option<Seq<char>>,
    pub cookie_output_file: Option<Seq<char>>,
    pub fail_fast: bool,
    pub file_root: Option<Seq<char>>,
    pub follow_location: bool,
    pub glob_files: Seq<Seq<char>>,
    pub html_dir: Option<Seq<char>>,
    pub ignore_asserts: bool,
    pub include_headers: bool,
    pub insecure: bool,
    pub interactive: bool,
    pub junit_file: Option<Seq<char>>,
    pub max_redirect: Option<usize>,
    pub no_proxy: Option<Seq<char>>,
    pub output: Option<Seq<char>>,
    pub output_type: OutputType,
    pub progress: bool,
    pub proxy: Option<Seq<char>>,
    pub summary: bool,
    pub timeout: u64,
    pub to_entry: Option<usize>,
    pub user: Option<Seq<char>>,
    pub user_agent: Option<Seq<char>>,
    pub variables: Map<Seq<char>, ValueView>,
    pub verbose: bool,
}

/// The characters of an optional text.
pub open spec fn opt_text(o: Option<String>) -> Option<Seq<char>> {
    match o {
        Some(s) => Some(s@),
        None => None,
    }
}

impl View for CliOptions {
    type V = CliOptionsView;

    open spec fn view(&self) -> CliOptionsView {
        CliOptionsView {
            cacert_file: opt_text(self.cacert_file),
            color: self.color,
            compressed: self.compressed,
            connect_timeout: self.connect_timeout,
            cookie_input_file: opt_text(self.cookie_input_file),
            cookie_output_file: opt_text(self.cookie_output_file),
            fail_fast: self.fail_fast,
            file_root: opt_text(self.file_root),
            follow_location: self.follow_location,
            glob_files: texts(self.glob_files@),
            html_dir: opt_text(self.html_dir),
            ignore_asserts: self.ignore_asserts,
            include_headers: self.include_headers,
            insecure: self.insecure,
            interactive: self.interactive,
            junit_file: opt_text(self.junit_file),
            max_redirect: self.max_redirect,
            no_proxy: opt_text(self.no_proxy),
            output: opt_text(self.output),
            output_type: self.output_type,
            progress: self.progress,
            proxy: opt_text(self.proxy),
            summary: self.summary,
            timeout: self.timeout,
            to_entry: self.to_entry,
            user: opt_text(self.user),
            user_agent: opt_text(self.user_agent),
            variables: self.variables@,
            verbose: self.verbose,
        }
    }
}

/// Colour is on with `--color`, off with `--no-color`, and otherwise on
/// exactly when standard output is a terminal.
pub open spec fn spec_output_color(args: RawArguments, stdout_is_terminal: bool) -> bool {
    if args.color {
        true
    } else if args.no_color {
        false
    } else {
        stdout_is_terminal
    }
}

/// `--json` wins; then `--no-output` or `--test`; else the response body.
pub open spec fn spec_output_type(args: RawArguments) -> OutputType {
    if args.json {
        OutputType::Json
    } else if args.no_output || args.test {
        OutputType::NoOutput
    } else {
        OutputType::ResponseBody
    }
}

/// The certificate path, which must name an existing regular file.
pub open spec fn spec_cacert_file(args: RawArguments, ctx: Context) -> Result<
    Option<Seq<char>>,
    ConfigErrorView,
> {
    match args.cacert_file {
        None => Ok(None),
        Some(path) => if ctx.cacert_is_file {
            Ok(Some(path@))
        } else {
            Err(ConfigErrorView::FileNotFound(FileRole::CaCertificate, path@))
        },
    }
}

/// A count of seconds: the default where the option is absent, else the
/// decimal number that its text writes.
pub open spec fn spec_seconds(text: Option<String>, default: u64, option: NumberOption) -> Result<
    u64,
    ConfigErrorView,
> {
    match text {
        None => Ok(default),
        Some(s) => match decimal_up_to(s@, u64::MAX as nat) {
            Some(n) => Ok(n as u64),
            None => Err(ConfigErrorView::InvalidNumber(option)),
        },
    }
}

/// The text that asks for redirects without limit.
pub open spec fn unlimited_text() -> Seq<char> {
    seq!['-', '1']
}

/// The redirect limit: 50 where the option is absent, none for `-1`, else
/// the decimal number that the text writes.
pub open spec fn spec_max_redirect(text: Option<String>) -> Result<Option<usize>, ConfigErrorView> {
    match text {
        None => Ok(Some(DEFAULT_MAX_REDIRECT)),
        Some(s) => if s@ == unlimited_text() {
            Ok(None)
        } else {
            match decimal_up_to(s@, usize::MAX as nat) {
                Some(n) => Ok(Some(n as usize)),
                None => Err(ConfigErrorView::InvalidNumber(NumberOption::MaxRedirects)),
            }
        },
    }
}

/// The entry cutoff: none where the option is absent, else the decimal
/// number that the text writes.
pub open spec fn spec_to_entry(text: Option<String>) -> Result<Option<usize>, ConfigErrorView> {
    match text {
        None => Ok(None),
        Some(s) => match decimal_up_to(s@, usize::MAX as nat) {
            Some(n) => Ok(Some(n as usize)),
            None => Err(ConfigErrorView::InvalidNumber(NumberOption::ToEntry)),
        },
    }
}

/// The report directory: an existing directory is used as it is, a
/// missing one must have been created, anything else is refused.
pub open spec fn spec_html_dir(args: RawArguments, ctx: Context) -> Result<
    Option<Seq<char>>,
    ConfigErrorView,
> {
    match args.report_html {
        None => Ok(None),
        Some(dir) => match ctx.html_dir {
            PathState::Directory => Ok(Some(dir@)),
            PathState::Other => Err(ConfigErrorView::InvalidDirectory(dir@)),
            PathState::Missing => if ctx.html_dir_created {
                Ok(Some(dir@))
            } else {
                Err(ConfigErrorView::DirectoryNotCreated(dir@))
            },
        },
    }
}

/// The matched files, or a glob failure.
pub open spec fn spec_glob_files(ctx: Context) -> Result<Seq<Seq<char>>, ConfigErrorView> {
    match expanded(ctx.glob_outcomes@) {
        Some(files) => Ok(files),
        None => Err(ConfigErrorView::GlobFailure),
    }
}

/// Whether resolution reaches the report directory and finds it missing,
/// so that it has to be created: the checks that come before it
/// (certificate, connect timeout, globs) have passed.
pub open spec fn creates_html_dir(args: RawArguments, ctx: Context) -> bool {
    &&& spec_cacert_file(args, ctx) is Ok
    &&& spec_seconds(args.connect_timeout, DEFAULT_CONNECT_TIMEOUT, NumberOption::ConnectTimeout) is Ok
    &&& spec_glob_files(ctx) is Ok
    &&& args.report_html is Some
    &&& ctx.html_dir == PathState::Missing
}

/// The configuration that the arguments resolve to in a context, or the
/// first failure in the order: certificate, connect timeout, globs,
/// report directory, redirect limit, transfer time, entry cutoff,
/// variables.
pub open spec fn resolved(args: RawArguments, ctx: Context) -> Result<
    CliOptionsView,
    ConfigErrorView,
> {
    match spec_cacert_file(args, ctx) {
        Err(e) => Err(e),
        Ok(cacert_file) => match spec_seconds(
            args.connect_timeout,
            DEFAULT_CONNECT_TIMEOUT,
            NumberOption::ConnectTimeout,
        ) {
            Err(e) => Err(e),
            Ok(connect_timeout) => match spec_glob_files(ctx) {
                Err(e) => Err(e),
                Ok(glob_files) => match spec_html_dir(args, ctx) {
                    Err(e) => Err(e),
                    Ok(html_dir) => match spec_max_redirect(args.max_redirects) {
                        Err(e) => Err(e),
                        Ok(max_redirect) => match spec_seconds(
                            args.max_time,
                            DEFAULT_TIMEOUT,
                            NumberOption::MaxTime,
                        ) {
                            Err(e) => Err(e),
                            Ok(timeout) => match spec_to_entry(args.to_entry) {
                                Err(e) => Err(e),
                                Ok(to_entry) => match merged(
                                    ctx.environment@,
                                    args.variables_file,
                                    ctx.variables_file_lines,
                                    ctx.inline_variables@,
                                ) {
                                    Err(e) => Err(e),
                                    Ok(variables) => Ok(
                                        CliOptionsView {
                                            cacert_file,
                                            color: spec_output_color(args, ctx.stdout_is_terminal),
                                            compressed: args.compressed,
                                            connect_timeout,
                                            cookie_input_file: opt_text(args.cookies_input_file),
                                            cookie_output_file: opt_text(args.cookies_output_file),
                                            fail_fast: !args.fail_at_end,
                                            file_root: opt_text(args.file_root),
                                            follow_location: args.follow_location,
                                            glob_files,
                                            html_dir,
                                            ignore_asserts: args.ignore_asserts,
                                            include_headers: args.include_headers,
                                            insecure: args.insecure,
                                            interactive: args.interactive,
                                            junit_file: opt_text(args.junit),
                                            max_redirect,
                                            no_proxy: opt_text(args.proxy),
                                            output: opt_text(args.output),
                                            output_type: spec_output_type(args),
                                            progress: args.progress || args.test,
                                            proxy: opt_text(args.proxy),
                                            summary: args.summary || args.test,
                                            timeout,
                                            to_entry,
                                            user: opt_text(args.user),
                                            user_agent: opt_text(args.user_agent),
                                            variables,
                                            verbose: args.verbose || args.interactive,
                                        },
                                    ),
                                },
                            },
                        },
                    },
                },
            },
        },
    }
}

/// Resolution behind the check for conflicting flags.
pub open spec fn resolved_checked(args: RawArguments, ctx: Context) -> Result<
    CliOptionsView,
    ConfigErrorView,
> {
    match args.spec_conflict() {
        Some(c) => Err(ConfigErrorView::ConflictingFlags(c)),
        None => resolved(args, ctx),
    }
}

/// A copy of an optional text.
pub fn copy_text(o: &Option<String>) -> (r: Option<String>)
    ensures
        opt_text(r) == opt_text(*o),
{
    match o {
        Some(s) => Some(s.clone()),
        None => None,
    }
}

/// Whether output is coloured.
pub fn output_color(args: &RawArguments, stdout_is_terminal: bool) -> (r: bool)
    ensures
        r == spec_output_color(*args, stdout_is_terminal),
{
    if args.color {
        true
    } else if args.no_color {
        false
    } else {
        stdout_is_terminal
    }
}

/// Whether output is coloured, with standard output looked at only where
/// the flags leave the choice open: the flags decide alone where one is
/// given, and otherwise the answer is what the terminal said.
pub fn detect_output_color(args: &RawArguments) -> (r: bool)
    ensures
        args.color ==> r,
        !args.color && args.no_color ==> !r,
        exists|stdout_is_terminal: bool| r == #[trigger] spec_output_color(*args, stdout_is_terminal),
{
    if args.color {
        assert(spec_output_color(*args, true));
        true
    } else if args.no_color {
        assert(!spec_output_color(*args, true));
        false
    } else {
        let attached = is_terminal(StandardStream::Stdout);
        assert(attached == spec_output_color(*args, attached));
        attached
    }
}

/// What the run writes to its output.
pub fn output_type(args: &RawArguments) -> (r: OutputType)
    ensures
        r == spec_output_type(*args),
{
    if args.json {
        OutputType::Json
    } else if args.no_output || args.test {
        OutputType::NoOutput
    } else {
        OutputType::ResponseBody
    }
}

/// The certificate path, checked.
pub fn cacert_file(args: &RawArguments, ctx: &Context) -> (r: Result<Option<String>, ConfigError>)
    ensures
        match r {
            Ok(o) => spec_cacert_file(*args, *ctx) == Ok::<_, ConfigErrorView>(opt_text(o)),
            Err(e) => spec_cacert_file(*args, *ctx) == Err::<Option<Seq<char>>, _>(e@),
        },
{
    match &args.cacert_file {
        None => Ok(None),
        Some(path) => {
            if ctx.cacert_is_file {
                Ok(Some(path.clone()))
            } else {
                Err(ConfigError::FileNotFound(FileRole::CaCertificate, path.clone()))
            }
        },
    }
}

/// A count of seconds from an option's text.
pub fn seconds(text: &Option<String>, default: u64, option: NumberOption) -> (r: Result<
    u64,
    ConfigError,
>)
    ensures
        match r {
            Ok(n) => spec_seconds(*text, default, option) == Ok::<_, ConfigErrorView>(n),
            Err(e) => spec_seconds(*text, default, option) == Err::<u64, _>(e@),
        },
{
    match text {
        None => Ok(default),
        Some(s) => match parse_u64(s.as_str()) {
            Some(n) => Ok(n),
            None => Err(ConfigError::InvalidNumber(option)),
        },
    }
}

/// The redirect limit from the text of `--max-redirs`.
pub fn max_redirect(text: &Option<String>) -> (r: Result<Option<usize>, ConfigError>)
    ensures
        match r {
            Ok(n) => spec_max_redirect(*text) == Ok::<_, ConfigErrorView>(n),
            Err(e) => spec_max_redirect(*text) == Err::<Option<usize>, _>(e@),
        },
{
    match text {
        None => Ok(Some(DEFAULT_MAX_REDIRECT)),
        Some(s) => {
            proof {
                reveal_strlit("-1");
                assert("-1"@ =~= unlimited_text());
            }
            if same_text(s.as_str(), "-1") {
                Ok(None)
            } else {
                match parse_usize(s.as_str()) {
                    Some(n) => Ok(Some(n)),
                    None => Err(ConfigError::InvalidNumber(NumberOption::MaxRedirects)),
                }
            }
        },
    }
}

/// The entry cutoff from the text of `--to-entry`.
pub fn to_entry(args: &RawArguments) -> (r: Result<Option<usize>, ConfigError>)
    ensures
        match r {
            Ok(n) => spec_to_entry(args.to_entry) == Ok::<_, ConfigErrorView>(n),
            Err(e) => spec_to_entry(args.to_entry) == Err::<Option<usize>, _>(e@),
        },
{
    match &args.to_entry {
        None => Ok(None),
        Some(s) => match parse_usize(s.as_str()) {
            Some(n) => Ok(Some(n)),
            None => Err(ConfigError::InvalidNumber(NumberOption::ToEntry)),
        },
    }
}

/// The report directory, checked.
pub fn html_dir(args: &RawArguments, ctx: &Context) -> (r: Result<Option<String>, ConfigError>)
    ensures
        match r {
            Ok(o) => spec_html_dir(*args, *ctx) == Ok::<_, ConfigErrorView>(opt_text(o)),
            Err(e) => spec_html_dir(*args, *ctx) == Err::<Option<Seq<char>>, _>(e@),
        },
{
    match &args.report_html {
        None => Ok(None),
        Some(dir) => match ctx.html_dir {
            PathState::Directory => Ok(Some(dir.clone())),
            PathState::Other => Err(ConfigError::InvalidDirectory(dir.clone())),
            PathState::Missing => {
                if ctx.html_dir_created {
                    Ok(Some(dir.clone()))
                } else {
                    Err(ConfigError::DirectoryNotCreated(dir.clone()))
                }
            },
        },
    }
}

/// Whether the report directory has to be created before `parse_options`
/// is called: `html_dir_created` of the context is read exactly then.
pub fn needs_html_dir(args: &RawArguments, ctx: &Context) -> (r: bool)
    ensures
        r == creates_html_dir(*args, *ctx),
{
    if cacert_file(args, ctx).is_err() {
        return false;
    }
    if seconds(&args.connect_timeout, DEFAULT_CONNECT_TIMEOUT, NumberOption::ConnectTimeout).is_err() {
        return false;
    }
    if collect_matches(&ctx.glob_outcomes).is_err() {
        return false;
    }
    match (&args.report_html, ctx.html_dir) {
        (Some(_), PathState::Missing) => true,
        _ => false,
    }
}

/// Resolves the arguments in a context into one configuration, or fails
/// as a whole with the first failure.
pub fn parse_options(args: &RawArguments, ctx: &Context) -> (r: Result<CliOptions, ConfigError>)
    ensures
        match r {
            Ok(o) => o.variables.wf() && resolved(*args, *ctx) == Ok::<_, ConfigErrorView>(o@),
            Err(e) => resolved(*args, *ctx) == Err::<CliOptionsView, _>(e@),
        },
{
    let cacert_file = match cacert_file(args, ctx) {
        Ok(v) => v,
        Err(e) => { return Err(e); },
    };
    let color = output_color(args, ctx.stdout_is_terminal);
    let connect_timeout = match seconds(
        &args.connect_timeout,
        DEFAULT_CONNECT_TIMEOUT,
        NumberOption::ConnectTimeout,
    ) {
        Ok(v) => v,
        Err(e) => { return Err(e); },
    };
    let glob_files = match collect_matches(&ctx.glob_outcomes) {
        Ok(v) => v,
        Err(e) => { return Err(e); },
    };
    let html_dir = match html_dir(args, ctx) {
        Ok(v) => v,
        Err(e) => { return Err(e); },
    };
    let max_redirect = match max_redirect(&args.max_redirects) {
        Ok(v) => v,
        Err(e) => { return Err(e); },
    };
    let timeout = match seconds(&args.max_time, DEFAULT_TIMEOUT, NumberOption::MaxTime) {
        Ok(v) => v,
        Err(e) => { return Err(e); },
    };
    let to_entry = match to_entry(args) {
        Ok(v) => v,
        Err(e) => { return Err(e); },
    };
    let variables = match merge(
        &ctx.environment,
        &args.variables_file,
        &ctx.variables_file_lines,
        &ctx.inline_variables,
    ) {
        Ok(v) => v,
        Err(e) => { return Err(e); },
    };
    Ok(
        CliOptions {
            cacert_file,
            color,
            compressed: args.compressed,
            connect_timeout,
            cookie_input_file: copy_text(&args.cookies_input_file),
            cookie_output_file: copy_text(&args.cookies_output_file),
            fail_fast: !args.fail_at_end,
            file_root: copy_text(&args.file_root),
            follow_location: args.follow_location,
            glob_files,
            html_dir,
            ignore_asserts: args.ignore_asserts,
            include_headers: args.include_headers,
            insecure: args.insecure,
            interactive: args.interactive,
            junit_file: copy_text(&args.junit),
            max_redirect,
            no_proxy: copy_text(&args.proxy),
            output: copy_text(&args.output),
            output_type: output_type(args),
            progress: args.progress || args.test,
            proxy: copy_text(&args.proxy),
            summary: args.summary || args.test,
            timeout,
            to_entry,
            user: copy_text(&args.user),
            user_agent: copy_text(&args.user_agent),
            variables,
            verbose: args.verbose || args.interactive,
        },
    )
}

/// Rejects conflicting flags, then resolves as `parse_options` does.
pub fn resolve(args: &RawArguments, ctx: &Context) -> (r: Result<CliOptions, ConfigError>)
    ensures
        match r {
            Ok(o) => o.variables.wf() && resolved_checked(*args, *ctx) == Ok::<
                _,
                ConfigErrorView,
            >(o@),
            Err(e) => resolved_checked(*args, *ctx) == Err::<CliOptionsView, _>(e@),
        },
{
    match args.conflict() {
        Some(c) => Err(ConfigError::ConflictingFlags(c)),
        None => parse_options(args, ctx),
    }
}

} // verus!
