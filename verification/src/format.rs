use vstd::prelude::*;
use vstd::string::*;
use crate::lines::{line_break_pattern, regex_split, split_lines};
use crate::globs::texts;
use crate::terminal::{is_terminal, StandardStream};
use crate::text::same_text;

verus! {

/// The formatter's command line as the argument parser hands it over.
#[derive(Clone, Debug, PartialEq, Eq)]
pub struct FormatArguments {
    pub input: Option<String>,
    pub check: bool,
    pub color: bool,
    pub format: Option<String>,
    pub in_place: bool,
    pub no_color: bool,
    pub no_format: bool,
    pub output: Option<String>,
    pub standalone: bool,
}

/// The render targets.
#[derive(Clone, Copy, Debug, PartialEq, Eq, Structural)]
pub enum Target {
    Text,
    Json,
    Html,
    Ast,
}

/// The stages of a formatter run, in the order they are passed.
#[derive(Clone, Copy, Debug, PartialEq, Eq, Structural)]
pub enum Stage {
    AcquireInput,
    Parse,
    CheckMode,
    FormatMode,
    WriteOutput,
    Exit,
}

/// What the outside world reports back to the run.
#[derive(Clone, Copy, Debug, PartialEq, Eq, Structural)]
pub enum Event {
    /// The process has started; nothing was done yet.
    Started,
    /// The input was looked at: whether standard input is a terminal, and
    /// whether the named path exists.
    InputProbed { stdin_is_terminal: bool, input_exists: bool },
    /// The input was read, or could not be.
    InputRead { readable: bool },
    /// The contents were parsed, or are not a valid document.
    Parsed { valid: bool },
    /// Every lint finding was logged.
    FindingsLogged,
    /// The document was rendered.
    Rendered,
    /// The bytes were written.
    Written,
}

/// How a document is rendered.
#[derive(Clone, Copy, Debug, PartialEq, Eq, Structural)]
pub enum Renderer {
    /// As text, after the automatic fix-up pass where `fix` holds.
    Text { fix: bool },
    Json,
    /// As HTML, a complete document where `standalone` holds.
    Html { standalone: bool },
    Ast,
}

/// Where the rendered bytes go.
#[derive(Clone, Copy, Debug, PartialEq, Eq, Structural)]
pub enum Destination {
    /// Over the file that was read.
    Source,
    /// To the `--output` path.
    OutputFile,
    Stdout,
}

/// Pairs of formatter flags that may not be given together.
#[derive(Clone, Copy, Debug, PartialEq, Eq, Structural)]
pub enum FormatConflict {
    CheckAndFormat,
    CheckAndOutput,
    ColorAndNoColor,
    ColorAndInPlace,
    InPlaceAndOutput,
}

/// How a run ends.
#[derive(Clone, Copy, Debug, PartialEq, Eq, Structural)]
pub enum Outcome {
    Formatted,
    FindingsReported,
    ConflictingFlags(FormatConflict),
    StandaloneWithoutHtml,
    InPlaceWithStdin,
    InPlaceNotText,
    NothingToRead,
    InputNotFound,
    UnreadableInput,
    InvalidDocument,
    UnknownFormat,
}

/// The process exit codes.
#[derive(Clone, Copy, Debug, PartialEq, Eq, Structural)]
pub enum ExitCode {
    Success,
    ValidationOrUsageFailure,
    ParseOrReadFailure,
}

/// What the run does next.
#[derive(Clone, Copy, Debug, PartialEq, Eq, Structural)]
pub enum Action {
    ProbeInput,
    ReadInput,
    ParseDocument,
    LogFindings,
    Render(Renderer),
    Write(Destination),
    Exit(Outcome),
}

/// The text that names standard input.
pub open spec fn stdin_marker() -> Seq<char> {
    seq!['-']
}

impl ExitCode {
    /// The number handed to the operating system.
    pub open spec fn spec_code(self) -> int {
        match self {
            ExitCode::Success => 0,
            ExitCode::ValidationOrUsageFailure => 1,
            ExitCode::ParseOrReadFailure => 2,
        }
    }

    /// The number handed to the operating system.
    pub fn code(self) -> (r: i32)
        ensures
            r == self.spec_code(),
    {
        match self {
            ExitCode::Success => 0,
            ExitCode::ValidationOrUsageFailure => 1,
            ExitCode::ParseOrReadFailure => 2,
        }
    }
}

impl Outcome {
    /// Success for a formatted document; 2 where the input could not be
    /// read or is not a valid document; 1 for everything else, findings
    /// reported in check mode among them, whether there were any or not.
    pub open spec fn spec_exit_code(self) -> ExitCode {
        match self {
            Outcome::Formatted => ExitCode::Success,
            Outcome::UnreadableInput | Outcome::InvalidDocument => ExitCode::ParseOrReadFailure,
            _ => ExitCode::ValidationOrUsageFailure,
        }
    }

    /// The exit code of a run that ends this way.
    pub fn exit_code(self) -> (r: ExitCode)
        ensures
            r == self.spec_exit_code(),
    {
        match self {
            Outcome::Formatted => ExitCode::Success,
            Outcome::UnreadableInput | Outcome::InvalidDocument => ExitCode::ParseOrReadFailure,
            _ => ExitCode::ValidationOrUsageFailure,
        }
    }
}

impl Action {
    /// The stage that an action belongs to.
    pub open spec fn spec_stage(self) -> Stage {
        match self {
            Action::ProbeInput | Action::ReadInput => Stage::AcquireInput,
            Action::ParseDocument => Stage::Parse,
            Action::LogFindings => Stage::CheckMode,
            Action::Render(_) => Stage::FormatMode,
            Action::Write(_) => Stage::WriteOutput,
            Action::Exit(_) => Stage::Exit,
        }
    }

    /// The stage that an action belongs to.
    pub fn stage(self) -> (r: Stage)
        ensures
            r == self.spec_stage(),
    {
        match self {
            Action::ProbeInput | Action::ReadInput => Stage::AcquireInput,
            Action::ParseDocument => Stage::Parse,
            Action::LogFindings => Stage::CheckMode,
            Action::Render(_) => Stage::FormatMode,
            Action::Write(_) => Stage::WriteOutput,
            Action::Exit(_) => Stage::Exit,
        }
    }
}

impl Event {
    /// How far a run has come when an event arrives: the number of
    /// actions that can lie behind it at most.
    pub open spec fn progress(self) -> int {
        match self {
            Event::Started => 0,
            Event::InputProbed { .. } => 1,
            Event::InputRead { .. } => 2,
            Event::Parsed { .. } => 3,
            Event::FindingsLogged => 4,
            Event::Rendered => 4,
            Event::Written => 5,
        }
    }
}

impl Action {
    /// The progress of the event that reports an action done; for an exit
    /// there is none, and it counts as the end.
    pub open spec fn progress(self) -> int {
        match self {
            Action::ProbeInput => 1,
            Action::ReadInput => 2,
            Action::ParseDocument => 3,
            Action::LogFindings => 4,
            Action::Render(_) => 4,
            Action::Write(_) => 5,
            Action::Exit(_) => 6,
        }
    }
}

impl FormatArguments {
    /// Whether nothing was given on the command line.
    pub open spec fn is_blank(self) -> bool {
        &&& self.input is None
        &&& !self.check
        &&& !self.color
        &&& self.format is None
        &&& !self.in_place
        &&& !self.no_color
        &&& !self.no_format
        &&& self.output is None
        &&& !self.standalone
    }

    /// The command line on which nothing was given.
    pub fn new() -> (r: FormatArguments)
        ensures
            r.is_blank(),
    {
        FormatArguments {
            input: None,
            check: false,
            color: false,
            format: None,
            in_place: false,
            no_color: false,
            no_format: false,
            output: None,
            standalone: false,
        }
    }

    /// Whether the input is standard input: no file name, or `-`.
    pub open spec fn spec_reads_stdin(self) -> bool {
        match self.input {
            None => true,
            Some(name) => name@ == stdin_marker(),
        }
    }

    /// The requested render target: text where `--format` is absent,
    /// `None` where its value names no target.
    pub open spec fn spec_target(self) -> Option<Target> {
        match self.format {
            None => Some(Target::Text),
            Some(f) => if f@ == "text"@ {
                Some(Target::Text)
            } else if f@ == "json"@ {
                Some(Target::Json)
            } else if f@ == "html"@ {
                Some(Target::Html)
            } else if f@ == "ast"@ {
                Some(Target::Ast)
            } else {
                None
            },
        }
    }

    /// Colour is on with `--color`, off with `--no-color` or `--in-place`,
    /// and otherwise on exactly when standard output is a terminal.
    pub open spec fn spec_output_color(self, stdout_is_terminal: bool) -> bool {
        if self.color {
            true
        } else if self.no_color || self.in_place {
            false
        } else {
            stdout_is_terminal
        }
    }

    /// The first pair of mutually exclusive flags that are both present.
    pub open spec fn spec_conflict(self) -> Option<FormatConflict> {
        if self.check && self.format is Some {
            Some(FormatConflict::CheckAndFormat)
        } else if self.check && self.output is Some {
            Some(FormatConflict::CheckAndOutput)
        } else if self.color && self.no_color {
            Some(FormatConflict::ColorAndNoColor)
        } else if self.color && self.in_place {
            Some(FormatConflict::ColorAndInPlace)
        } else if self.in_place && self.output is Some {
            Some(FormatConflict::InPlaceAndOutput)
        } else {
            None
        }
    }

    /// The rule broken before any input is looked at, if one is: no two
    /// conflicting flags; `--standalone` needs the HTML target;
    /// `--in-place` needs a named file and the text target.
    pub open spec fn spec_rejection(self) -> Option<Outcome> {
        if self.spec_conflict() is Some {
            Some(Outcome::ConflictingFlags(self.spec_conflict()->Some_0))
        } else if self.standalone && self.spec_target() != Some(Target::Html) {
            Some(Outcome::StandaloneWithoutHtml)
        } else if self.in_place && self.spec_reads_stdin() {
            Some(Outcome::InPlaceWithStdin)
        } else if self.in_place && self.spec_target() != Some(Target::Text) {
            Some(Outcome::InPlaceNotText)
        } else {
            None
        }
    }

    /// Where the bytes go: over the source when in place, else to the
    /// `--output` path when given, else to standard output.
    pub open spec fn spec_destination(self) -> Destination {
        if self.in_place {
            Destination::Source
        } else if self.output is Some {
            Destination::OutputFile
        } else {
            Destination::Stdout
        }
    }

    /// What follows a valid parse: logging the findings in check mode,
    /// else rendering for the target, else an exit for an unknown target.
    pub open spec fn spec_after_parse(self) -> Action {
        if self.check {
            Action::LogFindings
        } else {
            match self.spec_target() {
                Some(Target::Text) => Action::Render(Renderer::Text { fix: !self.no_format }),
                Some(Target::Json) => Action::Render(Renderer::Json),
                Some(Target::Html) => Action::Render(
                    Renderer::Html { standalone: self.standalone },
                ),
                Some(Target::Ast) => Action::Render(Renderer::Ast),
                None => Action::Exit(Outcome::UnknownFormat),
            }
        }
    }

    /// The action that follows an event.
    pub open spec fn spec_next(self, event: Event) -> Action {
        match event {
            Event::Started => match self.spec_rejection() {
                Some(o) => Action::Exit(o),
                None => Action::ProbeInput,
            },
            Event::InputProbed { stdin_is_terminal, input_exists } => if self.spec_reads_stdin() {
                if stdin_is_terminal {
                    Action::Exit(Outcome::NothingToRead)
                } else {
                    Action::ReadInput
                }
            } else if input_exists {
                Action::ReadInput
            } else {
                Action::Exit(Outcome::InputNotFound)
            },
            Event::InputRead { readable } => if readable {
                Action::ParseDocument
            } else {
                Action::Exit(Outcome::UnreadableInput)
            },
            Event::Parsed { valid } => if valid {
                self.spec_after_parse()
            } else {
                Action::Exit(Outcome::InvalidDocument)
            },
            Event::FindingsLogged => Action::Exit(Outcome::FindingsReported),
            Event::Rendered => Action::Write(self.spec_destination()),
            Event::Written => Action::Exit(Outcome::Formatted),
        }
    }

    /// Whether the input is standard input.
    pub fn reads_stdin(&self) -> (r: bool)
        ensures
            r == self.spec_reads_stdin(),
    {
        match &self.input {
            None => true,
            Some(name) => {
                proof {
                    reveal_strlit("-");
                    assert("-"@ =~= stdin_marker());
                }
                same_text(name.as_str(), "-")
            },
        }
    }

    /// The requested render target.
    pub fn target(&self) -> (r: Option<Target>)
        ensures
            r == self.spec_target(),
    {
        match &self.format {
            None => Some(Target::Text),
            Some(f) => {
                if same_text(f.as_str(), "text") {
                    Some(Target::Text)
                } else if same_text(f.as_str(), "json") {
                    Some(Target::Json)
                } else if same_text(f.as_str(), "html") {
                    Some(Target::Html)
                } else if same_text(f.as_str(), "ast") {
                    Some(Target::Ast)
                } else {
                    None
                }
            },
        }
    }

    /// Whether output is coloured.
    pub fn output_color(&self, stdout_is_terminal: bool) -> (r: bool)
        ensures
            r == self.spec_output_color(stdout_is_terminal),
    {
        if self.color {
            true
        } else if self.no_color || self.in_place {
            false
        } else {
            stdout_is_terminal
        }
    }

    /// Finds a pair of mutually exclusive flags that were both given.
    pub fn conflict(&self) -> (r: Option<FormatConflict>)
        ensures
            r == self.spec_conflict(),
    {
        if self.check && self.format.is_some() {
            Some(FormatConflict::CheckAndFormat)
        } else if self.check && self.output.is_some() {
            Some(FormatConflict::CheckAndOutput)
        } else if self.color && self.no_color {
            Some(FormatConflict::ColorAndNoColor)
        } else if self.color && self.in_place {
            Some(FormatConflict::ColorAndInPlace)
        } else if self.in_place && self.output.is_some() {
            Some(FormatConflict::InPlaceAndOutput)
        } else {
            None
        }
    }

    /// Whether output is coloured, with standard output looked at only
    /// where the flags leave the choice open.
    pub fn detect_output_color(&self) -> (r: bool)
        ensures
            self.color ==> r,
            !self.color && (self.no_color || self.in_place) ==> !r,
            exists|stdout_is_terminal: bool| r == #[trigger] self.spec_output_color(stdout_is_terminal),
    {
        if self.color {
            assert(self.spec_output_color(true));
            true
        } else if self.no_color || self.in_place {
            assert(!self.spec_output_color(true));
            false
        } else {
            let attached = is_terminal(StandardStream::Stdout);
            assert(attached == self.spec_output_color(attached));
            attached
        }
    }

    /// The event that reports the input looked at: whether standard input
    /// is a terminal is asked here, whether the named path exists is
    /// handed in.
    pub fn input_probed(&self, input_exists: bool) -> (r: Event)
        ensures
            r matches Event::InputProbed { input_exists: e, .. } && e == input_exists,
    {
        Event::InputProbed { stdin_is_terminal: is_terminal(StandardStream::Stdin), input_exists }
    }

    /// The rule broken before any input is looked at, if one is.
    pub fn rejection(&self) -> (r: Option<Outcome>)
        ensures
            r == self.spec_rejection(),
    {
        let target = self.target();
        if let Some(c) = self.conflict() {
            Some(Outcome::ConflictingFlags(c))
        } else if self.standalone && !matches!(target, Some(Target::Html)) {
            Some(Outcome::StandaloneWithoutHtml)
        } else if self.in_place && self.reads_stdin() {
            Some(Outcome::InPlaceWithStdin)
        } else if self.in_place && !matches!(target, Some(Target::Text)) {
            Some(Outcome::InPlaceNotText)
        } else {
            None
        }
    }

    /// Where the bytes go.
    pub fn destination(&self) -> (r: Destination)
        ensures
            r == self.spec_destination(),
    {
        if self.in_place {
            Destination::Source
        } else if self.output.is_some() {
            Destination::OutputFile
        } else {
            Destination::Stdout
        }
    }

    /// The action that follows an event. A run starts with
    /// `Event::Started`, performs each action it is given and reports it
    /// done with the matching event, until the action is an exit.
    pub fn next(&self, event: Event) -> (r: Action)
        ensures
            r == self.spec_next(event),
            r.progress() > event.progress(),
    {
        match event {
            Event::Started => match self.rejection() {
                Some(o) => Action::Exit(o),
                None => Action::ProbeInput,
            },
            Event::InputProbed { stdin_is_terminal, input_exists } => {
                if self.reads_stdin() {
                    if stdin_is_terminal {
                        Action::Exit(Outcome::NothingToRead)
                    } else {
                        Action::ReadInput
                    }
                } else if input_exists {
                    Action::ReadInput
                } else {
                    Action::Exit(Outcome::InputNotFound)
                }
            },
            Event::InputRead { readable } => {
                if readable {
                    Action::ParseDocument
                } else {
                    Action::Exit(Outcome::UnreadableInput)
                }
            },
            Event::Parsed { valid } => {
                if !valid {
                    Action::Exit(Outcome::InvalidDocument)
                } else if self.check {
                    Action::LogFindings
                } else {
                    match self.target() {
                        Some(Target::Text) => Action::Render(Renderer::Text { fix: !self.no_format }),
                        Some(Target::Json) => Action::Render(Renderer::Json),
                        Some(Target::Html) => Action::Render(
                            Renderer::Html { standalone: self.standalone },
                        ),
                        Some(Target::Ast) => Action::Render(Renderer::Ast),
                        None => Action::Exit(Outcome::UnknownFormat),
                    }
                }
            },
            Event::FindingsLogged => Action::Exit(Outcome::FindingsReported),
            Event::Rendered => Action::Write(self.destination()),
            Event::Written => Action::Exit(Outcome::Formatted),
        }
    }
}

/// A document to format: where it came from, its text, and the text
/// split into lines.
#[derive(Clone, Debug, PartialEq, Eq)]
pub struct FormatRequest {
    /// The file name, `-` for standard input.
    pub filename: String,
    pub contents: String,
    pub lines: Vec<String>,
    /// The requested target, `None` where `--format` names none.
    pub target: Option<Target>,
    pub check: bool,
    pub no_format: bool,
    pub standalone: bool,
    pub in_place: bool,
}

impl FormatRequest {
    /// Whether a request is the one that `args` and `contents` make, with
    /// `lines` for its lines.
    pub open spec fn made_of(self, args: FormatArguments, contents: Seq<char>, lines: Seq<Seq<char>>) -> bool {
        &&& self.filename@ == (match args.input {
            Some(name) => name@,
            None => stdin_marker(),
        })
        &&& self.contents@ == contents
        &&& texts(self.lines@) == lines
        &&& self.target == args.spec_target()
        &&& self.check == args.check
        &&& self.no_format == args.no_format
        &&& self.standalone == args.standalone
        &&& self.in_place == args.in_place
    }

    /// The request for `contents` with lines that are already split.
    pub fn with_lines(args: &FormatArguments, contents: String, lines: Vec<String>) -> (r: FormatRequest)
        ensures
            r.made_of(*args, contents@, texts(lines@)),
    {
        let filename = match &args.input {
            Some(name) => name.clone(),
            None => {
                proof {
                    reveal_strlit("-");
                    assert("-"@ =~= stdin_marker());
                }
                "-".to_owned()
            },
        };
        FormatRequest {
            filename,
            contents,
            lines,
            target: args.target(),
            check: args.check,
            no_format: args.no_format,
            standalone: args.standalone,
            in_place: args.in_place,
        }
    }

    /// The request for `contents`, split into lines at each line break.
    /// `None` only where the regular-expression engine refuses the
    /// line-break pattern.
    pub fn new(args: &FormatArguments, contents: String) -> (r: Option<FormatRequest>)
        ensures
            match r {
                Some(request) => regex_split(line_break_pattern(), contents@) is Some
                    && request.made_of(
                    *args,
                    contents@,
                    regex_split(line_break_pattern(), contents@)->Some_0,
                ),
                None => regex_split(line_break_pattern(), contents@) is None,
            },
    {
        match split_lines(contents.as_str()) {
            Some(lines) => Some(FormatRequest::with_lines(args, contents, lines)),
            None => None,
        }
    }
}

} // verus!
