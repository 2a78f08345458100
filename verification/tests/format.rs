use hurl_cli::format::{
    Action, Destination, Event, ExitCode, FormatArguments, FormatConflict, FormatRequest, Outcome,
    Renderer, Stage, Target,
};
use hurl_cli::lines::split_lines;

fn some(s: &str) -> Option<String> {
    Some(s.to_string())
}

fn named(file: &str) -> FormatArguments {
    let mut args = FormatArguments::new();
    args.input = some(file);
    args
}

fn run(args: &FormatArguments, events: &[Event]) -> Vec<Action> {
    events.iter().map(|e| args.next(*e)).collect()
}

#[test]
fn plain_run_formats_and_exits_with_zero() {
    let args = named("a.hurl");
    let actions = run(
        &args,
        &[
            Event::Started,
            Event::InputProbed { stdin_is_terminal: true, input_exists: true },
            Event::InputRead { readable: true },
            Event::Parsed { valid: true },
            Event::Rendered,
            Event::Written,
        ],
    );
    assert_eq!(
        actions,
        vec![
            Action::ProbeInput,
            Action::ReadInput,
            Action::ParseDocument,
            Action::Render(Renderer::Text { fix: true }),
            Action::Write(Destination::Stdout),
            Action::Exit(Outcome::Formatted),
        ]
    );
    assert_eq!(Outcome::Formatted.exit_code().code(), 0);
    let stages: Vec<Stage> = actions.iter().map(|a| a.stage()).collect();
    assert_eq!(
        stages,
        vec![
            Stage::AcquireInput,
            Stage::AcquireInput,
            Stage::Parse,
            Stage::FormatMode,
            Stage::WriteOutput,
            Stage::Exit,
        ]
    );
}

#[test]
fn check_mode_exits_with_one_even_without_findings() {
    let mut args = named("a.hurl");
    args.check = true;
    assert_eq!(args.next(Event::Parsed { valid: true }), Action::LogFindings);
    assert_eq!(args.next(Event::FindingsLogged), Action::Exit(Outcome::FindingsReported));
    assert_eq!(Outcome::FindingsReported.exit_code(), ExitCode::ValidationOrUsageFailure);
    assert_eq!(Outcome::FindingsReported.exit_code().code(), 1);
}

#[test]
fn missing_input_exits_with_one() {
    let args = named("missing.hurl");
    let action = args.next(Event::InputProbed { stdin_is_terminal: false, input_exists: false });
    assert_eq!(action, Action::Exit(Outcome::InputNotFound));
    assert_eq!(Outcome::InputNotFound.exit_code().code(), 1);
}

#[test]
fn invalid_document_exits_with_two() {
    let args = named("a.hurl");
    assert_eq!(args.next(Event::Parsed { valid: false }), Action::Exit(Outcome::InvalidDocument));
    assert_eq!(Outcome::InvalidDocument.exit_code().code(), 2);
    assert_eq!(args.next(Event::InputRead { readable: false }), Action::Exit(Outcome::UnreadableInput));
    assert_eq!(Outcome::UnreadableInput.exit_code().code(), 2);
}

#[test]
fn in_place_with_stdin_is_rejected_at_the_start() {
    let mut args = FormatArguments::new();
    args.in_place = true;
    assert_eq!(args.next(Event::Started), Action::Exit(Outcome::InPlaceWithStdin));
    args.input = some("-");
    assert_eq!(args.next(Event::Started), Action::Exit(Outcome::InPlaceWithStdin));
    assert_eq!(Outcome::InPlaceWithStdin.exit_code().code(), 1);
    args.input = some("a.hurl");
    assert_eq!(args.next(Event::Started), Action::ProbeInput);
}

#[test]
fn in_place_needs_the_text_target() {
    let mut args = named("a.hurl");
    args.in_place = true;
    args.format = some("json");
    assert_eq!(args.next(Event::Started), Action::Exit(Outcome::InPlaceNotText));
    assert_eq!(Outcome::InPlaceNotText.exit_code().code(), 1);
    args.format = some("text");
    assert_eq!(args.next(Event::Started), Action::ProbeInput);
    assert_eq!(args.next(Event::Rendered), Action::Write(Destination::Source));
}

#[test]
fn standalone_needs_the_html_target() {
    let mut args = named("a.hurl");
    args.standalone = true;
    assert_eq!(args.next(Event::Started), Action::Exit(Outcome::StandaloneWithoutHtml));
    args.format = some("json");
    assert_eq!(args.next(Event::Started), Action::Exit(Outcome::StandaloneWithoutHtml));
    assert_eq!(Outcome::StandaloneWithoutHtml.exit_code().code(), 1);
    args.format = some("html");
    assert_eq!(args.next(Event::Started), Action::ProbeInput);
    assert_eq!(
        args.next(Event::Parsed { valid: true }),
        Action::Render(Renderer::Html { standalone: true })
    );
}

#[test]
fn stdin_on_a_terminal_has_nothing_to_read() {
    let args = FormatArguments::new();
    assert!(args.reads_stdin());
    assert_eq!(
        args.next(Event::InputProbed { stdin_is_terminal: true, input_exists: false }),
        Action::Exit(Outcome::NothingToRead)
    );
    assert_eq!(Outcome::NothingToRead.exit_code().code(), 1);
    assert_eq!(
        args.next(Event::InputProbed { stdin_is_terminal: false, input_exists: false }),
        Action::ReadInput
    );
}

#[test]
fn renderer_follows_the_target() {
    let mut args = named("a.hurl");
    assert_eq!(args.target(), Some(Target::Text));
    args.no_format = true;
    assert_eq!(
        args.next(Event::Parsed { valid: true }),
        Action::Render(Renderer::Text { fix: false })
    );
    args.format = some("json");
    assert_eq!(args.next(Event::Parsed { valid: true }), Action::Render(Renderer::Json));
    args.format = some("html");
    assert_eq!(
        args.next(Event::Parsed { valid: true }),
        Action::Render(Renderer::Html { standalone: false })
    );
    args.format = some("ast");
    assert_eq!(args.next(Event::Parsed { valid: true }), Action::Render(Renderer::Ast));
    args.format = some("xml");
    assert_eq!(args.target(), None);
    assert_eq!(args.next(Event::Parsed { valid: true }), Action::Exit(Outcome::UnknownFormat));
    assert_eq!(Outcome::UnknownFormat.exit_code().code(), 1);
}

#[test]
fn destination_prefers_in_place_then_output() {
    let mut args = named("a.hurl");
    assert_eq!(args.destination(), Destination::Stdout);
    args.output = some("out.hurl");
    assert_eq!(args.destination(), Destination::OutputFile);
    assert_eq!(args.next(Event::Rendered), Action::Write(Destination::OutputFile));
    args.in_place = true;
    assert_eq!(args.destination(), Destination::Source);
}

#[test]
fn formatter_color_is_off_in_place() {
    let mut args = named("a.hurl");
    assert!(args.output_color(true));
    assert!(!args.output_color(false));
    args.in_place = true;
    assert!(!args.output_color(true));
    args.in_place = false;
    args.no_color = true;
    assert!(!args.output_color(true));
    args.no_color = false;
    args.color = true;
    assert!(args.output_color(false));
}

#[test]
fn lines_end_at_line_feed_with_or_without_carriage_return() {
    assert_eq!(split_lines("a\nb\r\nc"), Some(vec!["a".to_string(), "b".to_string(), "c".to_string()]));
    assert_eq!(split_lines("GET x\n"), Some(vec!["GET x".to_string(), String::new()]));
    assert_eq!(split_lines(""), Some(vec![String::new()]));
    assert_eq!(split_lines("a\rb"), Some(vec!["a\rb".to_string()]));
    assert_eq!(split_lines("a\r\n\nb"), Some(vec!["a".to_string(), String::new(), "b".to_string()]));
}

#[test]
fn request_holds_contents_and_lines() {
    let mut args = FormatArguments::new();
    args.format = some("html");
    args.standalone = true;
    let r = FormatRequest::new(&args, "GET a\r\nHTTP 200".to_string()).unwrap();
    assert_eq!(r.filename, "-");
    assert_eq!(r.contents, "GET a\r\nHTTP 200");
    assert_eq!(r.lines, vec!["GET a", "HTTP 200"]);
    assert_eq!(r.target, Some(Target::Html));
    assert!(r.standalone && !r.check && !r.no_format && !r.in_place);
    let r = FormatRequest::with_lines(&named("f.hurl"), "x".to_string(), vec!["x".to_string()]);
    assert_eq!(r.filename, "f.hurl");
    assert_eq!(r.target, Some(Target::Text));
}

#[test]
fn conflicting_formatter_flags_are_rejected_at_the_start() {
    let mut args = named("a.hurl");
    args.check = true;
    args.format = some("json");
    assert_eq!(args.conflict(), Some(FormatConflict::CheckAndFormat));
    assert_eq!(
        args.next(Event::Started),
        Action::Exit(Outcome::ConflictingFlags(FormatConflict::CheckAndFormat))
    );
    assert_eq!(Outcome::ConflictingFlags(FormatConflict::CheckAndFormat).exit_code().code(), 1);
    let mut args = named("a.hurl");
    args.check = true;
    args.output = some("o");
    assert_eq!(args.conflict(), Some(FormatConflict::CheckAndOutput));
    let mut args = named("a.hurl");
    args.color = true;
    args.no_color = true;
    assert_eq!(args.conflict(), Some(FormatConflict::ColorAndNoColor));
    let mut args = named("a.hurl");
    args.color = true;
    args.in_place = true;
    assert_eq!(args.conflict(), Some(FormatConflict::ColorAndInPlace));
    let mut args = named("a.hurl");
    args.in_place = true;
    args.output = some("o");
    assert_eq!(args.conflict(), Some(FormatConflict::InPlaceAndOutput));
    assert_eq!(
        args.next(Event::Started),
        Action::Exit(Outcome::ConflictingFlags(FormatConflict::InPlaceAndOutput))
    );
    assert_eq!(named("a.hurl").conflict(), None);
}

#[test]
fn probing_the_input_keeps_what_was_handed_in() {
    let args = named("a.hurl");
    match args.input_probed(true) {
        Event::InputProbed { input_exists, .. } => assert!(input_exists),
        other => panic!("unexpected event {:?}", other),
    }
    match args.input_probed(false) {
        Event::InputProbed { input_exists, .. } => assert!(!input_exists),
        other => panic!("unexpected event {:?}", other),
    }
    assert_eq!(args.next(args.input_probed(true)), Action::ReadInput);
    assert_eq!(args.next(args.input_probed(false)), Action::Exit(Outcome::InputNotFound));
}

#[test]
fn formatter_color_flags_decide_without_the_terminal() {
    let mut args = named("a.hurl");
    args.color = true;
    assert!(args.detect_output_color());
    args.color = false;
    args.in_place = true;
    assert!(!args.detect_output_color());
    args.in_place = false;
    args.no_color = true;
    assert!(!args.detect_output_color());
}
