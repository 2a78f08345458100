use vstd::prelude::*;
use crate::error::Conflict;

verus! {

/// The command line as the argument parser hands it over: for each flag
/// whether it was given, for each option its text, for each repeatable
/// option its texts in the order given.
#[derive(Clone, Debug, PartialEq, Eq)]
pub struct RawArguments {
    pub input: Vec<String>,
    pub cacert_file: Option<String>,
    pub color: bool,
    pub compressed: bool,
    pub connect_timeout: Option<String>,
    pub cookies_input_file: Option<String>,
    pub cookies_output_file: Option<String>,
    pub fail_at_end: bool,
    pub file_root: Option<String>,
    pub follow_location: bool,
    pub glob: Vec<String>,
    pub include_headers: bool,
    pub ignore_asserts: bool,
    pub insecure: bool,
    pub interactive: bool,
    pub json: bool,
    pub max_redirects: Option<String>,
    pub max_time: Option<String>,
    pub no_color: bool,
    pub no_output: bool,
    pub noproxy: Option<String>,
    pub output: Option<String>,
    pub progress: bool,
    pub proxy: Option<String>,
    pub junit: Option<String>,
    pub report_html: Option<String>,
    pub summary: bool,
    pub test: bool,
    pub to_entry: Option<String>,
    pub user: Option<String>,
    pub user_agent: Option<String>,
    pub variable: Vec<String>,
    pub variables_file: Option<String>,
    pub verbose: bool,
}

impl RawArguments {
    /// Whether nothing was given on the command line.
    pub open spec fn is_blank(self) -> bool {
        &&& self.input@.len() == 0
        &&& self.cacert_file is None
        &&& !self.color
        &&& !self.compressed
        &&& self.connect_timeout is None
        &&& self.cookies_input_file is None
        &&& self.cookies_output_file is None
        &&& !self.fail_at_end
        &&& self.file_root is None
        &&& !self.follow_location
        &&& self.glob@.len() == 0
        &&& !self.include_headers
        &&& !self.ignore_asserts
        &&& !self.insecure
        &&& !self.interactive
        &&& !self.json
        &&& self.max_redirects is None
        &&& self.max_time is None
        &&& !self.no_color
        &&& !self.no_output
        &&& self.noproxy is None
        &&& self.output is None
        &&& !self.progress
        &&& self.proxy is None
        &&& self.junit is None
        &&& self.report_html is None
        &&& !self.summary
        &&& !self.test
        &&& self.to_entry is None
        &&& self.user is None
        &&& self.user_agent is None
        &&& self.variable@.len() == 0
        &&& self.variables_file is None
        &&& !self.verbose
    }

    /// The command line on which nothing was given.
    pub fn new() -> (r: RawArguments)
        ensures
            r.is_blank(),
    {
        RawArguments {
            input: Vec::new(),
            cacert_file: None,
            color: false,
            compressed: false,
            connect_timeout: None,
            cookies_input_file: None,
            cookies_output_file: None,
            fail_at_end: false,
            file_root: None,
            follow_location: false,
            glob: Vec::new(),
            include_headers: false,
            ignore_asserts: false,
            insecure: false,
            interactive: false,
            json: false,
            max_redirects: None,
            max_time: None,
            no_color: false,
            no_output: false,
            noproxy: None,
            output: None,
            progress: false,
            proxy: None,
            junit: None,
            report_html: None,
            summary: false,
            test: false,
            to_entry: None,
            user: None,
            user_agent: None,
            variable: Vec::new(),
            variables_file: None,
            verbose: false,
        }
    }

    /// The first pair of mutually exclusive flags that are both present,
    /// tried in the order colour, interaction, output.
    pub open spec fn spec_conflict(self) -> Option<Conflict> {
        if self.color && self.no_color {
            Some(Conflict::ColorAndNoColor)
        } else if self.interactive && self.to_entry is Some {
            Some(Conflict::InteractiveAndToEntry)
        } else if self.json && self.no_output {
            Some(Conflict::JsonAndNoOutput)
        } else {
            None
        }
    }

    /// Finds a pair of mutually exclusive flags that were both given.
    pub fn conflict(&self) -> (r: Option<Conflict>)
        ensures
            r == self.spec_conflict(),
    {
        if self.color && self.no_color {
            Some(Conflict::ColorAndNoColor)
        } else if self.interactive && self.to_entry.is_some() {
            Some(Conflict::InteractiveAndToEntry)
        } else if self.json && self.no_output {
            Some(Conflict::JsonAndNoOutput)
        } else {
            None
        }
    }
}

} // verus!
