//! The command line: which arguments mean what, and what is to be done with
//! the files that they name. An argument is known here by its position on
//! the command line and, if it is valid Unicode, by its text.

use vstd::prelude::*;
use vstd::string::{StrSliceExecFns, StringExecFns};
use crate::convert::KdlVersion;

verus! {

/// What the command line asks for.
#[derive(Clone, Copy, Debug, PartialEq, Eq, Structural)]
pub struct Args {
    /// The position of the input path.
    pub input: usize,
    /// The position of the output path, if there is one.
    pub output: Option<usize>,
    pub force: bool,
    pub verbose: bool,
    pub kdl_version: KdlVersion,
}

/// Why the command line is not carried out. A position is that of the
/// argument which the error is about.
#[derive(Debug, PartialEq, Eq)]
pub enum CliError {
    MissingInput,
    HelpRequested,
    MultipleKdlVersion,
    UnknownOption(String),
    TooManyPositionals,
    NotUnicode(usize),
    InvalidInputPath(usize),
    FileExists(usize),
    InputNotFound(usize),
}

/// The mathematical value of a [`CliError`].
pub enum CliErrorView {
    MissingInput,
    HelpRequested,
    MultipleKdlVersion,
    UnknownOption(Seq<char>),
    TooManyPositionals,
    NotUnicode(usize),
    InvalidInputPath(usize),
    FileExists(usize),
    InputNotFound(usize),
}

impl View for CliError {
    type V = CliErrorView;

    open spec fn view(&self) -> CliErrorView {
        match *self {
            CliError::MissingInput => CliErrorView::MissingInput,
            CliError::HelpRequested => CliErrorView::HelpRequested,
            CliError::MultipleKdlVersion => CliErrorView::MultipleKdlVersion,
            CliError::UnknownOption(option) => CliErrorView::UnknownOption(option@),
            CliError::TooManyPositionals => CliErrorView::TooManyPositionals,
            CliError::NotUnicode(at) => CliErrorView::NotUnicode(at),
            CliError::InvalidInputPath(at) => CliErrorView::InvalidInputPath(at),
            CliError::FileExists(at) => CliErrorView::FileExists(at),
            CliError::InputNotFound(at) => CliErrorView::InputNotFound(at),
        }
    }
}

/// What has been read of a command line.
pub struct Scan {
    pub force: bool,
    pub verbose: bool,
    pub kdl_version: Option<KdlVersion>,
    /// `--` has been read: what follows is a path, whatever it looks like.
    pub positionals_only: bool,
    pub input: Option<usize>,
    pub output: Option<usize>,
}

/// The texts of the arguments; an argument that is not valid Unicode has
/// none.
pub open spec fn texts(args: Seq<Option<String>>) -> Seq<Option<Seq<char>>> {
    Seq::new(
        args.len(),
        |i: int|
            match args[i] {
                Some(text) => Some(text@),
                None => None,
            },
    )
}

/// Nothing has been read yet.
pub open spec fn spec_start() -> Scan {
    Scan {
        force: false,
        verbose: false,
        kdl_version: None,
        positionals_only: false,
        input: None,
        output: None,
    }
}

/// The argument at position `at` is a path: the first one names the input,
/// the second one the output, and there is no third.
pub open spec fn spec_positional(scan: Scan, at: usize) -> Result<Scan, CliErrorView> {
    if scan.input is None {
        Ok(Scan { input: Some(at), ..scan })
    } else if scan.output is None {
        Ok(Scan { output: Some(at), ..scan })
    } else {
        Err(CliErrorView::TooManyPositionals)
    }
}

/// A version of KDL is asked for: once is fine, twice is not.
pub open spec fn spec_version(scan: Scan, version: KdlVersion) -> Result<Scan, CliErrorView> {
    if scan.kdl_version is Some {
        Err(CliErrorView::MultipleKdlVersion)
    } else {
        Ok(Scan { kdl_version: Some(version), ..scan })
    }
}

/// The argument at position `at` is an option.
pub open spec fn spec_option(scan: Scan, text: Seq<char>) -> Result<Scan, CliErrorView> {
    if text == "--"@ {
        Ok(Scan { positionals_only: true, ..scan })
    } else if text == "-f"@ || text == "--force"@ {
        Ok(Scan { force: true, ..scan })
    } else if text == "-v"@ || text == "--verbose"@ {
        Ok(Scan { verbose: true, ..scan })
    } else if text == "-1"@ || text == "--kdl-v1"@ {
        spec_version(scan, KdlVersion::V1)
    } else if text == "-2"@ || text == "--kdl-v2"@ {
        spec_version(scan, KdlVersion::V2)
    } else if text == "-h"@ || text == "--help"@ {
        Err(CliErrorView::HelpRequested)
    } else {
        Err(CliErrorView::UnknownOption(text))
    }
}

/// Reads the argument at position `at`. After `--` every argument is a path.
/// Before it an argument must be valid Unicode, and is an option if it
/// begins with `-` and a path otherwise.
pub open spec fn spec_step(scan: Scan, word: Option<Seq<char>>, at: usize) -> Result<
    Scan,
    CliErrorView,
> {
    if scan.positionals_only {
        spec_positional(scan, at)
    } else {
        match word {
            None => Err(CliErrorView::NotUnicode(at)),
            Some(text) => if text.len() > 0 && text[0] == '-' {
                spec_option(scan, text)
            } else {
                spec_positional(scan, at)
            },
        }
    }
}

/// What has been read once the arguments before position `n` have been
/// read, the first of which, the name of the program, is skipped.
pub open spec fn spec_scan(words: Seq<Option<Seq<char>>>, n: int) -> Result<Scan, CliErrorView>
    decreases n,
{
    if n <= 1 {
        Ok(spec_start())
    } else {
        match spec_scan(words, n - 1) {
            Err(error) => Err(error),
            Ok(scan) => spec_step(scan, words[n - 1], (n - 1) as usize),
        }
    }
}

/// What a command line asks for. The name of the program alone asks for
/// help. Otherwise the arguments are read from first to last, the first
/// that cannot be read is the error, and the input path must be among
/// them. Without a version the default one is meant.
pub open spec fn spec_parse(words: Seq<Option<Seq<char>>>) -> Result<Args, CliErrorView> {
    if words.len() == 1 {
        Err(CliErrorView::HelpRequested)
    } else {
        match spec_scan(words, words.len() as int) {
            Err(error) => Err(error),
            Ok(scan) => match scan.input {
                None => Err(CliErrorView::MissingInput),
                Some(input) => Ok(
                    Args {
                        input,
                        output: scan.output,
                        force: scan.force,
                        verbose: scan.verbose,
                        kdl_version: match scan.kdl_version {
                            Some(version) => version,
                            None => KdlVersion::V2,
                        },
                    },
                ),
            },
        }
    }
}

impl Args {
    /// The paths are arguments of a line of `n` arguments, and none of them
    /// is the name of the program.
    pub open spec fn within(self, n: nat) -> bool {
        &&& 1 <= self.input < n
        &&& self.output matches Some(output) ==> 1 <= output < n
    }
}

impl CliErrorView {
    /// The argument that the error is about, if it is about one, is an
    /// argument of a line of `n` arguments, and not the name of the program.
    pub open spec fn within(self, n: nat) -> bool {
        match self {
            CliErrorView::NotUnicode(at) => 1 <= at < n,
            CliErrorView::InvalidInputPath(at) => 1 <= at < n,
            CliErrorView::FileExists(at) => 1 <= at < n,
            CliErrorView::InputNotFound(at) => 1 <= at < n,
            _ => true,
        }
    }
}

/// An error among the first `n` arguments is the error of the whole line.
pub proof fn lemma_scan_stops(words: Seq<Option<Seq<char>>>, n: int, m: int)
    requires
        n <= m,
        spec_scan(words, n) is Err,
    ensures
        spec_scan(words, m) == spec_scan(words, n),
    decreases m - n,
{
    if n < m {
        lemma_scan_stops(words, n, m - 1);
    }
}

/// What is to be done once the files have been looked at.
#[derive(Clone, Copy, Debug, PartialEq, Eq, Structural)]
pub enum Plan {
    /// Convert the input and write the text to the output.
    Write { input: usize, output: usize, verbose: bool, kdl_version: KdlVersion },
    /// Convert the input and print the text.
    Print { input: usize, kdl_version: KdlVersion },
}

/// What is to be done: the input must exist and be a file, and an output
/// that exists is overwritten only by force.
pub open spec fn spec_plan(
    args: Args,
    input_exists: bool,
    input_is_file: bool,
    output_exists: bool,
) -> Result<Plan, CliErrorView> {
    if !input_exists {
        Err(CliErrorView::InputNotFound(args.input))
    } else if !input_is_file {
        Err(CliErrorView::InvalidInputPath(args.input))
    } else {
        match args.output {
            Some(output) => if output_exists && !args.force {
                Err(CliErrorView::FileExists(output))
            } else {
                Ok(
                    Plan::Write {
                        input: args.input,
                        output,
                        verbose: args.verbose,
                        kdl_version: args.kdl_version,
                    },
                )
            },
            None => Ok(Plan::Print { input: args.input, kdl_version: args.kdl_version }),
        }
    }
}

/// The line that reports an error. `argument` shows the argument that the
/// error is about, where it is about one.
pub open spec fn spec_describe(error: CliErrorView, argument: Seq<char>) -> Seq<char> {
    match error {
        CliErrorView::MissingInput => "missing input path\n"@,
        CliErrorView::HelpRequested => "help requested\n"@,
        CliErrorView::MultipleKdlVersion => "specify only one of --kdl-v1 or --kdl-v2\n"@,
        CliErrorView::UnknownOption(option) => "unknown command-line option "@ + option
            + " (use `--` to pass arbitrary filenames)\n"@,
        CliErrorView::TooManyPositionals => "too many positional arguments\n"@,
        CliErrorView::NotUnicode(_) => "the argument "@ + argument
            + " was not valid Unicode (use `--` to pass arbitrary filenames)\n"@,
        CliErrorView::InvalidInputPath(_) => "not a file: "@ + argument + "\n"@,
        CliErrorView::FileExists(_) => "file exists: "@ + argument
            + " (use --force to overwrite)\n"@,
        CliErrorView::InputNotFound(_) => "no such file: "@ + argument + "\n"@,
    }
}

/// What is printed for an error of the conversion, given its description.
pub open spec fn spec_describe_conversion(description: Seq<char>) -> Seq<char> {
    "conversion error: "@ + description + "\n"@
}

/// `text` is the word `word`.
fn is_word(text: &String, word: &str) -> (same: bool)
    ensures
        same == (text@ == word@),
{
    let word = word.to_owned();
    *text == word
}

/// Puts three pieces of text one after the other.
fn join(before: &str, middle: &str, after: &str) -> (text: String)
    ensures
        text@ == before@ + middle@ + after@,
{
    let mut text = before.to_owned();
    text.append(middle);
    text.append(after);
    text
}

fn positional(scan: Scan, at: usize) -> (result: Result<Scan, CliError>)
    ensures
        match spec_positional(scan, at) {
            Ok(next) => result == Ok::<Scan, CliError>(next),
            Err(error) => result matches Err(found) && found@ == error,
        },
{
    if scan.input.is_none() {
        Ok(Scan { input: Some(at), ..scan })
    } else if scan.output.is_none() {
        Ok(Scan { output: Some(at), ..scan })
    } else {
        Err(CliError::TooManyPositionals)
    }
}

fn ask_version(scan: Scan, version: KdlVersion) -> (result: Result<Scan, CliError>)
    ensures
        match spec_version(scan, version) {
            Ok(next) => result == Ok::<Scan, CliError>(next),
            Err(error) => result matches Err(found) && found@ == error,
        },
{
    if scan.kdl_version.is_some() {
        Err(CliError::MultipleKdlVersion)
    } else {
        Ok(Scan { kdl_version: Some(version), ..scan })
    }
}

fn option(scan: Scan, text: &String) -> (result: Result<Scan, CliError>)
    ensures
        match spec_option(scan, text@) {
            Ok(next) => result == Ok::<Scan, CliError>(next),
            Err(error) => result matches Err(found) && found@ == error,
        },
{
    if is_word(text, "--") {
        Ok(Scan { positionals_only: true, ..scan })
    } else if is_word(text, "-f") || is_word(text, "--force") {
        Ok(Scan { force: true, ..scan })
    } else if is_word(text, "-v") || is_word(text, "--verbose") {
        Ok(Scan { verbose: true, ..scan })
    } else if is_word(text, "-1") || is_word(text, "--kdl-v1") {
        ask_version(scan, KdlVersion::V1)
    } else if is_word(text, "-2") || is_word(text, "--kdl-v2") {
        ask_version(scan, KdlVersion::V2)
    } else if is_word(text, "-h") || is_word(text, "--help") {
        Err(CliError::HelpRequested)
    } else {
        Err(CliError::UnknownOption(text.clone()))
    }
}

fn step(scan: Scan, word: &Option<String>, at: usize) -> (result: Result<Scan, CliError>)
    ensures
        match spec_step(
            scan,
            match *word {
                Some(text) => Some(text@),
                None => None,
            },
            at,
        ) {
            Ok(next) => result == Ok::<Scan, CliError>(next),
            Err(error) => result matches Err(found) && found@ == error,
        },
{
    if scan.positionals_only {
        positional(scan, at)
    } else {
        match word {
            None => Err(CliError::NotUnicode(at)),
            Some(text) => {
                if !text.as_str().is_empty() && text.as_str().get_char(0) == '-' {
                    option(scan, text)
                } else {
                    positional(scan, at)
                }
            },
        }
    }
}

impl Args {
    /// Reads a command line, the name of the program first. An argument that
    /// is not valid Unicode is given as `None`.
    pub fn parse(args: &Vec<Option<String>>) -> (result: Result<Args, CliError>)
        ensures
            match spec_parse(texts(args@)) {
                Ok(parsed) => result == Ok::<Args, CliError>(parsed),
                Err(error) => result matches Err(found) && found@ == error,
            },
            result matches Ok(parsed) ==> parsed.within(args@.len()),
            result matches Err(error) ==> error@.within(args@.len()),
    {
        if args.len() == 1 {
            return Err(CliError::HelpRequested);
        }
        let ghost words = texts(args@);
        let mut scan = Scan {
            force: false,
            verbose: false,
            kdl_version: None,
            positionals_only: false,
            input: None,
            output: None,
        };
        let mut i: usize = 1;
        while i < args.len()
            invariant
                1 <= i,
                scan.input matches Some(at) ==> 1 <= at < i,
                scan.output matches Some(at) ==> 1 <= at < i,
                words == texts(args@),
                args.len() != 1,
                i <= args.len() || (args.len() == 0 && i == 1),
                spec_scan(words, i as int) == Ok::<Scan, CliErrorView>(scan),
            decreases args.len() - i,
        {
            match step(scan, &args[i], i) {
                Ok(next) => {
                    scan = next;
                },
                Err(error) => {
                    proof {
                        lemma_scan_stops(words, i + 1, words.len() as int);
                    }
                    return Err(error);
                },
            }
            i += 1;
        }
        proof {
            if args.len() == 0 {
                assert(spec_scan(words, 0) == spec_scan(words, 1));
            }
        }
        match scan.input {
            None => Err(CliError::MissingInput),
            Some(input) => Ok(
                Args {
                    input,
                    output: scan.output,
                    force: scan.force,
                    verbose: scan.verbose,
                    kdl_version: match scan.kdl_version {
                        Some(version) => version,
                        None => KdlVersion::default(),
                    },
                },
            ),
        }
    }

    /// Decides what is to be done, given what is known of the files that the
    /// paths name. Whether the output exists matters only if there is one.
    pub fn plan(&self, input_exists: bool, input_is_file: bool, output_exists: bool) -> (result:
        Result<Plan, CliError>)
        ensures
            match spec_plan(*self, input_exists, input_is_file, output_exists) {
                Ok(plan) => result == Ok::<Plan, CliError>(plan),
                Err(error) => result matches Err(found) && found@ == error,
            },
    {
        if !input_exists {
            return Err(CliError::InputNotFound(self.input));
        }
        if !input_is_file {
            return Err(CliError::InvalidInputPath(self.input));
        }
        match self.output {
            Some(output) => {
                if output_exists && !self.force {
                    return Err(CliError::FileExists(output));
                }
                Ok(
                    Plan::Write {
                        input: self.input,
                        output,
                        verbose: self.verbose,
                        kdl_version: self.kdl_version,
                    },
                )
            },
            None => Ok(Plan::Print { input: self.input, kdl_version: self.kdl_version }),
        }
    }
}

impl CliError {
    /// The position of the argument that the error is about, if it is about
    /// one.
    pub fn position(&self) -> (at: Option<usize>)
        ensures
            at == match self@ {
                CliErrorView::NotUnicode(at) => Some(at),
                CliErrorView::InvalidInputPath(at) => Some(at),
                CliErrorView::FileExists(at) => Some(at),
                CliErrorView::InputNotFound(at) => Some(at),
                _ => None,
            },
    {
        match self {
            CliError::NotUnicode(at) => Some(*at),
            CliError::InvalidInputPath(at) => Some(*at),
            CliError::FileExists(at) => Some(*at),
            CliError::InputNotFound(at) => Some(*at),
            _ => None,
        }
    }

    /// The line that reports the error. `argument` shows the argument that
    /// the error is about; it is not read where the error is about none.
    pub fn describe(&self, argument: &str) -> (text: String)
        ensures
            text@ == spec_describe(self@, argument@),
    {
        match self {
            CliError::MissingInput => "missing input path\n".to_owned(),
            CliError::HelpRequested => "help requested\n".to_owned(),
            CliError::MultipleKdlVersion => "specify only one of --kdl-v1 or --kdl-v2\n".to_owned(),
            CliError::UnknownOption(option) => join(
                "unknown command-line option ",
                option.as_str(),
                " (use `--` to pass arbitrary filenames)\n",
            ),
            CliError::TooManyPositionals => "too many positional arguments\n".to_owned(),
            CliError::NotUnicode(_) => join(
                "the argument ",
                argument,
                " was not valid Unicode (use `--` to pass arbitrary filenames)\n",
            ),
            CliError::InvalidInputPath(_) => join("not a file: ", argument, "\n"),
            CliError::FileExists(_) => join(
                "file exists: ",
                argument,
                " (use --force to overwrite)\n",
            ),
            CliError::InputNotFound(_) => join("no such file: ", argument, "\n"),
        }
    }
}

/// The line that reports an error of the conversion, given its description.
pub fn describe_conversion(description: &str) -> (text: String)
    ensures
        text@ == spec_describe_conversion(description@),
{
    join("conversion error: ", description, "\n")
}

/// The report of a conversion that was asked to be verbose.
pub fn report(input: &str, output: &str) -> (text: String)
    ensures
        text@ == "converted "@ + input@ + " -> "@ + output@,
{
    let mut text = join("converted ", input, " -> ");
    text.append(output);
    text
}

/// What `--help` prints.
pub fn help_text() -> (text: String)
    ensures
        text@ == spec_help_text(),
{
    "\
Usage: jsonkdl [options] [--] <input> <output>
Converts JSON to KDL.
By default, KDL spec v2 is used.

Options:
  -1, --kdl-v1     Convert to KDL v1
  -2, --kdl-v2     Convert to KDL v2
  -f, --force      Overwrite output if it exists
  -v, --verbose    Print extra information during conversion
  -h, --help       Show this help message

Arguments:
  <input>          Path to input JSON file
  <output>         Path to output KDL file
".to_owned()
}

/// What `--help` prints.
pub open spec fn spec_help_text() -> Seq<char> {
    "\
Usage: jsonkdl [options] [--] <input> <output>
Converts JSON to KDL.
By default, KDL spec v2 is used.

Options:
  -1, --kdl-v1     Convert to KDL v1
  -2, --kdl-v2     Convert to KDL v2
  -f, --force      Overwrite output if it exists
  -v, --verbose    Print extra information during conversion
  -h, --help       Show this help message

Arguments:
  <input>          Path to input JSON file
  <output>         Path to output KDL file
"@
}

} // verus!
