//! The completion resolver: from a snapshot of the command line to the
//! ordered list of suggestions for the word under the cursor.
//!
//! A [`CompletionRequest`] carries plain values only: the tokenized argument
//! list, the index of the word being completed (the entry at that index holds
//! the part of the word before the cursor), and read-only listings of the
//! working directory's subdirectories and of its files and directories.
//! Building a request from the shell's completion protocol, listing the
//! directory, and printing the suggestions are the surrounding program's
//! business; the resolver is a pure function of the request.

use crate::prefix::filter_by_prefix;
use crate::prefix::contains_str;
use crate::prefix::matches_of;
use crate::prefix::str_eq;
use crate::vocab::all_flags;
use crate::vocab::color_choices;
use crate::vocab::color_choices_spec;
use crate::vocab::message_formats;
use crate::vocab::message_formats_spec;
use crate::vocab::subcommands;
use crate::vocab::subcommands_spec;
use crate::vocab::unary_flags;
use crate::vocab::unary_flags_spec;
use crate::vocab::value_flags_spec;
use vstd::prelude::*;

verus! {

/// One completion request: everything the resolver reads.
pub struct CompletionRequest {
    /// The whitespace-tokenized command line, program name at position 0.
    /// The entry at `index` is the part of the word before the cursor.
    pub args: Vec<String>,
    /// Which word is being completed; never 0, the program name itself.
    pub index: usize,
    /// The names of the working directory's subdirectories.
    pub dirs: Vec<String>,
    /// The names of the working directory's files and subdirectories.
    pub files: Vec<String>,
}

impl CompletionRequest {
    /// A well-formed request completes a word after the program name, and
    /// that word is present in the argument list.
    pub open spec fn wf(self) -> bool {
        1 <= self.index < self.args.len()
    }
}

/// What completing the word `args[index]` yields, given the subcommand
/// already typed at position 1 and the directory listings.
pub open spec fn complete_spec(
    args: Seq<Seq<char>>,
    index: int,
    dirs: Seq<Seq<char>>,
    files: Seq<Seq<char>>,
) -> Seq<Seq<char>>
    recommends
        1 <= index < args.len(),
{
    if index == 1 {
        matches_of(subcommands_spec(), args[1])
    } else if args[1] == "run"@ {
        complete_run_spec(args, index, dirs, files)
    } else {
        Seq::<Seq<char>>::empty()
    }
}

/// The decision rule of the `run` subcommand: when the previous word is the
/// subcommand itself or a value-free flag, a new flag name is being typed
/// and every flag is a candidate; when it is a value-taking flag with a
/// known value domain, that domain is the candidate set; any other previous
/// word yields nothing.
pub open spec fn complete_run_spec(
    args: Seq<Seq<char>>,
    index: int,
    dirs: Seq<Seq<char>>,
    files: Seq<Seq<char>>,
) -> Seq<Seq<char>>
    recommends
        2 <= index < args.len(),
{
    let prev = args[index - 1];
    let cur = args[index];
    if prev == "run"@ || unary_flags_spec().contains(prev) {
        matches_of(unary_flags_spec() + value_flags_spec(), cur)
    } else if prev == "--target-dir"@ {
        matches_of(dirs, cur)
    } else if prev == "--manifest-path"@ {
        matches_of(files, cur)
    } else if prev == "--message-format"@ {
        matches_of(message_formats_spec(), cur)
    } else if prev == "--color"@ {
        matches_of(color_choices_spec(), cur)
    } else {
        Seq::<Seq<char>>::empty()
    }
}

/// Resolve a completion request: at position 1 complete the subcommand name;
/// after a recognized subcommand delegate to its completer; after an
/// unrecognized one suggest nothing.
pub fn complete(input: &CompletionRequest) -> (r: Vec<String>)
    requires
        input.wf(),
    ensures
        r.deep_view() == complete_spec(
            input.args.deep_view(),
            input.index as int,
            input.dirs.deep_view(),
            input.files.deep_view(),
        ),
{
    if input.index == 1 {
        let subs = subcommands();
        filter_by_prefix(&subs, input.args[1].as_str())
    } else if str_eq(input.args[1].as_str(), "run") {
        complete_run(input)
    } else {
        Vec::new()
    }
}

/// Complete a word of the `run` subcommand, by the decision rule of
/// [`complete_run_spec`].
pub fn complete_run(input: &CompletionRequest) -> (r: Vec<String>)
    requires
        input.wf(),
        2 <= input.index,
    ensures
        r.deep_view() == complete_run_spec(
            input.args.deep_view(),
            input.index as int,
            input.dirs.deep_view(),
            input.files.deep_view(),
        ),
{
    let prev = input.args[input.index - 1].as_str();
    let cur = input.args[input.index].as_str();
    let unary = unary_flags();
    if str_eq(prev, "run") || contains_str(&unary, prev) {
        let all = all_flags();
        filter_by_prefix(&all, cur)
    } else if str_eq(prev, "--target-dir") {
        filter_by_prefix(&input.dirs, cur)
    } else if str_eq(prev, "--manifest-path") {
        filter_by_prefix(&input.files, cur)
    } else if str_eq(prev, "--message-format") {
        let formats = message_formats();
        filter_by_prefix(&formats, cur)
    } else if str_eq(prev, "--color") {
        let choices = color_choices();
        filter_by_prefix(&choices, cur)
    } else {
        Vec::new()
    }
}

} // verus!
