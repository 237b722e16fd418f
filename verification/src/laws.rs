//! Laws of the resolver that relate whole requests, proved once and for all.

use crate::prefix::lemma_matches_of_characterizes;
use crate::prefix::lemma_matches_of_monotonic;
use crate::prefix::matches_of;
use crate::resolve::complete_run_spec;
use crate::resolve::complete_spec;
use crate::resolve::CompletionRequest;
use crate::vocab::color_choices_spec;
use crate::vocab::message_formats_spec;
use crate::vocab::subcommands_spec;
use crate::vocab::unary_flags_spec;
use crate::vocab::value_flags_spec;
use vstd::prelude::*;

verus! {

/// Completing at the subcommand position yields exactly the supported
/// subcommands that start with the typed word; in particular, for every
/// prefix of a supported subcommand, that subcommand is suggested.
pub proof fn lemma_subcommand_completion_exact(
    args: Seq<Seq<char>>,
    dirs: Seq<Seq<char>>,
    files: Seq<Seq<char>>,
)
    requires
        1 < args.len(),
    ensures
        forall|x: Seq<char>|
            #[trigger] complete_spec(args, 1, dirs, files).contains(x) <==> (
            subcommands_spec().contains(x) && args[1].is_prefix_of(x)),
{
    lemma_matches_of_characterizes(subcommands_spec(), args[1]);
}

/// Completion is stateless and hides nothing: two requests that carry the
/// same values are resolved to the same suggestions, so repeating a request
/// repeats its answer.
pub proof fn lemma_complete_deterministic(a: CompletionRequest, b: CompletionRequest)
    requires
        a.args.deep_view() == b.args.deep_view(),
        a.index == b.index,
        a.dirs.deep_view() == b.dirs.deep_view(),
        a.files.deep_view() == b.files.deep_view(),
    ensures
        complete_spec(a.args.deep_view(), a.index as int, a.dirs.deep_view(), a.files.deep_view())
            == complete_spec(
            b.args.deep_view(),
            b.index as int,
            b.dirs.deep_view(),
            b.files.deep_view(),
        ),
{
}

/// Typing further characters can only narrow the suggestions: if the two
/// argument lists differ only in the word under completion, and the first
/// word is a prefix of the second, then every suggestion for the second is
/// also a suggestion for the first.
pub proof fn lemma_complete_monotonic(
    args1: Seq<Seq<char>>,
    args2: Seq<Seq<char>>,
    index: int,
    dirs: Seq<Seq<char>>,
    files: Seq<Seq<char>>,
)
    requires
        1 <= index < args1.len(),
        args2.len() == args1.len(),
        forall|i: int| 0 <= i < args1.len() && i != index ==> args1[i] == args2[i],
        args1[index].is_prefix_of(args2[index]),
    ensures
        forall|x: Seq<char>|
            #[trigger] complete_spec(args2, index, dirs, files).contains(x) ==> complete_spec(
                args1,
                index,
                dirs,
                files,
            ).contains(x),
{
    let p1 = args1[index];
    let p2 = args2[index];
    if index == 1 {
        lemma_matches_of_monotonic(subcommands_spec(), p1, p2);
    } else {
        assert(args1[1] == args2[1]);
        assert(args1[index - 1] == args2[index - 1]);
        let prev = args1[index - 1];
        if args1[1] == "run"@ {
            if prev == "run"@ || unary_flags_spec().contains(prev) {
                lemma_matches_of_monotonic(unary_flags_spec() + value_flags_spec(), p1, p2);
            } else if prev == "--target-dir"@ {
                lemma_matches_of_monotonic(dirs, p1, p2);
            } else if prev == "--manifest-path"@ {
                lemma_matches_of_monotonic(files, p1, p2);
            } else if prev == "--message-format"@ {
                lemma_matches_of_monotonic(message_formats_spec(), p1, p2);
            } else if prev == "--color"@ {
                lemma_matches_of_monotonic(color_choices_spec(), p1, p2);
            }
        }
    }
}

/// Only members of the candidate domain are ever suggested, and each one
/// starts with the typed word: for the `run` completer, every suggestion
/// either is a flag name, a listed directory or file, or an enumerated value
/// of the previous flag.
pub proof fn lemma_run_suggestions_from_domain(
    args: Seq<Seq<char>>,
    index: int,
    dirs: Seq<Seq<char>>,
    files: Seq<Seq<char>>,
)
    requires
        2 <= index < args.len(),
    ensures
        forall|x: Seq<char>|
            #[trigger] complete_run_spec(args, index, dirs, files).contains(x) ==> (args[index]
                .is_prefix_of(x) && ((unary_flags_spec() + value_flags_spec()).contains(x)
                || dirs.contains(x) || files.contains(x) || message_formats_spec().contains(x)
                || color_choices_spec().contains(x))),
{
    let cur = args[index];
    lemma_matches_of_characterizes(unary_flags_spec() + value_flags_spec(), cur);
    lemma_matches_of_characterizes(dirs, cur);
    lemma_matches_of_characterizes(files, cur);
    lemma_matches_of_characterizes(message_formats_spec(), cur);
    lemma_matches_of_characterizes(color_choices_spec(), cur);
}

} // verus!
