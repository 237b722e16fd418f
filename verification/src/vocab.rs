//! The static candidate vocabularies: supported subcommands, the `run`
//! subcommand's flags, and the enumerated value domains of the flags that
//! take one.
//!
//! Order matters: suggestions are produced in declaration order, so each
//! executable builder is proved to return exactly the declared sequence.

use vstd::prelude::*;

verus! {

/// The supported top-level subcommands, in declaration order.
pub open spec fn subcommands_spec() -> Seq<Seq<char>> {
    seq!["run"@, "test"@]
}

/// Flags of `run` that take no value, in declaration order.
pub open spec fn unary_flags_spec() -> Seq<Seq<char>> {
    seq![
        "--release"@,
        "--all-features"@,
        "--no-default-features"@,
        "--verbose"@,
        "--quiet"@,
        "--frozen"@,
        "--locked"@,
        "--help"@,
    ]
}

/// Flags of `run` that consume the following argument, in declaration order.
pub open spec fn value_flags_spec() -> Seq<Seq<char>> {
    seq![
        "--bin"@,
        "--example"@,
        "--package"@,
        "--jobs"@,
        "--features"@,
        "--target"@,
        "--target-dir"@,
        "--manifest-path"@,
        "--message-format"@,
        "--color"@,
    ]
}

/// The enumerated values of `--message-format`, in declaration order.
pub open spec fn message_formats_spec() -> Seq<Seq<char>> {
    seq!["human"@, "json"@, "short"@]
}

/// The enumerated values of `--color`, in declaration order.
pub open spec fn color_choices_spec() -> Seq<Seq<char>> {
    seq!["auto"@, "always"@, "never"@]
}

/// The supported subcommand names.
pub fn subcommands() -> (r: Vec<String>)
    ensures
        r.deep_view() == subcommands_spec(),
{
    let mut r: Vec<String> = Vec::new();
    r.push("run".to_owned());
    r.push("test".to_owned());
    proof {
        assert(r.deep_view() =~= subcommands_spec());
    }
    r
}

/// The value-free flags of `run`.
pub fn unary_flags() -> (r: Vec<String>)
    ensures
        r.deep_view() == unary_flags_spec(),
{
    let mut r: Vec<String> = Vec::new();
    r.push("--release".to_owned());
    r.push("--all-features".to_owned());
    r.push("--no-default-features".to_owned());
    r.push("--verbose".to_owned());
    r.push("--quiet".to_owned());
    r.push("--frozen".to_owned());
    r.push("--locked".to_owned());
    r.push("--help".to_owned());
    proof {
        assert(r.deep_view() =~= unary_flags_spec());
    }
    r
}

/// Every flag of `run`: the value-free flags followed by the value-taking
/// ones, each group in declaration order.
pub fn all_flags() -> (r: Vec<String>)
    ensures
        r.deep_view() == unary_flags_spec() + value_flags_spec(),
{
    let mut r = unary_flags();
    r.push("--bin".to_owned());
    r.push("--example".to_owned());
    r.push("--package".to_owned());
    r.push("--jobs".to_owned());
    r.push("--features".to_owned());
    r.push("--target".to_owned());
    r.push("--target-dir".to_owned());
    r.push("--manifest-path".to_owned());
    r.push("--message-format".to_owned());
    r.push("--color".to_owned());
    proof {
        assert(r.deep_view() =~= unary_flags_spec() + value_flags_spec());
    }
    r
}

/// The enumerated values of `--message-format`.
pub fn message_formats() -> (r: Vec<String>)
    ensures
        r.deep_view() == message_formats_spec(),
{
    let mut r: Vec<String> = Vec::new();
    r.push("human".to_owned());
    r.push("json".to_owned());
    r.push("short".to_owned());
    proof {
        assert(r.deep_view() =~= message_formats_spec());
    }
    r
}

/// The enumerated values of `--color`.
pub fn color_choices() -> (r: Vec<String>)
    ensures
        r.deep_view() == color_choices_spec(),
{
    let mut r: Vec<String> = Vec::new();
    r.push("auto".to_owned());
    r.push("always".to_owned());
    r.push("never".to_owned());
    proof {
        assert(r.deep_view() =~= color_choices_spec());
    }
    r
}

} // verus!
