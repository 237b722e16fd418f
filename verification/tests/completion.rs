use cargo_completions::complete;
use cargo_completions::CompletionRequest;

/// Build a request the way a shell would: split the line on spaces (a
/// trailing space starts an empty word) and complete the last word.
fn request(line: &str, dirs: Vec<String>, files: Vec<String>) -> CompletionRequest {
    let args: Vec<String> = line.split(' ').map(|w| w.to_string()).collect();
    let index = args.len() - 1;
    CompletionRequest {
        args,
        index,
        dirs,
        files,
    }
}

/// The subdirectory listing of a working directory that holds a package:
/// the listing a shell-side collaborator would supply.
fn cwd_dirs() -> Vec<String> {
    vec!["src".to_string(), "tests".to_string()]
}

/// The files-and-directories listing of the same working directory.
fn cwd_files() -> Vec<String> {
    vec![
        "Cargo.lock".to_string(),
        "Cargo.toml".to_string(),
        "src".to_string(),
        "tests".to_string(),
    ]
}

#[test]
fn complete_subcommand_run() {
    let input = request("cargo ru", vec![], vec![]);
    let completions = complete(&input);

    assert_eq!(1, completions.len());
    assert_eq!("run", completions[0]);
}

#[test]
fn complete_run_option_bin() {
    let input = request("cargo run --bi", vec![], vec![]);
    let completions = complete(&input);

    assert_eq!(1, completions.len());
    assert_eq!("--bin", completions[0]);
}

#[test]
fn complete_run_option_bin_requires_name() {
    let input = request("cargo run --bin ", vec![], vec![]);
    let completions = complete(&input);

    assert_eq!(0, completions.len());
}

#[test]
fn complete_run_option_target_dir() {
    let input = request("cargo run --target-dir sr", cwd_dirs(), cwd_files());
    let completions = complete(&input);

    assert_eq!(1, completions.len());
    assert_eq!("src", completions[0]);
}

#[test]
fn complete_run_option_manifest_path() {
    let input = request("cargo run --manifest-path Cargo.to", cwd_dirs(), cwd_files());
    let completions = complete(&input);

    assert_eq!(1, completions.len());
    assert_eq!("Cargo.toml", completions[0]);
}

#[test]
fn complete_run_option_message_format() {
    let input = request("cargo run --message-format ", vec![], vec![]);
    let completions = complete(&input);

    assert_eq!(3, completions.len());
    assert_eq!("human", completions[0]);
    assert_eq!("json", completions[1]);
    assert_eq!("short", completions[2]);
}

#[test]
fn complete_run_option_color() {
    let input = request("cargo run --color ", vec![], vec![]);
    let completions = complete(&input);

    assert_eq!(3, completions.len());
    assert_eq!("auto", completions[0]);
    assert_eq!("always", completions[1]);
    assert_eq!("never", completions[2]);
}

#[test]
fn complete_subcommand_empty_prefix_lists_all() {
    let input = request("cargo ", vec![], vec![]);
    let completions = complete(&input);

    assert_eq!(vec!["run".to_string(), "test".to_string()], completions);
}

#[test]
fn complete_subcommand_test() {
    let input = request("cargo t", vec![], vec![]);
    let completions = complete(&input);

    assert_eq!(vec!["test".to_string()], completions);
}

#[test]
fn complete_subcommand_no_match() {
    let input = request("cargo x", vec![], vec![]);
    let completions = complete(&input);

    assert_eq!(0, completions.len());
}

#[test]
fn complete_unrecognized_subcommand_yields_nothing() {
    let input = request("cargo build --re", vec![], vec![]);
    let completions = complete(&input);

    assert_eq!(0, completions.len());
}

#[test]
fn complete_run_flag_names_after_run() {
    let input = request("cargo run ", vec![], vec![]);
    let completions = complete(&input);

    assert_eq!(18, completions.len());
    assert_eq!("--release", completions[0]);
    assert_eq!("--help", completions[7]);
    assert_eq!("--bin", completions[8]);
    assert_eq!("--color", completions[17]);
}

#[test]
fn complete_run_flag_names_after_unary_flag() {
    let input = request("cargo run --release --q", vec![], vec![]);
    let completions = complete(&input);

    assert_eq!(vec!["--quiet".to_string()], completions);
}

#[test]
fn complete_run_value_flag_without_domain_yields_nothing() {
    let input = request("cargo run --package ", vec![], vec![]);
    let completions = complete(&input);

    assert_eq!(0, completions.len());

    let input = request("cargo run --jobs 4", vec![], vec![]);
    let completions = complete(&input);

    assert_eq!(0, completions.len());
}

#[test]
fn complete_run_message_format_prefix() {
    let input = request("cargo run --message-format j", vec![], vec![]);
    let completions = complete(&input);

    assert_eq!(vec!["json".to_string()], completions);
}

#[test]
fn complete_run_color_prefix_keeps_order() {
    let input = request("cargo run --color a", vec![], vec![]);
    let completions = complete(&input);

    assert_eq!(vec!["auto".to_string(), "always".to_string()], completions);
}

#[test]
fn complete_run_target_dir_excludes_files() {
    // `Cargo.toml` is a file, not a directory, so it is never a
    // `--target-dir` suggestion even though its name matches.
    let input = request("cargo run --target-dir Cargo", cwd_dirs(), cwd_files());
    let completions = complete(&input);

    assert_eq!(0, completions.len());
}

#[test]
fn complete_run_target_dir_no_match() {
    let input = request("cargo run --target-dir zz", cwd_dirs(), cwd_files());
    let completions = complete(&input);

    assert_eq!(0, completions.len());
}

#[test]
fn complete_run_target_dir_empty_listing_yields_nothing() {
    // An unavailable filesystem hands the resolver an empty listing, which
    // must read as "no matches", not as an error.
    let input = request("cargo run --target-dir sr", vec![], vec![]);
    let completions = complete(&input);

    assert_eq!(0, completions.len());
}

#[test]
fn complete_twice_yields_identical_output() {
    let first = complete(&request("cargo run --me", cwd_dirs(), cwd_files()));
    let second = complete(&request("cargo run --me", cwd_dirs(), cwd_files()));

    assert_eq!(first, second);
}

#[test]
fn complete_longer_prefix_narrows_suggestions() {
    let broad = complete(&request("cargo run --", vec![], vec![]));
    let narrow = complete(&request("cargo run --b", vec![], vec![]));

    assert_eq!(18, broad.len());
    assert_eq!(vec!["--bin".to_string()], narrow);
    for suggestion in &narrow {
        assert!(broad.contains(suggestion));
    }

    let all_colors = complete(&request("cargo run --color ", vec![], vec![]));
    let some_colors = complete(&request("cargo run --color al", vec![], vec![]));

    assert_eq!(vec!["always".to_string()], some_colors);
    for suggestion in &some_colors {
        assert!(all_colors.contains(suggestion));
    }
}
