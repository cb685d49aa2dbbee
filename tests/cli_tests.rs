use check_git_status::cli::{resolve_root, Args, DEFAULT_MAX_DEPTH};
use check_git_status::error::Error;
use check_git_status::output::{OutputFormat, Verbosity};

fn plain_args() -> Args {
    Args {
        root: None,
        maxdepth: None,
        quiet: false,
        verbose: false,
        json: false,
        show_branch: false,
        generate_completion: None,
    }
}

#[test]
fn test_args_verbosity() {
    let args = Args {
        root: None,
        maxdepth: None,
        quiet: true,
        verbose: false,
        json: false,
        show_branch: false,
        generate_completion: None,
    };
    assert_eq!(args.verbosity(), Verbosity::Quiet);

    let args = Args { quiet: false, verbose: true, ..args };
    assert_eq!(args.verbosity(), Verbosity::Verbose);
}

#[test]
fn test_args_output_format() {
    let args = plain_args();
    assert_eq!(args.output_format(), OutputFormat::Human);

    let args = Args { json: true, ..args };
    assert_eq!(args.output_format(), OutputFormat::Json);
}

#[test]
fn test_output_format() {
    let args = plain_args();
    assert_eq!(args.output_format(), OutputFormat::Human);

    let args_json = Args { json: true, ..args };
    assert_eq!(args_json.output_format(), OutputFormat::Json);
}

#[test]
fn test_args_max_depth() {
    let args = Args { maxdepth: Some(5), ..plain_args() };
    assert_eq!(args.max_depth(), 5);

    let args = Args { maxdepth: None, ..args };
    assert_eq!(args.max_depth(), DEFAULT_MAX_DEPTH);
}

#[test]
fn test_args_root_path_custom() {
    let custom_path = "/custom/path".to_string();
    let args = Args { root: Some(custom_path.clone()), ..plain_args() };
    let result = args.root_path();
    assert!(result.is_ok());
    assert_eq!(result.unwrap(), custom_path);
}

#[test]
fn root_defaults_to_projects_in_home() {
    assert_eq!(resolve_root(None, Some("/home/u".to_string())).unwrap(), "/home/u/projects");
    assert_eq!(resolve_root(None, Some("/home/u/".to_string())).unwrap(), "/home/u/projects");
    assert_eq!(resolve_root(Some("/x".to_string()), None).unwrap(), "/x");
}

#[test]
fn missing_home_is_an_error() {
    match resolve_root(None, None) {
        Err(Error::HomeDirectoryNotFound) => {}
        _ => panic!("expected HomeDirectoryNotFound"),
    }
}

#[test]
fn quiet_wins_over_verbose() {
    let args = Args { quiet: true, verbose: true, ..plain_args() };
    assert_eq!(args.verbosity(), Verbosity::Quiet);
}
