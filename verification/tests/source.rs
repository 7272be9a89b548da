use script_pool::errors::StartupError;
use script_pool::source::resolve_source;
use script_pool::source::SourceSpec;

#[test]
fn inline_code_wins_over_paths() {
    let r = resolve_source(
        Some("reply()".to_owned()),
        Some("arg.js".to_owned()),
        Some("env.js".to_owned()),
    );
    match r {
        Ok(SourceSpec::Inline { code }) => assert_eq!(code, "reply()"),
        _ => panic!("inline code must take precedence"),
    }
}

#[test]
fn argument_path_wins_over_environment_path() {
    let r = resolve_source(None, Some("arg.js".to_owned()), Some("env.js".to_owned()));
    match r {
        Ok(SourceSpec::FromFile { path }) => assert_eq!(path, "arg.js"),
        _ => panic!("the argument path must take precedence over the environment"),
    }
}

#[test]
fn environment_path_is_the_last_resort() {
    let r = resolve_source(None, None, Some("env.js".to_owned()));
    match r {
        Ok(SourceSpec::FromFile { path }) => assert_eq!(path, "env.js"),
        _ => panic!("the environment path must be used when nothing else is given"),
    }
}

#[test]
fn no_source_at_all_is_startup_fatal() {
    match resolve_source(None, None, None) {
        Err(StartupError::MissingSource) => {}
        _ => panic!("startup must fail when no source is provided"),
    }
}
