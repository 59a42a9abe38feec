use bin_clap_directories::config::Config;
use bin_clap_directories::dirs::{locate, ConfigFile, APPLICATION};
use bin_clap_directories::load::FileRead;
use bin_clap_directories::startup::{
    after_arguments, after_directory, after_read, Action, ParsedArgs, VERSION,
};
use clap::App;
use serde::de::IgnoredAny;
use std::path::PathBuf;

/// What reading a file with this text gives: the parser's verdict on it.
fn contents(text: &str) -> FileRead {
    match toml::from_str::<IgnoredAny>(text) {
        Ok(_) => FileRead::Parsed(Config {}),
        Err(e) => FileRead::Invalid(e.to_string()),
    }
}

fn parse(arguments: Vec<&str>) -> ParsedArgs {
    match App::new(APPLICATION).version(VERSION).get_matches_from_safe(arguments) {
        Ok(_) => ParsedArgs::Accepted,
        Err(_) => ParsedArgs::Stopped,
    }
}

/// Walks the steps as a program does, with what each step would find.
fn start(arguments: ParsedArgs, file: Option<ConfigFile>, read: FileRead) -> Action {
    let mut file = file;
    let mut read = Some(read);
    let mut action = after_arguments(arguments);
    loop {
        action = match action {
            Action::ResolveDirectory => after_directory(file.take()),
            Action::ReadFile(file) => {
                let path = file.path().display().to_string();
                after_read(&path, read.take().expect("the file is read once"))
            }
            last => return last,
        };
    }
}

fn place() -> Option<ConfigFile> {
    locate(Some(PathBuf::from("/home/alice/.config/app")))
}

#[test]
fn start_with_a_good_file_runs() {
    let read = contents("foo = 1");
    assert_eq!(start(ParsedArgs::Accepted, place(), read), Action::Run(Config::default()));
}

#[test]
fn start_without_a_file_runs_on_defaults() {
    assert_eq!(
        start(ParsedArgs::Accepted, place(), FileRead::Missing),
        Action::Run(Config::default())
    );
}

#[test]
fn start_without_a_directory_runs_on_defaults() {
    let read = FileRead::Failed("never read".to_string());
    assert_eq!(start(ParsedArgs::Accepted, None, read), Action::Run(Config::default()));
}

#[test]
fn start_with_a_bad_file_fails() {
    let read = contents("foo = ");
    assert_eq!(
        start(ParsedArgs::Accepted, place(), read),
        Action::Fail {
            message: "cannot load /home/alice/.config/app/config.toml: \
                      unexpected eof encountered at line 1 column 7"
                .to_string(),
            code: 1,
        }
    );
}

#[test]
fn start_with_a_stopped_parser_leaves_whatever_is_on_disk() {
    assert_eq!(start(ParsedArgs::Stopped, place(), FileRead::Missing), Action::Leave);
    assert_eq!(
        start(ParsedArgs::Stopped, place(), contents("foo = ")),
        Action::Leave
    );
    assert_eq!(
        start(ParsedArgs::Stopped, None, FileRead::Failed("boom".to_string())),
        Action::Leave
    );
}

#[test]
fn version_constant() {
    assert_eq!(VERSION, "0.1.0");
}

#[test]
fn accepted_arguments_go_on_to_the_directory() {
    assert_eq!(after_arguments(ParsedArgs::Accepted), Action::ResolveDirectory);
}

#[test]
fn stopped_parser_leaves() {
    assert_eq!(after_arguments(ParsedArgs::Stopped), Action::Leave);
}

#[test]
fn no_arguments_start_the_program() {
    assert_eq!(after_arguments(parse(vec!["prog"])), Action::ResolveDirectory);
}

#[test]
fn version_flag_leaves_before_any_loading() {
    assert_eq!(after_arguments(parse(vec!["prog", "--version"])), Action::Leave);
    assert_eq!(after_arguments(parse(vec!["prog", "-V"])), Action::Leave);
}

#[test]
fn help_flag_leaves_before_any_loading() {
    assert_eq!(after_arguments(parse(vec!["prog", "--help"])), Action::Leave);
    assert_eq!(after_arguments(parse(vec!["prog", "-h"])), Action::Leave);
}

#[test]
fn unknown_flag_leaves_before_any_loading() {
    assert_eq!(after_arguments(parse(vec!["prog", "--bogus"])), Action::Leave);
}

#[test]
fn positional_argument_is_refused() {
    assert_eq!(after_arguments(parse(vec!["prog", "extra"])), Action::Leave);
}

#[test]
fn no_directory_runs_on_defaults() {
    assert_eq!(after_directory(None), Action::Run(Config::default()));
}

#[test]
fn directory_leads_to_reading_the_file() {
    let dir = PathBuf::from("/home/alice/.config/app");
    let file = locate(Some(dir.clone())).unwrap();
    match after_directory(Some(file)) {
        Action::ReadFile(file) => {
            assert_eq!(file.dir, dir);
            assert_eq!(file.name, "config.toml");
        }
        other => panic!("expected a read, got {:?}", other),
    }
}

#[test]
fn missing_file_runs_on_defaults() {
    assert_eq!(after_read("/x/config.toml", FileRead::Missing), Action::Run(Config::default()));
}

#[test]
fn readable_file_runs() {
    assert_eq!(
        after_read("/x/config.toml", contents("foo = 1")),
        Action::Run(Config::default())
    );
    assert_eq!(
        after_read("/x/config.toml", contents("")),
        Action::Run(Config::default())
    );
}

#[test]
fn failed_read_fails_with_code_one() {
    assert_eq!(
        after_read("/x/config.toml", FileRead::Failed("Is a directory (os error 21)".to_string())),
        Action::Fail {
            message: "cannot load /x/config.toml: Is a directory (os error 21)".to_string(),
            code: 1,
        }
    );
}

#[test]
fn invalid_toml_fails_with_code_one() {
    assert_eq!(
        after_read("/x/config.toml", contents("foo = ")),
        Action::Fail {
            message: "cannot load /x/config.toml: unexpected eof encountered at line 1 column 7"
                .to_string(),
            code: 1,
        }
    );
}
