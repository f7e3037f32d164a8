use lumine::cli::Cli;
use lumine::cli::CliError;
use lumine::cli::Commands;

fn args_of(parts: &[&str]) -> Vec<String> {
    parts.iter().map(|p| p.to_string()).collect()
}

#[test]
fn test_cli_default_no_arguments() {
    let args = args_of(&["lumine"]);
    let cli = Cli::try_parse_from(args);

    assert!(cli.is_ok());
    let parsed = cli.unwrap();
    assert!(parsed.command.is_none());
}

#[test]
fn test_cli_transcribe_command_with_file() {
    let args = args_of(&["lumine", "transcribe", "--file", "test_audio.wav"]);
    let cli = Cli::try_parse_from(args);

    assert!(cli.is_ok());
    let parsed = cli.unwrap();
    match parsed.command {
        Some(Commands::Transcribe { file }) => {
            assert_eq!(file, "test_audio.wav");
        }
        _ => panic!("Expected Transcribe command"),
    }
}

#[test]
fn test_cli_transcribe_command_with_short_file_flag() {
    let args = args_of(&["lumine", "transcribe", "-f", "test_audio.mp3"]);
    let cli = Cli::try_parse_from(args);

    assert!(cli.is_ok());
    let parsed = cli.unwrap();
    match parsed.command {
        Some(Commands::Transcribe { file }) => {
            assert_eq!(file, "test_audio.mp3");
        }
        _ => panic!("Expected Transcribe command"),
    }
}

#[test]
fn test_cli_record_command() {
    let args = args_of(&["lumine", "record"]);
    let cli = Cli::try_parse_from(args);

    assert!(cli.is_ok());
    let parsed = cli.unwrap();
    match parsed.command {
        Some(Commands::Record) => {}
        _ => panic!("Expected Record command"),
    }
}

#[test]
fn test_cli_invalid_command() {
    let args = args_of(&["lumine", "invalid_command"]);
    let cli = Cli::try_parse_from(args);

    assert!(cli.is_err());
}

#[test]
fn test_cli_transcribe_missing_file_argument() {
    let args = args_of(&["lumine", "transcribe"]);
    let cli = Cli::try_parse_from(args);

    assert!(cli.is_err());
}

#[test]
fn test_cli_help() {
    let args = args_of(&["lumine", "--help"]);
    let cli = Cli::try_parse_from(args);

    assert!(cli.is_err());
}

#[test]
fn test_cli_version() {
    let args = args_of(&["lumine", "--version"]);
    let cli = Cli::try_parse_from(args);

    assert!(cli.is_err());
}

#[test]
fn test_cli_transcribe_with_file_containing_spaces() {
    let args = args_of(&["lumine", "transcribe", "--file", "audio with spaces.wav"]);
    let cli = Cli::try_parse_from(args);

    assert!(cli.is_ok());
    let parsed = cli.unwrap();
    match parsed.command {
        Some(Commands::Transcribe { file }) => {
            assert_eq!(file, "audio with spaces.wav");
        }
        _ => panic!("Expected Transcribe command"),
    }
}

#[test]
fn test_cli_transcribe_with_empty_file_string() {
    let args = args_of(&["lumine", "transcribe", "--file", ""]);
    let cli = Cli::try_parse_from(args);

    assert!(cli.is_ok());
    let parsed = cli.unwrap();
    match parsed.command {
        Some(Commands::Transcribe { file }) => {
            assert_eq!(file, "");
        }
        _ => panic!("Expected Transcribe command"),
    }
}

#[test]
fn test_cli_multiple_arguments_ignored_extra() {
    let args = args_of(&["lumine", "transcribe", "--file", "test.wav", "extra", "args"]);
    let cli = Cli::try_parse_from(args);

    assert!(cli.is_err());
}

#[test]
fn cli_rejections_carry_their_reason() {
    assert_eq!(
        Cli::try_parse_from(args_of(&["lumine", "--help"])).unwrap_err(),
        CliError::HelpRequested
    );
    assert_eq!(
        Cli::try_parse_from(args_of(&["lumine", "--version"])).unwrap_err(),
        CliError::VersionRequested
    );
    assert_eq!(
        Cli::try_parse_from(args_of(&["lumine", "invalid_command"])).unwrap_err(),
        CliError::UnknownCommand
    );
    assert_eq!(
        Cli::try_parse_from(args_of(&["lumine", "transcribe"])).unwrap_err(),
        CliError::MissingFileArgument
    );
    assert_eq!(
        Cli::try_parse_from(args_of(&["lumine", "transcribe", "--file"])).unwrap_err(),
        CliError::MissingValue
    );
    assert_eq!(
        Cli::try_parse_from(args_of(&["lumine", "transcribe", "-f", "a.wav", "-f", "b.wav"]))
            .unwrap_err(),
        CliError::DuplicateArgument
    );
    assert_eq!(
        Cli::try_parse_from(args_of(&["lumine", "record", "extra"])).unwrap_err(),
        CliError::UnexpectedArgument
    );
}

#[test]
fn cli_verbose_flag_before_subcommand() {
    let parsed = Cli::try_parse_from(args_of(&["lumine", "-v", "record"])).unwrap();
    assert!(parsed.verbose);
    assert!(matches!(parsed.command, Some(Commands::Record)));

    let parsed = Cli::try_parse_from(args_of(&["lumine", "--verbose"])).unwrap();
    assert!(parsed.verbose);
    assert!(parsed.command.is_none());
}

#[test]
fn cli_reset_config_command() {
    let parsed = Cli::try_parse_from(args_of(&["lumine", "reset-config"])).unwrap();
    assert!(matches!(parsed.command, Some(Commands::ResetConfig)));
}
