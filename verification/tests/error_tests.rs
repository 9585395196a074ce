use flok::error::FlokConfigError;
use flok::error::FlokError;
use flok::error::FlokProgramError;
use flok::error::FlokProgramExecutionError;
use flok::error::FlokProgramInitError;

#[test]
fn config_errors_carry_their_description() {
    let e = FlokError::Config(FlokConfigError::Known("flok.yaml is unreadable".to_string()));
    match e {
        FlokError::Config(FlokConfigError::Known(msg)) => {
            assert_eq!(msg, "flok.yaml is unreadable")
        }
        other => panic!("wrong taxonomy: {:?}", other),
    }
}

#[test]
fn program_errors_split_by_phase() {
    let init = FlokError::Program(FlokProgramError::Init(FlokProgramInitError::UnknownStdIo(
        "terminal unavailable".to_string(),
    )));
    assert!(matches!(
        init,
        FlokError::Program(FlokProgramError::Init(FlokProgramInitError::UnknownStdIo(_)))
    ));

    let exec = FlokError::Program(FlokProgramError::Execution(
        FlokProgramExecutionError::Known("Failed to open PTY".to_string()),
    ));
    assert!(matches!(
        exec,
        FlokError::Program(FlokProgramError::Execution(FlokProgramExecutionError::Known(_)))
    ));
}
