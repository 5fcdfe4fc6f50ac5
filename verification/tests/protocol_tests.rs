use mize_dev::error::DevError;
use mize_dev::protocol::{
    classify_pipe_words, finished_line, output_line, parse_helper_line, read_pipe_line,
    run_ack_line, HelperCommand, PipeEvent,
};

#[test]
fn pipe_build_output_joins_the_rest() {
    assert_eq!(
        read_pipe_line("BuildOutput blob compiling   crate"),
        Ok(PipeEvent::BuildOutput { name: "blob".to_string(), output: "compiling crate".to_string() })
    );
}

#[test]
fn pipe_words_are_split_like_a_shell() {
    assert_eq!(
        read_pipe_line("BuildOutput 'my mod' \"a  b\" c"),
        Ok(PipeEvent::BuildOutput { name: "my mod".to_string(), output: "a  b c".to_string() })
    );
}

#[test]
fn pipe_build_finished() {
    assert_eq!(
        read_pipe_line("BuildFinished blob"),
        Ok(PipeEvent::BuildFinished { name: "blob".to_string() })
    );
    assert_eq!(read_pipe_line("BuildFinished"), Ok(PipeEvent::BuildFinished { name: "".to_string() }));
}

#[test]
fn pipe_short_build_output() {
    assert_eq!(
        read_pipe_line("BuildOutput"),
        Ok(PipeEvent::BuildOutput { name: "".to_string(), output: "".to_string() })
    );
}

#[test]
fn pipe_invalid_lines() {
    assert_eq!(read_pipe_line(""), Ok(PipeEvent::Invalid));
    assert_eq!(read_pipe_line("Hello there"), Ok(PipeEvent::Invalid));
    assert_eq!(classify_pipe_words(&Vec::new()), PipeEvent::Invalid);
}

#[test]
fn pipe_unbalanced_quote_is_refused() {
    assert_eq!(read_pipe_line("BuildOutput 'open"), Err(DevError::UnbalancedQuotes));
}

#[test]
fn helper_run_line() {
    assert_eq!(
        parse_helper_line("Run cargo build\\necho done"),
        HelperCommand::Run {
            encoded: "cargo build\\necho done".to_string(),
            script: "cargo build\necho done".to_string()
        }
    );
    assert_eq!(
        parse_helper_line("Run"),
        HelperCommand::Run { encoded: "".to_string(), script: "".to_string() }
    );
    assert_eq!(
        parse_helper_line("Run  two  spaces"),
        HelperCommand::Run { encoded: " two  spaces".to_string(), script: " two  spaces".to_string() }
    );
}

#[test]
fn helper_exit_and_invalid() {
    assert_eq!(parse_helper_line("exit"), HelperCommand::Exit);
    assert_eq!(parse_helper_line("exit now"), HelperCommand::Exit);
    assert_eq!(parse_helper_line("Exit"), HelperCommand::Invalid);
    assert_eq!(parse_helper_line(""), HelperCommand::Invalid);
}

#[test]
fn helper_pipe_lines() {
    assert_eq!(run_ack_line("blob", "make\\nx"), "BuildOutput blob dev module: got Run: make\\nx\n");
    assert_eq!(finished_line("blob"), "BuildFinished blob\n");
    assert_eq!(output_line("blob", "warning: x\n"), "BuildOutput blob warning: x\n");
}

#[test]
fn helper_lines_read_back_by_the_module() {
    assert_eq!(
        read_pipe_line(finished_line("blob").as_str()),
        Ok(PipeEvent::BuildFinished { name: "blob".to_string() })
    );
    assert_eq!(
        read_pipe_line(output_line("blob", "all good\n").as_str()),
        Ok(PipeEvent::BuildOutput { name: "blob".to_string(), output: "all good".to_string() })
    );
}
