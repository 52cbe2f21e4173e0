use mp4_player::events::{error_line, handle_event, process_events, BusEvent, EventOutcome};
use mp4_player::transport::PipelineState;

const PIPELINE: &str = "/GstPlayBin:playbin0";

fn state_changed(source: Option<&str>, old: PipelineState, current: PipelineState) -> BusEvent {
    BusEvent::StateChanged { source: source.map(|s| s.to_string()), old, current }
}

fn error(source: Option<&str>, message: &str, debug: Option<&str>) -> BusEvent {
    BusEvent::Error {
        source: source.map(|s| s.to_string()),
        message: message.to_string(),
        debug: debug.map(|s| s.to_string()),
    }
}

fn silent() -> EventOutcome {
    EventOutcome { stdout: None, stderr: None, terminal: false }
}

#[test]
fn end_of_stream_prints_and_ends_the_loop() {
    assert_eq!(
        handle_event(&BusEvent::EndOfStream, PIPELINE),
        EventOutcome { stdout: Some("End of stream.".to_string()), stderr: None, terminal: true }
    );
}

#[test]
fn error_goes_to_standard_error_and_ends_the_loop() {
    let e = error(Some("/GstPlayBin:playbin0/GstURIDecodeBin:uridecodebin0"), "boom", Some("gst.c(1): detail"));
    assert_eq!(
        handle_event(&e, PIPELINE),
        EventOutcome {
            stdout: None,
            stderr: Some(
                "Error from Some(\"/GstPlayBin:playbin0/GstURIDecodeBin:uridecodebin0\"): boom (Some(\"gst.c(1): detail\"))"
                    .to_string()
            ),
            terminal: true,
        }
    );
}

#[test]
fn error_line_handles_missing_source_and_detail() {
    assert_eq!(error_line(&None, "no source", &None), "Error from None: no source (None)");
    assert_eq!(
        error_line(&Some("a\"b".to_string()), "m", &Some("line\nbreak".to_string())),
        "Error from Some(\"a\\\"b\"): m (Some(\"line\\nbreak\"))"
    );
}

#[test]
fn state_change_of_the_pipeline_is_printed() {
    let e = state_changed(Some(PIPELINE), PipelineState::Paused, PipelineState::Playing);
    assert_eq!(
        handle_event(&e, PIPELINE),
        EventOutcome {
            stdout: Some("Pipeline state: Paused -> Playing".to_string()),
            stderr: None,
            terminal: false,
        }
    );
    let e = state_changed(Some(PIPELINE), PipelineState::Null, PipelineState::Ready);
    assert_eq!(
        handle_event(&e, PIPELINE).stdout,
        Some("Pipeline state: Null -> Ready".to_string())
    );
}

#[test]
fn state_change_of_another_element_is_silent() {
    let e = state_changed(
        Some("/GstPlayBin:playbin0/GstPlaySink:playsink"),
        PipelineState::Ready,
        PipelineState::Paused,
    );
    assert_eq!(handle_event(&e, PIPELINE), silent());
    let e = state_changed(None, PipelineState::Ready, PipelineState::Paused);
    assert_eq!(handle_event(&e, PIPELINE), silent());
    let e = state_changed(Some(""), PipelineState::Ready, PipelineState::Paused);
    assert_eq!(handle_event(&e, PIPELINE), silent());
}

#[test]
fn other_messages_are_passed_over() {
    assert_eq!(handle_event(&BusEvent::Other, PIPELINE), silent());
}

#[test]
fn error_ends_the_run_whatever_is_pending() {
    let head = vec![
        state_changed(Some(PIPELINE), PipelineState::Ready, PipelineState::Paused),
        BusEvent::Other,
        error(None, "failed", None),
    ];
    let mut long = head.clone();
    long.push(BusEvent::Other);
    long.push(error(None, "again", None));
    long.push(BusEvent::EndOfStream);
    let short_run = process_events(&head, PIPELINE);
    let long_run = process_events(&long, PIPELINE);
    assert_eq!(short_run.len(), 3);
    assert_eq!(long_run, short_run);
    assert_eq!(long_run.iter().filter(|o| o.terminal).count(), 1);
    assert!(long_run[2].terminal);
    assert_eq!(long_run[2].stderr, Some("Error from None: failed (None)".to_string()));
}

#[test]
fn end_of_stream_ends_the_run() {
    let events = vec![BusEvent::Other, BusEvent::EndOfStream, BusEvent::Other];
    let run = process_events(&events, PIPELINE);
    assert_eq!(run.len(), 2);
    assert_eq!(run[0], silent());
    assert_eq!(run[1].stdout, Some("End of stream.".to_string()));
    assert!(run[1].terminal);
}

#[test]
fn run_without_terminal_message_takes_everything() {
    let events = vec![
        BusEvent::Other,
        state_changed(Some(PIPELINE), PipelineState::Paused, PipelineState::Playing),
        state_changed(Some("/other"), PipelineState::Paused, PipelineState::Playing),
    ];
    let run = process_events(&events, PIPELINE);
    assert_eq!(run.len(), 3);
    assert!(run.iter().all(|o| !o.terminal));
    assert_eq!(run[1].stdout, Some("Pipeline state: Paused -> Playing".to_string()));
    assert_eq!(run[2], silent());
    assert_eq!(process_events(&Vec::new(), PIPELINE), Vec::new());
}
