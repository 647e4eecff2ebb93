use math_dictation::clock::{centis_from_millis, now_timestamp_cs};
use math_dictation::keys::{symbol_for, HintKey, KeyEvent};
use math_dictation::llm::{first_candidate_text, ExtractError, ResponseCandidate, ResponsePart};
use math_dictation::output::OutputManager;
use math_dictation::session::{Phase, Session};

#[test]
fn session_phases_progress_in_order() {
    let mut s = Session::new();
    assert_eq!(s.phase(), Phase::Running);
    s.request_stop();
    assert_eq!(s.phase(), Phase::Stopping);
    s.begin_finalization();
    assert_eq!(s.phase(), Phase::Finalizing);
    let _prompt = s.finish();
    assert_eq!(s.phase(), Phase::Done);
}

#[test]
fn record_key_returns_exact_log_line_and_grows_timeline() {
    let mut s = Session::new();
    let line = s.record_key("(".to_string(), 10);
    assert_eq!(line, "[0.10] KEY: (\n");
    assert_eq!(s.timeline_events().len(), 1);
    assert_eq!(s.timeline_events()[0].content(), "(");
}

#[test]
fn successful_batch_adds_one_event_per_segment_with_one_timestamp() {
    let mut s = Session::new();
    let lines = s.record_batch_outcome(
        Ok(vec!["alpha".to_string(), "beta".to_string()]),
        250,
    );
    assert_eq!(
        lines,
        vec![
            "[2.50] SPEECH: alpha\n".to_string(),
            "[2.50] SPEECH: beta\n".to_string()
        ]
    );
    let events = s.timeline_events();
    assert_eq!(events.len(), 2);
    assert_eq!(events[0].content(), "alpha");
    assert_eq!(events[1].content(), "beta");
    assert_eq!(events[0].timestamp(), 250);
    assert_eq!(events[1].timestamp(), 250);
}

#[test]
fn failed_batch_leaves_timeline_unchanged_and_later_batches_proceed() {
    let mut s = Session::new();
    s.record_batch_outcome(Ok(vec!["first".to_string()]), 100);
    let before: Vec<String> = s
        .timeline_events()
        .iter()
        .map(|e| e.content().to_string())
        .collect();
    let lines = s.record_batch_outcome(Err("decode failed".to_string()), 200);
    assert!(lines.is_empty());
    let after: Vec<String> = s
        .timeline_events()
        .iter()
        .map(|e| e.content().to_string())
        .collect();
    assert_eq!(before, after);
    assert_eq!(s.phase(), Phase::Running);
    s.record_batch_outcome(Ok(vec!["second".to_string()]), 300);
    assert_eq!(s.timeline_events().len(), 2);
    assert_eq!(s.timeline_events()[1].content(), "second");
}

#[test]
fn finish_renders_the_recorded_timeline() {
    let mut s = Session::new();
    s.record_key("(".to_string(), 10);
    s.record_batch_outcome(Ok(vec!["x plus y".to_string()]), 50);
    s.record_key(")".to_string(), 80);
    s.request_stop();
    s.begin_finalization();
    let prompt = s.finish();
    let i = prompt.find("[0.10s] Symbol: (\n").expect("symbol line missing");
    let j = prompt.find("[0.50s] Speech: x plus y\n").expect("speech line missing");
    let k = prompt.find("[0.80s] Symbol: )\n").expect("symbol line missing");
    assert!(i < j && j < k);
}

#[test]
fn every_hint_key_maps_to_its_symbol() {
    assert_eq!(symbol_for(HintKey::KeyJ), "(");
    assert_eq!(symbol_for(HintKey::KeyK), ")");
    assert_eq!(symbol_for(HintKey::KeyU), "[");
    assert_eq!(symbol_for(HintKey::KeyI), "]");
    assert_eq!(symbol_for(HintKey::KeyM), "{");
    assert_eq!(symbol_for(HintKey::Comma), "}");
    assert_eq!(symbol_for(HintKey::KeyO), "^");
    assert_eq!(symbol_for(HintKey::KeyL), "_");
    assert_eq!(symbol_for(HintKey::Semicolon), "\\\\");
}

#[test]
fn key_event_carries_symbol_and_stamp() {
    let e = KeyEvent { key: symbol_for(HintKey::KeyJ).to_string(), timestamp_cs: 12 };
    assert_eq!(e.key, "(");
    assert_eq!(e.timestamp_cs, 12);
}

#[test]
fn extraction_reports_the_first_missing_layer() {
    let none: Vec<ResponseCandidate> = Vec::new();
    assert_eq!(first_candidate_text(&none), Err(ExtractError::NoCandidates));

    let no_parts = vec![ResponseCandidate { parts: Vec::new() }];
    assert_eq!(first_candidate_text(&no_parts), Err(ExtractError::NoParts));

    let no_text = vec![ResponseCandidate { parts: vec![ResponsePart { text: None }] }];
    assert_eq!(first_candidate_text(&no_text), Err(ExtractError::NoText));
}

#[test]
fn extraction_takes_the_first_part_of_the_first_candidate() {
    let candidates = vec![
        ResponseCandidate {
            parts: vec![
                ResponsePart { text: Some("\\frac{x}{y}".to_string()) },
                ResponsePart { text: Some("ignored".to_string()) },
            ],
        },
        ResponseCandidate { parts: vec![ResponsePart { text: Some("ignored too".to_string()) }] },
    ];
    assert_eq!(
        first_candidate_text(&candidates),
        Ok("\\frac{x}{y}".to_string())
    );
}

#[test]
fn extraction_error_messages_are_descriptive() {
    assert_eq!(
        ExtractError::NoCandidates.message(),
        "No candidates in Gemini response"
    );
    assert_eq!(
        ExtractError::NoParts.message(),
        "No parts in Gemini response content"
    );
    assert_eq!(ExtractError::NoText.message(), "No text in Gemini response part");
}

#[test]
fn output_manager_formats_records_and_keeps_its_path() {
    let out = OutputManager::new("dictation_log.txt");
    assert_eq!(out.path(), "dictation_log.txt");
    let e = math_dictation::event::Event::Transcribed {
        text: "x plus y".to_string(),
        timestamp_cs: 50,
    };
    assert_eq!(out.log_event(&e), "[0.50] SPEECH: x plus y\n");
    let k = math_dictation::event::Event::KeyPressed {
        symbol: ")".to_string(),
        timestamp_cs: 80,
    };
    assert_eq!(out.log_event(&k), "[0.80] KEY: )\n");
    assert_eq!(out.log_message("GENERATING LATEX..."), ">>> GENERATING LATEX...\n");
}

#[test]
fn millisecond_readings_convert_to_centiseconds() {
    assert_eq!(centis_from_millis(-5), 0);
    assert_eq!(centis_from_millis(0), 0);
    assert_eq!(centis_from_millis(9), 0);
    assert_eq!(centis_from_millis(10), 1);
    assert_eq!(centis_from_millis(1234), 123);
}

#[test]
fn clock_reads_a_time_well_after_the_epoch() {
    let now_cs = now_timestamp_cs();
    assert!(now_cs > 100_000_000_000);
}
