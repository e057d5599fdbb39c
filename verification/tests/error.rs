use lovr_rs::lovr::error::{error_report, lovr_assert, LovrError};

#[test]
fn success_reads_no_error() {
    let r = lovr_assert(true, || -> Option<String> { panic!("the error must not be read") });
    assert!(r.is_ok());
}

#[test]
fn failure_carries_lovr_message() {
    let r = lovr_assert(false, || Some(String::from("Could not open file")));
    let err = r.unwrap_err();
    assert_eq!(err.message_text(), "Could not open file");
}

#[test]
fn failure_without_message_is_unknown() {
    let err = lovr_assert(false, || None).unwrap_err();
    assert_eq!(err.message_text(), "Unknown LOVR error");
}

#[test]
fn report_keeps_lines_before_run_loop() {
    let backtrace = "   0: game::draw\n   1: lovr_rs::lovr::graphics\r\n   2: lovr_rs::lovr_run::{{closure}}\n   3: lua\n";
    assert_eq!(
        error_report("bad pass", backtrace),
        "bad pass\n\n   0: game::draw\n   1: lovr_rs::lovr::graphics\n"
    );
}

#[test]
fn report_without_marker_keeps_all_lines() {
    assert_eq!(error_report("m", "a\nb"), "m\n\na\nb\n");
    assert_eq!(error_report("m", "a\n\nb\n"), "m\n\na\n\nb\n");
}

#[test]
fn report_of_empty_backtrace() {
    assert_eq!(error_report("m", ""), "m\n\n\n");
}

#[test]
fn report_marker_on_first_line() {
    assert_eq!(error_report("m", "x: lovr_rs::lovr_run::{{closure}}\ny"), "m\n\n\n");
}

#[test]
fn report_keeps_carriage_return_of_last_line() {
    assert_eq!(error_report("m", "a\r\nb\r"), "m\n\na\nb\r\n");
}

#[test]
fn report_of_error_starts_with_message() {
    let err = LovrError::new(String::from("Shader failed"));
    let report = err.report();
    assert!(report.starts_with("Shader failed\n\n"));
    assert!(report.ends_with('\n'));
}

#[test]
fn lovr_error_becomes_lua_runtime_error() {
    let err = LovrError::new(String::from("Out of memory"));
    match mlua::Error::from(err) {
        mlua::Error::RuntimeError(text) => assert!(text.starts_with("Out of memory\n\n")),
        other => panic!("unexpected {:?}", other),
    }
}

/// The report as std's `lines`, `take_while` and `join` compute it.
fn report_by_std(message: &str, backtrace: &str) -> String {
    let kept = backtrace
        .lines()
        .take_while(|line| !line.contains(": lovr_rs::lovr_run::{{closure}}"))
        .collect::<Vec<_>>()
        .join("\n");
    String::from(message) + "\n\n" + &kept + "\n"
}

#[test]
fn report_agrees_with_std_lines() {
    let pieces = ["a", "\n", "\r", "\r\n", "é", ": lovr_rs::lovr_run::{{closure}}", "x y"];
    let mut texts: Vec<String> = vec![String::new()];
    for _ in 0..4 {
        let mut longer = Vec::new();
        for text in &texts {
            for piece in &pieces {
                longer.push(format!("{}{}", text, piece));
            }
        }
        texts.extend(longer);
    }
    for text in &texts {
        assert_eq!(error_report("msg", text), report_by_std("msg", text), "backtrace {:?}", text);
    }
}

#[test]
fn report_holds_the_errors_own_backtrace_text() {
    let err = LovrError::new(String::from("Texture missing"));
    let report = err.report();
    // A captured backtrace renders to some text (its frames, or a note that
    // backtraces are unsupported), so the report holds more than the message.
    assert!(report.starts_with("Texture missing\n\n"));
    assert!(report.len() > "Texture missing\n\n\n".len());
}
