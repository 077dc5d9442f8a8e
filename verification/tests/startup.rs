use wps::startup::{eval_file_report, eval_flag_report, startup_banner, EvaluationOutput};

#[test]
fn eval_file_values_are_not_printed() {
    let report = eval_file_report("a.ts", Ok(EvaluationOutput::Value("42".to_string())));
    assert_eq!(report, None);
}

#[test]
fn eval_file_errors_are_printed() {
    let report = eval_file_report("a.ts", Ok(EvaluationOutput::Error("Uncaught boom".to_string())));
    assert_eq!(report, Some("Error in --eval-file file \"a.ts\": Uncaught boom".to_string()));
    let report = eval_file_report("missing.ts", Err("No such file".to_string()));
    assert_eq!(report, Some("Error in --eval-file file \"missing.ts\": No such file".to_string()));
}

#[test]
fn eval_flag_reports_only_errors() {
    assert_eq!(eval_flag_report(EvaluationOutput::Value("1".to_string())), None);
    assert_eq!(
        eval_flag_report(EvaluationOutput::Error("Uncaught x".to_string())),
        Some("Error in --eval flag: Uncaught x".to_string())
    );
}

#[test]
fn quiet_banner_is_empty() {
    assert!(startup_banner("2.0.0", true, true).is_empty());
    assert!(startup_banner("2.0.0", true, false).is_empty());
}

#[test]
fn banner_lines() {
    let banner = startup_banner("2.0.0", false, false);
    let texts: Vec<&str> = banner.iter().map(|l| l.text.as_str()).collect();
    assert_eq!(texts, vec!["Deno 2.0.0", "exit using ctrl+d, ctrl+c, or close()"]);
    assert!(banner.iter().all(|l| !l.warning));

    let banner = startup_banner("2.0.0", false, true);
    let texts: Vec<&str> = banner.iter().map(|l| l.text.as_str()).collect();
    assert_eq!(
        texts,
        vec![
            "Deno 2.0.0",
            "exit using ctrl+d, ctrl+c, or close()",
            "REPL is running with all permissions allowed.",
            "To specify permissions, run `deno repl` with allow flags.",
        ]
    );
    let warnings: Vec<bool> = banner.iter().map(|l| l.warning).collect();
    assert_eq!(warnings, vec![false, false, true, false]);
}
