use aether_code::test_summary::{
    output_lines, parse_test_results, parse_test_results_checked, parse_u32_chars, running_count_of,
    tally_test_results, test_name_of,
};

fn chars(s: &str) -> Vec<char> {
    s.chars().collect()
}

#[test]
fn test_output_lines_like_str_lines() {
    for text in ["", "a", "a\n", "a\nb", "a\r\nb\r\n", "\n", "a\n\nb", "a\r", "x\r\r\n"] {
        let expected: Vec<String> = text.lines().map(|l| l.to_string()).collect();
        assert_eq!(output_lines(text), expected, "for {:?}", text);
    }
}

#[test]
fn test_parse_u32_like_str_parse() {
    for text in ["0", "42", "+7", "4294967295", "4294967296", "", "+", "-1", "1a", " 1", "007", "99999999999"] {
        assert_eq!(parse_u32_chars(&chars(text)), text.parse::<u32>().ok(), "for {:?}", text);
    }
}

#[test]
fn test_marked_lines_are_counted() {
    let output = "running 3 tests\ntest tests::a ... ok\ntest tests::b ... FAILED\ntest tests::c ... ok\n";
    let r = parse_test_results(output);
    assert_eq!(r.total, 3);
    assert_eq!(r.passed, 2);
    assert_eq!(r.failed, 1);
    assert_eq!(r.details, vec!["test tests::b".to_string()]);
}

#[test]
fn test_summary_line_is_not_a_test() {
    let output = "running 2 tests\ntest tests::a ... ok\ntest tests::b ... ok\n\ntest result: ok. 2 passed; 0 failed; 0 ignored; 0 measured; 0 filtered out";
    let r = parse_test_results(output);
    assert_eq!(r.total, 2);
    assert_eq!(r.passed, 2);
    assert_eq!(r.failed, 0);
    assert!(r.details.is_empty());
}

#[test]
fn test_verdict_decides_not_the_name() {
    let r = parse_test_results("test tests::token ... FAILED\ntest tests::b ... ok");
    assert_eq!(r.total, 2);
    assert_eq!(r.passed, 1);
    assert_eq!(r.failed, 1);
    assert_eq!(r.details, vec!["test tests::token".to_string()]);
    let r = parse_test_results("test tests::c ... ignored\n");
    assert_eq!(r.total, 0);
}

#[test]
fn test_summary_lines_when_nothing_is_marked() {
    let r = parse_test_results("running 5 tests\ntest result: ok. 5 passed; 0 failed\n");
    assert_eq!(r.passed, 5);
    assert_eq!(r.failed, 0);
    assert_eq!(r.total, 5);
    let r = parse_test_results("running 5 tests\ntest result: FAILED. 3 passed; 2 failed; 0 ignored\n");
    assert_eq!(r.passed, 3);
    assert_eq!(r.failed, 2);
    assert_eq!(r.total, 5);
    assert!(r.details.is_empty());
    let r = parse_test_results("running 5 tests\ntest result: summary follows\n");
    assert_eq!(r.total, 5);
}

#[test]
fn test_running_line_alone() {
    let r = parse_test_results("running 7 tests\n");
    assert_eq!(r.total, 7);
    assert_eq!(r.passed, 7);
    assert_eq!(r.failed, 0);
    assert_eq!(running_count_of("running 12 tests"), Some(12));
    assert_eq!(running_count_of("running many tests"), None);
}

#[test]
fn test_no_test_output() {
    let r = parse_test_results("    Checking sandbox v0.1.0\n    Finished dev\n");
    assert_eq!(r.total, 0);
    assert_eq!(r.passed, 0);
    assert_eq!(r.failed, 0);
}

#[test]
fn test_uppercase_marks_are_lowered() {
    let r = parse_test_results("TEST a ... OK\nTest b ... Failed\n");
    assert_eq!(r.passed, 1);
    assert_eq!(r.failed, 1);
    assert_eq!(r.details, vec!["Test b".to_string()]);
}

#[test]
fn test_total_overflow_is_refused() {
    let lines = vec!["running 4294967295 tests".to_string(), "test result: 1 failed;".to_string()];
    let lowered = vec![String::new(), String::new()];
    assert!(tally_test_results(&lines, &lowered).is_none());
    let lowered = vec![String::new(), "test result: x ... ok".to_string()];
    let r = tally_test_results(&lines, &lowered).expect("fits");
    assert_eq!(r.total, 1);
    let fine = parse_test_results_checked("running 3 tests\n").expect("fits");
    assert_eq!(fine.total, 3);
}

#[test]
fn test_tally_takes_given_lowercase_forms() {
    let lines = vec!["X".to_string()];
    let lowered = vec!["test x ... ok".to_string()];
    let r = tally_test_results(&lines, &lowered).expect("fits");
    assert_eq!(r.passed, 1);
}

#[test]
fn test_test_name() {
    assert_eq!(test_name_of("  test a::b ... FAILED"), "test a::b");
    assert_eq!(test_name_of("test c fail"), "test c fail");
}
