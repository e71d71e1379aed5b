use cunzhi::scoring::{
    calculate_max_nesting, count_occurrences, evaluate_code_quality, FlawType, ScoreDimensions, Severity,
    calculate_total_score, text_lines_of,
};

#[test]
fn test_scoring_basic() {
    let code = r#"
            fn add(a: i32, b: i32) -> i32 {
                a + b
            }
        "#;

    let tests = r#"
            #[test]
            fn test_add() {
                assert_eq!(add(1, 2), 3);
            }
        "#;

    let score = evaluate_code_quality(code, tests);
    assert!(score.total > 70, "Basic code should score > 70, got {}", score.total);
}

#[test]
fn labels_and_impacts() {
    assert_eq!(FlawType::Syntax.as_str(), "语法错误");
    assert_eq!(FlawType::Complexity.as_str(), "复杂度过高");
    assert_eq!(Severity::Critical.as_str(), "严重");
    assert_eq!(Severity::Info.score_impact(), 2);
    assert_eq!(Severity::Low.score_impact(), 5);
    assert_eq!(Severity::Medium.score_impact(), 10);
    assert_eq!(Severity::High.score_impact(), 20);
    assert_eq!(Severity::Critical.score_impact(), 30);
}

#[test]
fn weighted_total_rounds_half_up() {
    let d = ScoreDimensions {
        correctness: 100,
        readability: 100,
        maintainability: 100,
        performance: 100,
        security: 100,
        test_coverage: 100,
    };
    assert_eq!(calculate_total_score(&d), 100);
    let d = ScoreDimensions {
        correctness: 90,
        readability: 87,
        maintainability: 100,
        performance: 97,
        security: 100,
        test_coverage: 75,
    };
    // 2250 + 1305 + 2000 + 970 + 2000 + 750 = 9275 -> 92.75 -> 93
    assert_eq!(calculate_total_score(&d), 93);
}

#[test]
fn nesting_and_counts() {
    assert_eq!(calculate_max_nesting("a {\n b {\n c { d { e {\n}}}}}\n"), 5);
    assert_eq!(calculate_max_nesting(""), 0);
    assert_eq!(count_occurrences("aaaa", "aa"), 2);
    assert_eq!(count_occurrences(" if x if y ", " if "), 2);
    let lines = text_lines_of("a\r\nb\n\nc");
    assert_eq!(lines.len(), 4);
    assert_eq!(lines[0], vec!['a']);
    assert_eq!(lines[2], Vec::<char>::new());
}

#[test]
fn missing_function_and_tests_are_flagged() {
    let score = evaluate_code_quality("let x = 1;", "");
    assert_eq!(score.dimensions.correctness, 70);
    assert_eq!(score.dimensions.test_coverage, 70);
    assert!(matches!(score.flaws[0].flaw_type, FlawType::Syntax));
    assert!(matches!(score.flaws[0].severity, Severity::High));
}

#[test]
fn security_penalties_add_up() {
    let score = evaluate_code_quality("unsafe { query(format!(\"{}\", password)) }", "");
    assert_eq!(score.dimensions.security, 30);
}
