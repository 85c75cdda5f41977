use matan_bridge::decode::read_summary;
use matan_bridge::decode::read_table;
use matan_bridge::errors::Error;
use matan_bridge::errors::SummaryField;
use matan_bridge::errors::TableParseKind;

fn rows_of(contents: &str, arity: usize) -> Vec<Vec<String>> {
    read_table(contents, "/d/t.dat", arity).expect("table should decode")
}

#[test]
fn table_two_columns() {
    let rows = rows_of("1.0 2.5\n3.0 4.25\n", 2);
    assert_eq!(rows.len(), 2);
    assert_eq!(rows[0], vec!["1.0".to_string(), "2.5".to_string()]);
    assert_eq!(rows[1], vec!["3.0".to_string(), "4.25".to_string()]);
    let nums: Vec<Vec<f64>> = rows
        .iter()
        .map(|r| r.iter().map(|t| t.parse::<f64>().unwrap()).collect())
        .collect();
    assert_eq!(nums, vec![vec![1.0, 2.5], vec![3.0, 4.25]]);
}

#[test]
fn table_too_few_columns_line_one() {
    let err = read_table("1.0\n3.0 4.0\n", "/d/t.dat", 2).unwrap_err();
    match err {
        Error::TableParse { ref path, line, ref kind } => {
            assert_eq!(path, "/d/t.dat");
            assert_eq!(line, 1);
            assert!(matches!(kind, TableParseKind::TooFewColumns));
        }
        other => panic!("wrong error: {}", other.message()),
    }
    let msg = read_table("1.0\n", "/d/t.dat", 2).unwrap_err().message();
    assert_eq!(msg, "Too few columns in /d/t.dat line 1");
}

#[test]
fn table_invalid_token_is_named() {
    let err = read_table("x 2.5\n", "/d/t.dat", 2).unwrap_err();
    match err {
        Error::TableParse { ref path, line, ref kind } => {
            assert_eq!(path, "/d/t.dat");
            assert_eq!(line, 1);
            match kind {
                TableParseKind::InvalidNumber { token } => assert_eq!(token, "x"),
                other => panic!("wrong kind: {other:?}"),
            }
        }
        other => panic!("wrong error: {}", other.message()),
    }
    let msg = read_table("1.0 2.0\n1.0 oops\n", "/d/t.dat", 2).unwrap_err().message();
    assert_eq!(msg, "Invalid number in /d/t.dat line 2: oops");
}

#[test]
fn table_skips_blank_lines() {
    let rows = rows_of("1.0 2.0\n\n3.0 4.0\n", 2);
    assert_eq!(rows.len(), 2);
    assert_eq!(rows[0], vec!["1.0".to_string(), "2.0".to_string()]);
    assert_eq!(rows[1], vec!["3.0".to_string(), "4.0".to_string()]);
    let spaced = rows_of("  \t \n1.0 2.0\n   \n", 2);
    assert_eq!(spaced.len(), 1);
}

#[test]
fn table_blank_lines_keep_line_numbers() {
    let err = read_table("1.0 2.0\n\nbad 4.0\n", "/d/t.dat", 2).unwrap_err();
    match err {
        Error::TableParse { line, .. } => assert_eq!(line, 3),
        other => panic!("wrong error: {}", other.message()),
    }
}

#[test]
fn table_tolerates_extra_tokens() {
    let rows = rows_of("1.0 2.0 9.9 8.8\n", 2);
    assert_eq!(rows, vec![vec!["1.0".to_string(), "2.0".to_string()]]);
}

#[test]
fn table_empty_text_is_empty() {
    assert!(rows_of("", 2).is_empty());
    assert!(rows_of("\n\n", 6).is_empty());
}

#[test]
fn table_crlf_line_endings() {
    let rows = rows_of("1.0 2.0\r\n3.0 4.0\r\n", 2);
    assert_eq!(rows.len(), 2);
    assert_eq!(rows[1], vec!["3.0".to_string(), "4.0".to_string()]);
}

#[test]
fn numeric_tokens_accepted_match_float_parsing() {
    let good = [
        "0", "7", "-3", "+2.5", "1.", ".5", "-.5", "1.25", "1e5", "1E5", "1e+5", "1.25e-3",
        "1.e5", "inf", "INF", "-inf", "Infinity", "-infinity", "nan", "NaN", "+NAN",
    ];
    for tok in good {
        let rows = read_table(tok, "/d/t.dat", 1)
            .unwrap_or_else(|e| panic!("{tok} rejected: {}", e.message()));
        assert_eq!(rows.len(), 1, "{tok}");
        assert!(
            rows[0][0].parse::<f64>().is_ok(),
            "{tok} accepted by the decoder but not by float parsing"
        );
    }
}

#[test]
fn numeric_tokens_rejected_match_float_parsing() {
    let bad = [
        ".", "-", "+", "e5", "1e", "1e+", "1.2.3", "--1", "0x10", "1f", "in", "infin", "na",
        "nan5", "1,5", "NULL",
    ];
    for tok in bad {
        assert!(
            read_table(tok, "/d/t.dat", 1).is_err(),
            "{tok} should have been rejected"
        );
        assert!(
            tok.parse::<f64>().is_err(),
            "{tok} rejected by the decoder but accepted by float parsing"
        );
    }
}

#[test]
fn summary_returns_first_pair() {
    let (x, f) = read_summary("1.5 -3.25\n", "/d/s.dat").expect("summary should decode");
    assert_eq!(x, "1.5");
    assert_eq!(f, "-3.25");
    assert_eq!(x.parse::<f64>().unwrap(), 1.5);
    assert_eq!(f.parse::<f64>().unwrap(), -3.25);
}

#[test]
fn summary_ignores_trailing_tokens() {
    let (x, f) = read_summary("1.5 -3.25 99 junk\n", "/d/s.dat").expect("summary should decode");
    assert_eq!((x.as_str(), f.as_str()), ("1.5", "-3.25"));
}

#[test]
fn summary_tokens_may_span_lines() {
    let (x, f) = read_summary("1.5\n-3.25\n", "/d/s.dat").expect("summary should decode");
    assert_eq!((x.as_str(), f.as_str()), ("1.5", "-3.25"));
}

#[test]
fn summary_missing_second_field() {
    let err = read_summary("1.5\n", "/d/s.dat").unwrap_err();
    match err {
        Error::SummaryParse { ref path, ref field, ref token } => {
            assert_eq!(path, "/d/s.dat");
            assert!(matches!(field, SummaryField::FMin));
            assert!(token.is_none());
        }
        other => panic!("wrong error: {}", other.message()),
    }
    assert_eq!(
        read_summary("1.5\n", "/d/s.dat").unwrap_err().message(),
        "Missing f_min in /d/s.dat"
    );
}

#[test]
fn summary_missing_first_field() {
    let msg = read_summary("   \n", "/d/s.dat").unwrap_err().message();
    assert_eq!(msg, "Missing x_min in /d/s.dat");
}

#[test]
fn summary_invalid_fields() {
    let msg = read_summary("abc 1.0", "/d/s.dat").unwrap_err().message();
    assert_eq!(msg, "Invalid x_min in /d/s.dat: abc");
    let msg = read_summary("1.0 abc", "/d/s.dat").unwrap_err().message();
    assert_eq!(msg, "Invalid f_min in /d/s.dat: abc");
}
