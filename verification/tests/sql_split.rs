use beads_rust::sql_split::split_sql_statements;

#[test]
fn test_split_normal_multi_statement() {
    let sql = "CREATE TABLE a (id INT); CREATE TABLE b (id INT); INSERT INTO a VALUES (1)";
    let stmts = split_sql_statements(sql);
    assert_eq!(stmts.len(), 3);
    assert_eq!(stmts[0], "CREATE TABLE a (id INT)");
    assert_eq!(stmts[1], "CREATE TABLE b (id INT)");
    assert_eq!(stmts[2], "INSERT INTO a VALUES (1)");
}

#[test]
fn test_split_semicolon_inside_single_quoted_string() {
    let sql = "INSERT INTO t(v) VALUES('a;b'); SELECT 1";
    let stmts = split_sql_statements(sql);
    assert_eq!(stmts.len(), 2);
    assert_eq!(stmts[0], "INSERT INTO t(v) VALUES('a;b')");
    assert_eq!(stmts[1], "SELECT 1");
}

#[test]
fn test_split_semicolon_inside_double_quoted_identifier() {
    let sql = r#"CREATE TABLE "weird;name" (id INT); SELECT 1"#;
    let stmts = split_sql_statements(sql);
    assert_eq!(stmts.len(), 2);
    assert_eq!(stmts[0], r#"CREATE TABLE "weird;name" (id INT)"#);
    assert_eq!(stmts[1], "SELECT 1");
}

#[test]
fn test_split_escaped_quotes_in_string() {
    // SQL escapes single quotes by doubling them: 'it''s'
    let sql = "INSERT INTO t(v) VALUES('it''s;here'); SELECT 2";
    let stmts = split_sql_statements(sql);
    assert_eq!(stmts.len(), 2);
    assert_eq!(stmts[0], "INSERT INTO t(v) VALUES('it''s;here')");
    assert_eq!(stmts[1], "SELECT 2");
}

#[test]
fn test_split_empty_statements() {
    let sql = "SELECT 1;; ; SELECT 2";
    let stmts = split_sql_statements(sql);
    assert_eq!(stmts.len(), 2);
    assert_eq!(stmts[0], "SELECT 1");
    assert_eq!(stmts[1], "SELECT 2");
}

#[test]
fn test_split_trailing_semicolon() {
    let sql = "SELECT 1; SELECT 2;";
    let stmts = split_sql_statements(sql);
    assert_eq!(stmts.len(), 2);
    assert_eq!(stmts[0], "SELECT 1");
    assert_eq!(stmts[1], "SELECT 2");
}

#[test]
fn test_split_line_comment_with_semicolon() {
    let sql = "SELECT 1; -- this is a comment; not a split\nSELECT 2";
    let stmts = split_sql_statements(sql);
    assert_eq!(stmts.len(), 2);
    assert_eq!(stmts[0], "SELECT 1");
    assert_eq!(stmts[1], "-- this is a comment; not a split\nSELECT 2");
}

#[test]
fn test_split_block_comment_with_semicolon() {
    let sql = "SELECT 1; /* comment; with; semicolons */ SELECT 2";
    let stmts = split_sql_statements(sql);
    assert_eq!(stmts.len(), 2);
    assert_eq!(stmts[0], "SELECT 1");
    assert_eq!(stmts[1], "/* comment; with; semicolons */ SELECT 2");
}

#[test]
fn test_split_empty_input() {
    assert!(split_sql_statements("").is_empty());
    assert!(split_sql_statements("   ").is_empty());
    assert!(split_sql_statements("  ;  ;  ").is_empty());
}

#[test]
fn test_split_single_statement_no_semicolon() {
    let stmts = split_sql_statements("SELECT 42");
    assert_eq!(stmts.len(), 1);
    assert_eq!(stmts[0], "SELECT 42");
}

#[test]
fn split_unterminated_string_keeps_rest() {
    let stmts = split_sql_statements("SELECT 'a;b; SELECT 2");
    assert_eq!(stmts, vec!["SELECT 'a;b; SELECT 2".to_string()]);
}

#[test]
fn split_double_quote_escape_and_block_end() {
    let stmts = split_sql_statements(r#"SELECT "a"";b"; /* x */; SELECT 3 /* ; */"#);
    assert_eq!(stmts, vec![r#"SELECT "a"";b""#.to_string(), "/* x */".to_string(), "SELECT 3 /* ; */".to_string()]);
}

#[test]
fn split_unicode_whitespace_trimmed_and_non_ascii_kept() {
    let stmts = split_sql_statements("\u{3000}SELECT 'é;ü'\u{a0};\u{2028}");
    assert_eq!(stmts, vec!["SELECT 'é;ü'".to_string()]);
}

#[test]
fn split_line_comment_ends_at_newline() {
    let stmts = split_sql_statements("-- a;\nSELECT 1; SELECT 2");
    assert_eq!(stmts, vec!["-- a;\nSELECT 1".to_string(), "SELECT 2".to_string()]);
}

#[test]
fn plain_script_splits_like_str_split() {
    let sql = " CREATE TABLE a (x INT) ;; SELECT 1;\n UPDATE a SET x = 2 ; ";
    let expected: Vec<&str> = sql.split(';').map(str::trim).filter(|s| !s.is_empty()).collect();
    assert_eq!(split_sql_statements(sql), expected);
}

#[test]
fn unterminated_quote_or_comment_runs_to_the_end() {
    assert_eq!(split_sql_statements("SELECT 'a;b"), vec!["SELECT 'a;b"]);
    assert_eq!(split_sql_statements("SELECT 1; /* a; b"), vec!["SELECT 1", "/* a; b"]);
    assert_eq!(split_sql_statements("SELECT \"x;y"), vec!["SELECT \"x;y"]);
}

#[test]
fn statements_are_ordered_pieces_of_the_script() {
    let sql = "  SELECT 'a;b';  INSERT INTO t VALUES (1) ;-- c; d\nSELECT 2; ";
    let stmts = split_sql_statements(sql);
    assert!(stmts.len() <= sql.matches(';').count() + 1);
    let mut from = 0;
    for s in &stmts {
        let at = sql[from..].find(s.as_str()).expect("statement occurs in order") + from;
        from = at + s.len();
    }
}
