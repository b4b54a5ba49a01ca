use sqlparser_mysql::base::error::{ParseSQLError, ParseSQLErrorKind};

#[test]
fn error_text_lists_each_failure() {
    assert_eq!(ParseSQLError::grammar("abc").to_string(), "Parse error:\nGrammar at: abc\n");
    let e = ParseSQLError {
        errors: vec![
            ("x)".to_string(), ParseSQLErrorKind::Char('(')),
            ("y".to_string(), ParseSQLErrorKind::Context("data type is empty".to_string())),
        ],
    };
    assert_eq!(
        e.to_string(),
        "Parse error:\nexpected '(' at: x)\nin section 'data type is empty', at: y\n"
    );
}

#[test]
fn error_or_keeps_the_farthest() {
    let near = ParseSQLError::grammar("abc");
    let far = ParseSQLError::grammar("c");
    assert_eq!(near.clone().or(far.clone()), far);
    assert_eq!(far.clone().or(near.clone()), far);
    assert_eq!(near.clone().or(near.clone()), near);
}
