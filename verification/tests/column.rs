use std::cmp::Ordering;

use sqlparser_mysql::base::column::{
    Column, ColumnConstraint, ColumnPosition, ColumnSpecification, FunctionArgument,
    FunctionArguments, FunctionExpression,
};
use sqlparser_mysql::base::data_type::DataType;
use sqlparser_mysql::base::error::ParseSQLErrorKind;
use sqlparser_mysql::base::literal::Literal;

#[test]
fn column_column_from_str() {
    let s = "table.col";
    let c = Column::from(s);

    assert_eq!(
        c,
        Column {
            name: String::from("col"),
            alias: None,
            table: Some(String::from("table")),
            function: None,
        }
    );
}

#[test]
fn column_print_function_column() {
    let c1 = Column {
        name: "".into(),
        alias: Some("foo".into()),
        table: None,
        function: Some(Box::new(FunctionExpression::CountStar)),
    };
    let c2 = Column {
        name: "".into(),
        alias: None,
        table: None,
        function: Some(Box::new(FunctionExpression::CountStar)),
    };
    let c3 = Column {
        name: "".into(),
        alias: None,
        table: None,
        function: Some(Box::new(FunctionExpression::Sum(
            FunctionArgument::Column(Column::from("mytab.foo")),
            false,
        ))),
    };

    assert_eq!(c1.to_string(), "count(*) AS foo");
    assert_eq!(c2.to_string(), "count(*)");
    assert_eq!(c3.to_string(), "sum(mytab.foo)");
}

#[test]
fn column_simple_column_function() {
    let qs = "max(addr_id)";

    let res = Column::parse(qs);
    let expected = Column {
        name: String::from("max(addr_id)"),
        alias: None,
        table: None,
        function: Some(Box::new(FunctionExpression::Max(FunctionArgument::Column(
            Column::from("addr_id"),
        )))),
    };
    assert_eq!(res.unwrap().1, expected);
}

#[test]
fn column_simple_generic_function() {
    let qlist = ["coalesce(a,b,c)", "coalesce (a,b,c)", "coalesce(a ,b,c)", "coalesce(a, b,c)"];
    for q in qlist.iter() {
        let res = FunctionExpression::parse(q);
        let expected = FunctionExpression::Generic(
            "coalesce".to_string(),
            FunctionArguments::from(vec![
                FunctionArgument::Column(Column::from("a")),
                FunctionArgument::Column(Column::from("b")),
                FunctionArgument::Column(Column::from("c")),
            ]),
        );
        assert_eq!(res, Ok(("", expected)));
    }
}

#[test]
fn column_name_text_round_trip() {
    let c = Column::from("tbl.col");
    assert_eq!(c.to_string(), "tbl.col");
    assert_eq!(Column::from(c.to_string().as_str()), c);
    let plain = Column::from_name("col");
    assert_eq!(plain.to_string(), "col");
    assert_eq!(plain.table, None);
}

#[test]
fn column_with_alias_and_table() {
    let (rest, c) = Column::parse("t.a AS b, x").unwrap();
    assert_eq!(rest, ", x");
    assert_eq!(
        c,
        Column {
            name: "a".to_string(),
            alias: Some("b".to_string()),
            table: Some("t".to_string()),
            function: None,
        }
    );
    assert_eq!(c.to_string(), "t.a AS b");
}

#[test]
fn count_distinct_column() {
    let (_, c) = Column::parse("count(distinct foo) ").unwrap();
    assert_eq!(
        c.function,
        Some(Box::new(FunctionExpression::Count(
            FunctionArgument::Column(Column::from("foo")),
            true
        )))
    );
    assert_eq!(c.name, "count(distinct foo)");
}

#[test]
fn field_list_of_columns() {
    let (rest, cols) = Column::field_list("a, b.c ,d)").unwrap();
    assert_eq!(rest, ")");
    assert_eq!(cols, vec![Column::from("a"), Column::from("b.c"), Column::from("d")]);
}

#[test]
fn column_position_parse_and_text() {
    let (_, p) = ColumnPosition::parse(" FIRST").unwrap();
    assert_eq!(p, ColumnPosition::First);
    assert_eq!(p.to_string(), "FIRST");
    let (_, p) = ColumnPosition::parse(" AFTER foo").unwrap();
    assert_eq!(p, ColumnPosition::After(Column::from("foo")));
    assert_eq!(p.to_string(), "AFTER foo");
}

#[test]
fn column_constraint_not_null() {
    let (_, c) = ColumnConstraint::parse(" NOT NULL").unwrap();
    assert_eq!(c, Some(ColumnConstraint::NotNull));
    assert_eq!(c.unwrap().to_string(), "NOT NULL");
}

#[test]
fn column_specification_with_constraints() {
    let (rest, spec) = ColumnSpecification::parse("id int(11) NOT NULL AUTO_INCREMENT, x").unwrap();
    assert_eq!(rest, "x");
    assert_eq!(spec.column, Column::from("id"));
    assert_eq!(spec.sql_type, DataType::Int(11));
    assert_eq!(
        spec.constraints,
        vec![ColumnConstraint::NotNull, ColumnConstraint::AutoIncrement]
    );
    assert_eq!(spec.to_string(), "id INT(11) NOT NULL AUTO_INCREMENT");
}

#[test]
fn column_specification_default_value() {
    let (_, spec) = ColumnSpecification::parse("n int DEFAULT 5").unwrap();
    assert_eq!(
        spec.constraints,
        vec![ColumnConstraint::DefaultValue(Literal::Integer(5))]
    );
}

#[test]
fn column_specification_without_type_is_an_error() {
    let err = ColumnSpecification::parse("id").unwrap_err();
    assert_eq!(err.errors.len(), 1);
    assert!(matches!(err.errors[0].1, ParseSQLErrorKind::Context(_)));
}

#[test]
fn column_partial_order() {
    assert_eq!(Column::from("a").partial_cmp(&Column::from("b")), Some(Ordering::Less));
    assert_eq!(Column::from("a").partial_cmp(&Column::from("a")), Some(Ordering::Equal));
    assert_eq!(Column::from("t.b").partial_cmp(&Column::from("u.a")), Some(Ordering::Less));
    assert_eq!(Column::from("t.b").partial_cmp(&Column::from("t.a")), Some(Ordering::Greater));
    assert_eq!(Column::from("t.a").partial_cmp(&Column::from("a")), None);
    assert!(Column::from("ab") > Column::from("a"));
    assert!(Column::from("B") < Column::from("a"));
}

#[test]
fn column_clone_is_equal() {
    let (_, c) = Column::parse("coalesce(a, CASE WHEN b > 1 THEN c END) AS z").unwrap();
    assert_eq!(c.clone(), c);
    let l = Literal::Blob(vec![1, 2, 255]);
    assert_eq!(l.clone(), l);
}

#[test]
fn column_constraint_texts_read_back() {
    for c in [
        ColumnConstraint::NotNull,
        ColumnConstraint::Null,
        ColumnConstraint::AutoIncrement,
        ColumnConstraint::PrimaryKey,
        ColumnConstraint::Unique,
        ColumnConstraint::OnUpdate(Literal::CurrentTimestamp),
        ColumnConstraint::DefaultValue(Literal::Integer(3)),
        ColumnConstraint::CharacterSet("utf8".to_string()),
        ColumnConstraint::Collation("utf8_bin".to_string()),
    ] {
        let text = c.to_string();
        assert_eq!(ColumnConstraint::parse(&text), Ok(("", Some(c))));
    }
}

#[test]
fn column_constraint_failure_is_grammar_error() {
    let err = ColumnConstraint::parse("bogus").unwrap_err();
    assert_eq!(err.errors, vec![("bogus".to_string(), ParseSQLErrorKind::Grammar)]);
}
