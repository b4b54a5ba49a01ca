use sqlparser_mysql::base::arithmetic::{
    Arithmetic, ArithmeticBase, ArithmeticExpression, ArithmeticItem, ArithmeticOperator,
};
use sqlparser_mysql::base::column::{Column, FunctionArgument, FunctionExpression};
use sqlparser_mysql::base::literal::Literal;

use ArithmeticBase::{Column as ArithmeticBaseColumn, Scalar};
use ArithmeticOperator::{Add, Divide, Multiply, Subtract};

#[test]
fn parses_arithmetic_expressions() {
    let lit_ae = ["5 + 42", "5+42", "5 * 42", "5 - 42", "5 / 42", "2 * 10 AS twenty "];

    let col_lit_ae = ["foo+5", "foo + 5", "5 + foo ", "foo * bar AS foobar", "MAX(foo)-3333"];

    let expected_lit_ae = [
        ArithmeticExpression::new(Add, Scalar(5.into()), Scalar(42.into()), None),
        ArithmeticExpression::new(Add, Scalar(5.into()), Scalar(42.into()), None),
        ArithmeticExpression::new(Multiply, Scalar(5.into()), Scalar(42.into()), None),
        ArithmeticExpression::new(Subtract, Scalar(5.into()), Scalar(42.into()), None),
        ArithmeticExpression::new(Divide, Scalar(5.into()), Scalar(42.into()), None),
        ArithmeticExpression::new(
            Multiply,
            Scalar(2.into()),
            Scalar(10.into()),
            Some(String::from("twenty")),
        ),
    ];
    let expected_col_lit_ae = [
        ArithmeticExpression::new(Add, ArithmeticBaseColumn("foo".into()), Scalar(5.into()), None),
        ArithmeticExpression::new(Add, ArithmeticBaseColumn("foo".into()), Scalar(5.into()), None),
        ArithmeticExpression::new(Add, Scalar(5.into()), ArithmeticBaseColumn("foo".into()), None),
        ArithmeticExpression::new(
            Multiply,
            ArithmeticBaseColumn("foo".into()),
            ArithmeticBaseColumn("bar".into()),
            Some(String::from("foobar")),
        ),
        ArithmeticExpression::new(
            Subtract,
            ArithmeticBaseColumn(Column {
                name: String::from("max(foo)"),
                alias: None,
                table: None,
                function: Some(Box::new(FunctionExpression::Max(FunctionArgument::Column(
                    "foo".into(),
                )))),
            }),
            Scalar(3333.into()),
            None,
        ),
    ];

    for (i, e) in lit_ae.iter().enumerate() {
        let res = ArithmeticExpression::parse(e);
        assert!(res.is_ok());
        assert_eq!(res.unwrap().1, expected_lit_ae[i]);
    }

    for (i, e) in col_lit_ae.iter().enumerate() {
        let res = ArithmeticExpression::parse(e);
        assert!(res.is_ok());
        assert_eq!(res.unwrap().1, expected_col_lit_ae[i]);
    }
}

#[test]
fn displays_arithmetic_expressions() {
    let expressions = [
        ArithmeticExpression::new(Add, ArithmeticBaseColumn("foo".into()), Scalar(5.into()), None),
        ArithmeticExpression::new(
            Subtract,
            Scalar(5.into()),
            ArithmeticBaseColumn("foo".into()),
            None,
        ),
        ArithmeticExpression::new(
            Multiply,
            ArithmeticBaseColumn("foo".into()),
            ArithmeticBaseColumn("bar".into()),
            None,
        ),
        ArithmeticExpression::new(Divide, Scalar(10.into()), Scalar(2.into()), None),
        ArithmeticExpression::new(
            Add,
            Scalar(10.into()),
            Scalar(2.into()),
            Some(String::from("bob")),
        ),
    ];

    let expected_strings = ["foo + 5", "5 - foo", "foo * bar", "10 / 2", "10 + 2 AS bob"];
    for (i, e) in expressions.iter().enumerate() {
        assert_eq!(expected_strings[i], e.to_string());
    }
}

#[test]
fn parses_arithmetic_casts() {
    let exprs = [
        "CAST(`t`.`foo` AS signed int) + CAST(`t`.`bar` AS signed int) ",
        "CAST(5 AS bigint) - foo ",
        "CAST(5 AS bigint) - foo AS `5_minus_foo`",
    ];

    let expected = [
        ArithmeticExpression::new(
            Add,
            ArithmeticBaseColumn(Column::from("t.foo")),
            ArithmeticBaseColumn(Column::from("t.bar")),
            None,
        ),
        ArithmeticExpression::new(
            Subtract,
            Scalar(5.into()),
            ArithmeticBaseColumn("foo".into()),
            None,
        ),
        ArithmeticExpression::new(
            Subtract,
            Scalar(5.into()),
            ArithmeticBaseColumn("foo".into()),
            Some("5_minus_foo".into()),
        ),
    ];

    for (i, e) in exprs.iter().enumerate() {
        let res = ArithmeticExpression::parse(e);
        assert!(res.is_ok(), "{} failed to parse", e);
        assert_eq!(res.unwrap().1, expected[i]);
    }
}

#[test]
fn parse_nested_arithmetic() {
    let qs = ["1 + 1", "1 + 2 - 3", "1 + 2 * 3", "2 * 3 - 1 / 3", "3 * (1 + 2)"];

    let expects = [
        Arithmetic::new(Add, Scalar(1.into()), Scalar(1.into())),
        Arithmetic {
            op: Subtract,
            left: ArithmeticItem::Expr(Box::new(Arithmetic::new(
                Add,
                Scalar(1.into()),
                Scalar(2.into()),
            ))),
            right: ArithmeticItem::Base(Scalar(3.into())),
        },
        Arithmetic {
            op: Add,
            left: ArithmeticItem::Base(Scalar(1.into())),
            right: ArithmeticItem::Expr(Box::new(Arithmetic::new(
                Multiply,
                Scalar(2.into()),
                Scalar(3.into()),
            ))),
        },
        Arithmetic {
            op: Subtract,
            left: ArithmeticItem::Expr(Box::new(Arithmetic::new(
                Multiply,
                Scalar(2.into()),
                Scalar(3.into()),
            ))),
            right: ArithmeticItem::Expr(Box::new(Arithmetic::new(
                Divide,
                Scalar(1.into()),
                Scalar(3.into()),
            ))),
        },
        Arithmetic {
            op: Multiply,
            left: ArithmeticItem::Base(Scalar(3.into())),
            right: ArithmeticItem::Base(ArithmeticBase::Bracketed(Box::new(Arithmetic::new(
                Add,
                Scalar(1.into()),
                Scalar(2.into()),
            )))),
        },
    ];

    for (i, e) in qs.iter().enumerate() {
        let res = Arithmetic::parse(e);
        let ari = res.unwrap().1;
        assert_eq!(ari, expects[i]);
        assert_eq!(ari.to_string(), qs[i]);
    }
}

#[test]
fn parse_arithmetic_scalar() {
    let qs = "56";
    let res = Arithmetic::parse(qs);
    assert!(res.is_err());
}

#[test]
fn bracketed_arithmetic_is_unwrapped() {
    let res = Arithmetic::parse("(1 + 2)").unwrap();
    assert_eq!(res.0, "");
    assert_eq!(res.1, Arithmetic::new(Add, Scalar(1.into()), Scalar(2.into())));
}

#[test]
fn arithmetic_stops_before_rest() {
    let res = ArithmeticExpression::parse("a - 1 FROM t").unwrap();
    assert_eq!(res.0, " FROM t");
    assert_eq!(
        res.1,
        ArithmeticExpression::new(
            Subtract,
            ArithmeticBaseColumn("a".into()),
            Scalar(Literal::Integer(1)),
            None
        )
    );
}

#[test]
fn arithmetic_operator_texts() {
    assert_eq!(Add.to_string(), "+");
    assert_eq!(Subtract.to_string(), "-");
    assert_eq!(Multiply.to_string(), "*");
    assert_eq!(Divide.to_string(), "/");
}
