use std::collections::HashSet;

use sqlparser_mysql::base::arithmetic::{ArithmeticBase, ArithmeticExpression, ArithmeticOperator};
use sqlparser_mysql::base::column::Column;
use sqlparser_mysql::base::condition::{ConditionBase, ConditionExpression, ConditionTree};
use sqlparser_mysql::base::item_placeholder::ItemPlaceholder;
use sqlparser_mysql::base::literal::Literal;
use sqlparser_mysql::base::operator::Operator;

use ConditionBase::{Field, LiteralList};
use ConditionExpression::{Base, Bracketed, ComparisonOp, LogicalOp, NegationOp};

fn flat_condition_tree(
    op: Operator,
    l: ConditionBase,
    r: ConditionBase,
) -> ConditionExpression {
    ConditionExpression::ComparisonOp(ConditionTree {
        operator: op,
        left: Box::new(ConditionExpression::Base(l)),
        right: Box::new(ConditionExpression::Base(r)),
    })
}

#[test]
fn ct_contained_columns() {
    let cond = "a.foo = ? and b.bar = 42";

    let res = ConditionExpression::condition_expr(cond);
    let c1 = Column::from("a.foo");
    let c2 = Column::from("b.bar");
    let mut expected_cols = HashSet::new();
    expected_cols.insert(&c1);
    expected_cols.insert(&c2);
    match res.unwrap().1 {
        ConditionExpression::LogicalOp(ct) => {
            assert_eq!(ct.contained_columns().into_iter().collect::<HashSet<_>>(), expected_cols);
        }
        _ => panic!(),
    }
}

#[test]
fn equality_placeholder() {
    x_equality_variable_placeholder(
        "foo = ?",
        Literal::Placeholder(ItemPlaceholder::QuestionMark),
    );
}

#[test]
fn equality_variable_placeholder() {
    x_equality_variable_placeholder(
        "foo = :12",
        Literal::Placeholder(ItemPlaceholder::ColonNumber(12)),
    );
}

#[test]
fn equality_variable_placeholder_with_dollar_sign() {
    x_equality_variable_placeholder(
        "foo = $12",
        Literal::Placeholder(ItemPlaceholder::DollarNumber(12)),
    );
}

fn x_equality_variable_placeholder(cond: &str, literal: Literal) {
    let res = ConditionExpression::condition_expr(cond);
    assert_eq!(
        res.unwrap().1,
        flat_condition_tree(
            Operator::Equal,
            ConditionBase::Field(Column::from("foo")),
            ConditionBase::Literal(literal),
        )
    );
}

fn x_operator_value(op: ArithmeticOperator, value: Literal) -> ConditionExpression {
    ConditionExpression::Arithmetic(Box::new(ArithmeticExpression::new(
        op,
        ArithmeticBase::Column(Column::from("x")),
        ArithmeticBase::Scalar(value),
        None,
    )))
}

#[test]
fn simple_arithmetic_expression() {
    let cond = "x + 3";

    let res = ConditionExpression::simple_expr(cond);
    assert_eq!(
        res.unwrap().1,
        x_operator_value(ArithmeticOperator::Add, 3.into())
    );
}

#[test]
fn simple_arithmetic_expression_with_parenthesis() {
    let cond = "( x - 2 )";

    let res = ConditionExpression::simple_expr(cond);
    assert_eq!(
        res.unwrap().1,
        ConditionExpression::Bracketed(Box::new(x_operator_value(
            ArithmeticOperator::Subtract,
            2.into(),
        )))
    );
}

#[test]
fn parenthetical_arithmetic_expression() {
    let cond = "( x * 5 )";

    let res = ConditionExpression::parenthetical_expr(cond);
    assert_eq!(
        res.unwrap().1,
        ConditionExpression::Bracketed(Box::new(x_operator_value(
            ArithmeticOperator::Multiply,
            5.into(),
        )))
    );
}

#[test]
fn condition_expression_with_arithmetics() {
    let cond = "x * 3 = 21";

    let res = ConditionExpression::condition_expr(cond);
    assert_eq!(
        res.unwrap().1,
        ConditionExpression::ComparisonOp(ConditionTree {
            operator: Operator::Equal,
            left: Box::new(x_operator_value(ArithmeticOperator::Multiply, 3.into())),
            right: Box::new(ConditionExpression::Base(ConditionBase::Literal(21.into()))),
        })
    );
}

#[test]
fn condition_expression_with_arithmetics_and_parenthesis() {
    let cond = "(x - 7 = 15)";

    let res = ConditionExpression::condition_expr(cond);
    assert_eq!(
        res.unwrap().1,
        ConditionExpression::Bracketed(Box::new(ConditionExpression::ComparisonOp(
            ConditionTree {
                operator: Operator::Equal,
                left: Box::new(x_operator_value(ArithmeticOperator::Subtract, 7.into())),
                right: Box::new(ConditionExpression::Base(ConditionBase::Literal(15.into()))),
            }
        )))
    );
}

#[test]
fn condition_expression_with_arithmetics_in_parenthesis() {
    let cond = "( x + 2) = 15";

    let res = ConditionExpression::condition_expr(cond);
    assert_eq!(
        res.unwrap().1,
        ConditionExpression::ComparisonOp(ConditionTree {
            operator: Operator::Equal,
            left: Box::new(ConditionExpression::Bracketed(Box::new(x_operator_value(
                ArithmeticOperator::Add,
                2.into(),
            )))),
            right: Box::new(ConditionExpression::Base(ConditionBase::Literal(15.into()))),
        })
    );
}

#[test]
fn condition_expression_with_arithmetics_in_parenthesis_in_both_side() {
    let cond = "( x + 2) =(x*3)";

    let res = ConditionExpression::condition_expr(cond);
    assert_eq!(
        res.unwrap().1,
        ConditionExpression::ComparisonOp(ConditionTree {
            operator: Operator::Equal,
            left: Box::new(ConditionExpression::Bracketed(Box::new(x_operator_value(
                ArithmeticOperator::Add,
                2.into(),
            )))),
            right: Box::new(ConditionExpression::Bracketed(Box::new(x_operator_value(
                ArithmeticOperator::Multiply,
                3.into(),
            )))),
        })
    );
}

#[test]
fn equality_literals() {
    let cond1 = "foo = 42";
    let cond2 = "foo = \"hello\"";

    let res1 = ConditionExpression::condition_expr(cond1);
    assert_eq!(
        res1.unwrap().1,
        flat_condition_tree(
            Operator::Equal,
            ConditionBase::Field(Column::from("foo")),
            ConditionBase::Literal(Literal::Integer(42)),
        )
    );

    let res2 = ConditionExpression::condition_expr(cond2);
    assert_eq!(
        res2.unwrap().1,
        flat_condition_tree(
            Operator::Equal,
            ConditionBase::Field(Column::from("foo")),
            ConditionBase::Literal(Literal::String(String::from("hello"))),
        )
    );
}

#[test]
fn inequality_literals() {
    let cond1 = "foo >= 42";
    let cond2 = "foo <= 5";

    let res1 = ConditionExpression::condition_expr(cond1);
    assert_eq!(
        res1.unwrap().1,
        flat_condition_tree(
            Operator::GreaterOrEqual,
            ConditionBase::Field(Column::from("foo")),
            ConditionBase::Literal(Literal::Integer(42)),
        )
    );

    let res2 = ConditionExpression::condition_expr(cond2);
    assert_eq!(
        res2.unwrap().1,
        flat_condition_tree(
            Operator::LessOrEqual,
            ConditionBase::Field(Column::from("foo")),
            ConditionBase::Literal(Literal::Integer(5)),
        )
    );
}

#[test]
fn empty_string_literal() {
    let cond = "foo = ''";

    let res = ConditionExpression::condition_expr(cond);
    assert_eq!(
        res.unwrap().1,
        flat_condition_tree(
            Operator::Equal,
            ConditionBase::Field(Column::from("foo")),
            ConditionBase::Literal(Literal::String(String::from(""))),
        )
    );
}

#[test]
fn parenthesis() {
    let cond = "(foo = ? or bar = 12) and foobar = 'a'";

    let a = ComparisonOp(ConditionTree {
        operator: Operator::Equal,
        left: Box::new(Base(Field("foo".into()))),
        right: Box::new(Base(ConditionBase::Literal(Literal::Placeholder(
            ItemPlaceholder::QuestionMark,
        )))),
    });

    let b = ComparisonOp(ConditionTree {
        operator: Operator::Equal,
        left: Box::new(Base(Field("bar".into()))),
        right: Box::new(Base(ConditionBase::Literal(Literal::Integer(12.into())))),
    });

    let left = Bracketed(Box::new(LogicalOp(ConditionTree {
        operator: Operator::Or,
        left: Box::new(a),
        right: Box::new(b),
    })));

    let right = ComparisonOp(ConditionTree {
        operator: Operator::Equal,
        left: Box::new(Base(Field("foobar".into()))),
        right: Box::new(Base(ConditionBase::Literal(Literal::String("a".into())))),
    });

    let complete = LogicalOp(ConditionTree {
        operator: Operator::And,
        left: Box::new(left),
        right: Box::new(right),
    });

    let res = ConditionExpression::condition_expr(cond);
    assert_eq!(res.unwrap().1, complete);
}

#[test]
fn order_of_operations() {
    let cond = "foo = ? and bar = 12 or foobar = 'a'";

    let a = ComparisonOp(ConditionTree {
        operator: Operator::Equal,
        left: Box::new(Base(Field("foo".into()))),
        right: Box::new(Base(ConditionBase::Literal(Literal::Placeholder(
            ItemPlaceholder::QuestionMark,
        )))),
    });

    let b = ComparisonOp(ConditionTree {
        operator: Operator::Equal,
        left: Box::new(Base(Field("bar".into()))),
        right: Box::new(Base(ConditionBase::Literal(Literal::Integer(12.into())))),
    });

    let left = LogicalOp(ConditionTree {
        operator: Operator::And,
        left: Box::new(a),
        right: Box::new(b),
    });

    let right = ComparisonOp(ConditionTree {
        operator: Operator::Equal,
        left: Box::new(Base(Field("foobar".into()))),
        right: Box::new(Base(ConditionBase::Literal(Literal::String("a".into())))),
    });

    let complete = LogicalOp(ConditionTree {
        operator: Operator::Or,
        left: Box::new(left),
        right: Box::new(right),
    });

    let res = ConditionExpression::condition_expr(cond);
    assert_eq!(res.unwrap().1, complete);
}

#[test]
fn negation() {
    let cond = "not bar = 12 or foobar = 'a'";
    
    let left = NegationOp(Box::new(ComparisonOp(ConditionTree {
        operator: Operator::Equal,
        left: Box::new(Base(Field("bar".into()))),
        right: Box::new(Base(ConditionBase::Literal(Literal::Integer(12.into())))),
    })));

    let right = ComparisonOp(ConditionTree {
        operator: Operator::Equal,
        left: Box::new(Base(Field("foobar".into()))),
        right: Box::new(Base(ConditionBase::Literal(Literal::String("a".into())))),
    });

    let complete = LogicalOp(ConditionTree {
        operator: Operator::Or,
        left: Box::new(left),
        right: Box::new(right),
    });

    let res = ConditionExpression::condition_expr(cond);
    assert_eq!(res.unwrap().1, complete);
}

#[test]
fn in_list_of_values() {
    let cond = "bar in (0)";

    let res = ConditionExpression::condition_expr(cond);

    let expected = flat_condition_tree(
        Operator::In,
        Field("bar".into()),
        LiteralList(vec![0.into()]),
    );

    assert_eq!(res.unwrap().1, expected);
}

#[test]
fn is_null() {
    
    let cond = "bar IS NULL";

    let res = ConditionExpression::condition_expr(cond);
    let expected = flat_condition_tree(
        Operator::Equal,
        Field("bar".into()),
        ConditionBase::Literal(Literal::Null),
    );
    assert_eq!(res.unwrap().1, expected);

    let cond = "bar IS NOT NULL";

    let res = ConditionExpression::condition_expr(cond);
    let expected = flat_condition_tree(
        Operator::NotEqual,
        Field("bar".into()),
        ConditionBase::Literal(Literal::Null),
    );
    assert_eq!(res.unwrap().1, expected);
}

#[test]
fn complex_bracketing() {
    
    let cond = "`read_ribbons`.`is_following` = 1 \
                AND `comments`.`user_id` <> `read_ribbons`.`user_id` \
                AND `saldo` >= 0 \
                AND ( `parent_comments`.`user_id` = `read_ribbons`.`user_id` \
                OR ( `parent_comments`.`user_id` IS NULL \
                AND `stories`.`user_id` = `read_ribbons`.`user_id` ) ) \
                AND ( `parent_comments`.`id` IS NULL \
                OR `saldo` >= 0 ) \
                AND `read_ribbons`.`user_id` = ?";

    let res = ConditionExpression::condition_expr(cond);
    let expected = ConditionExpression::LogicalOp(ConditionTree {
        operator: Operator::And,
        left: Box::new(flat_condition_tree(
            Operator::Equal,
            Field("read_ribbons.is_following".into()),
            ConditionBase::Literal(Literal::Integer(1.into())),
        )),
        right: Box::new(ConditionExpression::LogicalOp(ConditionTree {
            operator: Operator::And,
            left: Box::new(flat_condition_tree(
                Operator::NotEqual,
                Field("comments.user_id".into()),
                Field("read_ribbons.user_id".into()),
            )),
            right: Box::new(ConditionExpression::LogicalOp(ConditionTree {
                operator: Operator::And,
                left: Box::new(flat_condition_tree(
                    Operator::GreaterOrEqual,
                    Field("saldo".into()),
                    ConditionBase::Literal(Literal::Integer(0.into())),
                )),
                right: Box::new(ConditionExpression::LogicalOp(ConditionTree {
                    operator: Operator::And,
                    left: Box::new(ConditionExpression::Bracketed(Box::new(
                        ConditionExpression::LogicalOp(ConditionTree {
                            operator: Operator::Or,
                            left: Box::new(flat_condition_tree(
                                Operator::Equal,
                                Field("parent_comments.user_id".into()),
                                Field("read_ribbons.user_id".into()),
                            )),
                            right: Box::new(ConditionExpression::Bracketed(Box::new(
                                ConditionExpression::LogicalOp(ConditionTree {
                                    operator: Operator::And,
                                    left: Box::new(flat_condition_tree(
                                        Operator::Equal,
                                        Field("parent_comments.user_id".into()),
                                        ConditionBase::Literal(Literal::Null),
                                    )),
                                    right: Box::new(flat_condition_tree(
                                        Operator::Equal,
                                        Field("stories.user_id".into()),
                                        Field("read_ribbons.user_id".into()),
                                    )),
                                }),
                            ))),
                        }),
                    ))),
                    right: Box::new(ConditionExpression::LogicalOp(ConditionTree {
                        operator: Operator::And,
                        left: Box::new(ConditionExpression::Bracketed(Box::new(
                            ConditionExpression::LogicalOp(ConditionTree {
                                operator: Operator::Or,
                                left: Box::new(flat_condition_tree(
                                    Operator::Equal,
                                    Field("parent_comments.id".into()),
                                    ConditionBase::Literal(Literal::Null),
                                )),
                                right: Box::new(flat_condition_tree(
                                    Operator::GreaterOrEqual,
                                    Field("saldo".into()),
                                    ConditionBase::Literal(Literal::Integer(0)),
                                )),
                            }),
                        ))),
                        right: Box::new(flat_condition_tree(
                            Operator::Equal,
                            Field("read_ribbons.user_id".into()),
                            ConditionBase::Literal(Literal::Placeholder(
                                ItemPlaceholder::QuestionMark,
                            )),
                        )),
                    })),
                })),
            })),
        })),
    });
    let res = res.unwrap().1;
    assert_eq!(res, expected);
}

#[test]
fn not_in_comparison() {
    let qs1 = "id not in (1,2)";
    let res1 = ConditionExpression::condition_expr(qs1);

    let c1 = res1.unwrap().1;
    let expected1 = flat_condition_tree(
        Operator::NotIn,
        Field("id".into()),
        LiteralList(vec![1.into(), 2.into()]),
    );
    assert_eq!(c1, expected1);

    let expected1 = "id NOT IN (1, 2)";
    assert_eq!(c1.to_string(), expected1);
}


#[test]
fn condition_clone_is_equal() {
    let (_, c) = ConditionExpression::condition_expr("(a.x + 1 = 2 or b in (1, 'z')) and not c IS NULL")
        .unwrap();
    let d = c.clone();
    assert_eq!(c, d);
    assert_eq!(c.to_string(), d.to_string());
}
