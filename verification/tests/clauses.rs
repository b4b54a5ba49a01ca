use sqlparser_mysql::base::compression_type::CompressionType;
use sqlparser_mysql::base::insert_method_type::InsertMethodType;
use sqlparser_mysql::base::row_format_type::RowFormatType;
use sqlparser_mysql::base::tablespace_type::TablespaceType;
use sqlparser_mysql::base::arithmetic::{ArithmeticBase, ArithmeticExpression, ArithmeticOperator};
use sqlparser_mysql::base::case::{CaseWhenExpression, ColumnOrLiteral};
use sqlparser_mysql::base::column::Column;
use sqlparser_mysql::base::common_parser::CommonParser;
use sqlparser_mysql::base::condition::{ConditionBase, ConditionExpression, ConditionTree};
use sqlparser_mysql::base::data_type::DataType;
use sqlparser_mysql::base::default_or_zero_or_one::DefaultOrZeroOrOne;
use sqlparser_mysql::base::display_util::DisplayUtil;
use sqlparser_mysql::base::field::{FieldDefinitionExpression, FieldValueExpression};
use sqlparser_mysql::base::join::{JoinClause, JoinConstraint, JoinOperator, JoinRightSide};
use sqlparser_mysql::base::key_part::{KeyPart, KeyPartType};
use sqlparser_mysql::base::literal::Literal;
use sqlparser_mysql::base::operator::Operator;
use sqlparser_mysql::base::order::{OrderClause, OrderType};
use sqlparser_mysql::base::reference_definition::ReferenceDefinition;
use sqlparser_mysql::base::reference_type::ReferenceType;
use sqlparser_mysql::base::table::Table;
use sqlparser_mysql::base::table_option::TableOption;
use sqlparser_mysql::base::trigger::Trigger;
use sqlparser_mysql::das::set_statement::SetStatement;

use ArithmeticOperator::{Add, Multiply};
use ConditionBase::Field;
use ConditionExpression::{Base, ComparisonOp};

#[test]
fn parse_case() {
    let str = "CASE WHEN age > 10 THEN col_name ELSE 22 END;";
    let res = CaseWhenExpression::parse(str);

    let exp = CaseWhenExpression {
        condition: ComparisonOp(ConditionTree {
            operator: Operator::Greater,
            left: Box::new(Base(Field(Column {
                name: "age".to_string(),
                alias: None,
                table: None,
                function: None,
            }))),
            right: Box::new(Base(ConditionBase::Literal(Literal::Integer(10)))),
        }),
        then_expr: ColumnOrLiteral::Column(Column {
            name: "col_name".to_string(),
            alias: None,
            table: None,
            function: None,
        }),
        else_expr: Some(ColumnOrLiteral::Literal(Literal::Integer(22))),
    };

    assert!(res.is_ok());
    assert_eq!(res.unwrap().1, exp);
}

#[test]
fn case_when_text() {
    let (_, c) = CaseWhenExpression::parse("CASE WHEN age > 10 THEN col_name ELSE 22 END").unwrap();
    assert_eq!(c.to_string(), "CASE WHEN age > 10 THEN col_name ELSE 22");
}

#[test]
fn parse_sql_identifiers() {
    let id1 = "foo";
    let id2 = "f_o_o";
    let id3 = "foo12";
    let id4 = ":fo oo";
    let id5 = "primary ";
    let id6 = "`primary`";

    assert!(CommonParser::sql_identifier(id1).is_ok());
    assert!(CommonParser::sql_identifier(id2).is_ok());
    assert!(CommonParser::sql_identifier(id3).is_ok());
    assert!(CommonParser::sql_identifier(id4).is_err());
    assert!(CommonParser::sql_identifier(id5).is_err());
    assert!(CommonParser::sql_identifier(id6).is_ok());
}

#[test]
fn parse_comment() {
    let res = CommonParser::parse_comment(" COMMENT 'test'");
    assert_eq!(res.unwrap().1, "test");

    let res = CommonParser::parse_comment(" COMMENT \"test\"");
    assert_eq!(res.unwrap().1, "test");
}

#[test]
fn parse_statement_terminator() {
    let res = CommonParser::statement_terminator("   ;  ");
    assert_eq!(res, Ok(("", ())));
}

#[test]
fn identifier_values() {
    assert_eq!(CommonParser::sql_identifier("foo bar").unwrap(), (" bar", "foo"));
    assert_eq!(CommonParser::sql_identifier("`primary`;").unwrap(), (";", "primary"));
    assert_eq!(CommonParser::unsigned_number("123abc").unwrap(), ("abc", 123));
    assert!(CommonParser::unsigned_number("abc").is_err());
}

#[test]
fn data_type_sql_types() {
    let ok = ["bool", "integer(16)", "datetime(16)"];
    let not_ok = ["varchar"];

    let res_ok: Vec<_> = ok.iter().map(|t| DataType::type_identifier(t).unwrap().1).collect();
    let res_not_ok: Vec<_> = not_ok.iter().map(|t| DataType::type_identifier(t).is_ok()).collect();

    assert_eq!(res_ok, vec![DataType::Bool, DataType::Int(16), DataType::DateTime(16)]);

    assert!(res_not_ok.into_iter().all(|r| r == false));
}

#[test]
fn data_type_texts() {
    assert_eq!(DataType::Int(16).to_string(), "INT(16)");
    assert_eq!(DataType::Bool.to_string(), "BOOL");
    assert_eq!(DataType::len_as_u16("42"), 42);
}

#[test]
fn parse_field_definition_expression() {
    let str1 = "*";
    let res1 = FieldDefinitionExpression::parse(str1);
    assert!(res1.is_ok());
    assert_eq!(res1.unwrap().1, vec![FieldDefinitionExpression::All]);

    let str2 = "tbl_name.*";
    let res2 = FieldDefinitionExpression::parse(str2);
    assert!(res2.is_ok());
    assert_eq!(
        res2.unwrap().1,
        vec![FieldDefinitionExpression::AllInTable("tbl_name".to_string())]
    );

    let str3 = "age, name, score";
    let res3 = FieldDefinitionExpression::parse(str3);
    let exp = vec![
        FieldDefinitionExpression::Col("age".into()),
        FieldDefinitionExpression::Col("name".into()),
        FieldDefinitionExpression::Col("score".into()),
    ];
    assert!(res3.is_ok());
    assert_eq!(res3.unwrap().1, exp);

    let str4 = "1+2, price * count as total_count";
    let res4 = FieldDefinitionExpression::parse(str4);
    let exp = vec![
        FieldDefinitionExpression::Value(FieldValueExpression::Arithmetic(
            ArithmeticExpression::new(
                Add,
                ArithmeticBase::Scalar(Literal::Integer(1)),
                ArithmeticBase::Scalar(Literal::Integer(2)),
                None,
            ),
        )),
        FieldDefinitionExpression::Value(FieldValueExpression::Arithmetic(
            ArithmeticExpression::new(
                Multiply,
                ArithmeticBase::Column("price".into()),
                ArithmeticBase::Column("count".into()),
                Some(String::from("total_count")),
            ),
        )),
    ];
    assert!(res4.is_ok());
    assert_eq!(res4.unwrap().1, exp);
}

#[test]
fn field_definition_texts() {
    assert_eq!(FieldDefinitionExpression::All.to_string(), "*");
    assert_eq!(FieldDefinitionExpression::AllInTable("t".to_string()).to_string(), "t.*");
    assert_eq!(FieldDefinitionExpression::Col("a".into()).to_string(), "a");
}

#[test]
fn parse_join() {
    let str = "INNER JOIN tagging ON tags.id = tagging.tag_id";
    let res = JoinClause::parse(str);

    let ct = ConditionTree {
        left: Box::new(Base(Field(Column::from("tags.id")))),
        right: Box::new(Base(Field(Column::from("tagging.tag_id")))),
        operator: Operator::Equal,
    };
    let join_cond = ConditionExpression::ComparisonOp(ct);
    let join = JoinClause {
        operator: JoinOperator::InnerJoin,
        right: JoinRightSide::Table(Table::from("tagging")),
        constraint: JoinConstraint::On(join_cond),
    };

    let clause = res.unwrap().1;
    assert_eq!(clause, join);
    assert_eq!(str, clause.to_string());
}

#[test]
fn join_operators_parse_back() {
    let ops = [
        JoinOperator::StraightJoin,
        JoinOperator::Join,
        JoinOperator::LeftJoin,
        JoinOperator::LeftOuterJoin,
        JoinOperator::RightJoin,
        JoinOperator::InnerJoin,
        JoinOperator::CrossJoin,
    ];
    for op in ops.iter() {
        let text = op.to_string();
        assert_eq!(JoinOperator::parse(&text).unwrap(), ("", op.clone()));
    }
    assert_eq!(JoinOperator::StraightJoin.to_string(), "STRAIGHT_JOIN");
}

#[test]
fn join_using_columns() {
    let (_, c) = JoinConstraint::parse("USING (a, b)").unwrap();
    assert_eq!(c, JoinConstraint::Using(vec![Column::from("a"), Column::from("b")]));
    assert_eq!(c.to_string(), "USING (a, b)");
}

#[test]
fn parse_key_part_type() {
    let str1 = "column_name(10)";
    let res1 = KeyPartType::parse(str1);
    let exp = KeyPartType::ColumnNameWithLength {
        col_name: "column_name".to_string(),
        length: Some(10),
    };
    assert!(res1.is_ok());
    assert_eq!(res1.unwrap().1, exp);
}

#[test]
fn parse_key_part() {
    let str1 = "(column_name(10))";
    let res1 = KeyPart::parse(str1);

    let key_part = KeyPartType::ColumnNameWithLength {
        col_name: "column_name".to_string(),
        length: Some(10),
    };
    let exp = vec![KeyPart { key_part_type: key_part, order: None }];
    assert!(res1.is_ok());
    assert_eq!(res1.unwrap().1, exp);
}

#[test]
fn key_parts_with_order() {
    // a bare name swallows the blanks after it, so its order is never read
    assert!(KeyPart::parse("(a DESC, b)").is_err());
    let (_, parts) = KeyPart::parse("(a(4) DESC, b)").unwrap();
    assert_eq!(
        parts,
        vec![
            KeyPart {
                key_part_type: KeyPartType::ColumnNameWithLength {
                    col_name: "a".to_string(),
                    length: Some(4)
                },
                order: Some(OrderType::Desc),
            },
            KeyPart {
                key_part_type: KeyPartType::ColumnNameWithLength {
                    col_name: "b".to_string(),
                    length: None
                },
                order: None,
            },
        ]
    );
}

#[test]
fn key_part_expression_form() {
    assert_eq!(
        KeyPartType::parse("(a + b)"),
        Ok(("", KeyPartType::Expr { expr: "a + b".to_string() }))
    );
    assert_eq!(
        KeyPartType::parse(" (LOWER(name)) rest"),
        Ok((" rest", KeyPartType::Expr { expr: "LOWER(name)".to_string() }))
    );
    assert!(KeyPartType::parse("()").is_err());
    assert!(KeyPartType::parse("(a + b").is_err());
    let (rest, parts) = KeyPart::parse("((a + 1) DESC, b)").unwrap();
    assert_eq!(rest, "");
    assert_eq!(
        parts,
        vec![
            KeyPart {
                key_part_type: KeyPartType::Expr { expr: "a + 1".to_string() },
                order: Some(OrderType::Desc),
            },
            KeyPart {
                key_part_type: KeyPartType::ColumnNameWithLength {
                    col_name: "b".to_string(),
                    length: None
                },
                order: None,
            },
        ]
    );
}

#[test]
fn literal_literal_string_single_backslash_escape() {
    let all_escaped = r#"\0\'\"\b\n\r\t\Z\\\%\_"#;
    for quote in ["'", "\""].iter() {
        let quoted = &[quote, &all_escaped[..], quote].concat();
        let res = Literal::string_literal(quoted);
        let expected = Literal::String("\0\'\"\x7F\n\r\t\x1a\\%_".to_string());

        assert!(res.is_ok());
        assert_eq!(res.unwrap().1, expected);
    }
}

#[test]
fn literal_literal_string_single_quote() {
    let res = Literal::string_literal("'a''b'");
    let expected = Literal::String("a'b".to_string());

    assert!(res.is_ok());
    assert_eq!(res.unwrap().1, expected);
}

#[test]
fn literal_literal_string_double_quote() {
    let res = Literal::string_literal(r#""a""b""#);
    let expected = Literal::String(r#"a"b"#.to_string());

    assert!(res.is_ok());
    assert_eq!(res.unwrap().1, expected);
}

#[test]
fn literal_values_and_texts() {
    assert_eq!(Literal::parse("42 ").unwrap(), (" ", Literal::Integer(42)));
    assert_eq!(Literal::parse("-7").unwrap(), ("", Literal::Integer(-7)));
    assert_eq!(Literal::parse("NULL").unwrap(), ("", Literal::Null));
    assert_eq!(Literal::Integer(-7).to_string(), "-7");
    assert_eq!(Literal::String("a'b".to_string()).to_string(), "'a''b'");
    assert_eq!(Literal::Null.to_string(), "NULL");
    assert_eq!(Literal::unpack("12"), 12);
}

#[test]
fn literal_value_list() {
    let (rest, v) = Literal::value_list("1, 'a' ,2)").unwrap();
    assert_eq!(rest, ")");
    assert_eq!(
        v,
        vec![Literal::Integer(1), Literal::String("a".to_string()), Literal::Integer(2)]
    );
}

#[test]
fn order_clause() {
    let str1 = "order by name desc";
    let str2 = "order by name asc, age desc";
    let str3 = "order by name";

    let expected_ord1 = OrderClause { columns: vec![("name".into(), OrderType::Desc)] };
    let expected_ord2 = OrderClause {
        columns: vec![("name".into(), OrderType::Asc), ("age".into(), OrderType::Desc)],
    };
    let expected_ord3 = OrderClause { columns: vec![("name".into(), OrderType::Asc)] };

    let res1 = OrderClause::parse(str1);
    let res2 = OrderClause::parse(str2);
    let res3 = OrderClause::parse(str3);
    assert_eq!(res1.unwrap().1, expected_ord1);
    assert_eq!(res2.unwrap().1, expected_ord2);
    assert_eq!(res3.unwrap().1, expected_ord3);
}

#[test]
fn order_clause_text() {
    let (_, o) = OrderClause::parse("order by name asc, age desc").unwrap();
    assert_eq!(o.to_string(), "ORDER BY name ASC, age DESC");
}

#[test]
fn parse_reference_definition() {
    let str1 = "references tbl_name (col_name1, col_name2)";
    let res1 = ReferenceDefinition::parse(str1);
    let exp1 = ReferenceDefinition {
        tbl_name: "tbl_name".to_string(),
        key_part: vec![
            KeyPart {
                key_part_type: KeyPartType::ColumnNameWithLength {
                    col_name: "col_name1".to_string(),
                    length: None,
                },
                order: None,
            },
            KeyPart {
                key_part_type: KeyPartType::ColumnNameWithLength {
                    col_name: "col_name2".to_string(),
                    length: None,
                },
                order: None,
            },
        ],
        match_type: None,
        on_update: None,
        on_delete: None,
    };
    assert!(res1.is_ok());
    assert_eq!(res1.unwrap().1, exp1);

    let str2 = "references tbl_name (col_name1) ON DELETE set null";
    let res2 = ReferenceDefinition::parse(str2);
    let exp2 = ReferenceDefinition {
        tbl_name: "tbl_name".to_string(),
        key_part: vec![KeyPart {
            key_part_type: KeyPartType::ColumnNameWithLength {
                col_name: "col_name1".to_string(),
                length: None,
            },
            order: None,
        }],
        match_type: None,
        on_update: None,
        on_delete: Some(ReferenceType::SetNull),
    };
    assert!(res2.is_ok());
    assert_eq!(res2.unwrap().1, exp2);
}

#[test]
fn reference_type_parse_algorithm_type() {
    let str1 = "RESTRICT";
    let res1 = ReferenceType::parse(str1);
    assert!(res1.is_ok());
    assert_eq!(res1.unwrap().1, ReferenceType::Restrict);

    let str2 = "SET  NULL  ";
    let res2 = ReferenceType::parse(str2);
    assert!(res2.is_ok());
    assert_eq!(res2.unwrap().1, ReferenceType::SetNull);

    let str3 = "SET DEFAULT";
    let res3 = ReferenceType::parse(str3);
    assert!(res3.is_ok());
    assert_eq!(res3.unwrap().1, ReferenceType::SetDefault);
}

#[test]
fn table_parse_trigger() {
    let str1 = "tbl_name";
    let res1 = Table::table_reference(str1);
    let exp1 = Table { name: "tbl_name".to_string(), alias: None, schema: None };
    assert!(res1.is_ok());
    assert_eq!(res1.unwrap().1, exp1);

    let str2 = "foo.tbl_name";
    let res2 = Table::schema_table_reference(str2);
    let exp2 =
        Table { name: "tbl_name".to_string(), alias: None, schema: Some("foo".to_string()) };
    assert!(res2.is_ok());
    assert_eq!(res2.unwrap().1, exp2);

    let str3 = "foo.tbl_name as bar";
    let res3 = Table::schema_table_reference(str3);
    let exp3 = Table {
        name: "tbl_name".to_string(),
        alias: Some("bar".to_string()),
        schema: Some("foo".to_string()),
    };
    assert!(res3.is_ok());
    assert_eq!(res3.unwrap().1, exp3);
}

#[test]
fn table_from_str() {
    let trigger1: Table = "tbl_name".into();
    let exp1 = Table { name: "tbl_name".to_string(), alias: None, schema: None };
    assert_eq!(trigger1, exp1);
}

#[test]
fn table_from_tuple_str() {
    let table2: Table = ("foo", "tbl_name").into();
    let exp2 =
        Table { name: "tbl_name".to_string(), alias: None, schema: Some("foo".to_string()) };
    assert_eq!(table2, exp2);
}

#[test]
fn table_list_and_text() {
    let (rest, ts) = Table::table_list("a, s.b AS c WHERE").unwrap();
    assert_eq!(rest, " WHERE");
    assert_eq!(
        ts,
        vec![
            Table::from("a"),
            Table {
                name: "b".to_string(),
                alias: Some("c".to_string()),
                schema: Some("s".to_string())
            },
        ]
    );
    assert_eq!(ts[1].to_string(), "s.b AS c");
}

#[test]
fn trigger_parse_trigger() {
    let str1 = "trigger_name";
    let res1 = Trigger::parse(str1);
    let exp1 = Trigger { name: "trigger_name".to_string(), schema: None };
    assert!(res1.is_ok());
    assert_eq!(res1.unwrap().1, exp1);

    let str2 = "foo.trigger_name";
    let res2 = Trigger::parse(str2);
    let exp2 = Trigger { name: "trigger_name".to_string(), schema: Some("foo".to_string()) };
    assert!(res2.is_ok());
    assert_eq!(res2.unwrap().1, exp2);
}

#[test]
fn trigger_from_str() {
    let trigger1: Trigger = "trigger_name".into();
    let exp1 = Trigger { name: "trigger_name".to_string(), schema: None };
    assert_eq!(trigger1, exp1);
}

#[test]
fn trigger_from_tuple_str() {
    let trigger2: Trigger = ("foo", "trigger_name").into();
    let exp2 = Trigger { name: "trigger_name".to_string(), schema: Some("foo".to_string()) };
    assert_eq!(trigger2, exp2);
}

#[test]
fn trigger_text() {
    let t: Trigger = ("foo", "bar").into();
    assert_eq!(t.to_string(), "foo.bar");
    let t: Trigger = "bar".into();
    assert_eq!(t.to_string(), "bar");
}

#[test]
fn parse_table_option() {
    let str1 = "PACK_KEYS=1;";
    let res1 = TableOption::parse(str1);
    let exp = TableOption::PackKeys(DefaultOrZeroOrOne::One);
    assert!(res1.is_ok());
    assert_eq!(res1.unwrap().1, exp);

    let str2 = "DEFAULT CHARSET=utf8;";
    let res2 = TableOption::parse(str2);
    let exp = TableOption::DefaultCharset("utf8".to_string());
    assert!(res2.is_ok());
    assert_eq!(res2.unwrap().1, exp);

    let str3 = "DATA DIRECTORY='/some/path';";
    let res3 = TableOption::parse(str3);
    let exp = TableOption::DataDirectory("/some/path".to_string());
    assert!(res3.is_ok());
    assert_eq!(res3.unwrap().1, exp);
}

#[test]
fn simple_set() {
    let str = "SET SQL_AUTO_IS_NULL = 0;";
    let res = SetStatement::parse(str);
    let exp = SetStatement { variable: "SQL_AUTO_IS_NULL".to_owned(), value: 0.into() };
    assert_eq!(res.unwrap().1, exp);
}

#[test]
fn user_defined_vars() {
    let str = "SET @var = 123;";
    let res = SetStatement::parse(str);
    let exp = SetStatement { variable: "@var".to_owned(), value: 123.into() };
    assert_eq!(res.unwrap().1, exp);
}

#[test]
fn format_set() {
    let str = "set autocommit=1";
    let expected = "SET autocommit = 1";
    let res = SetStatement::parse(str);
    assert_eq!(res.unwrap().1.to_string(), expected);
}

#[test]
fn set_statement_without_value_is_error() {
    assert!(SetStatement::parse("SET x = ").is_err());
}

#[test]
fn literal_text_reads_back() {
    for l in [
        Literal::Integer(-120),
        Literal::Integer(i64::MAX),
        Literal::String("it's".to_string()),
        Literal::String("".to_string()),
    ] {
        let text = l.to_string();
        assert_eq!(Literal::parse(&text).unwrap(), ("", l));
    }
}

#[test]
fn escaped_names_read_back() {
    assert_eq!(DisplayUtil::escape_if_keyword("select"), "`select`");
    assert_eq!(DisplayUtil::escape_if_keyword("foo"), "foo");
    assert_eq!(DisplayUtil::escape_if_keyword("order_id"), "order_id");
    for name in ["select", "foo", "order_id", "where"] {
        let text = DisplayUtil::escape_if_keyword(name);
        assert_eq!(CommonParser::sql_identifier(&text).unwrap(), ("", name));
    }
}

#[test]
fn table_options_documented_keywords() {
    assert_eq!(
        TableOption::parse("INDEX DIRECTORY='/idx'"),
        Ok(("", TableOption::IndexDirectory("/idx".to_string())))
    );
    assert_eq!(TableOption::parse("DELAY_KEY_WRITE=1"), Ok(("", TableOption::DelayKeyWrite(1))));
    assert_eq!(
        TableOption::parse("STATS_PERSISTENT=0"),
        Ok(("", TableOption::StatsPersistent(DefaultOrZeroOrOne::Zero)))
    );
    assert_eq!(
        TableOption::parse("CHARSET=utf8"),
        Ok(("", TableOption::DefaultCharset("utf8".to_string())))
    );
    assert_eq!(
        TableOption::parse(" CHARSET=utf8"),
        Ok(("", TableOption::DefaultCharset("utf8".to_string())))
    );
    assert!(TableOption::parse("DEFAULTCHARSET=utf8").is_err());
    assert_eq!(TableOption::parse("CHECKSUM=1"), Ok(("", TableOption::Checksum(1))));
    assert_eq!(TableOption::parse("AUTOEXTEND_SIZE=4"), Ok(("", TableOption::AutoextendSize(4))));
    assert_eq!(TableOption::parse("AVG_ROW_LENGTH=4"), Ok(("", TableOption::AvgRowLength(4))));
    assert_eq!(TableOption::parse("STATS_SAMPLE_PAGES=4"), Ok(("", TableOption::StatsSamplePages(4))));
    assert_eq!(
        TableOption::parse("ENGINE_ATTRIBUTE='x'"),
        Ok(("", TableOption::EngineAttribute("x".to_string())))
    );
}

#[test]
fn table_option_texts_read_back() {
    for o in [
        TableOption::AutoextendSize(4),
        TableOption::AutoIncrement(7),
        TableOption::AvgRowLength(9),
        TableOption::DefaultCharacterSet("utf8".to_string()),
        TableOption::DefaultCharset("utf8".to_string()),
        TableOption::Checksum(1),
        TableOption::DefaultCollate("utf8_bin".to_string()),
        TableOption::Comment("hi there".to_string()),
        TableOption::Compression(CompressionType::ZLIB),
        TableOption::Connection("c".to_string()),
        TableOption::DataDirectory("/d".to_string()),
        TableOption::IndexDirectory("/i".to_string()),
        TableOption::DelayKeyWrite(0),
        TableOption::Encryption(true),
        TableOption::Encryption(false),
        TableOption::Engine("InnoDB".to_string()),
        TableOption::EngineAttribute("e".to_string()),
        TableOption::InsertMethod(InsertMethodType::Last),
        TableOption::KeyBlockSize(8),
        TableOption::MaxRows(1),
        TableOption::MinRows(2),
        TableOption::PackKeys(DefaultOrZeroOrOne::Default),
        TableOption::Password("p".to_string()),
        TableOption::RowFormat(RowFormatType::Dynamic),
        TableOption::SecondaryEngineAttribute("s".to_string()),
        TableOption::StatsAutoRecalc(DefaultOrZeroOrOne::One),
        TableOption::StatsPersistent(DefaultOrZeroOrOne::Zero),
        TableOption::StatsSamplePages(3),
        TableOption::Tablespace("ts".to_string(), Some(TablespaceType::StorageDisk)),
        TableOption::Union(vec!["a".to_string(), "b".to_string()]),
        TableOption::Tablespace("ts".to_string(), Some(TablespaceType::StorageMemory)),
        TableOption::Tablespace("ts".to_string(), None),
        TableOption::Union(vec![]),
        TableOption::Union(vec!["count".to_string(), "x_1".to_string(), "t2".to_string()]),
    ] {
        let text = o.to_string();
        assert_eq!(TableOption::parse(&text), Ok(("", o)), "{}", text);
    }
}

#[test]
fn contained_columns_once_each() {
    let (_, c) = ConditionExpression::condition_expr("a = 1 and (b = 2) and a = 3").unwrap();
    match c {
        ConditionExpression::LogicalOp(t) => {
            assert_eq!(t.contained_columns(), vec![&Column::from("a")]);
        }
        _ => panic!(),
    }
    let (_, c) = ConditionExpression::condition_expr("a = b or b = c").unwrap();
    match c {
        ConditionExpression::LogicalOp(t) => {
            assert_eq!(
                t.contained_columns(),
                vec![&Column::from("a"), &Column::from("b"), &Column::from("c")]
            );
        }
        _ => panic!(),
    }
}
