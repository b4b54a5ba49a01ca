use sqlparser_mysql::base::algorithm_type::AlgorithmType;
use sqlparser_mysql::base::compression_type::CompressionType;
use sqlparser_mysql::base::default_or_zero_or_one::DefaultOrZeroOrOne;
use sqlparser_mysql::base::fulltext_or_spatial_type::FulltextOrSpatialType;
use sqlparser_mysql::base::index_or_key_type::IndexOrKeyType;
use sqlparser_mysql::base::index_type::IndexType;
use sqlparser_mysql::base::insert_method_type::InsertMethodType;
use sqlparser_mysql::base::lock_type::LockType;
use sqlparser_mysql::base::match_type::MatchType;
use sqlparser_mysql::base::operator::Operator;
use sqlparser_mysql::base::order::OrderType;
use sqlparser_mysql::base::row_format_type::RowFormatType;
use sqlparser_mysql::base::tablespace_type::TablespaceType;
use sqlparser_mysql::base::visible_type::VisibleType;

#[test]
fn algorithm_type_parse_algorithm_type() {
    let str1 = "ALGORITHM INSTANT";
    let res1 = AlgorithmType::parse(str1);
    assert!(res1.is_ok());
    assert_eq!(res1.unwrap().1, AlgorithmType::Instant);

    let str2 = "ALGORITHM=DEFAULT";
    let res2 = AlgorithmType::parse(str2);
    assert!(res2.is_ok());
    assert_eq!(res2.unwrap().1, AlgorithmType::Default);

    let str3 = "ALGORITHM= INPLACE";
    let res3 = AlgorithmType::parse(str3);
    assert!(res3.is_ok());
    assert_eq!(res3.unwrap().1, AlgorithmType::Inplace);

    let str4 = "ALGORITHM =COPY";
    let res4 = AlgorithmType::parse(str4);
    assert!(res4.is_ok());
    assert_eq!(res4.unwrap().1, AlgorithmType::Copy);

    let str5 = "ALGORITHM = DEFAULT";
    let res5 = AlgorithmType::parse(str5);
    assert!(res5.is_ok());
    assert_eq!(res5.unwrap().1, AlgorithmType::Default);

    let str6 = "ALGORITHMDEFAULT";
    let res6 = AlgorithmType::parse(str6);
    assert!(res6.is_err());
}

#[test]
fn parse_lock_type() {
    let str1 = "LOCK EXCLUSIVE";
    let res1 = LockType::parse(str1);
    assert!(res1.is_ok());
    assert_eq!(res1.unwrap().1, LockType::Exclusive);

    let str2 = "lock=DEFAULT";
    let res2 = LockType::parse(str2);
    assert!(res2.is_ok());
    assert_eq!(res2.unwrap().1, LockType::Default);

    let str3 = "LOCK= NONE";
    let res3 = LockType::parse(str3);
    assert!(res3.is_ok());
    assert_eq!(res3.unwrap().1, LockType::NoLock);

    let str4 = "lock =SHARED";
    let res4 = LockType::parse(str4);
    assert!(res4.is_ok());
    assert_eq!(res4.unwrap().1, LockType::Shared);

    let str5 = "lockSHARED";
    let res5 = LockType::parse(str5);
    assert!(res5.is_err());
}

#[test]
fn parse_compression_type() {
    let str1 = "COMPRESSION 'ZLIB'";
    let res1 = CompressionType::parse(str1);
    assert!(res1.is_ok());
    assert_eq!(res1.unwrap().1, CompressionType::ZLIB);
}

#[test]
fn parse_default_or_zero_or_one() {
    let str1 = "0";
    let res1 = DefaultOrZeroOrOne::parse(str1);
    assert!(res1.is_ok());
    assert_eq!(res1.unwrap().1, DefaultOrZeroOrOne::Zero);

    let str2 = "DEFAULT";
    let res2 = DefaultOrZeroOrOne::parse(str2);
    assert!(res2.is_ok());
    assert_eq!(res2.unwrap().1, DefaultOrZeroOrOne::Default);

    let str3 = "1";
    let res3 = DefaultOrZeroOrOne::parse(str3);
    assert!(res3.is_ok());
    assert_eq!(res3.unwrap().1, DefaultOrZeroOrOne::One);
}

#[test]
fn parse_fulltext_or_spatial_type() {
    let str1 = "fulltext";
    let res1 = FulltextOrSpatialType::parse(str1);
    assert!(res1.is_ok());
    assert_eq!(res1.unwrap().1, FulltextOrSpatialType::Fulltext);

    let str2 = "SPATIAL";
    let res2 = FulltextOrSpatialType::parse(str2);
    assert!(res2.is_ok());
    assert_eq!(res2.unwrap().1, FulltextOrSpatialType::Spatial);
}

#[test]
fn parse_index_or_key_type() {
    let str1 = "index";
    let res1 = IndexOrKeyType::parse(str1);
    assert!(res1.is_ok());
    assert_eq!(res1.unwrap().1, IndexOrKeyType::Index);

    let str2 = "KEY";
    let res2 = IndexOrKeyType::parse(str2);
    assert!(res2.is_ok());
    assert_eq!(res2.unwrap().1, IndexOrKeyType::Key);
}

#[test]
fn parse_index_type() {
    let str1 = "using   hash";
    let res1 = IndexType::parse(str1);
    assert!(res1.is_ok());
    assert_eq!(res1.unwrap().1, IndexType::Hash);

    let str2 = "USING btree   ";
    let res2 = IndexType::parse(str2);
    assert!(res2.is_ok());
    assert_eq!(res2.unwrap().1, IndexType::Btree);
}

#[test]
fn parse_insert_method_type() {
    let str1 = "INSERT_METHOD NO";
    let res1 = InsertMethodType::parse(str1);
    assert!(res1.is_ok());
    assert_eq!(res1.unwrap().1, InsertMethodType::No);

    let str2 = "INSERT_METHOD=NO";
    let res2 = InsertMethodType::parse(str2);
    assert!(res2.is_ok());
    assert_eq!(res2.unwrap().1, InsertMethodType::No);

    let str3 = "INSERT_METHOD= FIRST";
    let res3 = InsertMethodType::parse(str3);
    assert!(res3.is_ok());
    assert_eq!(res3.unwrap().1, InsertMethodType::First);

    let str4 = "INSERT_METHOD =FIRST";
    let res4 = InsertMethodType::parse(str4);
    assert!(res4.is_ok());
    assert_eq!(res4.unwrap().1, InsertMethodType::First);

    let str5 = "INSERT_METHOD = LAST";
    let res5 = InsertMethodType::parse(str5);
    assert!(res5.is_ok());
    assert_eq!(res5.unwrap().1, InsertMethodType::Last);
}

#[test]
fn match_type_parse_algorithm_type() {
    let str1 = "MATCH Full ";
    let res1 = MatchType::parse(str1);
    assert!(res1.is_ok());
    assert_eq!(res1.unwrap().1, MatchType::Full);

    let str2 = "match PARTIAL";
    let res2 = MatchType::parse(str2);
    assert!(res2.is_ok());
    assert_eq!(res2.unwrap().1, MatchType::Partial);

    let str3 = "match  SIMPLE   ";
    let res3 = MatchType::parse(str3);
    assert!(res3.is_ok());
    assert_eq!(res3.unwrap().1, MatchType::Simple);
}

#[test]
fn parse_row_format_type() {
    let str1 = "ROW_FORMAT=FIXED";
    let res1 = RowFormatType::parse(str1);
    assert!(res1.is_ok());
    assert_eq!(res1.unwrap().1, RowFormatType::Fixed);
}

#[test]
fn tablespace_type_parse_algorithm_type() {
    let str1 = "STORAGE disk";
    let res1 = TablespaceType::parse(str1);
    assert!(res1.is_ok());
    assert_eq!(res1.unwrap().1, TablespaceType::StorageDisk);

    let str2 = "storage   memory";
    let res2 = TablespaceType::parse(str2);
    assert!(res2.is_ok());
    assert_eq!(res2.unwrap().1, TablespaceType::StorageMemory);
}

#[test]
fn visible_type_parse_algorithm_type() {
    let str1 = "visible";
    let res1 = VisibleType::parse(str1);
    assert!(res1.is_ok());
    assert_eq!(res1.unwrap().1, VisibleType::Visible);

    let str2 = "invisible";
    let res2 = VisibleType::parse(str2);
    assert!(res2.is_ok());
    assert_eq!(res2.unwrap().1, VisibleType::Invisible);
}

#[test]
fn option_texts_parse_back() {
    for a in [AlgorithmType::Instant, AlgorithmType::Default, AlgorithmType::Inplace, AlgorithmType::Copy] {
        let text = a.to_string();
        assert_eq!(AlgorithmType::parse(&text), Ok(("", a)));
    }
    for l in [LockType::Default, LockType::NoLock, LockType::Shared, LockType::Exclusive] {
        let text = l.to_string();
        assert_eq!(LockType::parse(&text), Ok(("", l)));
    }
    assert_eq!(LockType::NoLock.to_string(), "LOCK NONE");
    assert_eq!(CompressionType::LZ4.to_string(), "COMPRESSION 'LZ4'");
    assert_eq!(CompressionType::parse("compression = \"none\" x"), Ok((" x", CompressionType::NONE)));
    assert_eq!(RowFormatType::parse(&RowFormatType::Compact.to_string()), Ok(("", RowFormatType::Compact)));
    assert_eq!(IndexType::opt_index_type(" USING hash  rest"), Ok(("rest", Some(IndexType::Hash))));
    assert_eq!(IndexType::opt_index_type("USING hash"), Ok(("USING hash", None)));
}

#[test]
fn default_or_zero_or_one_texts() {
    assert_eq!(DefaultOrZeroOrOne::Zero.to_string(), "0");
    assert_eq!(DefaultOrZeroOrOne::One.to_string(), "1");
    assert_eq!(DefaultOrZeroOrOne::Default.to_string(), "DEFAULT");
}

#[test]
fn operators_parse_in_order() {
    assert_eq!(Operator::parse(">= 3"), Ok((" 3", Operator::GreaterOrEqual)));
    assert_eq!(Operator::parse("<>"), Ok(("", Operator::NotEqual)));
    assert_eq!(Operator::parse("not_like"), Ok(("", Operator::NotLike)));
    assert_eq!(Operator::parse("in"), Ok(("", Operator::In)));
    assert!(Operator::parse("AND").is_err());
    assert_eq!(Operator::NotIn.to_string(), "NOT IN");
    assert_eq!(OrderType::parse("desc"), Ok(("", OrderType::Desc)));
    assert_eq!(OrderType::Asc.to_string(), "ASC");
}

#[test]
fn default_or_zero_or_one_reads_back() {
    for v in [DefaultOrZeroOrOne::Default, DefaultOrZeroOrOne::Zero, DefaultOrZeroOrOne::One] {
        assert_eq!(DefaultOrZeroOrOne::parse(&v.to_string()), Ok(("", v)));
    }
}
