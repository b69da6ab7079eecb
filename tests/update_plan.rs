use update_planner::ast::{
    expr_list, As, Assignment, Distinctness, Expr, Limit, LikeOperator, Literal, NodeKind,
    Operator, ResolveType, ResultColumn, SortOrder, SortedColumn, UnaryOperator, Update, With,
};
use update_planner::ident::ident_matches;
use update_planner::plan::{Direction, IterationDirection, Operation, Plan, ResultSetColumn, UpdatePlan};
use update_planner::planner::{parse_integer, parse_limit};
use update_planner::schema::{BTreeTable, Column, Schema, Table, VirtualTable};
use update_planner::update::{QueryMode, RecordSource, ReturningRow};
use update_planner::{prepare_update_plan, translate_update, UpdateError};

fn column(name: &str) -> Column {
    Column { name: Some(name.to_string()), is_rowid_alias: false }
}

fn schema_t() -> Schema {
    let mut s = Schema::new();
    s.add_table(Table::BTree(BTreeTable {
        name: "t".to_string(),
        columns: vec![column("a"), column("b"), column("c")],
    }));
    s.add_table(Table::Virtual(VirtualTable {
        name: "v".to_string(),
        columns: vec![column("x")],
    }));
    s
}

fn num(n: &str) -> Expr {
    Expr::Literal(Literal::Numeric(n.to_string()))
}

fn id(n: &str) -> Expr {
    Expr::Id(n.to_string())
}

fn col(i: usize) -> Expr {
    Expr::Column { table: 0, column: i, is_rowid_alias: false }
}

fn bin(l: Expr, op: Operator, r: Expr) -> Expr {
    Expr::Binary(Box::new(l), op, Box::new(r))
}

fn set(c: &str, e: Expr) -> Assignment {
    Assignment { col_name: c.to_string(), expr: e }
}

fn update(table: &str, sets: Vec<Assignment>) -> Update {
    Update {
        with: None,
        or_conflict: None,
        tbl_name: table.to_string(),
        sets,
        where_clause: None,
        returning: None,
        order_by: None,
        limit: None,
    }
}

fn plan_of(r: Result<Plan, UpdateError>) -> UpdatePlan {
    match r {
        Ok(Plan::Update(p)) => p,
        Err(e) => panic!("planning failed: {:?}", e),
    }
}

fn scan_dir(p: &UpdatePlan) -> IterationDirection {
    match &p.table_references[0].op {
        Operation::Scan { iter_dir, .. } => *iter_dir,
    }
}

#[test]
fn update_with_where_scenario() {
    let mut body = update("t", vec![set("a", num("100"))]);
    body.where_clause = Some(bin(id("b"), Operator::Equals, num("5")));
    let p = plan_of(prepare_update_plan(&schema_t(), &body));
    assert_eq!(p.table_references.len(), 1);
    assert_eq!(p.table_references[0].identifier, "t");
    assert!(p.table_references[0].table.is_btree());
    assert_eq!(
        p.table_references[0].op,
        Operation::Scan { iter_dir: IterationDirection::Forwards, index: None }
    );
    assert_eq!(p.set_clauses, vec![(0, num("100"))]);
    assert_eq!(p.where_clause, vec![bin(col(1), Operator::Equals, num("5"))]);
    assert!(p.returning.is_empty());
    assert_eq!(p.limit, None);
    assert_eq!(p.offset, None);
    assert_eq!(p.order_by, None);
    assert!(!p.contains_constant_false_condition);
}

#[test]
fn with_clause_is_rejected_even_without_table() {
    let mut body = update("nosuchtable", vec![set("a", num("1"))]);
    body.with = Some(With { recursive: false, tables: vec!["cte".to_string()] });
    assert_eq!(prepare_update_plan(&schema_t(), &body), Err(UpdateError::WithNotSupported));
    let mut body2 = update("t", vec![set("a", num("1"))]);
    body2.with = Some(With { recursive: false, tables: vec!["cte".to_string()] });
    body2.or_conflict = Some(ResolveType::Replace);
    assert_eq!(prepare_update_plan(&schema_t(), &body2), Err(UpdateError::WithNotSupported));
}

#[test]
fn on_conflict_is_rejected() {
    let mut body = update("t", vec![set("a", num("1"))]);
    body.or_conflict = Some(ResolveType::Replace);
    assert_eq!(prepare_update_plan(&schema_t(), &body), Err(UpdateError::OnConflictNotSupported));
}

#[test]
fn missing_table_is_named() {
    let body = update("nosuchtable", vec![set("a", num("1"))]);
    assert_eq!(
        prepare_update_plan(&schema_t(), &body),
        Err(UpdateError::NoSuchTable("nosuchtable".to_string()))
    );
}

#[test]
fn virtual_table_is_rejected() {
    let body = update("v", vec![set("x", num("1"))]);
    assert_eq!(
        prepare_update_plan(&schema_t(), &body),
        Err(UpdateError::NotBTreeTable("v".to_string()))
    );
}

#[test]
fn missing_set_column_names_column_and_table() {
    let body = update("t", vec![set("nosuchcol", num("1"))]);
    assert_eq!(
        prepare_update_plan(&schema_t(), &body),
        Err(UpdateError::ColumnNotFound { column: "nosuchcol".to_string(), table: "t".to_string() })
    );
}

#[test]
fn order_by_desc_scans_backwards() {
    let mut body = update("t", vec![set("a", num("1"))]);
    body.order_by = Some(vec![
        SortedColumn { expr: id("b"), order: Some(SortOrder::Desc) },
        SortedColumn { expr: id("c"), order: None },
    ]);
    let p = plan_of(prepare_update_plan(&schema_t(), &body));
    assert_eq!(scan_dir(&p), IterationDirection::Backwards);
    assert_eq!(
        p.order_by,
        Some(vec![(id("b"), Direction::Descending), (id("c"), Direction::Ascending)])
    );
}

#[test]
fn no_order_by_scans_forwards() {
    let body = update("t", vec![set("a", num("1"))]);
    let p = plan_of(prepare_update_plan(&schema_t(), &body));
    assert_eq!(scan_dir(&p), IterationDirection::Forwards);
    let mut body2 = update("t", vec![set("a", num("1"))]);
    body2.order_by = Some(vec![SortedColumn { expr: id("b"), order: None }]);
    let p2 = plan_of(prepare_update_plan(&schema_t(), &body2));
    assert_eq!(scan_dir(&p2), IterationDirection::Forwards);
    let mut body3 = update("t", vec![set("a", num("1"))]);
    body3.order_by = Some(vec![
        SortedColumn { expr: id("b"), order: Some(SortOrder::Asc) },
        SortedColumn { expr: id("c"), order: Some(SortOrder::Desc) },
    ]);
    let p3 = plan_of(prepare_update_plan(&schema_t(), &body3));
    assert_eq!(scan_dir(&p3), IterationDirection::Forwards);
}

#[test]
fn returning_star_is_rejected() {
    let mut body = update("t", vec![set("a", num("1"))]);
    body.returning = Some(vec![ResultColumn::Star]);
    assert_eq!(prepare_update_plan(&schema_t(), &body), Err(UpdateError::ReturningNotExpression));
    let mut body2 = update("t", vec![set("a", num("1"))]);
    body2.returning = Some(vec![ResultColumn::TableStar("t".to_string())]);
    assert_eq!(prepare_update_plan(&schema_t(), &body2), Err(UpdateError::ReturningNotExpression));
}

#[test]
fn returning_alias_is_kept() {
    let mut body = update("t", vec![set("a", num("1"))]);
    body.returning = Some(vec![
        ResultColumn::Expr(id("a"), Some(As::As("x".to_string()))),
        ResultColumn::Expr(id("b"), Some(As::Elided("y".to_string()))),
    ]);
    let p = plan_of(prepare_update_plan(&schema_t(), &body));
    assert_eq!(
        p.returning,
        vec![
            ResultSetColumn { expr: col(0), alias: Some("x".to_string()), contains_aggregates: false },
            ResultSetColumn { expr: col(1), alias: None, contains_aggregates: false },
        ]
    );
}

#[test]
fn returning_unknown_column_fails() {
    let mut body = update("t", vec![set("a", num("1"))]);
    body.returning = Some(vec![ResultColumn::Expr(id("zz"), None)]);
    assert_eq!(
        prepare_update_plan(&schema_t(), &body),
        Err(UpdateError::NoSuchColumn("zz".to_string()))
    );
}

#[test]
fn set_value_with_unknown_name_fails() {
    let body = update("t", vec![set("a", bin(id("b"), Operator::Add, id("nope")))]);
    assert_eq!(
        prepare_update_plan(&schema_t(), &body),
        Err(UpdateError::NoSuchColumn("nope".to_string()))
    );
}

#[test]
fn qualified_names_bind_to_the_table() {
    let body = update(
        "t",
        vec![set("c", Expr::Qualified("T".to_string(), "B".to_string()))],
    );
    let p = plan_of(prepare_update_plan(&schema_t(), &body));
    assert_eq!(p.set_clauses, vec![(2, col(1))]);
    let body2 = update("t", vec![set("c", Expr::Qualified("u".to_string(), "b".to_string()))]);
    assert_eq!(
        prepare_update_plan(&schema_t(), &body2),
        Err(UpdateError::NoSuchTable("u".to_string()))
    );
}

#[test]
fn set_clauses_keep_statement_order() {
    let body = update(
        "t",
        vec![
            set("c", num("3")),
            set("A", Expr::Unary(UnaryOperator::Negative, Box::new(id("b")))),
            set("\"b\"", Expr::Literal(Literal::Null)),
        ],
    );
    let p = plan_of(prepare_update_plan(&schema_t(), &body));
    assert_eq!(
        p.set_clauses,
        vec![
            (2, num("3")),
            (0, Expr::Unary(UnaryOperator::Negative, Box::new(col(1)))),
            (1, Expr::Literal(Literal::Null)),
        ]
    );
}

#[test]
fn where_is_split_at_and() {
    let mut body = update("t", vec![set("a", num("1"))]);
    body.where_clause = Some(bin(
        bin(id("a"), Operator::Greater, num("1")),
        Operator::And,
        bin(id("c"), Operator::Or, id("b")),
    ));
    let p = plan_of(prepare_update_plan(&schema_t(), &body));
    assert_eq!(
        p.where_clause,
        vec![bin(col(0), Operator::Greater, num("1")), bin(col(2), Operator::Or, col(1))]
    );
}

#[test]
fn where_sees_returning_aliases() {
    let mut body = update("t", vec![set("a", num("1"))]);
    body.returning = Some(vec![ResultColumn::Expr(
        bin(id("b"), Operator::Add, num("1")),
        Some(As::As("bb".to_string())),
    )]);
    body.where_clause = Some(bin(id("bb"), Operator::Equals, num("2")));
    let p = plan_of(prepare_update_plan(&schema_t(), &body));
    assert_eq!(
        p.where_clause,
        vec![bin(bin(col(1), Operator::Add, num("1")), Operator::Equals, num("2"))]
    );
}

#[test]
fn limit_and_offset_are_read() {
    let mut body = update("t", vec![set("a", num("1"))]);
    body.limit = Some(Limit { expr: num("10"), offset: Some(num("3")) });
    let p = plan_of(prepare_update_plan(&schema_t(), &body));
    assert_eq!((p.limit, p.offset), (Some(10), Some(3)));
    let mut body2 = update("t", vec![set("a", num("1"))]);
    body2.limit = Some(Limit { expr: num("7"), offset: None });
    let p2 = plan_of(prepare_update_plan(&schema_t(), &body2));
    assert_eq!((p2.limit, p2.offset), (Some(7), Some(0)));
}

#[test]
fn invalid_limit_and_offset_fail() {
    assert_eq!(
        parse_limit(&Limit { expr: id("a"), offset: None }),
        Err(UpdateError::InvalidLimit)
    );
    assert_eq!(
        parse_limit(&Limit { expr: id("a"), offset: Some(id("b")) }),
        Err(UpdateError::InvalidOffset)
    );
    assert_eq!(
        parse_limit(&Limit {
            expr: Expr::Unary(UnaryOperator::Negative, Box::new(num("4"))),
            offset: Some(Expr::Unary(UnaryOperator::Negative, Box::new(num("2")))),
        }),
        Ok((Some(-4), Some(-2)))
    );
    assert_eq!(parse_limit(&Limit { expr: num("1.5"), offset: None }), Ok((None, Some(0))));
}

#[test]
fn integers_are_read() {
    assert_eq!(parse_integer("0"), Some(0));
    assert_eq!(parse_integer("42"), Some(42));
    assert_eq!(parse_integer("+42"), Some(42));
    assert_eq!(parse_integer("-42"), Some(-42));
    assert_eq!(parse_integer("9223372036854775807"), Some(i64::MAX));
    assert_eq!(parse_integer("-9223372036854775808"), Some(i64::MIN));
    assert_eq!(parse_integer("9223372036854775808"), None);
    assert_eq!(parse_integer("99999999999999999999999"), None);
    assert_eq!(parse_integer(""), None);
    assert_eq!(parse_integer("-"), None);
    assert_eq!(parse_integer("1a"), None);
    assert_eq!(parse_integer("1e3"), None);
}

#[test]
fn identifiers_match_without_quotes_or_case() {
    assert!(ident_matches("ABC", "abc"));
    assert!(ident_matches("\"Abc\"", "abc"));
    assert!(ident_matches("[abc]", "ABC"));
    assert!(ident_matches("`abc`", "abc"));
    assert!(!ident_matches("abd", "abc"));
    assert!(!ident_matches("\"abc", "abc"));
    assert!(!ident_matches("ab", "abc"));
}

#[test]
fn table_lookup_ignores_case() {
    let body = update("T", vec![set("a", num("1"))]);
    let p = plan_of(prepare_update_plan(&schema_t(), &body));
    assert_eq!(p.table_references[0].identifier, "T");
    assert_eq!(p.table_references[0].table.get_name(), "t");
}

#[test]
fn supported_statement_plans_every_assignment() {
    let mut body = update("t", vec![set("b", id("c")), set("a", num("2")), set("c", id("a"))]);
    body.where_clause = Some(bin(id("a"), Operator::Less, num("10")));
    body.returning = Some(vec![ResultColumn::Expr(id("c"), None)]);
    body.order_by = Some(vec![SortedColumn { expr: id("a"), order: None }]);
    body.limit = Some(Limit { expr: num("5"), offset: None });
    let p = plan_of(prepare_update_plan(&schema_t(), &body));
    assert_eq!(p.set_clauses, vec![(1, col(2)), (0, num("2")), (2, col(0))]);
}

#[test]
fn planning_twice_gives_equal_plans() {
    let make = || {
        let mut body = update("t", vec![set("a", num("100"))]);
        body.where_clause = Some(bin(id("b"), Operator::Equals, num("5")));
        body.returning = Some(vec![ResultColumn::Expr(id("a"), Some(As::As("x".to_string())))]);
        body
    };
    let schema = schema_t();
    let first = prepare_update_plan(&schema, &make());
    let second = prepare_update_plan(&schema, &make());
    assert_eq!(first, second);
    assert!(first.is_ok());
}

#[test]
fn record_layout_takes_last_assignment() {
    let body = update("t", vec![set("c", num("1")), set("a", num("2")), set("c", num("3"))]);
    let prog = translate_update(QueryMode::Normal, &schema_t(), &body).unwrap();
    assert_eq!(prog.num_cursors, 1);
    assert_eq!(prog.query_mode, QueryMode::Normal);
    assert_eq!(
        prog.record,
        vec![RecordSource::Assigned(1), RecordSource::Existing(1), RecordSource::Assigned(2)]
    );
}

#[test]
fn translate_reports_planning_errors() {
    let body = update("nosuchtable", vec![set("a", num("1"))]);
    assert_eq!(
        translate_update(QueryMode::Explain, &schema_t(), &body),
        Err(UpdateError::NoSuchTable("nosuchtable".to_string()))
    );
}

fn node(kind: NodeKind, children: Vec<Expr>) -> Expr {
    Expr::Node(kind, expr_list(children))
}

#[test]
fn parameters_and_function_calls_are_planned() {
    let mut body = update(
        "t",
        vec![
            set("a", Expr::Variable("?1".to_string())),
            set(
                "b",
                node(
                    NodeKind::FunctionCall { name: "upper".to_string(), distinctness: None },
                    vec![id("c"), Expr::Literal(Literal::Blob("ff".to_string()))],
                ),
            ),
        ],
    );
    body.where_clause = Some(bin(id("a"), Operator::Equals, Expr::Variable("?2".to_string())));
    let p = plan_of(prepare_update_plan(&schema_t(), &body));
    assert_eq!(
        p.set_clauses,
        vec![
            (0, Expr::Variable("?1".to_string())),
            (
                1,
                node(
                    NodeKind::FunctionCall { name: "upper".to_string(), distinctness: None },
                    vec![col(2), Expr::Literal(Literal::Blob("ff".to_string()))],
                )
            ),
        ]
    );
    assert_eq!(
        p.where_clause,
        vec![bin(col(0), Operator::Equals, Expr::Variable("?2".to_string()))]
    );
}

#[test]
fn compound_predicates_bind_every_operand() {
    let mut body = update("t", vec![set("a", num("1"))]);
    body.where_clause = Some(bin(
        bin(
            node(NodeKind::IsNull, vec![id("b")]),
            Operator::Or,
            node(NodeKind::Between { not: true }, vec![id("c"), num("1"), id("a")]),
        ),
        Operator::And,
        bin(
            node(
                NodeKind::Like { not: false, op: LikeOperator::Like, has_escape: false },
                vec![id("b"), Expr::Literal(Literal::String("x%".to_string()))],
            ),
            Operator::Concat,
            node(NodeKind::InList { not: false }, vec![Expr::DoublyQualified("main".to_string(), "t".to_string(), "c".to_string()), num("2"), num("3")]),
        ),
    ));
    let p = plan_of(prepare_update_plan(&schema_t(), &body));
    assert_eq!(
        p.where_clause,
        vec![
            bin(
                node(NodeKind::IsNull, vec![col(1)]),
                Operator::Or,
                node(NodeKind::Between { not: true }, vec![col(2), num("1"), col(0)]),
            ),
            bin(
                node(
                    NodeKind::Like { not: false, op: LikeOperator::Like, has_escape: false },
                    vec![col(1), Expr::Literal(Literal::String("x%".to_string()))],
                ),
                Operator::Concat,
                node(NodeKind::InList { not: false }, vec![col(2), num("2"), num("3")]),
            ),
        ]
    );
}

#[test]
fn case_cast_and_collate_are_bound() {
    let body = update(
        "t",
        vec![set(
            "c",
            node(
                NodeKind::Case { has_base: false, has_else: true },
                vec![
                    node(NodeKind::NotNull, vec![id("a")]),
                    node(NodeKind::Cast { target_type: Some("TEXT".to_string()) }, vec![id("b")]),
                    node(NodeKind::Collate("NOCASE".to_string()), vec![node(NodeKind::Parenthesized, vec![id("a"), id("c")])]),
                ],
            ),
        )],
    );
    let p = plan_of(prepare_update_plan(&schema_t(), &body));
    assert_eq!(
        p.set_clauses,
        vec![(
            2,
            node(
                NodeKind::Case { has_base: false, has_else: true },
                vec![
                    node(NodeKind::NotNull, vec![col(0)]),
                    node(NodeKind::Cast { target_type: Some("TEXT".to_string()) }, vec![col(1)]),
                    node(NodeKind::Collate("NOCASE".to_string()), vec![node(NodeKind::Parenthesized, vec![col(0), col(2)])]),
                ],
            )
        )]
    );
}

#[test]
fn unknown_name_inside_a_call_fails() {
    let body = update(
        "t",
        vec![set(
            "a",
            node(
                NodeKind::FunctionCall { name: "max".to_string(), distinctness: Some(Distinctness::Distinct) },
                vec![id("b"), id("zz"), id("yy")],
            ),
        )],
    );
    assert_eq!(
        prepare_update_plan(&schema_t(), &body),
        Err(UpdateError::NoSuchColumn("zz".to_string()))
    );
}

#[test]
fn star_call_and_unary_operators_are_kept() {
    let body = update(
        "t",
        vec![
            set("a", node(NodeKind::FunctionCallStar { name: "count".to_string() }, vec![])),
            set("b", Expr::Unary(UnaryOperator::BitwiseNot, Box::new(bin(id("c"), Operator::Modulus, num("4"))))),
        ],
    );
    let p = plan_of(prepare_update_plan(&schema_t(), &body));
    assert_eq!(
        p.set_clauses,
        vec![
            (0, node(NodeKind::FunctionCallStar { name: "count".to_string() }, vec![])),
            (1, Expr::Unary(UnaryOperator::BitwiseNot, Box::new(bin(col(2), Operator::Modulus, num("4"))))),
        ]
    );
}

#[test]
fn returning_reads_the_updated_row() {
    let mut body = update("t", vec![set("a", num("1"))]);
    body.returning = Some(vec![ResultColumn::Expr(id("a"), None)]);
    let prog = translate_update(QueryMode::Normal, &schema_t(), &body).unwrap();
    assert_eq!(prog.returning_row, ReturningRow::AfterUpdate);
    assert_eq!(prog.record[0], RecordSource::Assigned(0));
    assert_eq!(prog.plan.returning[0].expr, col(0));
}

#[test]
fn expression_lists_keep_order() {
    assert_eq!(expr_list(vec![]), update_planner::ast::ExprList::Nil);
    assert_eq!(
        expr_list(vec![num("1"), num("2")]),
        update_planner::ast::ExprList::Cons(
            Box::new(num("1")),
            Box::new(update_planner::ast::ExprList::Cons(
                Box::new(num("2")),
                Box::new(update_planner::ast::ExprList::Nil)
            ))
        )
    );
}
