use ormolu::error::OrmoluError;
use ormolu::data_type::PrimaryKey;
use ormolu::field::{Col, Field};
use ormolu::filter::FilterState;
use ormolu::predicate::Predicate;
use ormolu::query_builder::{ColRef, Join, JoinType, OrderBy, QueryState};
use ormolu::query_set::QuerySet;
use ormolu::replay::{after_pass, FieldsFilter, Verdict};
use ormolu::traits::{
    DatabaseObject, Filterable, HasFields, HasObjectName, HasQualifiedName, HasSchemaName, Table,
};
use ormolu::where_cond::{Where, WhereOp};

const NO_EXCEPTIONS: phf::Map<&'static str, &'static str> = phf::Map::new();

pub struct Order;

const ORDER_COLUMNS: &[&str] = &[
    "id",
    "customer_id",
    "order_date",
    "total_amount",
    "status",
    "name",
    "shipping_address",
    "created_at",
    "updated_at",
];

pub struct OrderFilter {
    pub id: Col<i32>,
    pub name: Col<String>,
    pub test: Col<bool>,
}

impl HasObjectName for Order {
    fn object_name() -> &'static str {
        "order"
    }
}

impl HasSchemaName for Order {
    fn schema_name() -> &'static str {
        "public"
    }
}

impl HasQualifiedName for Order {
    fn qualified_name() -> &'static str {
        "public.order"
    }
}

impl DatabaseObject for Order {}

impl HasFields for Order {
    fn field_map() -> &'static phf::Map<&'static str, &'static str> {
        &NO_EXCEPTIONS
    }

    fn database_columns() -> &'static [&'static str] {
        ORDER_COLUMNS
    }
}

impl Filterable for Order {
    type Proxy = OrderFilter;

    fn to_field_filter() -> Result<OrderFilter, OrmoluError> {
        Ok(OrderFilter {
            id: Col::new(ORDER_COLUMNS, "id")?,
            name: Col::new(ORDER_COLUMNS, "name")?,
            test: Col::new(&["test"], "test")?,
        })
    }
}

impl Table for Order {}

pub struct User;

impl HasObjectName for User {
    fn object_name() -> &'static str {
        "user"
    }
}

impl HasSchemaName for User {
    fn schema_name() -> &'static str {
        "public"
    }
}

impl HasQualifiedName for User {
    fn qualified_name() -> &'static str {
        "public.user"
    }
}

impl DatabaseObject for User {}

impl HasFields for User {
    fn field_map() -> &'static phf::Map<&'static str, &'static str> {
        &NO_EXCEPTIONS
    }

    fn database_columns() -> &'static [&'static str] {
        &["name", "id"]
    }
}

impl Filterable for User {
    type Proxy = ();

    fn to_field_filter() -> Result<(), OrmoluError> {
        Ok(())
    }
}

impl Table for User {}

fn texts(clauses: &Vec<Where>) -> Vec<String> {
    clauses.iter().map(|c| c.to_string()).collect()
}

const ALL_ORDER_COLUMNS: &str =
    "id, customer_id, order_date, total_amount, status, name, shipping_address, created_at, updated_at";

#[test]
fn single_and_field_filter() {
    let state: QueryState<Order> = QueryState::new_select();
    let orders = QuerySet::new(state);
    let f = orders
        .filter_with(|order: OrderFilter, s: &mut FilterState| {
            !order.name.contains(s, "test") && !order.id.eq(s, &2) && order.name.contains(s, "john")
        })
        .unwrap();

    assert_eq!(f.to_string().unwrap(), "SELECT id, customer_id, order_date, total_amount, status, name, shipping_address, created_at, updated_at FROM order WHERE name NOT LIKE %test% AND id != 2 AND name LIKE %john%;".to_string())
}

#[test]
fn single_and_field_filter_as_value() {
    let state: QueryState<Order> = QueryState::new_select();
    let orders = QuerySet::new(state);
    let predicate = Predicate::contains("name", "test")
        .negate()
        .and(Predicate::equals("id", 2.to_string()).negate())
        .and(Predicate::contains("name", "john"));
    let f = orders.filter(&predicate).unwrap();

    assert_eq!(f.to_string().unwrap(), "SELECT id, customer_id, order_date, total_amount, status, name, shipping_address, created_at, updated_at FROM order WHERE name NOT LIKE %test% AND id != 2 AND name LIKE %john%;".to_string())
}

#[test]
fn multiple_field_filter() {
    let state: QueryState<Order> = QueryState::new_select();
    let orders = QuerySet::new(state);
    let f = orders
        .filter_with(|order: OrderFilter, s: &mut FilterState| !order.name.contains(s, "test"))
        .unwrap()
        .filter_with(|order: OrderFilter, s: &mut FilterState| {
            !order.id.eq(s, &2) && order.name.contains(s, "john")
        })
        .unwrap();

    assert_eq!(f.to_string().unwrap(), "SELECT id, customer_id, order_date, total_amount, status, name, shipping_address, created_at, updated_at FROM order WHERE name NOT LIKE %test% AND id != 2 AND name LIKE %john%;".to_string())
}

#[test]
fn multiple_field_filter_as_values() {
    let state: QueryState<Order> = QueryState::new_select();
    let orders = QuerySet::new(state);
    let f = orders
        .filter(&Predicate::contains("name", "test").negate())
        .unwrap()
        .filter(
            &Predicate::equals("id", 2.to_string())
                .negate()
                .and(Predicate::contains("name", "john")),
        )
        .unwrap();

    assert_eq!(f.to_string().unwrap(), "SELECT id, customer_id, order_date, total_amount, status, name, shipping_address, created_at, updated_at FROM order WHERE name NOT LIKE %test% AND id != 2 AND name LIKE %john%;".to_string())
}

#[test]
fn user_query_with_limit_and_offset_unterminated() {
    let mut q: QueryState<User> = QueryState::new_select();
    q.terminated = false;
    q.limit = Some(1);
    q.offset = Some(0);
    q.where_conditions.push(Where::neq("id", "4".to_string()));
    assert_eq!(q.to_string().unwrap(), "SELECT name, id FROM user WHERE id != 4 LIMIT 1 OFFSET 0");
}

#[test]
fn empty_filter_renders_columns_and_table_only() {
    let mut q: QueryState<Order> = QueryState::new_select();
    assert_eq!(q.to_string().unwrap(), format!("SELECT {ALL_ORDER_COLUMNS} FROM order;"));
    q.terminated = false;
    assert_eq!(q.to_string().unwrap(), format!("SELECT {ALL_ORDER_COLUMNS} FROM order"));
}

#[test]
fn no_columns_render_as_star() {
    let q: QueryState<Order> = QueryState::select_from("order", &[]);
    assert_eq!(q.to_string().unwrap(), "SELECT * FROM order;");
}

#[test]
fn rendering_twice_gives_the_same_text() {
    let state: QueryState<Order> = QueryState::new_select();
    let f = QuerySet::new(state)
        .filter(&Predicate::contains("name", "john"))
        .unwrap();
    let first = f.to_string().unwrap();
    let second = f.to_string().unwrap();
    assert_eq!(first, second);
    assert_eq!(first, format!("SELECT {ALL_ORDER_COLUMNS} FROM order WHERE name LIKE %john%;"));
}

#[test]
fn conjunction_converges_in_one_pass() {
    let predicate = Predicate::contains("name", "a")
        .and(Predicate::equals("id", "1".to_string()))
        .and(Predicate::contains("status", "open"));
    let found = FieldsFilter::new(&predicate).unwrap();
    assert_eq!(found.passes, 1);
    assert_eq!(
        texts(&found.state.clauses),
        vec!["name LIKE %a%", "id = 1", "status LIKE %open%"]
    );
    assert_eq!(found.state.returns, vec![true, true, true]);
}

#[test]
fn leading_negation_converges_in_two_passes() {
    let predicate = Predicate::contains("name", "a")
        .negate()
        .and(Predicate::equals("id", "1".to_string()))
        .and(Predicate::contains("status", "open"));
    let found = FieldsFilter::new(&predicate).unwrap();
    assert_eq!(found.passes, 2);
    assert_eq!(
        texts(&found.state.clauses),
        vec!["name NOT LIKE %a%", "id = 1", "status LIKE %open%"]
    );
    assert_eq!(found.state.returns, vec![false, true, true]);
}

#[test]
fn three_passes_for_two_negations() {
    let predicate = Predicate::contains("name", "test")
        .negate()
        .and(Predicate::equals("id", "2".to_string()).negate())
        .and(Predicate::contains("name", "john"));
    let found = FieldsFilter::new(&predicate).unwrap();
    assert_eq!(found.passes, 3);
    assert_eq!(found.state.index, 3);
}

#[test]
fn ceiling_turns_a_late_predicate_into_an_error() {
    let predicate = Predicate::contains("name", "test")
        .negate()
        .or(Predicate::contains("status", "void").negate());
    assert!(matches!(
        FieldsFilter::with_ceiling(&predicate, 1),
        Err(OrmoluError::MalformedPredicate)
    ));
    assert!(matches!(
        FieldsFilter::with_ceiling(&predicate, 0),
        Err(OrmoluError::MalformedPredicate)
    ));
    let found = FieldsFilter::with_ceiling(&predicate, 2).unwrap();
    assert_eq!(found.passes, 2);
    assert_eq!(
        texts(&found.state.clauses),
        vec!["name LIKE %test%", "status NOT LIKE %void%"]
    );
}

#[test]
fn filter_rejects_what_does_not_converge_in_time() {
    let state: QueryState<Order> = QueryState::new_select();
    let predicate = Predicate::contains("name", "test").negate();
    let rejected = QuerySet::new(state).filter_within(&predicate, 1);
    assert!(matches!(rejected, Err(OrmoluError::MalformedPredicate)));
}

#[test]
fn boolean_column_read_through_not() {
    let predicate = Predicate::Negated("test");
    let found = FieldsFilter::new(&predicate).unwrap();
    assert_eq!(found.passes, 1);
    assert_eq!(texts(&found.state.clauses), vec!["test = false"]);

    let denied = Predicate::Negated("test").negate();
    let found = FieldsFilter::new(&denied).unwrap();
    assert_eq!(found.passes, 2);
    assert_eq!(texts(&found.state.clauses), vec!["test != true"]);
}

#[test]
fn slots_are_read_back_before_new_ones_are_made() {
    let mut state = FilterState::new();
    assert!(state.return_true());
    assert!(state.return_true());
    assert_eq!(state.returns, vec![true, true]);
    state.rewind();
    assert_eq!(state.index, 0);
    assert_eq!(state.returns, vec![true, false]);
    assert!(state.clauses.is_empty());
    assert!(state.return_true());
    assert!(!state.return_true());
    assert!(state.return_true());
    assert_eq!(state.returns, vec![true, false, true]);
    assert_eq!(state.index, 3);
}

#[test]
fn rewind_of_an_empty_state_changes_nothing() {
    let mut state = FilterState::new();
    state.rewind();
    assert_eq!(state.index, 0);
    assert!(state.returns.is_empty());
}

#[test]
fn proxies_record_with_the_slot_polarity() {
    let order = Order::to_field_filter().unwrap();
    let mut state = FilterState::new();
    assert!(order.name.contains(&mut state, "john"));
    assert!(order.id.eq(&mut state, &-17));
    assert!(order.test.eq(&mut state, &true));
    assert_eq!(texts(&state.clauses), vec!["name LIKE %john%", "id = -17", "test = true"]);

    state.rewind();
    assert!(order.name.contains(&mut state, "john"));
    assert!(order.id.eq(&mut state, &-17));
    assert!(!order.test.eq(&mut state, &true));
    assert_eq!(texts(&state.clauses), vec!["name LIKE %john%", "id = -17", "test != true"]);
}

#[test]
fn unknown_column_is_refused_when_the_proxy_is_made() {
    let columns = Order::database_columns();
    let known: Result<Col<String>, OrmoluError> = Col::new(columns, "name");
    assert_eq!(known.unwrap().field_name(), "name");
    let unknown: Result<Col<String>, OrmoluError> = Col::new(columns, "nickname");
    assert!(matches!(unknown, Err(OrmoluError::UnknownColumn)));
    let none: Result<Col<String>, OrmoluError> = Col::new(&[], "name");
    assert!(matches!(none, Err(OrmoluError::UnknownColumn)));
    let field: Result<Field<i32>, OrmoluError> = Field::new(columns, "id");
    assert_eq!(field.unwrap().field_name(), "id");
    let missing: Result<Field<i32>, OrmoluError> = Field::new(columns, "ID");
    assert!(matches!(missing, Err(OrmoluError::UnknownColumn)));
}

pub struct Misnamed;

impl Filterable for Misnamed {
    type Proxy = Col<String>;

    fn to_field_filter() -> Result<Col<String>, OrmoluError> {
        Col::new(ORDER_COLUMNS, "nickname")
    }
}

#[test]
fn a_filter_on_an_unknown_column_is_rejected_before_any_pass() {
    let rejected = FieldsFilter::replay_with::<Misnamed, _>(
        |nickname: Col<String>, s: &mut FilterState| nickname.contains(s, "x"),
        64,
    );
    assert!(matches!(rejected, Err(OrmoluError::UnknownColumn)));
}

#[test]
fn fields_record_like_columns() {
    let name: Field<String> = Field::new(ORDER_COLUMNS, "name").unwrap();
    let status: Field<&'static str> = Field::new(ORDER_COLUMNS, "status").unwrap();
    let id: Field<i32> = Field::new(ORDER_COLUMNS, "id").unwrap();
    let mut state = FilterState::new();
    assert!(name.contains(&mut state, "jo"));
    assert!(name.eq(&mut state, &"john".to_string()));
    assert!(status.eq(&mut state, &"open".to_string()));
    assert!(id.eq(&mut state, &7));
    assert_eq!(
        texts(&state.clauses),
        vec!["name LIKE %jo%", "name = john", "status = open", "id = 7"]
    );
}

#[test]
fn primary_keys_compare_as_their_values_display() {
    let id: Col<PrimaryKey<Order, i64>> = Col::new(ORDER_COLUMNS, "id").unwrap();
    let code: Col<PrimaryKey<Order, String>> = Col::new(ORDER_COLUMNS, "status").unwrap();
    let mut state = FilterState::new();
    assert!(id.eq(&mut state, &PrimaryKey::new(-131)));
    assert!(code.eq(&mut state, &PrimaryKey::new("A-7".to_string())));
    assert_eq!(texts(&state.clauses), vec!["id = -131", "status = A-7"]);
    state.rewind();
    assert!(id.eq(&mut state, &PrimaryKey::new(-131)));
    assert!(!code.eq(&mut state, &PrimaryKey::new("A-7".to_string())));
    assert_eq!(texts(&state.clauses), vec!["id = -131", "status != A-7"]);
}

#[test]
fn branches_that_end_in_false_are_malformed_as_values() {
    let branch = |name: &str| Predicate::contains("name", name).negate().and(Predicate::Constant(false));
    let stuck = branch("test").or(branch("john"));
    assert!(matches!(FieldsFilter::new(&stuck), Err(OrmoluError::MalformedPredicate)));
    assert!(matches!(
        FieldsFilter::with_ceiling(&stuck, 1000),
        Err(OrmoluError::MalformedPredicate)
    ));
    let state: QueryState<Order> = QueryState::new_select();
    assert!(matches!(
        QuerySet::new(state).filter(&stuck),
        Err(OrmoluError::MalformedPredicate)
    ));
    let open = Predicate::contains("name", "a").and(Predicate::Constant(true));
    let found = FieldsFilter::new(&open).unwrap();
    assert_eq!(found.passes, 1);
    assert_eq!(texts(&found.state.clauses), vec!["name LIKE %a%"]);
}

#[test]
fn filters_leave_the_rest_of_the_query_alone() {
    let mut state: QueryState<Order> = QueryState::new_select();
    state.limit = Some(5);
    state.joins.push(Join::inner(col_ref("order", "customer_id"), col_ref("customer", "id")));
    state.order_by = Some(OrderBy { columns: vec![col_ref("order", "name")] });
    let filtered = QuerySet::new(state)
        .filter(&Predicate::contains("name", "a"))
        .unwrap()
        .filter_with(|order: OrderFilter, s: &mut FilterState| order.id.eq(s, &3))
        .unwrap();
    assert_eq!(filtered.state.joins.len(), 1);
    assert!(matches!(filtered.state.joins[0].join_type, JoinType::Inner));
    assert_eq!(filtered.state.order_by.as_ref().map(|o| o.columns.len()), Some(1));
    assert!(filtered.state.group_by.is_none());
    assert_eq!(filtered.state.limit, Some(5));
    assert_eq!(
        filtered.to_string().unwrap(),
        format!("SELECT {ALL_ORDER_COLUMNS} FROM order WHERE name LIKE %a% AND id = 3 LIMIT 5;")
    );
}

fn col_ref(object: &str, column: &str) -> ColRef {
    ColRef { schema: None, object: object.to_string(), column: column.to_string() }
}

#[test]
fn negating_twice_gives_the_condition_back() {
    let w = Where::like("name", "%a%".to_string()).wrap_not();
    assert!(matches!(w.oper(), WhereOp::Not(inner) if matches!(**inner, WhereOp::Like)));
    assert_eq!(w.to_string(), "name NOT LIKE %a%");
    let w = w.wrap_not();
    assert!(matches!(w.oper(), WhereOp::Like));
    assert_eq!(w.to_string(), "name LIKE %a%");
    let n = Where::neq("id", "4".to_string()).wrap_not();
    assert_eq!(n.to_string(), "id = 4");
}

#[test]
fn every_operator_has_its_text() {
    let not = |op: WhereOp| WhereOp::Not(Box::new(op));
    assert_eq!(WhereOp::EqualTo.to_string(), "=");
    assert_eq!(not(WhereOp::EqualTo).to_string(), "!=");
    assert_eq!(WhereOp::GreaterThan.to_string(), ">");
    assert_eq!(not(WhereOp::GreaterThan).to_string(), "<=");
    assert_eq!(WhereOp::GreaterThanOrEqualTo.to_string(), ">=");
    assert_eq!(not(WhereOp::GreaterThanOrEqualTo).to_string(), "<");
    assert_eq!(WhereOp::LessThan.to_string(), "<");
    assert_eq!(not(WhereOp::LessThan).to_string(), ">=");
    assert_eq!(WhereOp::LessThanOrEqualTo.to_string(), "<=");
    assert_eq!(not(WhereOp::LessThanOrEqualTo).to_string(), ">");
    assert_eq!(WhereOp::Like.to_string(), "LIKE");
    assert_eq!(not(WhereOp::Like).to_string(), "NOT LIKE");
}

#[test]
fn commands_without_grammar_are_refused() {
    let mut q: QueryState<Order> = QueryState::new_select();
    q.command = ormolu::command::Command::Insert {};
    assert!(matches!(q.to_string(), Err(OrmoluError::UnsupportedCommand)));
    q.command = ormolu::command::Command::Update {};
    assert!(matches!(q.to_string(), Err(OrmoluError::UnsupportedCommand)));
}

#[test]
fn two_false_branches_joined_by_or_are_malformed() {
    let never = false;
    let stuck = |order: OrderFilter, s: &mut FilterState| {
        (!order.name.contains(s, "test") && never) || (!order.name.contains(s, "john") && never)
    };
    assert!(matches!(
        FieldsFilter::replay_with::<Order, _>(stuck, 64),
        Err(OrmoluError::MalformedPredicate)
    ));
    let state: QueryState<Order> = QueryState::new_select();
    assert!(matches!(
        QuerySet::new(state).filter_with(stuck),
        Err(OrmoluError::MalformedPredicate)
    ));
}

#[test]
fn replay_with_counts_its_passes() {
    let found = FieldsFilter::replay_with::<Order, _>(
        |order: OrderFilter, s: &mut FilterState| {
            !order.name.contains(s, "test") && !order.id.eq(s, &2) && order.name.contains(s, "john")
        },
        64,
    )
    .unwrap();
    assert_eq!(found.passes, 3);
    assert_eq!(found.state.returns, vec![false, false, true]);
    let none = FieldsFilter::replay_with::<Order, _>(
        |order: OrderFilter, s: &mut FilterState| order.name.contains(s, "a"),
        0,
    );
    assert!(matches!(none, Err(OrmoluError::MalformedPredicate)));
}

#[test]
fn after_pass_rewinds_only_before_another_pass() {
    let mut state = FilterState::new();
    state.return_true();
    assert!(matches!(after_pass(&mut state, true, 1, 3), Verdict::Converged));
    assert_eq!(state.returns, vec![true]);
    assert_eq!(state.index, 1);
    assert!(matches!(after_pass(&mut state, false, 3, 3), Verdict::GaveUp));
    assert_eq!(state.returns, vec![true]);
    assert!(matches!(after_pass(&mut state, false, 1, 3), Verdict::Retry));
    assert_eq!(state.returns, vec![false]);
    assert_eq!(state.index, 0);
}

#[test]
fn replay_needs_no_more_passes_than_comparisons_and_one() {
    let leaf = |name: &str| Predicate::contains("name", name);
    let cases: Vec<(Predicate, usize)> = vec![
        (leaf("a").negate().or(leaf("b").negate()), 2),
        (leaf("a").or(leaf("b")).negate(), 2),
        (leaf("a").negate().and(leaf("b").negate()).or(leaf("c").negate().and(leaf("d").negate())), 4),
        (leaf("a").and(leaf("b").negate()).and(leaf("c").or(leaf("d")).negate()), 4),
        (Predicate::Negated("test").negate().and(leaf("a").negate()), 2),
    ];
    for (predicate, comparisons) in cases {
        let found = FieldsFilter::with_ceiling(&predicate, comparisons + 1).unwrap();
        assert!(found.passes <= comparisons + 1);
        assert_eq!(found.state.index, found.state.returns.len());
    }
}

#[test]
fn two_negated_branches_joined_by_or_converge_on_the_second() {
    let predicate = Predicate::contains("name", "test")
        .negate()
        .and(Predicate::contains("name", "draft").negate())
        .or(Predicate::contains("status", "void")
            .negate()
            .and(Predicate::contains("status", "lost").negate()));
    let found = FieldsFilter::new(&predicate).unwrap();
    assert_eq!(found.passes, 3);
    assert_eq!(
        texts(&found.state.clauses),
        vec!["name LIKE %test%", "status NOT LIKE %void%", "status NOT LIKE %lost%"]
    );
}
