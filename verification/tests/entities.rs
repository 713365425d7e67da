use ormolu::command::Command;
use ormolu::data_type::{ForeignKey, PrimaryKey, Unique};
use ormolu::error::OrmoluError;
use ormolu::field::Col;
use ormolu::query_builder::{Join, QueryState};
use ormolu::traits::{
    DatabaseObject, Filterable, Gilded, HasFields, HasObjectName, HasQualifiedName,
    HasSchemaName, HasTableName, Selectable, StoredProcedure, Table,
};
use ormolu::metadata::{
    expand_derive_database_object, expand_derive_table, Attribute, FieldSource,
};
use ormolu::traits::HasPrimaryKey;
use ormolu::type_model::{GenericArg, PathArgs, Segment, TypePath, TypeRef};
use ormolu::where_cond::Where;

const NO_EXCEPTIONS: phf::Map<&'static str, &'static str> = phf::Map::new();

pub struct Customer {
    pub id: PrimaryKey<Customer, i32>,
    pub first_name: String,
    pub last_name: String,
    pub email: Unique<String>,
    pub phone_number: Option<Unique<String>>,
}

pub struct CustomerFilter {
    pub id: Col<PrimaryKey<Customer, i32>>,
    pub first_name: Col<String>,
    pub last_name: Col<String>,
    pub email: Col<Unique<String>>,
    pub phone_number: Col<Option<Unique<String>>>,
}

impl HasObjectName for Customer {
    fn object_name() -> &'static str {
        "customer"
    }
}

impl HasSchemaName for Customer {
    fn schema_name() -> &'static str {
        "public"
    }
}

impl HasQualifiedName for Customer {
    fn qualified_name() -> &'static str {
        "public.customer"
    }
}

impl DatabaseObject for Customer {}

impl HasFields for Customer {
    fn field_map() -> &'static phf::Map<&'static str, &'static str> {
        &NO_EXCEPTIONS
    }

    fn database_columns() -> &'static [&'static str] {
        &[
            "id",
            "first_name",
            "last_name",
            "email",
            "phone_number",
            "created_at",
            "updated_at",
        ]
    }
}

impl Filterable for Customer {
    type Proxy = CustomerFilter;

    fn to_field_filter() -> Result<CustomerFilter, OrmoluError> {
        let columns = Self::database_columns();
        Ok(CustomerFilter {
            id: Col::new(columns, "id")?,
            first_name: Col::new(columns, "first_name")?,
            last_name: Col::new(columns, "last_name")?,
            email: Col::new(columns, "email")?,
            phone_number: Col::new(columns, "phone_number")?,
        })
    }
}

impl Table for Customer {}

pub struct Product {
    pub id: PrimaryKey<Product, i32>,
    pub name: String,
}

impl HasObjectName for Product {
    fn object_name() -> &'static str {
        "product"
    }
}

impl HasSchemaName for Product {
    fn schema_name() -> &'static str {
        "private"
    }
}

pub struct Order {
    pub id: PrimaryKey<Order, i32>,
    pub customer_id: ForeignKey<Customer, 1, i32>,
    pub status: String,
    pub name: String,
    pub shipping_address: String,
}

pub struct OrderFilter {
    pub id: Col<PrimaryKey<Order, i32>>,
    pub name: Col<String>,
    pub status: Col<String>,
}

impl HasObjectName for Order {
    fn object_name() -> &'static str {
        "order"
    }
}

impl HasSchemaName for Order {
    fn schema_name() -> &'static str {
        "public"
    }
}

impl HasQualifiedName for Order {
    fn qualified_name() -> &'static str {
        "public.order"
    }
}

impl DatabaseObject for Order {}

impl HasFields for Order {
    fn field_map() -> &'static phf::Map<&'static str, &'static str> {
        &NO_EXCEPTIONS
    }

    fn database_columns() -> &'static [&'static str] {
        &[
            "id",
            "customer_id",
            "order_date",
            "total_amount",
            "status",
            "name",
            "shipping_address",
            "created_at",
            "updated_at",
        ]
    }
}

impl Filterable for Order {
    type Proxy = OrderFilter;

    fn to_field_filter() -> Result<OrderFilter, OrmoluError> {
        let columns = Self::database_columns();
        Ok(OrderFilter {
            id: Col::new(columns, "id")?,
            name: Col::new(columns, "name")?,
            status: Col::new(columns, "status")?,
        })
    }
}

impl Table for Order {}

impl HasPrimaryKey<PrimaryKey<Customer, i32>> for Customer {
    fn primary_key(&self) -> &PrimaryKey<Customer, i32> {
        &self.id
    }
}

impl std::fmt::Debug for Customer {
    fn fmt(&self, f: &mut std::fmt::Formatter<'_>) -> std::fmt::Result {
        f.write_str("Customer")
    }
}

fn named(name: &str) -> Vec<Attribute> {
    vec![Attribute { name: "name".to_string(), value: name.to_string() }]
}

fn written(name: &str, args: PathArgs) -> TypeRef {
    TypeRef::Path(TypePath {
        qualified: false,
        leading_colon: false,
        segments: vec![Segment { ident: name.to_string(), args }],
    })
}

fn field(name: &str, ty: TypeRef) -> FieldSource {
    FieldSource { name: name.to_string(), ty, column_name: None }
}

fn customer_fields() -> Vec<FieldSource> {
    let plain = |name: &str| written(name, PathArgs::Absent);
    let of = |name: &str, args: Vec<TypeRef>| {
        written(name, PathArgs::AngleBracketed(args.into_iter().map(GenericArg::Type).collect()))
    };
    vec![
        field("id", of("PrimaryKey", vec![plain("Self"), plain("i32")])),
        field("first_name", plain("String")),
        field("last_name", plain("String")),
        field("email", of("Unique", vec![plain("String")])),
        field("phone_number", of("Option", vec![of("Unique", vec![plain("String")])])),
        field("created_at", plain("NaiveDateTime")),
        field("updated_at", plain("NaiveDateTime")),
    ]
}

#[test]
fn parse_table_name() {
    let customer = expand_derive_database_object(&named("public.customer")).unwrap();
    let product = expand_derive_database_object(&named("private.product")).unwrap();
    assert_eq!(customer.object_name, "customer");
    assert_eq!(product.object_name, "product");
    assert_eq!(Customer::object_name(), customer.object_name);
    assert_eq!(Product::object_name(), product.object_name);
}

#[test]
fn parse_schema_name() {
    let customer = expand_derive_database_object(&named("public.customer")).unwrap();
    let product = expand_derive_database_object(&named("private.product")).unwrap();
    assert_eq!(customer.schema_name, "public");
    assert_eq!(product.schema_name, "private");
    assert_eq!(Customer::schema_name(), customer.schema_name);
    assert_eq!(Product::schema_name(), product.schema_name);
}

#[test]
fn create_primary_key_getter() {
    let user = Customer {
        id: PrimaryKey::new(131),
        first_name: String::new(),
        last_name: String::new(),
        email: Unique(String::new()),
        phone_number: None,
    };

    let id = PrimaryKey::new(131);

    assert_eq!(user.primary_key(), &id);
    assert_ne!(user.primary_key(), &PrimaryKey::new(132));
}

#[test]
fn fields_getter() {
    let table = expand_derive_table("Customer".to_string(), customer_fields()).unwrap();
    let columns = table.field_names();

    let expected = [
        "id",
        "first_name",
        "last_name",
        "email",
        "phone_number",
        "created_at",
        "updated_at",
    ];

    assert_eq!(columns, expected);
    assert_eq!(Customer::database_columns(), expected);
    assert!(table.fields[0].constraints.primary_key);
    assert!(table.fields[3].constraints.unique);
    assert!(table.fields[4].constraints.unique);
}

#[test]
fn check_ordinal() {
    let ordinal = Customer::ordinal("id").expect("msg");
    let column_name = Customer::column(ordinal).expect("msg");
    assert_eq!(column_name, "id")
}

#[test]
fn example_builder() {
    let mut q: QueryState<Order> = QueryState::new_select();
    q.limit = Some(1);
    q.offset = Some(0);
    q.where_conditions.push(Where::neq("id", "4".into()));

    assert_eq!(
        q.to_string().unwrap(),
        "SELECT id, customer_id, order_date, total_amount, status, name, shipping_address, created_at, updated_at FROM order WHERE id != 4 LIMIT 1 OFFSET 0;".to_string()
    )
}

#[test]
fn subtype() {
    pub struct FrontendOrder {}
    let _ = FrontendOrder {};
}

#[test]
fn view() {
    let joins: Vec<Join> = vec![];
    let selects: Vec<Join> = vec![];
    let wheres: Vec<Join> = vec![];

    pub struct CustomerContact {
        pub first_name: String,
        pub email: Unique<String>,
        pub phone_number: Option<String>,
    }

    let query = [selects, wheres, joins];
    assert!(query.iter().all(|part| part.is_empty()));
}

#[test]
fn create_exec() {
    pub struct ResetLoginSessions {
        pub name: String,
    }

    impl HasObjectName for ResetLoginSessions {
        fn object_name() -> &'static str {
            "reset_login_sessions"
        }
    }

    impl HasSchemaName for ResetLoginSessions {
        fn schema_name() -> &'static str {
            "public"
        }
    }

    impl HasQualifiedName for ResetLoginSessions {
        fn qualified_name() -> &'static str {
            "public.reset_login_sessions"
        }
    }

    impl DatabaseObject for ResetLoginSessions {}

    impl StoredProcedure for ResetLoginSessions {
        fn execute<T>(&self) -> Result<T, String> {
            Err(format!("{} is not executed here", Self::qualified_name()))
        }
    }

    pub struct ResetResponse {
        pub connections_reset: i32,
    }

    let pending_proc_call = ResetLoginSessions { name: String::new() };
    let a: Result<ResetResponse, String> = pending_proc_call.execute::<ResetResponse>();
    assert!(a.is_err());
    assert_eq!(ResetLoginSessions::qualified_name(), "public.reset_login_sessions");
}

#[test]
fn delete_renders_with_the_same_tail() {
    let mut q: QueryState<Order> = QueryState::new_select();
    q.command = Command::Delete;
    q.where_conditions.push(Where::eq("id", "7".to_string()));
    q.limit = Some(3);
    assert_eq!(q.to_string().unwrap(), "DELETE FROM order WHERE id = 7 LIMIT 3;");
}

pub struct Invoice;

const INVOICE_EXCEPTIONS: phf::Map<&'static str, &'static str> =
    phf::Map { key: 0, disps: &[(0, 0)], entries: &[("id", "invoice_id")] };

impl HasFields for Invoice {
    fn field_map() -> &'static phf::Map<&'static str, &'static str> {
        &INVOICE_EXCEPTIONS
    }

    fn database_columns() -> &'static [&'static str] {
        &["invoice_id", "total", "total"]
    }
}

impl HasTableName for Invoice {
    fn table_name() -> &'static str {
        "invoice"
    }
}

impl Filterable for Invoice {
    type Proxy = Col<i32>;

    fn to_field_filter() -> Result<Col<i32>, OrmoluError> {
        Col::new(Self::database_columns(), "invoice_id")
    }
}

impl Selectable for Invoice {
    type Select = bool;

    fn select() -> bool {
        false
    }
}

impl Gilded for Invoice {}

#[test]
fn fields_are_found_under_their_column_names() {
    assert_eq!(Invoice::get_db_column_name("id"), "invoice_id");
    assert_eq!(Invoice::get_db_column_name("total"), "total");
    assert_eq!(Customer::get_db_column_name("id"), "id");
}

#[test]
fn ordinals_and_columns_of_an_entity() {
    assert_eq!(Invoice::ordinal("invoice_id"), Some(1));
    assert_eq!(Invoice::ordinal("total"), Some(2));
    assert_eq!(Invoice::ordinal("id"), None);
    assert_eq!(Invoice::column(0), None);
    assert_eq!(Invoice::column(1), Some("invoice_id"));
    assert_eq!(Invoice::column(3), Some("total"));
    assert_eq!(Invoice::column(4), None);
    assert_eq!(Customer::ordinal("updated_at"), Some(7));
    assert_eq!(Customer::column(7), Some("updated_at"));
}

#[test]
fn an_entity_with_all_its_parts_is_gilded() {
    assert!(Invoice::is_gilded());
    assert_eq!(Invoice::table_name(), "invoice");
}
