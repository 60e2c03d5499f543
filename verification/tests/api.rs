use otter_budget::api::config::{
    default_budget_bars, default_cors, default_currency, default_currency_code,
    default_database, default_db_url, default_decimal_places, default_green_threshold,
    default_host, default_minor_unit_name, default_port, default_server, default_ui,
    default_yellow_threshold, split_flat_key, AppConfig, BudgetBarsConfig, ConfigError,
};
use otter_budget::api::errors::{ApiError, DetailValue};
use otter_budget::api::handlers::{
    parse_optional_ulid, parse_ulid, prepare_create_category, prepare_create_entry,
    prepare_create_month, prepare_create_transaction, prepare_update_category,
    prepare_update_entry, prepare_update_transaction, requested_date, requested_due_day,
    requested_due_day_update, requested_month, transaction_listing, TransactionListing,
};
use otter_budget::api::requests::{
    CreateCategoryRequest, CreateEntryRequest, CreateMonthRequest, CreateTransactionRequest,
    TransactionListQuery, UpdateCategoryRequest, UpdateEntryRequest, UpdateTransactionRequest,
};
use otter_budget::api::responses::{
    CategoryResponse, EntryResponse, MonthResponse, MonthSummaryResponse,
    PaginatedTransactionsResponse, TransactionResponse,
};
use otter_budget::entities::{
    BudgetEntryWithCategory, Category, CategorySummary, FieldUpdate, Month, Transaction,
};
use otter_budget::errors::{CategoryError, EntryError, MonthError, TransactionError};
use otter_budget::services::summary_service::summarize;
use otter_budget::types::{
    BudgetMonth, CategoryName, DueDay, EntityId, Money, Timestamp, TransactionDate,
};

const ID: &str = "01D39ZY06FGSCTVN4T2V9PKHFZ";
const OTHER: &str = "01ARZ3NDEKTSV4RRFFQ69G5FAV";

fn id(text: &str) -> EntityId {
    EntityId::from_string(text).unwrap()
}

fn at(millis: i64) -> Timestamp {
    Timestamp::from_millis(millis).unwrap()
}

fn bad_id(text: &str) -> ApiError {
    ApiError::bad_request(&format!("Invalid ID format: {}", text))
}

// ---------------------------------------------------------------------------
// Configuration
// ---------------------------------------------------------------------------

#[test]
fn configuration_defaults() {
    assert_eq!(default_host(), "0.0.0.0");
    assert_eq!(default_port(), 3000);
    assert_eq!(default_db_url(), "sqlite://data/budget.db");
    assert_eq!(default_currency_code(), "PLN");
    assert_eq!(default_minor_unit_name(), "grosz");
    assert_eq!(default_decimal_places(), 2);
    assert_eq!(default_green_threshold(), 80);
    assert_eq!(default_yellow_threshold(), 100);
    assert_eq!((default_server().host, default_server().port), ("0.0.0.0".to_string(), 3000));
    assert_eq!(default_database().url, "sqlite://data/budget.db");
    let currency = default_currency();
    assert_eq!(
        (currency.code.as_str(), currency.minor_unit_name.as_str(), currency.decimal_places),
        ("PLN", "grosz", 2)
    );
    assert!(default_cors().allowed_origins.is_empty());
    assert_eq!(
        default_budget_bars(),
        BudgetBarsConfig { green_threshold: 80, yellow_threshold: 100 }
    );
    assert_eq!(default_ui().budget_bars, default_budget_bars());

    let config = AppConfig::defaults();
    assert_eq!(config.ui.budget_bars.green_threshold, 80);
    assert_eq!(config.ui.budget_bars.yellow_threshold, 100);
    assert_eq!(config.validate(), Ok(()));
}

fn with_thresholds(green: u8, yellow: u8) -> AppConfig {
    let mut config = AppConfig::defaults();
    config.ui.budget_bars = BudgetBarsConfig { green_threshold: green, yellow_threshold: yellow };
    config
}

#[test]
fn thresholds_have_to_be_above_zero_and_in_order() {
    assert_eq!(with_thresholds(70, 90).validate(), Ok(()));
    assert_eq!(with_thresholds(1, 2).validate(), Ok(()));
    assert_eq!(with_thresholds(254, 255).validate(), Ok(()));
    assert_eq!(
        with_thresholds(0, 100).validate(),
        Err(ConfigError::Message(
            "ui.budget_bars.green_threshold must be greater than 0".to_string()
        ))
    );
    assert_eq!(
        with_thresholds(0, 0).validate(),
        Err(ConfigError::Message(
            "ui.budget_bars.green_threshold must be greater than 0".to_string()
        ))
    );
    assert_eq!(
        with_thresholds(5, 0).validate(),
        Err(ConfigError::Message(
            "ui.budget_bars.yellow_threshold must be greater than 0".to_string()
        ))
    );
    assert_eq!(
        with_thresholds(100, 80).validate(),
        Err(ConfigError::Message(
            "ui.budget_bars.green_threshold (100) must be less than yellow_threshold (80)"
                .to_string()
        ))
    );
    assert_eq!(
        with_thresholds(80, 80).validate(),
        Err(ConfigError::Message(
            "ui.budget_bars.green_threshold (80) must be less than yellow_threshold (80)"
                .to_string()
        ))
    );
}

#[test]
fn flat_keys_name_a_section_and_a_field() {
    let parts = |key: &str| split_flat_key(key).map(|(s, f)| format!("{s}.{f}"));
    assert_eq!(parts("server_host").as_deref(), Some("server.host"));
    assert_eq!(parts("server_port").as_deref(), Some("server.port"));
    assert_eq!(parts("database_url").as_deref(), Some("database.url"));
    assert_eq!(parts("currency_code").as_deref(), Some("currency.code"));
    assert_eq!(parts("currency_minor_unit_name").as_deref(), Some("currency.minor_unit_name"));
    assert_eq!(parts("cors_allowed_origins").as_deref(), Some("cors.allowed_origins"));
    assert_eq!(parts("ui_budget_bars").as_deref(), Some("ui.budget_bars"));
    assert_eq!(parts("ui_").as_deref(), Some("ui."));
    for key in ["", "server", "serverhost", "Server_host", "host", "_server_host", "uix_a", "u_i"]
    {
        assert_eq!(parts(key), None, "{key}");
    }
}

// ---------------------------------------------------------------------------
// Errors
// ---------------------------------------------------------------------------

fn plain(status: u16, code: &str) -> ApiError {
    ApiError { status, code: code.to_string(), details: None }
}

fn detailed(status: u16, code: &str, details: Vec<(&str, DetailValue)>) -> ApiError {
    ApiError {
        status,
        code: code.to_string(),
        details: Some(details.into_iter().map(|(k, v)| (k.to_string(), v)).collect()),
    }
}

fn text(t: &str) -> DetailValue {
    DetailValue::Text(t.to_string())
}

#[test]
fn errors_of_requests() {
    assert_eq!(
        ApiError::bad_request("why"),
        detailed(400, "BAD_REQUEST", vec![("reason", text("why"))])
    );
    assert_eq!(ApiError::month_required(), plain(400, "TRANSACTIONS_MONTH_REQUIRED"));
}

#[test]
fn errors_of_categories_have_their_status_and_code() {
    assert_eq!(
        ApiError::from_category_error(CategoryError::NotFound),
        plain(404, "CATEGORY_NOT_FOUND")
    );
    assert_eq!(
        ApiError::from_category_error(CategoryError::NameAlreadyExists { name: "food".into() }),
        detailed(409, "CATEGORY_NAME_ALREADY_EXISTS", vec![("name", text("food"))])
    );
    assert_eq!(
        ApiError::from_category_error(CategoryError::InvalidNameFormat { reason: "r".into() }),
        detailed(422, "CATEGORY_INVALID_NAME", vec![("reason", text("r"))])
    );
    assert_eq!(
        ApiError::from_category_error(CategoryError::Repository("secret".into())),
        plain(500, "INTERNAL_ERROR")
    );
}

#[test]
fn errors_of_months_have_their_status_and_code() {
    assert_eq!(ApiError::from_month_error(MonthError::NotFound), plain(404, "MONTH_NOT_FOUND"));
    assert_eq!(
        ApiError::from_month_error(MonthError::AlreadyExists { month: "2026-02".into() }),
        detailed(409, "MONTH_ALREADY_EXISTS", vec![("month", text("2026-02"))])
    );
    assert_eq!(
        ApiError::from_month_error(MonthError::InvalidFormat { value: "x".into() }),
        detailed(422, "MONTH_INVALID_FORMAT", vec![("value", text("x"))])
    );
    assert_eq!(
        ApiError::from_month_error(MonthError::Repository("secret".into())),
        plain(500, "INTERNAL_ERROR")
    );
}

#[test]
fn errors_of_entries_have_their_status_and_code() {
    assert_eq!(ApiError::from_entry_error(EntryError::NotFound), plain(404, "ENTRY_NOT_FOUND"));
    assert_eq!(
        ApiError::from_entry_error(EntryError::CategoryNotFound),
        plain(404, "CATEGORY_NOT_FOUND")
    );
    assert_eq!(
        ApiError::from_entry_error(EntryError::MonthNotFound),
        plain(404, "MONTH_NOT_FOUND")
    );
    assert_eq!(
        ApiError::from_entry_error(EntryError::CategoryAlreadyInMonth {
            category_id: "c".into(),
            month: "m".into()
        }),
        detailed(
            409,
            "ENTRY_CATEGORY_ALREADY_IN_MONTH",
            vec![("category_id", text("c")), ("month", text("m"))]
        )
    );
    assert_eq!(
        ApiError::from_entry_error(EntryError::HasTransactions { transaction_count: 3 }),
        detailed(
            409,
            "ENTRY_HAS_TRANSACTIONS",
            vec![("transaction_count", DetailValue::Number(3))]
        )
    );
    assert_eq!(
        ApiError::from_entry_error(EntryError::InvalidDueDay { value: 40 }),
        detailed(422, "ENTRY_INVALID_DUE_DAY", vec![("value", DetailValue::Number(40))])
    );
    assert_eq!(
        ApiError::from_entry_error(EntryError::Repository("secret".into())),
        plain(500, "INTERNAL_ERROR")
    );
}

#[test]
fn errors_of_transactions_have_their_status_and_code() {
    assert_eq!(
        ApiError::from_transaction_error(TransactionError::NotFound),
        plain(404, "TRANSACTION_NOT_FOUND")
    );
    assert_eq!(
        ApiError::from_transaction_error(TransactionError::EntryNotFound),
        plain(404, "TRANSACTION_ENTRY_NOT_FOUND")
    );
    assert_eq!(
        ApiError::from_transaction_error(TransactionError::InvalidAmount { value: -1 }),
        detailed(422, "TRANSACTION_INVALID_AMOUNT", vec![("value", DetailValue::Number(-1))])
    );
    assert_eq!(
        ApiError::from_transaction_error(TransactionError::InvalidDate { value: "x".into() }),
        detailed(422, "TRANSACTION_INVALID_DATE", vec![("value", text("x"))])
    );
    assert_eq!(
        ApiError::from_transaction_error(TransactionError::TitleTooLong { length: 51, max: 50 }),
        detailed(
            422,
            "TRANSACTION_TITLE_TOO_LONG",
            vec![("length", DetailValue::Count(51)), ("max", DetailValue::Count(50))]
        )
    );
    assert_eq!(
        ApiError::from_transaction_error(TransactionError::Repository("secret".into())),
        plain(500, "INTERNAL_ERROR")
    );
}

#[test]
fn texts_of_errors() {
    assert_eq!(CategoryError::NotFound.to_string(), "Category not found");
    assert_eq!(
        CategoryError::NameAlreadyExists { name: "food".into() }.to_string(),
        "Category name already exists: food"
    );
    assert_eq!(
        CategoryError::InvalidNameFormat { reason: "r".into() }.to_string(),
        "Invalid category name format: r"
    );
    assert_eq!(CategoryError::Repository("x".into()).to_string(), "Repository error: x");
    assert_eq!(
        MonthError::AlreadyExists { month: "2026-02".into() }.to_string(),
        "Month already exists: 2026-02"
    );
    assert_eq!(
        MonthError::InvalidFormat { value: "v".into() }.to_string(),
        "Invalid month format: v"
    );
    assert_eq!(MonthError::NotFound.to_string(), "Month not found");
    assert_eq!(MonthError::Repository("x".into()).to_string(), "Repository error: x");
    assert_eq!(
        EntryError::CategoryAlreadyInMonth { category_id: "c".into(), month: "m".into() }
            .to_string(),
        "Category already in month"
    );
    assert_eq!(EntryError::NotFound.to_string(), "Entry not found");
    assert_eq!(
        EntryError::HasTransactions { transaction_count: 2 }.to_string(),
        "Entry has transactions"
    );
    assert_eq!(EntryError::InvalidDueDay { value: 0 }.to_string(), "Invalid due day: 0");
    assert_eq!(EntryError::CategoryNotFound.to_string(), "Category not found");
    assert_eq!(EntryError::MonthNotFound.to_string(), "Month not found");
    assert_eq!(EntryError::Repository("x".into()).to_string(), "Repository error: x");
    assert_eq!(
        TransactionError::InvalidAmount { value: i64::MIN }.to_string(),
        "Invalid amount: -9223372036854775808"
    );
    assert_eq!(TransactionError::NotFound.to_string(), "Transaction not found");
    assert_eq!(TransactionError::EntryNotFound.to_string(), "Entry not found");
    assert_eq!(
        TransactionError::InvalidDate { value: "d".into() }.to_string(),
        "Invalid date: d"
    );
    assert_eq!(
        TransactionError::TitleTooLong { length: 51, max: 50 }.to_string(),
        "Title too long: 51 characters (max 50)"
    );
    assert_eq!(TransactionError::Repository("x".into()).to_string(), "Repository error: x");
}

// ---------------------------------------------------------------------------
// Requests
// ---------------------------------------------------------------------------

#[test]
fn identifiers_of_requests() {
    assert_eq!(parse_ulid(ID), Ok(id(ID)));
    assert_eq!(parse_ulid("nope"), Err(bad_id("nope")));
    assert_eq!(parse_ulid(""), Err(bad_id("")));
    assert_eq!(parse_optional_ulid(&None), Ok(None));
    assert_eq!(parse_optional_ulid(&Some(ID.to_string())), Ok(Some(id(ID))));
    assert_eq!(parse_optional_ulid(&Some("x".to_string())), Err(bad_id("x")));
}

#[test]
fn values_of_requests() {
    assert_eq!(requested_due_day(None), Ok(None));
    assert_eq!(requested_due_day(Some(31)), Ok(Some(DueDay::new(31).unwrap())));
    assert_eq!(requested_due_day(Some(32)), Err(EntryError::InvalidDueDay { value: 32 }));
    assert_eq!(requested_due_day_update(None), Ok(FieldUpdate::Keep));
    assert_eq!(requested_due_day_update(Some(None)), Ok(FieldUpdate::Clear));
    assert_eq!(
        requested_due_day_update(Some(Some(1))),
        Ok(FieldUpdate::SetTo(DueDay::new(1).unwrap()))
    );
    assert_eq!(
        requested_due_day_update(Some(Some(0))),
        Err(EntryError::InvalidDueDay { value: 0 })
    );
    assert_eq!(requested_month("2026-02"), Ok(BudgetMonth::new(2026, 2).unwrap()));
    assert_eq!(
        requested_month("2026-13"),
        Err(MonthError::InvalidFormat { value: "2026-13".into() })
    );
    assert_eq!(requested_date("2026-02-05"), Ok(TransactionDate::new(2026, 2, 5).unwrap()));
    assert_eq!(
        requested_date("2026-02-30"),
        Err(TransactionError::InvalidDate { value: "2026-02-30".into() })
    );
}

#[test]
fn requests_for_categories() {
    let made = prepare_create_category(CreateCategoryRequest {
        name: "utils/water".into(),
        label: Some("Water".into()),
    })
    .ok()
    .unwrap();
    assert_eq!(made.name.as_str(), "utils/water");
    assert_eq!(made.label.as_deref(), Some("Water"));

    let refused = prepare_create_category(CreateCategoryRequest { name: "a//b".into(), label: None })
        .err()
        .unwrap();
    assert_eq!(
        refused,
        detailed(
            422,
            "CATEGORY_INVALID_NAME",
            vec![(
                "reason",
                text(
                    "Invalid category name: category name must not contain empty segments (double slashes)"
                )
            )]
        )
    );

    let update = |name: Option<&str>, label: Option<Option<&str>>| UpdateCategoryRequest {
        name: name.map(str::to_string),
        label: label.map(|l| l.map(str::to_string)),
    };
    let kept = prepare_update_category(ID, update(None, None)).ok().unwrap();
    assert_eq!((kept.id, kept.name, kept.label), (id(ID), None, FieldUpdate::Keep));
    let cleared = prepare_update_category(ID, update(Some("food"), Some(None))).ok().unwrap();
    assert_eq!(cleared.name, Some(CategoryName::new("food").unwrap()));
    assert_eq!(cleared.label, FieldUpdate::Clear);
    let set = prepare_update_category(ID, update(None, Some(Some("L")))).ok().unwrap();
    assert_eq!(set.label, FieldUpdate::SetTo("L".to_string()));
    // The identifier is read before the name.
    assert_eq!(prepare_update_category("x", update(Some(""), None)).err().unwrap(), bad_id("x"));
    assert_eq!(
        prepare_update_category(ID, update(Some(""), None)).err().unwrap(),
        detailed(
            422,
            "CATEGORY_INVALID_NAME",
            vec![("reason", text("Invalid category name: category name must not be empty"))]
        )
    );
}

#[test]
fn requests_for_months() {
    let request = |month: &str, copy_from: Option<&str>, empty: Option<bool>| CreateMonthRequest {
        month: month.to_string(),
        copy_from: copy_from.map(str::to_string),
        empty,
    };
    let made = prepare_create_month(request("2026-02", None, None)).ok().unwrap();
    assert_eq!(made.month, BudgetMonth::new(2026, 2).unwrap());
    assert_eq!((made.copy_from, made.empty), (None, false));
    let made = prepare_create_month(request("2026-2", Some(ID), Some(true))).ok().unwrap();
    assert_eq!((made.copy_from, made.empty), (Some(id(ID)), true));
    let made = prepare_create_month(request("2026-02", None, Some(false))).ok().unwrap();
    assert!(!made.empty);
    // The month is read before the source.
    assert_eq!(
        prepare_create_month(request("2026", Some("x"), None)).err().unwrap(),
        detailed(422, "MONTH_INVALID_FORMAT", vec![("value", text("2026"))])
    );
    assert_eq!(
        prepare_create_month(request("2026-02", Some("x"), None)).err().unwrap(),
        bad_id("x")
    );
}

#[test]
fn requests_for_entries() {
    let request = |category: &str, due_day: Option<u8>| CreateEntryRequest {
        category_id: category.to_string(),
        budgeted: 10000,
        due_day,
    };
    let made = prepare_create_entry(ID, request(OTHER, Some(15))).ok().unwrap();
    assert_eq!((made.month_id, made.category_id), (id(ID), id(OTHER)));
    assert_eq!((made.budgeted, made.due_day), (Money::new(10000), Some(DueDay::new(15).unwrap())));
    assert_eq!(prepare_create_entry(ID, request(OTHER, None)).ok().unwrap().due_day, None);
    // Month, category, due day: in this order.
    assert_eq!(prepare_create_entry("m", request("c", Some(0))).err().unwrap(), bad_id("m"));
    assert_eq!(prepare_create_entry(ID, request("c", Some(0))).err().unwrap(), bad_id("c"));
    assert_eq!(
        prepare_create_entry(ID, request(OTHER, Some(0))).err().unwrap(),
        detailed(422, "ENTRY_INVALID_DUE_DAY", vec![("value", DetailValue::Number(0))])
    );

    let update = |budgeted: Option<i64>, due_day: Option<Option<u8>>| UpdateEntryRequest {
        budgeted,
        due_day,
    };
    let kept = prepare_update_entry(ID, update(None, None)).ok().unwrap();
    assert_eq!((kept.id, kept.budgeted, kept.due_day), (id(ID), None, FieldUpdate::Keep));
    let changed = prepare_update_entry(ID, update(Some(-5), Some(None))).ok().unwrap();
    assert_eq!((changed.budgeted, changed.due_day), (Some(Money::new(-5)), FieldUpdate::Clear));
    let set = prepare_update_entry(ID, update(None, Some(Some(31)))).ok().unwrap();
    assert_eq!(set.due_day, FieldUpdate::SetTo(DueDay::new(31).unwrap()));
    assert_eq!(prepare_update_entry("e", update(None, Some(Some(32)))).err().unwrap(), bad_id("e"));
    assert_eq!(
        prepare_update_entry(ID, update(None, Some(Some(32)))).err().unwrap(),
        detailed(422, "ENTRY_INVALID_DUE_DAY", vec![("value", DetailValue::Number(32))])
    );
}

#[test]
fn requests_for_transactions() {
    let request = |entry: &str, date: &str| CreateTransactionRequest {
        entry_id: entry.to_string(),
        amount: 5000,
        date: date.to_string(),
        title: Some(" lunch ".to_string()),
    };
    let made = prepare_create_transaction(request(ID, "2026-01-10")).ok().unwrap();
    assert_eq!((made.entry_id, made.amount), (id(ID), Money::new(5000)));
    assert_eq!(made.date, TransactionDate::new(2026, 1, 10).unwrap());
    assert_eq!(made.title.as_deref(), Some(" lunch "));
    assert_eq!(prepare_create_transaction(request("e", "never")).err().unwrap(), bad_id("e"));
    assert_eq!(
        prepare_create_transaction(request(ID, "never")).err().unwrap(),
        detailed(422, "TRANSACTION_INVALID_DATE", vec![("value", text("never"))])
    );

    let update = |entry: Option<&str>, date: Option<&str>, title: Option<Option<&str>>| {
        UpdateTransactionRequest {
            entry_id: entry.map(str::to_string),
            amount: Some(-1),
            date: date.map(str::to_string),
            title: title.map(|t| t.map(str::to_string)),
        }
    };
    let kept = prepare_update_transaction(ID, update(None, None, None)).ok().unwrap();
    assert_eq!((kept.id, kept.entry_id, kept.date), (id(ID), None, None));
    // The amount is passed on as it is: the service refuses it.
    assert_eq!(kept.amount, Some(Money::new(-1)));
    assert_eq!(kept.title, FieldUpdate::Keep);
    let all =
        prepare_update_transaction(ID, update(Some(OTHER), Some("2026-01-11"), Some(Some("t"))))
            .ok()
            .unwrap();
    assert_eq!(all.entry_id, Some(id(OTHER)));
    assert_eq!(all.date, Some(TransactionDate::new(2026, 1, 11).unwrap()));
    assert_eq!(all.title, FieldUpdate::SetTo("t".to_string()));
    let cleared = prepare_update_transaction(ID, update(None, None, Some(None))).ok().unwrap();
    assert_eq!(cleared.title, FieldUpdate::Clear);
    // Transaction, entry, date: in this order.
    assert_eq!(
        prepare_update_transaction("t", update(Some("e"), Some("d"), None)).err().unwrap(),
        bad_id("t")
    );
    assert_eq!(
        prepare_update_transaction(ID, update(Some("e"), Some("d"), None)).err().unwrap(),
        bad_id("e")
    );
    assert_eq!(
        prepare_update_transaction(ID, update(Some(OTHER), Some("d"), None)).err().unwrap(),
        detailed(422, "TRANSACTION_INVALID_DATE", vec![("value", text("d"))])
    );
}

#[test]
fn listings_of_transactions() {
    let query = |month: Option<&str>, entry: Option<&str>, limit, offset| TransactionListQuery {
        month: month.map(str::to_string),
        entry_id: entry.map(str::to_string),
        limit,
        offset,
    };
    assert_eq!(
        transaction_listing(&query(None, Some(ID), None, None)),
        Ok(TransactionListing::ByEntry { entry_id: id(ID), limit: 100, fetch: 101, offset: 0 })
    );
    // An entry wins over a month.
    assert_eq!(
        transaction_listing(&query(Some(OTHER), Some(ID), Some(2), Some(4))),
        Ok(TransactionListing::ByEntry { entry_id: id(ID), limit: 2, fetch: 3, offset: 4 })
    );
    assert_eq!(
        transaction_listing(&query(None, Some(ID), Some(0), None)),
        Ok(TransactionListing::ByEntry { entry_id: id(ID), limit: 0, fetch: 1, offset: 0 })
    );
    assert_eq!(
        transaction_listing(&query(None, Some(ID), Some(u32::MAX), Some(u32::MAX))),
        Ok(TransactionListing::ByEntry {
            entry_id: id(ID),
            limit: u32::MAX,
            fetch: u32::MAX,
            offset: u32::MAX
        })
    );
    assert_eq!(
        transaction_listing(&query(Some(OTHER), None, Some(5), None)),
        Ok(TransactionListing::ByMonth { month_id: id(OTHER) })
    );
    assert_eq!(transaction_listing(&query(Some(ID), Some("e"), None, None)), Err(bad_id("e")));
    assert_eq!(transaction_listing(&query(Some("m"), None, None, None)), Err(bad_id("m")));
    assert_eq!(
        transaction_listing(&query(None, None, Some(5), Some(1))),
        Err(ApiError::month_required())
    );
}

// ---------------------------------------------------------------------------
// Responses
// ---------------------------------------------------------------------------

fn transaction(n: u128, amount: i64) -> Transaction {
    Transaction {
        id: EntityId::new(n),
        entry_id: id(OTHER),
        amount: Money::new(amount),
        date: TransactionDate::new(2026, 1, 10).unwrap(),
        title: Some("lunch".to_string()),
        created_at: at(1_768_048_200_250),
        updated_at: at(1_768_048_200_000),
    }
}

#[test]
fn responses_show_records() {
    let category = Category {
        id: id(ID),
        name: CategoryName::new("food").unwrap(),
        label: Some("Food".to_string()),
        created_at: at(1_768_048_200_250),
        updated_at: at(1_768_048_200_000),
    };
    let shown = CategoryResponse::from(category);
    assert_eq!(shown.id, ID);
    assert_eq!(shown.name, "food");
    assert_eq!(shown.label.as_deref(), Some("Food"));
    assert_eq!(shown.created_at, "2026-01-10T12:30:00.250+00:00");
    assert_eq!(shown.updated_at, "2026-01-10T12:30:00+00:00");

    let month = Month {
        id: id(ID),
        month: BudgetMonth::new(2026, 2).unwrap(),
        created_at: at(0),
        updated_at: at(1),
    };
    let shown: MonthResponse = month.into();
    assert_eq!((shown.id.as_str(), shown.month.as_str()), (ID, "2026-02"));
    assert_eq!(shown.created_at, "1970-01-01T00:00:00+00:00");
    assert_eq!(shown.updated_at, "1970-01-01T00:00:00.001+00:00");

    let shown = TransactionResponse::from(transaction(7, 2500));
    assert_eq!(shown.id, "00000000000000000000000007");
    assert_eq!(shown.entry_id, OTHER);
    assert_eq!((shown.amount, shown.date.as_str()), (2500, "2026-01-10"));
    assert_eq!(shown.title.as_deref(), Some("lunch"));
    assert_eq!(shown.created_at, "2026-01-10T12:30:00.250+00:00");
}

fn entry(name: &str, budgeted: i64, due_day: Option<u8>) -> BudgetEntryWithCategory {
    BudgetEntryWithCategory {
        id: id(ID),
        category: CategorySummary {
            id: id(OTHER),
            name: CategoryName::new(name).unwrap(),
            label: None,
        },
        budgeted: Money::new(budgeted),
        due_day: due_day.map(|d| DueDay::new(d).unwrap()),
        created_at: at(0),
        updated_at: at(0),
    }
}

#[test]
fn responses_show_entries_and_summaries() {
    let shown = EntryResponse::from(entry("food", 10000, Some(15)));
    assert_eq!((shown.id.as_str(), shown.budgeted, shown.due_day), (ID, 10000, Some(15)));
    assert_eq!((shown.category.id.as_str(), shown.category.name.as_str()), (OTHER, "food"));
    assert_eq!(EntryResponse::from(entry("food", 1, None)).due_day, None);

    let summary = summarize(
        BudgetMonth::new(2026, 1).unwrap(),
        vec![
            (entry("food", 10000, Some(15)), Money::new(5000)),
            (entry("rent", 2000, None), Money::new(2500)),
            (entry("gym", 300, None), Money::new(0)),
        ],
    )
    .unwrap();
    let shown = MonthSummaryResponse::from(summary);
    assert_eq!(shown.month, "2026-01");
    assert_eq!((shown.total_budgeted, shown.total_paid, shown.remaining), (12300, 7500, 4800));
    let lines: Vec<(&str, i64, i64, i64, &str)> = shown
        .categories
        .iter()
        .map(|c| (c.category.name.as_str(), c.budgeted, c.paid, c.remaining, c.status.as_str()))
        .collect();
    assert_eq!(
        lines,
        vec![
            ("food", 10000, 5000, 5000, "underspent"),
            ("rent", 2000, 2500, -500, "overspent"),
            ("gym", 300, 0, 300, "unpaid"),
        ]
    );
    assert_eq!(shown.categories[0].entry_id, ID);
}

#[test]
fn summaries_refuse_amounts_that_leave_the_range() {
    let january = BudgetMonth::new(2026, 1).unwrap();
    assert!(summarize(january, vec![]).is_some());
    // What is left of an entry.
    assert!(summarize(january, vec![(entry("a", i64::MIN, None), Money::new(1))]).is_none());
    // A total.
    assert!(summarize(
        january,
        vec![
            (entry("a", i64::MAX, None), Money::new(i64::MAX)),
            (entry("b", 1, None), Money::new(0))
        ]
    )
    .is_none());
    // What is left of the month.
    assert!(summarize(
        january,
        vec![
            (entry("a", i64::MAX, None), Money::new(0)),
            (entry("b", 0, None), Money::new(-1))
        ]
    )
    .is_none());
    let most = summarize(january, vec![(entry("a", i64::MAX, None), Money::new(0))]).unwrap();
    assert_eq!(most.remaining, Money::new(i64::MAX));
}

#[test]
fn pages_show_the_first_transactions_and_whether_more_follow() {
    let fetched = |n: u128| (1..=n).map(|i| transaction(i, i as i64)).collect::<Vec<_>>();
    let amounts =
        |page: &PaginatedTransactionsResponse| page.items.iter().map(|t| t.amount).collect::<Vec<_>>();

    let page = PaginatedTransactionsResponse::of(fetched(3), 2);
    assert_eq!((amounts(&page), page.has_more), (vec![1, 2], true));
    let page = PaginatedTransactionsResponse::of(fetched(2), 2);
    assert_eq!((amounts(&page), page.has_more), (vec![1, 2], false));
    let page = PaginatedTransactionsResponse::of(fetched(1), 2);
    assert_eq!((amounts(&page), page.has_more), (vec![1], false));
    let page = PaginatedTransactionsResponse::of(fetched(0), 2);
    assert_eq!((amounts(&page), page.has_more), (vec![], false));
    let page = PaginatedTransactionsResponse::of(fetched(1), 0);
    assert_eq!((amounts(&page), page.has_more), (vec![], true));
    let page = PaginatedTransactionsResponse::of(fetched(4), u32::MAX);
    assert_eq!((amounts(&page), page.has_more), (vec![1, 2, 3, 4], false));
}
