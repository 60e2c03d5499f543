//! The services against a store that lives in memory.

use otter_budget::entities::{
    BudgetEntry, BudgetEntryWithCategory, Category, CategorySummary, FieldUpdate, Month,
    NewBudgetEntry, NewCategory, NewMonth, NewTransaction, Transaction,
};
use otter_budget::errors::{CategoryError, EntryError, MonthError, TransactionError};
use otter_budget::ports::{
    BudgetEntryRepository, CategoryRepository, MonthRepository, TransactionRepository,
};
use otter_budget::services::{
    BudgetStatus, CategoryService, EntryService, MonthService, SummaryService,
    TransactionService,
};
use otter_budget::types::{
    BudgetMonth, CategoryName, DueDay, EntityId, Money, Timestamp, TransactionDate,
};
use std::sync::{Arc, Mutex};

#[derive(Default)]
struct Data {
    categories: Vec<Category>,
    months: Vec<Month>,
    entries: Vec<BudgetEntry>,
    transactions: Vec<Transaction>,
    issued: u128,
    clock: i64,
    calls: Vec<String>,
    /// The call, by name, that fails, and how often it may succeed before.
    failing: Option<(String, usize)>,
}

#[derive(Default)]
struct Store {
    data: Mutex<Data>,
}

impl Data {
    fn fresh_id(&mut self) -> EntityId {
        self.issued += 1;
        EntityId::new(1000 + self.issued)
    }

    fn now(&mut self) -> Timestamp {
        self.clock += 1;
        Timestamp::from_millis(1_767_225_600_000 + self.clock).unwrap()
    }

    /// Notes the call, and says whether it is the one that has to fail.
    fn fails(&mut self, call: &str) -> bool {
        self.calls.push(call.to_string());
        match &mut self.failing {
            Some((name, allowed)) if name == call => {
                if *allowed == 0 {
                    true
                } else {
                    *allowed -= 1;
                    false
                }
            }
            _ => false,
        }
    }

    fn joined(&self, entry: &BudgetEntry) -> BudgetEntryWithCategory {
        let category = self.categories.iter().find(|c| c.id == entry.category_id).unwrap();
        BudgetEntryWithCategory {
            id: entry.id,
            category: CategorySummary {
                id: category.id,
                name: category.name.clone(),
                label: category.label.clone(),
            },
            budgeted: entry.budgeted,
            due_day: entry.due_day,
            created_at: entry.created_at,
            updated_at: entry.updated_at,
        }
    }
}

impl Store {
    fn failing_at(call: &str, allowed: usize) -> Arc<Store> {
        let store = Store::default();
        store.data.lock().unwrap().failing = Some((call.to_string(), allowed));
        Arc::new(store)
    }

    fn calls(&self) -> Vec<String> {
        self.data.lock().unwrap().calls.clone()
    }

    fn forget_calls(&self) {
        self.data.lock().unwrap().calls.clear();
    }

    fn fail_at(&self, call: &str, allowed: usize) {
        self.data.lock().unwrap().failing = Some((call.to_string(), allowed));
    }
}

impl CategoryRepository for Store {
    fn list_all(&self) -> Result<Vec<Category>, CategoryError> {
        let mut data = self.data.lock().unwrap();
        if data.fails("category.list_all") {
            return Err(CategoryError::Repository("store is down".into()));
        }
        let mut all = data.categories.clone();
        all.sort_by(|a, b| a.name.as_str().cmp(b.name.as_str()));
        Ok(all)
    }

    fn find_by_id(&self, id: &EntityId) -> Result<Option<Category>, CategoryError> {
        let mut data = self.data.lock().unwrap();
        if data.fails("category.find_by_id") {
            return Err(CategoryError::Repository("store is down".into()));
        }
        Ok(data.categories.iter().find(|c| c.id == *id).cloned())
    }

    fn create(&self, category: NewCategory) -> Result<Category, CategoryError> {
        let mut data = self.data.lock().unwrap();
        if data.fails("category.create") {
            return Err(CategoryError::Repository("store is down".into()));
        }
        if data.categories.iter().any(|c| c.name == category.name) {
            return Err(CategoryError::NameAlreadyExists {
                name: category.name.as_str().to_string(),
            });
        }
        let now = data.now();
        let created = Category {
            id: data.fresh_id(),
            name: category.name,
            label: None,
            created_at: now,
            updated_at: now,
        };
        data.categories.push(created.clone());
        Ok(created)
    }

    fn update_name(&self, id: &EntityId, name: CategoryName) -> Result<Category, CategoryError> {
        CategoryRepository::update(self, id, Some(name), FieldUpdate::Keep)
    }

    fn update(
        &self,
        id: &EntityId,
        name: Option<CategoryName>,
        label: FieldUpdate<String>,
    ) -> Result<Category, CategoryError> {
        let mut data = self.data.lock().unwrap();
        if data.fails("category.update") {
            return Err(CategoryError::Repository("store is down".into()));
        }
        if let Some(name) = &name {
            if data.categories.iter().any(|c| c.name == *name && c.id != *id) {
                return Err(CategoryError::NameAlreadyExists { name: name.as_str().to_string() });
            }
        }
        let category = data
            .categories
            .iter_mut()
            .find(|c| c.id == *id)
            .ok_or(CategoryError::NotFound)?;
        if let Some(name) = name {
            category.name = name;
        }
        category.label = label.apply(category.label.take());
        Ok(category.clone())
    }
}

impl MonthRepository for Store {
    fn list_all(&self) -> Result<Vec<Month>, MonthError> {
        let mut data = self.data.lock().unwrap();
        if data.fails("month.list_all") {
            return Err(MonthError::Repository("store is down".into()));
        }
        let mut all = data.months.clone();
        all.sort_by(|a, b| b.month.cmp(&a.month));
        Ok(all)
    }

    fn find_by_id(&self, id: &EntityId) -> Result<Option<Month>, MonthError> {
        let mut data = self.data.lock().unwrap();
        if data.fails("month.find_by_id") {
            return Err(MonthError::Repository("store is down".into()));
        }
        Ok(data.months.iter().find(|m| m.id == *id).cloned())
    }

    fn find_by_month(&self, month: &BudgetMonth) -> Result<Option<Month>, MonthError> {
        let mut data = self.data.lock().unwrap();
        if data.fails("month.find_by_month") {
            return Err(MonthError::Repository("store is down".into()));
        }
        Ok(data.months.iter().find(|m| m.month == *month).cloned())
    }

    fn create(&self, month: NewMonth) -> Result<Month, MonthError> {
        let mut data = self.data.lock().unwrap();
        if data.fails("month.create") {
            return Err(MonthError::Repository("store is down".into()));
        }
        if data.months.iter().any(|m| m.month == month.month) {
            return Err(MonthError::AlreadyExists { month: month.month.to_string() });
        }
        let now = data.now();
        let created =
            Month { id: data.fresh_id(), month: month.month, created_at: now, updated_at: now };
        data.months.push(created.clone());
        Ok(created)
    }

    fn find_latest(&self) -> Result<Option<Month>, MonthError> {
        let mut data = self.data.lock().unwrap();
        if data.fails("month.find_latest") {
            return Err(MonthError::Repository("store is down".into()));
        }
        Ok(data.months.iter().max_by_key(|m| m.month).cloned())
    }

    fn find_latest_excluding(&self, exclude_id: &EntityId) -> Result<Option<Month>, MonthError> {
        let mut data = self.data.lock().unwrap();
        if data.fails("month.find_latest_excluding") {
            return Err(MonthError::Repository("store is down".into()));
        }
        Ok(data.months.iter().filter(|m| m.id != *exclude_id).max_by_key(|m| m.month).cloned())
    }
}

impl BudgetEntryRepository for Store {
    fn list_by_month(
        &self,
        month_id: &EntityId,
    ) -> Result<Vec<BudgetEntryWithCategory>, EntryError> {
        let mut data = self.data.lock().unwrap();
        if data.fails("entry.list_by_month") {
            return Err(EntryError::Repository("store is down".into()));
        }
        let mut all: Vec<BudgetEntryWithCategory> = data
            .entries
            .iter()
            .filter(|e| e.month_id == *month_id)
            .map(|e| data.joined(e))
            .collect();
        all.sort_by(|a, b| {
            let day = |e: &BudgetEntryWithCategory| match e.due_day {
                Some(d) => (0, d.value()),
                None => (1, 0),
            };
            day(a).cmp(&day(b)).then(a.category.name.as_str().cmp(b.category.name.as_str()))
        });
        Ok(all)
    }

    fn find_by_id(&self, id: &EntityId) -> Result<Option<BudgetEntry>, EntryError> {
        let mut data = self.data.lock().unwrap();
        if data.fails("entry.find_by_id") {
            return Err(EntryError::Repository("store is down".into()));
        }
        Ok(data.entries.iter().find(|e| e.id == *id).cloned())
    }

    fn create(&self, entry: NewBudgetEntry) -> Result<BudgetEntryWithCategory, EntryError> {
        let mut data = self.data.lock().unwrap();
        if data.fails("entry.create") {
            return Err(EntryError::Repository("store is down".into()));
        }
        if !data.months.iter().any(|m| m.id == entry.month_id) {
            return Err(EntryError::MonthNotFound);
        }
        if !data.categories.iter().any(|c| c.id == entry.category_id) {
            return Err(EntryError::CategoryNotFound);
        }
        if data
            .entries
            .iter()
            .any(|e| e.month_id == entry.month_id && e.category_id == entry.category_id)
        {
            return Err(EntryError::CategoryAlreadyInMonth {
                category_id: entry.category_id.to_string(),
                month: entry.month_id.to_string(),
            });
        }
        let now = data.now();
        let created = BudgetEntry {
            id: data.fresh_id(),
            month_id: entry.month_id,
            category_id: entry.category_id,
            budgeted: entry.budgeted,
            due_day: entry.due_day,
            created_at: now,
            updated_at: now,
        };
        data.entries.push(created.clone());
        Ok(data.joined(&created))
    }

    fn update(
        &self,
        id: &EntityId,
        budgeted: Option<Money>,
        due_day: FieldUpdate<DueDay>,
    ) -> Result<BudgetEntryWithCategory, EntryError> {
        let mut data = self.data.lock().unwrap();
        if data.fails("entry.update") {
            return Err(EntryError::Repository("store is down".into()));
        }
        let at = data.entries.iter().position(|e| e.id == *id).ok_or(EntryError::NotFound)?;
        if let Some(budgeted) = budgeted {
            data.entries[at].budgeted = budgeted;
        }
        data.entries[at].due_day = due_day.apply(data.entries[at].due_day);
        let updated = data.entries[at].clone();
        Ok(data.joined(&updated))
    }

    fn delete(&self, id: &EntityId) -> Result<(), EntryError> {
        let mut data = self.data.lock().unwrap();
        if data.fails("entry.delete") {
            return Err(EntryError::Repository("store is down".into()));
        }
        let at = data.entries.iter().position(|e| e.id == *id).ok_or(EntryError::NotFound)?;
        data.entries.remove(at);
        Ok(())
    }

    fn transaction_count(&self, entry_id: &EntityId) -> Result<i64, EntryError> {
        let mut data = self.data.lock().unwrap();
        if data.fails("entry.transaction_count") {
            return Err(EntryError::Repository("store is down".into()));
        }
        Ok(data.transactions.iter().filter(|t| t.entry_id == *entry_id).count() as i64)
    }
}

impl TransactionRepository for Store {
    fn list_by_month(&self, month_id: &EntityId) -> Result<Vec<Transaction>, TransactionError> {
        let mut data = self.data.lock().unwrap();
        if data.fails("transaction.list_by_month") {
            return Err(TransactionError::Repository("store is down".into()));
        }
        let mut all: Vec<Transaction> = data
            .transactions
            .iter()
            .filter(|t| {
                data.entries.iter().any(|e| e.id == t.entry_id && e.month_id == *month_id)
            })
            .cloned()
            .collect();
        all.sort_by(|a, b| b.date.cmp(&a.date).then(b.created_at.cmp(&a.created_at)));
        Ok(all)
    }

    fn find_by_id(&self, id: &EntityId) -> Result<Option<Transaction>, TransactionError> {
        let mut data = self.data.lock().unwrap();
        if data.fails("transaction.find_by_id") {
            return Err(TransactionError::Repository("store is down".into()));
        }
        Ok(data.transactions.iter().find(|t| t.id == *id).cloned())
    }

    fn create(&self, transaction: NewTransaction) -> Result<Transaction, TransactionError> {
        let mut data = self.data.lock().unwrap();
        if data.fails("transaction.create") {
            return Err(TransactionError::Repository("store is down".into()));
        }
        if !data.entries.iter().any(|e| e.id == transaction.entry_id) {
            return Err(TransactionError::EntryNotFound);
        }
        let now = data.now();
        let created = Transaction {
            id: data.fresh_id(),
            entry_id: transaction.entry_id,
            amount: transaction.amount,
            date: transaction.date,
            title: transaction.title,
            created_at: now,
            updated_at: now,
        };
        data.transactions.push(created.clone());
        Ok(created)
    }

    fn update(
        &self,
        id: &EntityId,
        entry_id: Option<EntityId>,
        amount: Option<Money>,
        date: Option<TransactionDate>,
        title: FieldUpdate<String>,
    ) -> Result<Transaction, TransactionError> {
        let mut data = self.data.lock().unwrap();
        if data.fails("transaction.update") {
            return Err(TransactionError::Repository("store is down".into()));
        }
        let transaction = data
            .transactions
            .iter_mut()
            .find(|t| t.id == *id)
            .ok_or(TransactionError::NotFound)?;
        if let Some(entry_id) = entry_id {
            transaction.entry_id = entry_id;
        }
        if let Some(amount) = amount {
            transaction.amount = amount;
        }
        if let Some(date) = date {
            transaction.date = date;
        }
        transaction.title = title.apply(transaction.title.take());
        Ok(transaction.clone())
    }

    fn delete(&self, id: &EntityId) -> Result<(), TransactionError> {
        let mut data = self.data.lock().unwrap();
        if data.fails("transaction.delete") {
            return Err(TransactionError::Repository("store is down".into()));
        }
        let at = data
            .transactions
            .iter()
            .position(|t| t.id == *id)
            .ok_or(TransactionError::NotFound)?;
        data.transactions.remove(at);
        Ok(())
    }

    fn sum_by_entry(&self, entry_id: &EntityId) -> Result<Money, TransactionError> {
        let mut data = self.data.lock().unwrap();
        if data.fails("transaction.sum_by_entry") {
            return Err(TransactionError::Repository("store is down".into()));
        }
        let mut sum: i64 = 0;
        for t in data.transactions.iter().filter(|t| t.entry_id == *entry_id) {
            sum = sum.wrapping_add(t.amount.value());
        }
        Ok(Money::new(sum))
    }

    fn list_by_entry(
        &self,
        entry_id: &EntityId,
        limit: u32,
        offset: u32,
    ) -> Result<Vec<Transaction>, TransactionError> {
        let mut data = self.data.lock().unwrap();
        if data.fails("transaction.list_by_entry") {
            return Err(TransactionError::Repository("store is down".into()));
        }
        let mut all: Vec<Transaction> =
            data.transactions.iter().filter(|t| t.entry_id == *entry_id).cloned().collect();
        all.sort_by(|a, b| b.date.cmp(&a.date).then(b.created_at.cmp(&a.created_at)));
        Ok(all.into_iter().skip(offset as usize).take(limit as usize).collect())
    }
}

struct App {
    store: Arc<Store>,
    categories: CategoryService<Store>,
    months: MonthService<Store, Store>,
    entries: EntryService<Store, Store, Store>,
    transactions: TransactionService<Store, Store>,
    summaries: SummaryService<Store, Store, Store>,
}

fn app_on(store: Arc<Store>) -> App {
    App {
        categories: CategoryService::new(store.clone()),
        months: MonthService::new(store.clone(), store.clone()),
        entries: EntryService::new(store.clone(), store.clone(), store.clone()),
        transactions: TransactionService::new(store.clone(), store.clone()),
        summaries: SummaryService::new(store.clone(), store.clone(), store.clone()),
        store,
    }
}

fn app() -> App {
    app_on(Arc::new(Store::default()))
}

fn name(text: &str) -> CategoryName {
    CategoryName::new(text).unwrap()
}

fn month(text: &str) -> BudgetMonth {
    text.parse().unwrap()
}

fn date(text: &str) -> TransactionDate {
    text.parse().unwrap()
}

fn day(d: u8) -> Option<DueDay> {
    Some(DueDay::new(d).unwrap())
}

// ---------------------------------------------------------------------------
// Categories
// ---------------------------------------------------------------------------

#[test]
fn a_second_category_of_the_same_name_is_a_conflict() {
    let app = app();
    let food = app.categories.create(name("food")).unwrap();
    assert_eq!(food.name.as_str(), "food");
    assert_eq!(
        app.categories.create(name("food")).unwrap_err(),
        CategoryError::NameAlreadyExists { name: "food".to_string() }
    );
    // Names differ by case.
    assert!(app.categories.create(name("Food")).is_ok());
    assert_eq!(app.categories.list_all().unwrap().len(), 2);
}

#[test]
fn categories_are_listed_by_name() {
    let app = app();
    for n in ["utils/electricity", "food", "rent", "Auto"] {
        app.categories.create(name(n)).unwrap();
    }
    let names: Vec<String> = app
        .categories
        .list_all()
        .unwrap()
        .iter()
        .map(|c| c.name.as_str().to_string())
        .collect();
    assert_eq!(names, vec!["Auto", "food", "rent", "utils/electricity"]);
}

#[test]
fn categories_are_renamed_and_relabelled() {
    let app = app();
    let food = app.categories.create(name("food")).unwrap();
    app.categories.create(name("rent")).unwrap();

    let renamed = app.categories.rename(&food.id, name("groceries")).unwrap();
    assert_eq!(renamed.name.as_str(), "groceries");
    assert_eq!(
        app.categories.rename(&food.id, name("rent")).unwrap_err(),
        CategoryError::NameAlreadyExists { name: "rent".to_string() }
    );
    assert_eq!(
        app.categories.rename(&EntityId::new(1), name("x")).unwrap_err(),
        CategoryError::NotFound
    );

    let labelled = app
        .categories
        .update(&food.id, None, FieldUpdate::SetTo("Food and drink".to_string()))
        .unwrap();
    assert_eq!(labelled.name.as_str(), "groceries");
    assert_eq!(labelled.label.as_deref(), Some("Food and drink"));
    let kept = app.categories.update(&food.id, Some(name("food")), FieldUpdate::Keep).unwrap();
    assert_eq!(kept.name.as_str(), "food");
    assert_eq!(kept.label.as_deref(), Some("Food and drink"));
    let cleared = app.categories.update(&food.id, None, FieldUpdate::Clear).unwrap();
    assert_eq!(cleared.label, None);
}

// ---------------------------------------------------------------------------
// Months
// ---------------------------------------------------------------------------

#[test]
fn a_month_exists_once() {
    let app = app();
    let feb = app.months.create(month("2026-02"), None, false).unwrap();
    assert_eq!(feb.month.to_string(), "2026-02");
    assert_eq!(
        app.months.create(month("2026-02"), None, false).unwrap_err(),
        MonthError::AlreadyExists { month: "2026-02".to_string() }
    );
    assert_eq!(app.months.list_all().unwrap().len(), 1);
    assert_eq!(app.months.find_by_id(&feb.id).unwrap().id, feb.id);
    assert_eq!(app.months.find_by_id(&EntityId::new(5)).unwrap_err(), MonthError::NotFound);
}

fn january_with_two_entries(app: &App) -> (Month, Category, Category) {
    let food = app.categories.create(name("food")).unwrap();
    let rent = app.categories.create(name("rent")).unwrap();
    let jan = app.months.create(month("2026-01"), None, false).unwrap();
    app.entries.create(jan.id, food.id, Money::new(10000), day(15)).unwrap();
    app.entries.create(jan.id, rent.id, Money::new(250000), None).unwrap();
    (jan, food, rent)
}

#[test]
fn a_new_month_copies_the_entries_of_the_latest_month() {
    let app = app();
    let (jan, food, rent) = january_with_two_entries(&app);
    let january = app.entries.list_by_month(&jan.id).unwrap();

    let feb = app.months.create(month("2026-02"), None, false).unwrap();
    let february = app.entries.list_by_month(&feb.id).unwrap();

    assert_eq!(february.len(), 2);
    assert_eq!(february[0].category.id, food.id);
    assert_eq!(february[0].category.name.as_str(), "food");
    assert_eq!(february[0].budgeted, Money::new(10000));
    assert_eq!(february[0].due_day, day(15));
    assert_eq!(february[1].category.id, rent.id);
    assert_eq!(february[1].budgeted, Money::new(250000));
    assert_eq!(february[1].due_day, None);
    for copy in &february {
        assert!(january.iter().all(|e| e.id != copy.id));
    }
    // January keeps its entries.
    assert_eq!(app.entries.list_by_month(&jan.id).unwrap().len(), 2);
}

#[test]
fn the_source_is_the_latest_month_by_calendar_not_by_creation() {
    let app = app();
    let (_jan, food, _rent) = january_with_two_entries(&app);
    let dec = app.months.create(month("2025-12"), None, true).unwrap();
    app.entries.create(dec.id, food.id, Money::new(1), None).unwrap();

    // March is created after December, and copies from January.
    let mar = app.months.create(month("2026-03"), None, false).unwrap();
    assert_eq!(app.entries.list_by_month(&mar.id).unwrap().len(), 2);

    // A month before all others copies from the latest other month, March.
    let nov = app.months.create(month("2025-11"), None, false).unwrap();
    assert_eq!(app.entries.list_by_month(&nov.id).unwrap().len(), 2);
}

#[test]
fn an_empty_month_copies_nothing_and_asks_for_no_source() {
    let app = app();
    let (jan, _, _) = january_with_two_entries(&app);
    app.store.forget_calls();
    let feb = app.months.create(month("2026-02"), Some(&jan.id), true).unwrap();
    assert_eq!(app.store.calls(), vec!["month.create"]);
    assert!(app.entries.list_by_month(&feb.id).unwrap().is_empty());
}

#[test]
fn the_first_month_has_nothing_to_copy() {
    let app = app();
    let jan = app.months.create(month("2026-01"), None, false).unwrap();
    assert_eq!(app.store.calls(), vec!["month.create", "month.find_latest_excluding"]);
    assert!(app.entries.list_by_month(&jan.id).unwrap().is_empty());
}

#[test]
fn a_named_source_is_copied_and_has_to_exist() {
    let app = app();
    let (jan, food, _) = january_with_two_entries(&app);
    let feb = app.months.create(month("2026-02"), None, true).unwrap();
    app.entries.create(feb.id, food.id, Money::new(7), day(1)).unwrap();

    // March copies from January although February is later.
    let mar = app.months.create(month("2026-03"), Some(&jan.id), false).unwrap();
    let copied = app.entries.list_by_month(&mar.id).unwrap();
    assert_eq!(copied.len(), 2);
    assert_eq!(copied[0].budgeted, Money::new(10000));

    // A source that is missing fails the creation; the month stays.
    let missing = EntityId::new(424242);
    assert_eq!(
        app.months.create(month("2026-04"), Some(&missing), false).unwrap_err(),
        MonthError::NotFound
    );
    let april = MonthRepository::find_by_month(&*app.store, &month("2026-04")).unwrap();
    assert!(april.is_some());
    assert!(app.entries.list_by_month(&april.unwrap().id).unwrap().is_empty());
}

#[test]
fn a_copy_that_fails_is_reported_and_leaves_what_was_done() {
    let app = app();
    january_with_two_entries(&app);
    // The first copy succeeds, the second fails.
    app.store.fail_at("entry.create", 1);
    assert_eq!(
        app.months.create(month("2026-02"), None, false).unwrap_err(),
        MonthError::Repository("Failed to copy entry: Repository error: store is down".into())
    );
    let feb = MonthRepository::find_by_month(&*app.store, &month("2026-02")).unwrap().unwrap();
    let left = app.entries.list_by_month(&feb.id).unwrap();
    assert_eq!(left.len(), 1);
    assert_eq!(left[0].category.name.as_str(), "food");
}

#[test]
fn a_listing_that_fails_during_the_copy_is_reported() {
    let app = app();
    january_with_two_entries(&app);
    app.store.fail_at("entry.list_by_month", 0);
    assert_eq!(
        app.months.create(month("2026-02"), None, false).unwrap_err(),
        MonthError::Repository(
            "Failed to list entries for copy: Repository error: store is down".into()
        )
    );
}

#[test]
fn failures_of_the_month_repository_pass_through() {
    for call in ["month.create", "month.find_latest_excluding"] {
        let app = app_on(Store::failing_at(call, 0));
        assert_eq!(
            app.months.create(month("2026-02"), None, false).unwrap_err(),
            MonthError::Repository("store is down".into())
        );
    }
    let app = app_on(Store::failing_at("month.find_by_id", 0));
    assert_eq!(
        app.months.create(month("2026-02"), Some(&EntityId::new(1)), false).unwrap_err(),
        MonthError::Repository("store is down".into())
    );
}

// ---------------------------------------------------------------------------
// Budget entries
// ---------------------------------------------------------------------------

#[test]
fn an_entry_needs_its_month_and_its_category() {
    let app = app();
    let food = app.categories.create(name("food")).unwrap();
    let jan = app.months.create(month("2026-01"), None, true).unwrap();
    let nowhere = EntityId::new(9);

    assert_eq!(
        app.entries.create(nowhere, food.id, Money::new(1), None).unwrap_err(),
        EntryError::MonthNotFound
    );
    // The month is looked up first.
    assert_eq!(
        app.entries.create(nowhere, nowhere, Money::new(1), None).unwrap_err(),
        EntryError::MonthNotFound
    );
    assert_eq!(
        app.entries.create(jan.id, nowhere, Money::new(1), None).unwrap_err(),
        EntryError::CategoryNotFound
    );
    assert_eq!(app.entries.list_by_month(&nowhere).unwrap_err(), EntryError::MonthNotFound);

    let entry = app.entries.create(jan.id, food.id, Money::new(-300), day(31)).unwrap();
    assert_eq!(entry.budgeted, Money::new(-300));
    assert_eq!(
        app.entries.create(jan.id, food.id, Money::new(5), None).unwrap_err(),
        EntryError::CategoryAlreadyInMonth {
            category_id: food.id.to_string(),
            month: jan.id.to_string()
        }
    );
}

#[test]
fn failures_of_the_lookups_are_wrapped_with_their_text() {
    let app = app_on(Store::failing_at("month.find_by_id", 0));
    let id = EntityId::new(1);
    assert_eq!(
        app.entries.create(id, id, Money::new(1), None).unwrap_err(),
        EntryError::Repository("Repository error: store is down".into())
    );
    assert_eq!(
        app.entries.list_by_month(&id).unwrap_err(),
        EntryError::Repository("Repository error: store is down".into())
    );

    let app = app_on(Store::failing_at("category.find_by_id", 0));
    let jan = app.months.create(month("2026-01"), None, true).unwrap();
    assert_eq!(
        app.entries.create(jan.id, id, Money::new(1), None).unwrap_err(),
        EntryError::Repository("Repository error: store is down".into())
    );
}

#[test]
fn entries_are_listed_by_due_day_then_name_with_no_due_day_last() {
    let app = app();
    let jan = app.months.create(month("2026-01"), None, true).unwrap();
    for (n, d) in [("rent", None), ("food", day(15)), ("car", day(15)), ("gym", day(2)), ("art", None)]
    {
        let c = app.categories.create(name(n)).unwrap();
        app.entries.create(jan.id, c.id, Money::new(100), d).unwrap();
    }
    let names: Vec<String> = app
        .entries
        .list_by_month(&jan.id)
        .unwrap()
        .iter()
        .map(|e| e.category.name.as_str().to_string())
        .collect();
    assert_eq!(names, vec!["gym", "car", "food", "art", "rent"]);
}

#[test]
fn entries_are_updated_field_by_field() {
    let app = app();
    let food = app.categories.create(name("food")).unwrap();
    let jan = app.months.create(month("2026-01"), None, true).unwrap();
    let entry = app.entries.create(jan.id, food.id, Money::new(5000), day(10)).unwrap();

    let e = app.entries.update(&entry.id, Some(Money::new(20000)), FieldUpdate::Keep).unwrap();
    assert_eq!((e.budgeted, e.due_day), (Money::new(20000), day(10)));
    let e = app.entries.update(&entry.id, None, FieldUpdate::Clear).unwrap();
    assert_eq!((e.budgeted, e.due_day), (Money::new(20000), None));
    let e = app.entries.update(&entry.id, None, FieldUpdate::SetTo(DueDay::new(28).unwrap()));
    assert_eq!(e.unwrap().due_day, day(28));
    assert_eq!(
        app.entries.update(&EntityId::new(3), None, FieldUpdate::Keep).unwrap_err(),
        EntryError::NotFound
    );
}

#[test]
fn an_entry_with_transactions_is_not_deleted() {
    let app = app();
    let food = app.categories.create(name("food")).unwrap();
    let apr = app.months.create(month("2026-04"), None, true).unwrap();
    let entry = app.entries.create(apr.id, food.id, Money::new(10000), None).unwrap();
    app.transactions.create(entry.id, Money::new(3000), date("2026-04-10"), None).unwrap();
    app.transactions.create(entry.id, Money::new(0), date("2026-04-11"), None).unwrap();

    app.store.forget_calls();
    assert_eq!(
        app.entries.delete(&entry.id).unwrap_err(),
        EntryError::HasTransactions { transaction_count: 2 }
    );
    // The store was asked for the count and nothing else.
    assert_eq!(app.store.calls(), vec!["entry.transaction_count"]);
    let still = BudgetEntryRepository::find_by_id(&*app.store, &entry.id).unwrap();
    assert_eq!(still.unwrap().id, entry.id);
    assert_eq!(app.entries.list_by_month(&apr.id).unwrap().len(), 1);
}

#[test]
fn an_entry_without_transactions_is_deleted() {
    let app = app();
    let food = app.categories.create(name("food")).unwrap();
    let apr = app.months.create(month("2026-04"), None, true).unwrap();
    let entry = app.entries.create(apr.id, food.id, Money::new(10000), None).unwrap();
    let t = app.transactions.create(entry.id, Money::new(1), date("2026-04-10"), None).unwrap();
    app.transactions.delete(&t.id).unwrap();

    assert_eq!(app.entries.delete(&entry.id), Ok(()));
    assert!(app.entries.list_by_month(&apr.id).unwrap().is_empty());
    assert_eq!(app.entries.delete(&entry.id).unwrap_err(), EntryError::NotFound);

    let app = app_on(Store::failing_at("entry.transaction_count", 0));
    assert_eq!(
        app.entries.delete(&entry.id).unwrap_err(),
        EntryError::Repository("store is down".into())
    );
}

// ---------------------------------------------------------------------------
// Transactions
// ---------------------------------------------------------------------------

#[test]
fn a_negative_amount_fails_before_the_store_is_asked() {
    let app = app();
    assert_eq!(
        app.transactions
            .create(EntityId::new(1), Money::new(-1), date("2026-01-10"), None)
            .unwrap_err(),
        TransactionError::InvalidAmount { value: -1 }
    );
    assert!(app.store.calls().is_empty());

    // It is the amount that fails, although the title is too long as well
    // and the entry is missing.
    assert_eq!(
        app.transactions
            .create(EntityId::new(1), Money::new(-1), date("2026-01-10"), Some("x".repeat(60)))
            .unwrap_err(),
        TransactionError::InvalidAmount { value: -1 }
    );
    assert!(app.store.calls().is_empty());
}

#[test]
fn a_title_of_fifty_characters_is_the_longest() {
    let app = app();
    let food = app.categories.create(name("food")).unwrap();
    let jan = app.months.create(month("2026-01"), None, true).unwrap();
    let entry = app.entries.create(jan.id, food.id, Money::new(10000), None).unwrap();
    app.store.forget_calls();

    assert_eq!(
        app.transactions
            .create(entry.id, Money::new(1), date("2026-01-10"), Some("t".repeat(51)))
            .unwrap_err(),
        TransactionError::TitleTooLong { length: 51, max: 50 }
    );
    assert!(app.store.calls().is_empty());

    let fifty = format!("  {}\n", "t".repeat(50));
    let t = app
        .transactions
        .create(entry.id, Money::new(1), date("2026-01-10"), Some(fifty))
        .unwrap();
    assert_eq!(t.title, Some("t".repeat(50)));

    let blank = app
        .transactions
        .create(entry.id, Money::new(1), date("2026-01-10"), Some("  ".into()))
        .unwrap();
    assert_eq!(blank.title, None);
}

#[test]
fn a_transaction_needs_its_entry() {
    let app = app();
    assert_eq!(
        app.transactions
            .create(EntityId::new(1), Money::new(0), date("2026-01-10"), None)
            .unwrap_err(),
        TransactionError::EntryNotFound
    );
    assert_eq!(app.store.calls(), vec!["entry.find_by_id"]);

    let app = app_on(Store::failing_at("entry.find_by_id", 0));
    assert_eq!(
        app.transactions
            .create(EntityId::new(1), Money::new(0), date("2026-01-10"), None)
            .unwrap_err(),
        TransactionError::Repository("Repository error: store is down".into())
    );
}

#[test]
fn transactions_are_updated_field_by_field() {
    let app = app();
    let food = app.categories.create(name("food")).unwrap();
    let rent = app.categories.create(name("rent")).unwrap();
    let may = app.months.create(month("2026-05"), None, true).unwrap();
    let on_food = app.entries.create(may.id, food.id, Money::new(10000), None).unwrap();
    let on_rent = app.entries.create(may.id, rent.id, Money::new(10000), None).unwrap();
    let t = app
        .transactions
        .create(on_food.id, Money::new(2500), date("2026-05-01"), Some("lunch".into()))
        .unwrap();

    let u = app
        .transactions
        .update(&t.id, None, Some(Money::new(4000)), None, FieldUpdate::Keep)
        .unwrap();
    assert_eq!((u.amount, u.date, u.title.as_deref()), (Money::new(4000), t.date, Some("lunch")));

    let u = app
        .transactions
        .update(&t.id, Some(on_rent.id), None, Some(date("2026-05-02")), FieldUpdate::Clear)
        .unwrap();
    assert_eq!((u.entry_id, u.date, u.title), (on_rent.id, date("2026-05-02"), None));

    let u = app
        .transactions
        .update(&t.id, None, None, None, FieldUpdate::SetTo("  dinner ".into()))
        .unwrap();
    assert_eq!(u.title.as_deref(), Some("dinner"));
    let u = app
        .transactions
        .update(&t.id, None, None, None, FieldUpdate::SetTo(" \t".into()))
        .unwrap();
    assert_eq!(u.title, None);

    assert_eq!(
        app.transactions
            .update(&EntityId::new(4), None, None, None, FieldUpdate::Keep)
            .unwrap_err(),
        TransactionError::NotFound
    );
}

#[test]
fn an_update_is_checked_entry_first_then_amount_then_title() {
    let app = app();
    let id = EntityId::new(1);
    let long = FieldUpdate::SetTo("x".repeat(51));

    assert_eq!(
        app.transactions
            .update(&id, Some(EntityId::new(2)), Some(Money::new(-1)), None, long.clone())
            .unwrap_err(),
        TransactionError::EntryNotFound
    );
    app.store.forget_calls();
    assert_eq!(
        app.transactions.update(&id, None, Some(Money::new(-1)), None, long.clone()).unwrap_err(),
        TransactionError::InvalidAmount { value: -1 }
    );
    assert_eq!(
        app.transactions.update(&id, None, Some(Money::new(1)), None, long).unwrap_err(),
        TransactionError::TitleTooLong { length: 51, max: 50 }
    );
    assert!(app.store.calls().is_empty());
}

#[test]
fn transactions_are_listed_latest_first_and_in_pages() {
    let app = app();
    let food = app.categories.create(name("food")).unwrap();
    let rent = app.categories.create(name("rent")).unwrap();
    let may = app.months.create(month("2026-05"), None, true).unwrap();
    let june = app.months.create(month("2026-06"), None, true).unwrap();
    let on_food = app.entries.create(may.id, food.id, Money::new(10000), None).unwrap();
    let on_rent = app.entries.create(may.id, rent.id, Money::new(10000), None).unwrap();
    let in_june = app.entries.create(june.id, food.id, Money::new(10000), None).unwrap();

    let mut make = |entry: EntityId, amount: i64, on: &str| {
        app.transactions.create(entry, Money::new(amount), date(on), None).unwrap()
    };
    make(on_food.id, 1, "2026-05-03");
    make(on_rent.id, 2, "2026-05-20");
    make(on_food.id, 3, "2026-05-03");
    make(on_food.id, 4, "2026-05-01");
    make(in_june.id, 5, "2026-06-01");

    let amounts = |ts: Vec<Transaction>| ts.iter().map(|t| t.amount.value()).collect::<Vec<_>>();
    assert_eq!(amounts(app.transactions.list_by_month(&may.id).unwrap()), vec![2, 3, 1, 4]);
    assert_eq!(amounts(app.transactions.list_by_month(&june.id).unwrap()), vec![5]);
    assert_eq!(amounts(app.transactions.list_by_entry(&on_food.id, 2, 0).unwrap()), vec![3, 1]);
    assert_eq!(amounts(app.transactions.list_by_entry(&on_food.id, 2, 2).unwrap()), vec![4]);
    assert_eq!(amounts(app.transactions.list_by_entry(&on_food.id, 2, 3).unwrap()), vec![]);
}

// ---------------------------------------------------------------------------
// Summaries
// ---------------------------------------------------------------------------

#[test]
fn end_to_end_summary_of_a_month() {
    let app = app();
    let food = app.categories.create(name("food")).unwrap();
    let jan = app.months.create(month("2026-01"), None, false).unwrap();
    let entry = app.entries.create(jan.id, food.id, Money::new(10000), day(15)).unwrap();

    let listed = app.entries.list_by_month(&jan.id).unwrap();
    assert_eq!(listed.len(), 1);
    assert_eq!(listed[0].due_day, day(15));

    app.transactions.create(entry.id, Money::new(5000), date("2026-01-10"), None).unwrap();

    let summary = app.summaries.get_month_summary(&jan.id).unwrap();
    assert_eq!(summary.month, month("2026-01"));
    assert_eq!(summary.total_budgeted, Money::new(10000));
    assert_eq!(summary.total_paid, Money::new(5000));
    assert_eq!(summary.remaining, Money::new(5000));
    assert_eq!(summary.categories.len(), 1);
    let line = &summary.categories[0];
    assert_eq!(line.entry_id, entry.id);
    assert_eq!(line.category.name.as_str(), "food");
    assert_eq!(line.budgeted, Money::new(10000));
    assert_eq!(line.paid, Money::new(5000));
    assert_eq!(line.remaining, Money::new(5000));
    assert_eq!(line.status, BudgetStatus::Underspent);
    assert_eq!(line.status.as_str(), "underspent");
}

#[test]
fn a_summary_has_one_line_per_entry_in_the_order_of_the_listing() {
    let app = app();
    let jan = app.months.create(month("2026-01"), None, true).unwrap();
    let plan: [(&str, i64, Option<DueDay>, &[i64], BudgetStatus); 6] = [
        ("rent", 1000, None, &[], BudgetStatus::Unpaid),
        ("food", 1000, day(20), &[200, 300], BudgetStatus::Underspent),
        ("car", 1000, day(20), &[1000], BudgetStatus::OnBudget),
        ("gym", 1000, day(3), &[1000, 500], BudgetStatus::Overspent),
        ("art", 0, None, &[], BudgetStatus::OnBudget),
        ("pets", 0, day(31), &[500], BudgetStatus::Overspent),
    ];
    for (n, budgeted, due, payments, _) in plan {
        let c = app.categories.create(name(n)).unwrap();
        let e = app.entries.create(jan.id, c.id, Money::new(budgeted), due).unwrap();
        for p in payments {
            app.transactions.create(e.id, Money::new(*p), date("2026-01-05"), None).unwrap();
        }
    }

    let summary = app.summaries.get_month_summary(&jan.id).unwrap();
    let names: Vec<&str> = summary.categories.iter().map(|c| c.category.name.as_str()).collect();
    assert_eq!(names, vec!["gym", "car", "food", "pets", "art", "rent"]);
    for line in &summary.categories {
        let (_, budgeted, _, payments, status) =
            plan.iter().find(|p| p.0 == line.category.name.as_str()).unwrap();
        let paid: i64 = payments.iter().sum();
        assert_eq!(line.budgeted.value(), *budgeted);
        assert_eq!(line.paid.value(), paid);
        assert_eq!(line.remaining.value(), budgeted - paid);
        assert_eq!(line.status, *status);
    }
    assert_eq!(summary.total_budgeted.value(), 4000);
    assert_eq!(summary.total_paid.value(), 3500);
    assert_eq!(summary.remaining.value(), 500);
}

#[test]
fn the_summary_of_a_month_without_entries_is_all_zero() {
    let app = app();
    let jan = app.months.create(month("2026-01"), None, true).unwrap();
    let summary = app.summaries.get_month_summary(&jan.id).unwrap();
    assert!(summary.categories.is_empty());
    assert_eq!(summary.total_budgeted, Money::new(0));
    assert_eq!(summary.total_paid, Money::new(0));
    assert_eq!(summary.remaining, Money::new(0));
}

#[test]
fn what_is_left_may_be_negative() {
    let app = app();
    let food = app.categories.create(name("food")).unwrap();
    let jan = app.months.create(month("2026-01"), None, true).unwrap();
    let entry = app.entries.create(jan.id, food.id, Money::new(100), None).unwrap();
    app.transactions.create(entry.id, Money::new(350), date("2026-01-10"), None).unwrap();
    let summary = app.summaries.get_month_summary(&jan.id).unwrap();
    assert_eq!(summary.remaining, Money::new(-250));
    assert_eq!(summary.categories[0].remaining, Money::new(-250));
    assert_eq!(summary.categories[0].status, BudgetStatus::Overspent);
}

#[test]
fn a_summary_fails_where_the_month_is_missing_or_the_store_fails() {
    let app = app();
    assert_eq!(
        app.summaries.get_month_summary(&EntityId::new(1)).unwrap_err(),
        MonthError::NotFound
    );

    let food = app.categories.create(name("food")).unwrap();
    let jan = app.months.create(month("2026-01"), None, true).unwrap();
    app.entries.create(jan.id, food.id, Money::new(100), None).unwrap();

    app.store.fail_at("transaction.sum_by_entry", 0);
    assert_eq!(
        app.summaries.get_month_summary(&jan.id).unwrap_err(),
        MonthError::Repository(
            "Failed to sum transactions: Repository error: store is down".into()
        )
    );
    app.store.fail_at("entry.list_by_month", 0);
    assert_eq!(
        app.summaries.get_month_summary(&jan.id).unwrap_err(),
        MonthError::Repository("Failed to list entries: Repository error: store is down".into())
    );
    app.store.fail_at("month.find_by_id", 0);
    assert_eq!(
        app.summaries.get_month_summary(&jan.id).unwrap_err(),
        MonthError::Repository("store is down".into())
    );
}

#[test]
fn the_second_parts_of_the_operations() {
    let app = app();
    let (jan, _, _) = january_with_two_entries(&app);

    // A month that is to stay empty comes back as it is, and the store is
    // not asked.
    let made_up = Month {
        id: EntityId::new(1),
        month: month("2030-01"),
        created_at: Timestamp::from_millis(5).unwrap(),
        updated_at: Timestamp::from_millis(6).unwrap(),
    };
    app.store.forget_calls();
    let back = app.months.copy_entries(made_up.clone(), Some(&jan.id), true).unwrap();
    assert_eq!((back.id, back.month, back.created_at), (made_up.id, made_up.month, made_up.created_at));
    assert!(app.store.calls().is_empty());

    // A copy into a month gives the month back.
    let feb = MonthRepository::create(&*app.store, NewMonth { month: month("2026-02") }).unwrap();
    let back = app.months.copy_entries(feb.clone(), None, false).unwrap();
    assert_eq!(back.id, feb.id);
    assert_eq!(app.entries.list_by_month(&feb.id).unwrap().len(), 2);

    // An entry that was counted with transactions is refused, and the
    // store is not asked.
    let entry = app.entries.list_by_month(&jan.id).unwrap().remove(0);
    app.store.forget_calls();
    assert_eq!(
        app.entries.delete_counted(&entry.id, 4).unwrap_err(),
        EntryError::HasTransactions { transaction_count: 4 }
    );
    assert!(app.store.calls().is_empty());
    assert_eq!(app.entries.delete_counted(&entry.id, 0), Ok(()));
    assert_eq!(app.entries.list_by_month(&jan.id).unwrap().len(), 1);

    // The summary of a month that was found is that of the month.
    let summary = app.summaries.summary_of(&jan.id, jan.month).unwrap();
    assert_eq!(summary.month, jan.month);
    assert_eq!(summary.categories.len(), 1);
    assert_eq!(summary.total_budgeted, Money::new(250000));
}

#[test]
fn a_summary_lists_the_entries_under_the_id_it_is_given() {
    let app = app();
    let (jan, _, _) = january_with_two_entries(&app);
    let feb = app.months.create(month("2026-02"), None, true).unwrap();

    let summary = app.summaries.summary_of(&jan.id, feb.month).unwrap();
    assert_eq!(summary.month, feb.month);
    assert_eq!(summary.categories.len(), 2);

    let summary = app.summaries.summary_of(&feb.id, jan.month).unwrap();
    assert_eq!(summary.month, jan.month);
    assert!(summary.categories.is_empty());
    assert_eq!(summary.total_budgeted, Money::new(0));
}

#[test]
fn a_summary_whose_totals_leave_the_range_is_a_failure() {
    let app = app();
    let jan = app.months.create(month("2026-01"), None, true).unwrap();
    for n in ["a", "b"] {
        let c = app.categories.create(name(n)).unwrap();
        app.entries.create(jan.id, c.id, Money::new(i64::MAX), None).unwrap();
    }
    assert_eq!(
        app.summaries.get_month_summary(&jan.id).unwrap_err(),
        MonthError::Repository("Month totals exceed the range of amounts".into())
    );
}
