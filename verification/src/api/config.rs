//! The configuration of the application, its defaults and its rules.
//!
//! Where the values come from (files, the environment) is not decided here.

use crate::text::{append_decimal, chars_of, decimal_digits, string_of};
use vstd::prelude::*;

verus! {

#[derive(Debug, Clone)]
pub struct AppConfig {
    pub server: ServerConfig,
    pub database: DatabaseConfig,
    pub currency: CurrencyConfig,
    pub cors: CorsConfig,
    pub ui: UiConfig,
}

#[derive(Debug, Clone)]
pub struct ServerConfig {
    pub host: String,
    pub port: u16,
}

#[derive(Debug, Clone)]
pub struct DatabaseConfig {
    pub url: String,
}

#[derive(Debug, Clone)]
pub struct CurrencyConfig {
    pub code: String,
    pub minor_unit_name: String,
    pub decimal_places: u8,
}

#[derive(Debug, Clone)]
pub struct CorsConfig {
    pub allowed_origins: Vec<String>,
}

#[derive(Debug, Clone)]
pub struct UiConfig {
    pub budget_bars: BudgetBarsConfig,
}

/// The percentages of a budget up to which its bar is green and yellow.
#[derive(Debug, Clone, Copy, PartialEq, Eq, Structural)]
pub struct BudgetBarsConfig {
    pub green_threshold: u8,
    pub yellow_threshold: u8,
}

/// A configuration that breaks a rule.
#[derive(Debug, Clone, PartialEq, Eq)]
pub enum ConfigError {
    Message(String),
}

pub fn default_host() -> (host: String)
    ensures
        host@ == "0.0.0.0"@,
{
    "0.0.0.0".to_owned()
}

pub fn default_port() -> (port: u16)
    ensures
        port == 3000,
{
    3000
}

pub fn default_db_url() -> (url: String)
    ensures
        url@ == "sqlite://data/budget.db"@,
{
    "sqlite://data/budget.db".to_owned()
}

pub fn default_currency_code() -> (code: String)
    ensures
        code@ == "PLN"@,
{
    "PLN".to_owned()
}

pub fn default_minor_unit_name() -> (name: String)
    ensures
        name@ == "grosz"@,
{
    "grosz".to_owned()
}

pub fn default_decimal_places() -> (places: u8)
    ensures
        places == 2,
{
    2
}

pub fn default_green_threshold() -> (threshold: u8)
    ensures
        threshold == 80,
{
    80
}

pub fn default_yellow_threshold() -> (threshold: u8)
    ensures
        threshold == 100,
{
    100
}

pub fn default_server() -> (server: ServerConfig)
    ensures
        server.host@ == "0.0.0.0"@,
        server.port == 3000,
{
    ServerConfig { host: default_host(), port: default_port() }
}

pub fn default_database() -> (database: DatabaseConfig)
    ensures
        database.url@ == "sqlite://data/budget.db"@,
{
    DatabaseConfig { url: default_db_url() }
}

pub fn default_currency() -> (currency: CurrencyConfig)
    ensures
        currency.code@ == "PLN"@,
        currency.minor_unit_name@ == "grosz"@,
        currency.decimal_places == 2,
{
    CurrencyConfig {
        code: default_currency_code(),
        minor_unit_name: default_minor_unit_name(),
        decimal_places: default_decimal_places(),
    }
}

pub fn default_cors() -> (cors: CorsConfig)
    ensures
        cors.allowed_origins@.len() == 0,
{
    CorsConfig { allowed_origins: Vec::new() }
}

pub fn default_budget_bars() -> (bars: BudgetBarsConfig)
    ensures
        bars == (BudgetBarsConfig { green_threshold: 80, yellow_threshold: 100 }),
        threshold_problem(bars) is None,
{
    BudgetBarsConfig {
        green_threshold: default_green_threshold(),
        yellow_threshold: default_yellow_threshold(),
    }
}

pub fn default_ui() -> (ui: UiConfig)
    ensures
        ui.budget_bars == (BudgetBarsConfig { green_threshold: 80, yellow_threshold: 100 }),
{
    UiConfig { budget_bars: default_budget_bars() }
}

/// The rule that the thresholds of the budget bars break, if they break one:
/// both have to be above zero, and green below yellow.
pub open spec fn threshold_problem(bars: BudgetBarsConfig) -> Option<Seq<char>> {
    if bars.green_threshold == 0 {
        Some("ui.budget_bars.green_threshold must be greater than 0"@)
    } else if bars.yellow_threshold == 0 {
        Some("ui.budget_bars.yellow_threshold must be greater than 0"@)
    } else if bars.green_threshold >= bars.yellow_threshold {
        Some(
            "ui.budget_bars.green_threshold ("@ + decimal_digits(bars.green_threshold as nat)
                + ") must be less than yellow_threshold ("@ + decimal_digits(
                bars.yellow_threshold as nat,
            ) + ")"@,
        )
    } else {
        None
    }
}

impl AppConfig {
    /// The configuration in which every value has its default.
    pub fn defaults() -> (config: Self)
        ensures
            threshold_problem(config.ui.budget_bars) is None,
            config.server.port == 3000,
            config.cors.allowed_origins@.len() == 0,
    {
        AppConfig {
            server: default_server(),
            database: default_database(),
            currency: default_currency(),
            cors: default_cors(),
            ui: default_ui(),
        }
    }

    /// Accepts the configurations whose thresholds break no rule.
    pub fn validate(&self) -> (r: Result<(), ConfigError>)
        ensures
            match threshold_problem(self.ui.budget_bars) {
                Some(problem) => r matches Err(ConfigError::Message(text)) && text@ == problem,
                None => r is Ok,
            },
    {
        let bars = &self.ui.budget_bars;
        if bars.green_threshold == 0 {
            return Err(
                ConfigError::Message(
                    "ui.budget_bars.green_threshold must be greater than 0".to_owned(),
                ),
            );
        }
        if bars.yellow_threshold == 0 {
            return Err(
                ConfigError::Message(
                    "ui.budget_bars.yellow_threshold must be greater than 0".to_owned(),
                ),
            );
        }
        if bars.green_threshold >= bars.yellow_threshold {
            let mut text = "ui.budget_bars.green_threshold (".to_owned();
            append_decimal(&mut text, bars.green_threshold as u64);
            text.append(") must be less than yellow_threshold (");
            append_decimal(&mut text, bars.yellow_threshold as u64);
            text.append(")");
            return Err(ConfigError::Message(text));
        }
        Ok(())
    }
}

// ---------------------------------------------------------------------------
// Flat keys
// ---------------------------------------------------------------------------

/// The sections of the configuration, in the order in which a flat key is
/// tried against them.
pub open spec fn sections() -> Seq<Seq<char>> {
    seq!["server"@, "database"@, "currency"@, "cors"@, "ui"@]
}

/// `key` is the name of `section`, an underscore, and more.
pub open spec fn is_in_section(key: Seq<char>, section: Seq<char>) -> bool {
    key.len() > section.len() && key.take(section.len() as int) == section && key[section.len() as int]
        == '_'
}

/// What follows the name of `section` and the underscore in `key`.
pub open spec fn field_in_section(key: Seq<char>, section: Seq<char>) -> Seq<char> {
    key.skip(section.len() as int + 1)
}

/// The section and the field that a flat key such as `server_host` names:
/// the first section whose name, followed by an underscore, begins the key,
/// and what follows. `None` for a key of no section.
pub open spec fn flat_key_parts(key: Seq<char>) -> Option<(Seq<char>, Seq<char>)> {
    flat_key_parts_from(key, 0)
}

pub open spec fn flat_key_parts_from(key: Seq<char>, first: int) -> Option<(Seq<char>, Seq<char>)>
    decreases sections().len() - first,
{
    if first < 0 || first >= sections().len() {
        None
    } else if is_in_section(key, sections()[first]) {
        Some((sections()[first], field_in_section(key, sections()[first])))
    } else {
        flat_key_parts_from(key, first + 1)
    }
}

/// Whether `key` is the name `section`, an underscore, and more.
fn key_in_section(key: &Vec<char>, section: &str) -> (r: bool)
    ensures
        r == is_in_section(key@, section@),
{
    let name = chars_of(section);
    let n = name.len();
    if key.len() <= n {
        return false;
    }
    let mut i: usize = 0;
    while i < n
        invariant
            i <= n == name@.len() < key@.len(),
            name@ == section@,
            forall|k: int| 0 <= k < i ==> key@[k] == name@[k],
        decreases n - i,
    {
        if key[i] != name[i] {
            assert(key@.take(n as int)[i as int] != section@[i as int]);
            return false;
        }
        i = i + 1;
    }
    assert(key@.take(n as int) =~= section@);
    key[n] == '_'
}

/// The section and the field that a flat key names.
pub fn split_flat_key(key: &str) -> (r: Option<(String, String)>)
    ensures
        match flat_key_parts(key@) {
            Some(parts) => r matches Some(found) && found.0@ == parts.0 && found.1@ == parts.1,
            None => r is None,
        },
{
    let chars = chars_of(key);
    let names: [&str; 5] = ["server", "database", "currency", "cors", "ui"];
    let mut i: usize = 0;
    while i < 5
        invariant
            i <= 5,
            chars@ == key@,
            names@ == seq!["server", "database", "currency", "cors", "ui"],
            flat_key_parts(key@) == flat_key_parts_from(key@, i as int),
        decreases 5 - i,
    {
        let section = names[i];
        assert(section@ == sections()[i as int]);
        if key_in_section(&chars, section) {
            let n = section.unicode_len();
            let end = chars.len();
            let field = string_of(&chars, n + 1, end);
            assert(chars@.subrange(n + 1, chars@.len() as int) =~= field_in_section(
                key@,
                section@,
            ));
            return Some((section.to_owned(), field));
        }
        i = i + 1;
    }
    None
}

} // verus!
