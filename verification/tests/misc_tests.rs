use yfinance::analysis::{recommendation_rows, upgrade_rows, RecommendationNode, UpgradeNode};
use yfinance::domain::node_key_name;
use yfinance::esg::{collect_involvement, EsgFlags};
use yfinance::fundamentals::{distinct_ascending, metric_of_key, strip_prefix, FundamentalsKind};
use yfinance::holders::{humanize, insider_roster_row, insider_transaction, raw_str_date};
use yfinance::info::info_text;
use yfinance::json::{module_string, Json, JsonNumber};
use yfinance::lookup::LookupType;
use yfinance::options::sorted_expirations;
use yfinance::repair::RepairReport;
use yfinance::test_fixtures::{fixture_path, safe_label};
use yfinance::wire::{from_raw_i64, RawNum};

#[test]
fn recommendation_trend_rows() {
    let node = RecommendationNode {
        period: Some("0m".into()),
        strong_buy: Some(5),
        buy: Some(10),
        hold: Some(3),
        sell: Some(1),
        strong_sell: Some(0),
    };
    let rows = recommendation_rows(Some(vec![node]));
    assert_eq!(rows.len(), 1);
    assert_eq!(rows[0].period, "0m");
    assert_eq!(rows[0].buy, Some(10));
    assert_eq!(rows[0].strong_sell, Some(0));
    assert!(recommendation_rows(None).is_empty());
}

#[test]
fn recommendation_counts_outside_u32_are_dropped() {
    let node = RecommendationNode {
        period: None,
        strong_buy: Some(-1),
        buy: Some(5_000_000_000),
        hold: None,
        sell: Some(4_294_967_295),
        strong_sell: Some(0),
    };
    let rows = recommendation_rows(Some(vec![node]));
    assert_eq!(rows[0].period, "");
    assert_eq!(rows[0].strong_buy, None);
    assert_eq!(rows[0].buy, None);
    assert_eq!(rows[0].sell, Some(u32::MAX));
}

fn upgrade(ts: i64, firm: &str) -> UpgradeNode {
    UpgradeNode {
        epoch_grade_date: Some(ts),
        firm: Some(firm.to_string()),
        to_grade: Some("Buy".into()),
        from_grade: Some("Hold".into()),
        action: Some("up".into()),
        grade_change: None,
    }
}

#[test]
fn upgrades_come_oldest_first() {
    let rows = upgrade_rows(Some(vec![upgrade(300, "C"), upgrade(100, "A"), upgrade(200, "B")]));
    let ts: Vec<i64> = rows.iter().map(|r| r.timestamp).collect();
    assert_eq!(ts, vec![100, 200, 300]);
    assert_eq!(rows[0].firm.as_deref(), Some("A"));
    assert!(upgrade_rows(None).is_empty());
}

#[test]
fn equal_upgrade_dates_keep_reply_order() {
    let rows = upgrade_rows(Some(vec![upgrade(5, "X"), upgrade(1, "Y"), upgrade(5, "Z")]));
    let firms: Vec<&str> = rows.iter().map(|r| r.firm.as_deref().unwrap()).collect();
    assert_eq!(firms, vec!["Y", "X", "Z"]);
}

#[test]
fn esg_involvement_lists_flagged_categories() {
    let flags = EsgFlags {
        tobacco: Some(true),
        thermal_coal: Some(true),
        gambling: Some(false),
        ..EsgFlags::default()
    };
    let inv = collect_involvement(&flags);
    let cats: Vec<&str> = inv.iter().map(|i| i.category.as_str()).collect();
    assert_eq!(cats, vec!["thermal_coal", "tobacco"]);
    assert!(collect_involvement(&EsgFlags::default()).is_empty());
}

#[test]
fn holder_labels() {
    assert_eq!(humanize("insidersPercentHeld"), "Insiders");
    assert_eq!(humanize("institutionsFloatPercentHeld"), "Institutions Float");
    assert_eq!(humanize("institutionsCount"), "Institutions Count");
    assert_eq!(humanize("somethingElse"), "somethingElse");
}

#[test]
fn fundamentals_keys_and_prefixes() {
    assert!(FundamentalsKind::IncomeStatement.keys().contains(&"NetIncome"));
    assert!(FundamentalsKind::BalanceSheet.keys().contains(&"TotalAssets"));
    assert!(FundamentalsKind::CashFlow.keys().contains(&"FreeCashFlow"));
    assert_eq!(FundamentalsKind::default(), FundamentalsKind::IncomeStatement);
    assert_eq!(strip_prefix("annualNetIncome", "annual"), "NetIncome");
    assert_eq!(strip_prefix("quarterlyEBIT", "annual"), "quarterlyEBIT");
    assert_eq!(strip_prefix("ann", "annual"), "ann");
}

#[test]
fn fixture_naming() {
    assert_eq!(safe_label("apple inc/ß"), "apple_inc__");
    assert_eq!(fixture_path("fx", "quote_v7", "AAPL", "json"), "fx/quote_v7_AAPL.json");
    assert_eq!(fixture_path("fx/", "e", "S", "txt"), "fx/e_S.txt");
    assert_eq!(fixture_path("", "e", "S", "txt"), "e_S.txt");
}

#[test]
fn repair_report_any() {
    let r = RepairReport::default();
    assert!(!r.any());
    let r = RepairReport { zero_fills: 1, ..RepairReport::default() };
    assert!(r.any());
}

#[test]
fn raw_numbers() {
    assert_eq!(from_raw_i64(Some(RawNum { raw: Some(42) })), Some(42));
    assert_eq!(from_raw_i64(Some(RawNum { raw: None })), None);
    assert_eq!(from_raw_i64(None), None);
}

#[test]
fn lookup_type_names() {
    assert_eq!(LookupType::MutualFund.as_str(), "mutualfund");
    assert_eq!(LookupType::Cryptocurrency.as_str(), "cryptocurrency");
}

fn text_json(s: &str) -> Json {
    Json::Str(s.to_string())
}

#[test]
fn module_text_reads_strings_and_raw_wrappers() {
    let price = Json::Object(vec![
        ("longName".to_string(), text_json("Apple Inc.")),
        (
            "currency".to_string(),
            Json::Object(vec![
                ("raw".to_string(), text_json("USD")),
                ("fmt".to_string(), text_json("USD")),
            ]),
        ),
        ("marketCap".to_string(), Json::Number(JsonNumber { as_u64: Some(3), as_i64: Some(3) })),
        ("shortName".to_string(), Json::Null),
    ]);
    let modules = vec![("price".to_string(), price)];
    assert_eq!(module_string(&modules, "price", "longName").as_deref(), Some("Apple Inc."));
    assert_eq!(module_string(&modules, "price", "currency").as_deref(), Some("USD"));
    assert_eq!(module_string(&modules, "price", "marketCap"), None);
    assert_eq!(module_string(&modules, "price", "shortName"), None);
    assert_eq!(module_string(&modules, "quoteType", "longName"), None);
}

#[test]
fn insider_records_read_their_text_fields() {
    let tx = vec![
        ("filerName".to_string(), text_json("COOK TIMOTHY D")),
        ("filerRelation".to_string(), text_json("Chief Executive Officer")),
        (
            "startDate".to_string(),
            Json::Object(vec![
                ("raw".to_string(), Json::Number(JsonNumber { as_u64: Some(1_700_000_000), as_i64: Some(1_700_000_000) })),
                ("fmt".to_string(), text_json("2023-11-14")),
            ]),
        ),
        ("transactionText".to_string(), text_json("Sale at price 190.00")),
        ("ownership".to_string(), Json::Null),
    ];
    let t = insider_transaction(&tx, Some(100), None);
    assert_eq!(t.name, "COOK TIMOTHY D");
    assert_eq!(t.relation.as_deref(), Some("Chief Executive Officer"));
    assert_eq!(t.start_date.as_deref(), Some("2023-11-14"));
    assert_eq!(t.transaction.as_deref(), Some("Sale at price 190.00"));
    assert_eq!(t.ownership, None);
    assert_eq!((t.shares, t.value), (Some(100), None));

    let row = vec![("positionDirectDate".to_string(), text_json("2024-01-02"))];
    let r = insider_roster_row(&row, None);
    assert_eq!(r.name, "");
    assert_eq!(r.position_date.as_deref(), Some("2024-01-02"));
}

#[test]
fn report_dates_read_fmt_or_plain_text() {
    let wrapped = Json::Object(vec![
        ("raw".to_string(), Json::Number(JsonNumber { as_u64: Some(1_700_000_000), as_i64: Some(1_700_000_000) })),
        ("fmt".to_string(), text_json("2023-11-14")),
    ]);
    assert_eq!(raw_str_date(Some(&wrapped)).as_deref(), Some("2023-11-14"));
    assert_eq!(raw_str_date(Some(&text_json("2024-03-31"))).as_deref(), Some("2024-03-31"));
    let raw_only = Json::Object(vec![(
        "raw".to_string(),
        Json::Number(JsonNumber { as_u64: Some(5), as_i64: Some(5) }),
    )]);
    assert_eq!(raw_str_date(Some(&raw_only)), None);
    assert_eq!(raw_str_date(Some(&Json::Null)), None);
    assert_eq!(raw_str_date(None), None);
}

#[test]
fn taxonomy_nodes_are_named_by_key_then_symbol() {
    let by_key = vec![
        ("key".to_string(), text_json("software-infrastructure")),
        ("symbol".to_string(), text_json("MSFT")),
        ("name".to_string(), text_json("Software - Infrastructure")),
    ];
    assert_eq!(
        node_key_name(&by_key),
        ("software-infrastructure".to_string(), Some("Software - Infrastructure".to_string()))
    );
    let by_symbol = vec![("symbol".to_string(), text_json("MSFT"))];
    assert_eq!(node_key_name(&by_symbol), ("MSFT".to_string(), None));
    let odd_key = vec![("key".to_string(), Json::Null), ("symbol".to_string(), text_json("MSFT"))];
    assert_eq!(node_key_name(&odd_key), (String::new(), None));
}

#[test]
fn info_text_falls_back_module_by_module() {
    let modules = vec![
        (
            "price".to_string(),
            Json::Object(vec![
                ("longName".to_string(), text_json("Apple Inc.")),
                ("shortName".to_string(), Json::Null),
            ]),
        ),
        (
            "quoteType".to_string(),
            Json::Object(vec![
                ("quoteType".to_string(), text_json("EQUITY")),
                ("longName".to_string(), text_json("Apple Incorporated")),
                ("shortName".to_string(), text_json("Apple")),
            ]),
        ),
        (
            "summaryProfile".to_string(),
            Json::Object(vec![("sector".to_string(), text_json("Technology"))]),
        ),
        (
            "summaryDetail".to_string(),
            Json::Object(vec![(
                "currency".to_string(),
                Json::Object(vec![("raw".to_string(), text_json("USD"))]),
            )]),
        ),
    ];
    let t = info_text(&modules);
    assert_eq!(t.quote_type.as_deref(), Some("EQUITY"));
    assert_eq!(t.long_name.as_deref(), Some("Apple Inc."));
    assert_eq!(t.short_name.as_deref(), Some("Apple"));
    assert_eq!(t.sector.as_deref(), Some("Technology"));
    assert_eq!(t.industry, None);
    assert_eq!(t.currency.as_deref(), Some("USD"));
}

#[test]
fn expirations_come_in_ascending_order() {
    assert_eq!(
        sorted_expirations(vec![1_718_928_000, 1_700_000_000, 1_718_928_000, 1_705_000_000]),
        vec![1_700_000_000, 1_705_000_000, 1_718_928_000, 1_718_928_000]
    );
    assert!(sorted_expirations(Vec::new()).is_empty());
}

#[test]
fn timeseries_members_name_their_metric() {
    assert_eq!(metric_of_key("annualTotalRevenue", false), Some("TotalRevenue"));
    assert_eq!(metric_of_key("quarterlyTotalRevenue", true), Some("TotalRevenue"));
    assert_eq!(metric_of_key("annualTotalRevenue", true), Some("annualTotalRevenue"));
    assert_eq!(metric_of_key("meta", false), None);
    assert_eq!(metric_of_key("timestamp", true), None);
}

#[test]
fn statement_dates_are_distinct_and_oldest_first() {
    assert_eq!(distinct_ascending(vec![738_900, 738_500, 738_900, 738_700, 738_500]), vec![738_500, 738_700, 738_900]);
    assert!(distinct_ascending(Vec::new()).is_empty());
}
