use yfinance_mcp::markdown::JsonField;
use yfinance_mcp::request::{Interval, Range};
use yfinance_mcp::tools::{
    action_row, count_cell, counted_title, download_markdown, fmt_action_date, holder_row,
    news_row, option_chain_title, recommendation_row, search_row, shares_cell, tool_title,
    CorporateAction, CorporateActionsArgs, DownloadArgs, DownloadLine, DownloadSection,
    HistoryArgs, OptionChainArgs, ReportArgs, StatementArgs, report_file_name, report_symbol_ok, report_url,
};

fn s(t: &str) -> String {
    t.to_string()
}

#[test]
fn titles() {
    assert_eq!(tool_title("Quote", "AAPL"), "Quote: AAPL");
    assert_eq!(counted_title("Historical Data", "AAPL", 21, "candles"), "Historical Data: AAPL (21 candles)");
    assert_eq!(counted_title("News", "MSFT", 0, "articles"), "News: MSFT (0 articles)");
    assert_eq!(option_chain_title("TSLA", 12, 7), "Option Chain: TSLA (12 calls, 7 puts)");
}

#[test]
fn statement_titles() {
    let annual = StatementArgs { symbol: s("AAPL"), quarterly: None };
    assert!(!annual.is_quarterly());
    assert_eq!(annual.title("Income Statement"), "Income Statement: AAPL (annual)");
    let explicit = StatementArgs { symbol: s("AAPL"), quarterly: Some(false) };
    assert_eq!(explicit.title("Cash Flow"), "Cash Flow: AAPL (annual)");
    let quarterly = StatementArgs { symbol: s("IBM"), quarterly: Some(true) };
    assert!(quarterly.is_quarterly());
    assert_eq!(quarterly.title("Balance Sheet"), "Balance Sheet: IBM (quarterly)");
}

#[test]
fn history_arguments() {
    let args = HistoryArgs { symbol: s("AAPL"), range: None, interval: None, prepost: None };
    assert_eq!(args.range_choice(), Range::M6);
    assert_eq!(args.interval_choice(), Some(Interval::D1));
    assert!(!args.include_prepost());
    let args = HistoryArgs {
        symbol: s("AAPL"),
        range: Some(s("5y")),
        interval: Some(s("2h")),
        prepost: Some(true),
    };
    assert_eq!(args.range_choice(), Range::Y5);
    assert_eq!(args.interval_choice(), None);
    assert!(args.include_prepost());
}

#[test]
fn corporate_actions_default_to_all_history() {
    assert_eq!(CorporateActionsArgs { symbol: s("KO"), range: None }.range_choice(), Range::Max);
    assert_eq!(CorporateActionsArgs { symbol: s("KO"), range: Some(s("1y")) }.range_choice(), Range::Y1);
    assert_eq!(CorporateActionsArgs { symbol: s("KO"), range: Some(s("x")) }.range_choice(), Range::M6);
}

#[test]
fn download_arguments() {
    let args = DownloadArgs { symbols: vec![s("A")], range: None, interval: Some(s("bad")) };
    assert_eq!(args.range_choice(), Range::M6);
    assert_eq!(args.interval_choice(), Interval::D1);
    let args = DownloadArgs { symbols: vec![], range: Some(s("ytd")), interval: Some(s("1wk")) };
    assert_eq!(args.range_choice(), Range::Ytd);
    assert_eq!(args.interval_choice(), Interval::W1);
}

#[test]
fn option_chain_expiration() {
    let args = OptionChainArgs { symbol: s("AAPL"), date: Some(s("2024-01-19")) };
    assert_eq!(args.expiration(), Some(1_705_622_400));
    let args = OptionChainArgs { symbol: s("AAPL"), date: None };
    assert_eq!(args.expiration(), None);
}

#[test]
fn action_rows() {
    let dividend = CorporateAction::Dividend { date: s("2024-02-09"), amount: s("0.24") };
    assert_eq!(action_row(&dividend), vec![s("Dividend"), s("2024-02-09"), s("0.24")]);
    let split = CorporateAction::Split { date: s("2020-08-31"), numerator: 4, denominator: 1 };
    assert_eq!(action_row(&split), vec![s("Split"), s("2020-08-31"), s("4:1")]);
    let gain = CorporateAction::CapitalGain { date: s("2023-12-01"), gain: s("1.5") };
    assert_eq!(action_row(&gain), vec![s("Capital Gain"), s("2023-12-01"), s("1.5")]);
    assert_eq!(action_row(&CorporateAction::Other), vec![s("Unknown"), s("N/A"), s("N/A")]);
    assert_eq!(fmt_action_date(&CorporateAction::Other), "N/A");
    assert_eq!(fmt_action_date(&split), "2020-08-31");
}

#[test]
fn count_and_share_cells() {
    assert_eq!(count_cell(Some(12)), "12");
    assert_eq!(count_cell(None), "");
    assert_eq!(shares_cell(Some(1_000_000)), "1000000");
    assert_eq!(shares_cell(None), "N/A");
}

#[test]
fn table_rows() {
    assert_eq!(
        recommendation_row(s("0m"), Some(5), Some(10), None, Some(0), None),
        vec![s("0m"), s("5"), s("10"), s(""), s("0"), s("")]
    );
    assert_eq!(
        holder_row(s("Vanguard"), None, s("0.08"), s("null"), s("2024-03-31")),
        vec![s("Vanguard"), s("N/A"), s("0.08"), s("null"), s("2024-03-31")]
    );
    assert_eq!(
        news_row(s("Title"), None, s("2024-01-01 00:00:00 UTC"), Some(s("https://x"))),
        vec![s("Title"), s(""), s("2024-01-01 00:00:00 UTC"), s("https://x")]
    );
    assert_eq!(
        search_row(s("AAPL"), Some(s("Apple Inc.")), s("\"NASDAQ\""), s("\"EQUITY\"")),
        vec![s("AAPL"), s("Apple Inc."), s("\"NASDAQ\""), s("\"EQUITY\"")]
    );
}

#[test]
fn download_answer() {
    let sections = vec![
        DownloadSection {
            symbol: s("AAPL"),
            lines: vec![DownloadLine {
                ts: s("1"),
                open: s("2"),
                high: s("3"),
                low: s("4"),
                close: s("5"),
                volume: s("6"),
            }],
        },
        DownloadSection { symbol: s("MSFT"), lines: vec![] },
    ];
    assert_eq!(
        download_markdown("{}", &[], &sections),
        "## Multi-Symbol Download\n\n```json\n{}\n```\n\n### AAPL\n\n| Date | Open | High | Low | Close | Volume |\n|------|------|------|------|-------|--------|\n| 1 | 2 | 3 | 4 | 5 | 6 |\n\n### MSFT\n\n| Date | Open | High | Low | Close | Volume |\n|------|------|------|------|-------|--------|\n"
    );
    assert_eq!(
        download_markdown("[]", &[], &vec![]),
        "## Multi-Symbol Download\n\n```json\n[]\n```\n\n| Field | Value |\n|---|---|\n"
    );
    let fields = vec![JsonField { key: s("0"), value: s("{}") }];
    assert_eq!(
        download_markdown("[{}]", &fields, &vec![]),
        "## Multi-Symbol Download\n\n```json\n[{}]\n```\n\n| Field | Value |\n|---|---|\n| 0 | {} |\n"
    );
}

#[test]
fn report_file_and_url() {
    assert_eq!(report_file_name("AAPL"), "AAPL.html");
    assert!(report_symbol_ok("BRK-B"));
    assert!(!report_symbol_ok(""));
    assert!(!report_symbol_ok("../etc"));
    assert!(!report_symbol_ok("a\\b"));
    assert_eq!(report_url("http://localhost:8080", "AAPL.html"), "http://localhost:8080/reports/AAPL.html");
    assert_eq!(ReportArgs { symbol: s("AAPL"), range: None }.range_choice(), Range::M6);
    assert_eq!(ReportArgs { symbol: s("AAPL"), range: Some(s("1y")) }.range_choice(), Range::Y1);
}
