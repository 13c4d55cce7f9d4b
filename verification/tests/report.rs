use yfinance_mcp::report::{metric_card, report_html, CandleRow, NewsItem, ReportData};

fn s(t: &str) -> String {
    t.to_string()
}

fn unknown_data() -> ReportData {
    let na = || s("N/A");
    ReportData {
        name: na(),
        sector: na(),
        industry: na(),
        exchange: na(),
        currency: na(),
        price: na(),
        change: na(),
        market_cap: na(),
        pe: na(),
        eps: na(),
        beta: na(),
        volume: na(),
        day_high: na(),
        day_low: na(),
        high_52w: na(),
        low_52w: na(),
        ma_50d: na(),
        ma_200d: na(),
        pt_high: na(),
        pt_mean: na(),
        pt_low: na(),
        strong_buy: na(),
        buy: na(),
        hold: na(),
        sell: na(),
        strong_sell: na(),
        news: vec![],
        candles: vec![],
    }
}

fn card(label: &str, value: &str, sub: Option<&str>) -> String {
    let mut c = format!(
        "<div class=\"bg-white rounded-xl shadow-sm p-4 border border-gray-100\">\n<p class=\"text-xs text-gray-400 uppercase tracking-wide\">{}</p>\n<p class=\"text-xl font-bold text-gray-900 mt-1\">{}</p>\n",
        label, value
    );
    if let Some(sub) = sub {
        c.push_str(&format!("<p class=\"text-xs text-gray-400 mt-1\">{}</p>\n", sub));
    }
    c.push_str("</div>\n");
    c
}

#[test]
fn metric_card_hides_empty_and_unknown_lines() {
    assert_eq!(metric_card("Volume", "123", ""), card("Volume", "123", None));
    assert_eq!(metric_card("Volume", "123", "N/A"), card("Volume", "123", None));
    assert_eq!(metric_card("Volume", "123", "EPS: 1.5"), card("Volume", "123", Some("EPS: 1.5")));
    assert_eq!(
        metric_card("Price", "1 USD", "+$1.00 (+1.00%)"),
        "<div class=\"bg-white rounded-xl shadow-sm p-4 border border-gray-100\">\n<p class=\"text-xs text-gray-400 uppercase tracking-wide\">Price</p>\n<p class=\"text-xl font-bold text-gray-900 mt-1\">1 USD</p>\n<p class=\"text-xs text-gray-400 mt-1\">+$1.00 (+1.00%)</p>\n</div>\n"
    );
}

const HEAD: &str = "<!DOCTYPE html>\n<html lang=\"en\">\n<head>\n<meta charset=\"UTF-8\">\n<meta name=\"viewport\" content=\"width=device-width, initial-scale=1.0\">\n<title>AAPL Stock Report</title>\n<script src=\"https://cdn.tailwindcss.com\"></script>\n</head>\n<body class=\"bg-gray-50\">\n<div class=\"max-w-5xl mx-auto p-6\">\n";
const TAIL: &str = "<p class=\"text-center text-xs text-gray-400 mt-8\">Generated by yfinance-mcp</p>\n</div>\n</body>\n</html>\n";

#[test]
fn report_with_nothing_known() {
    let d = unknown_data();
    let mut expected = String::from(HEAD);
    expected.push_str("<div class=\"bg-white rounded-xl shadow-sm p-6 mb-6 border border-gray-100\">\n<h1 class=\"text-3xl font-bold text-gray-900\">AAPL</h1>\n</div>\n");
    expected.push_str("<div class=\"grid grid-cols-2 md:grid-cols-4 gap-4 mb-6\">\n");
    expected.push_str(&card("Price", "N/A N/A", None));
    expected.push_str(&card("Market Cap", "N/A", Some("P/E: N/A")));
    expected.push_str(&card("52W Range", "N/A - N/A", Some("Beta: N/A")));
    expected.push_str(&card("Volume", "N/A", Some("EPS: N/A")));
    expected.push_str("</div>\n");
    expected.push_str("<div class=\"grid grid-cols-1 md:grid-cols-2 gap-6 mb-6\">\n");
    expected.push_str("<div class=\"bg-white rounded-xl shadow-sm p-6 border border-gray-100\">\n<h2 class=\"text-lg font-semibold text-gray-900 mb-4\">Technical Analysis</h2>\n<p class=\"text-gray-400 text-sm\">No technical data available</p>\n</div>\n");
    expected.push_str("<div class=\"bg-white rounded-xl shadow-sm p-6 border border-gray-100\">\n<h2 class=\"text-lg font-semibold text-gray-900 mb-4\">Analyst Consensus</h2>\n<p class=\"text-gray-400 text-sm\">No analyst data available</p>\n</div>\n");
    expected.push_str("</div>\n");
    expected.push_str("<div class=\"bg-white rounded-xl shadow-sm p-6 border border-gray-100 mb-6\">\n<h2 class=\"text-lg font-semibold text-gray-900 mb-4\">Recent News</h2>\n<p class=\"text-gray-400 text-sm\">No recent news available</p>\n</div>\n");
    expected.push_str("<div class=\"bg-white rounded-xl shadow-sm p-6 border border-gray-100\">\n<h2 class=\"text-lg font-semibold text-gray-900 mb-4\">Recent Price History</h2>\n<p class=\"text-gray-400 text-sm\">No price history available</p>\n</div>\n");
    expected.push_str(TAIL);
    assert_eq!(report_html("AAPL", &d), expected);
}

fn row(label: &str, class: &str, value: &str) -> String {
    format!(
        "<tr><td class=\"py-1 text-gray-500\">{}</td><td class=\"{}\">{}</td></tr>\n",
        label, class, value
    )
}

#[test]
fn report_with_everything_known() {
    let mut d = unknown_data();
    d.name = s("Apple Inc.");
    d.sector = s("Technology");
    d.industry = s("Consumer Electronics");
    d.exchange = s("NMS");
    d.currency = s("USD");
    d.price = s("190.50");
    d.change = s("+$1.50 (+0.79%)");
    d.market_cap = s("$2.95T");
    d.pe = s("29.50");
    d.eps = s("6.42");
    d.beta = s("1.29");
    d.volume = s("50000000");
    d.day_high = s("191");
    d.day_low = s("188");
    d.high_52w = s("199.62");
    d.low_52w = s("164.08");
    d.ma_50d = s("185.20");
    d.ma_200d = s("N/A");
    d.pt_high = s("250");
    d.pt_mean = s("210.50");
    d.pt_low = s("N/A");
    d.strong_buy = s("10");
    d.buy = s("20");
    d.hold = s("5");
    d.sell = s("N/A");
    d.strong_sell = s("0");
    d.news = vec![
        NewsItem {
            title: Some(s("Apple beats")),
            publisher: Some(s("Reuters")),
            link: Some(s("https://news/1")),
            published_at: Some(1_700_000_000_000),
        },
        NewsItem { title: None, publisher: Some(s("")), link: None, published_at: None },
    ];
    d.candles = vec![
        CandleRow {
            ts: Some(0),
            open: Some(s("1")),
            high: Some(s("2")),
            low: Some(s("0.5000")),
            close: Some(s("1.50")),
            volume: Some(s("100")),
        },
        CandleRow { ts: None, open: None, high: None, low: None, close: None, volume: None },
        CandleRow {
            ts: Some(86_400_000),
            open: Some(s("3")),
            high: Some(s("4")),
            low: Some(s("2")),
            close: Some(s("3.50")),
            volume: None,
        },
    ];
    let mut expected = String::from(HEAD);
    expected.push_str("<div class=\"bg-white rounded-xl shadow-sm p-6 mb-6 border border-gray-100\">\n<h1 class=\"text-3xl font-bold text-gray-900\">Apple Inc. (AAPL)</h1>\n");
    expected.push_str("<div class=\"flex flex-wrap gap-2 mt-2\">\n");
    expected.push_str("<span class=\"px-2 py-1 bg-blue-100 text-blue-700 text-xs font-medium rounded\">NMS</span>\n");
    expected.push_str("<span class=\"px-2 py-1 bg-green-100 text-green-700 text-xs font-medium rounded\">Technology</span>\n");
    expected.push_str("<span class=\"px-2 py-1 bg-purple-100 text-purple-700 text-xs font-medium rounded\">Consumer Electronics</span>\n");
    expected.push_str("</div>\n</div>\n");
    expected.push_str("<div class=\"grid grid-cols-2 md:grid-cols-4 gap-4 mb-6\">\n");
    expected.push_str(&card("Price", "190.50 USD", Some("+$1.50 (+0.79%)")));
    expected.push_str(&card("Market Cap", "$2.95T", Some("P/E: 29.50")));
    expected.push_str(&card("52W Range", "164.08 - 199.62", Some("Beta: 1.29")));
    expected.push_str(&card("Volume", "50000000", Some("EPS: 6.42")));
    expected.push_str("</div>\n");
    expected.push_str("<div class=\"grid grid-cols-1 md:grid-cols-2 gap-6 mb-6\">\n");
    expected.push_str("<div class=\"bg-white rounded-xl shadow-sm p-6 border border-gray-100\">\n<h2 class=\"text-lg font-semibold text-gray-900 mb-4\">Technical Analysis</h2>\n<table class=\"w-full text-sm\">\n<tbody>\n");
    expected.push_str(&row("50-Day MA", "py-1 text-right font-medium", "185.20"));
    expected.push_str(&row("Day Range", "py-1 text-right font-medium", "188 - 191"));
    expected.push_str("</tbody>\n</table>\n</div>\n");
    expected.push_str("<div class=\"bg-white rounded-xl shadow-sm p-6 border border-gray-100\">\n<h2 class=\"text-lg font-semibold text-gray-900 mb-4\">Analyst Consensus</h2>\n<table class=\"w-full text-sm\">\n<tbody>\n");
    expected.push_str(&row("Target High", "py-1 text-right font-medium", "250"));
    expected.push_str(&row("Target Mean", "py-1 text-right font-medium", "210.50 USD"));
    expected.push_str("</tbody>\n</table>\n");
    expected.push_str("<h3 class=\"text-sm font-medium text-gray-700 mt-4 mb-2\">Recommendations</h3>\n<table class=\"w-full text-sm\">\n<tbody>\n");
    expected.push_str(&row("Strong Buy", "py-1 text-right font-medium text-green-600", "10"));
    expected.push_str(&row("Buy", "py-1 text-right font-medium text-green-500", "20"));
    expected.push_str(&row("Hold", "py-1 text-right font-medium text-yellow-500", "5"));
    expected.push_str(&row("Sell", "py-1 text-right font-medium text-red-500", "N/A"));
    expected.push_str(&row("Strong Sell", "py-1 text-right font-medium text-red-600", "0"));
    expected.push_str("</tbody>\n</table>\n</div>\n");
    expected.push_str("</div>\n");
    expected.push_str("<div class=\"bg-white rounded-xl shadow-sm p-6 border border-gray-100 mb-6\">\n<h2 class=\"text-lg font-semibold text-gray-900 mb-4\">Recent News</h2>\n");
    expected.push_str("<div class=\"py-3 border-b border-gray-100 last:border-0\">\n<a href=\"https://news/1\" target=\"_blank\" class=\"text-blue-600 hover:text-blue-800 font-medium\">Apple beats</a>\n<div class=\"flex gap-3 text-xs text-gray-400 mt-1\">\n<span>Reuters</span>\n<span>2023-11-14</span>\n</div>\n</div>\n");
    expected.push_str("<div class=\"py-3 border-b border-gray-100 last:border-0\">\n<span class=\"font-medium\">Untitled</span>\n<div class=\"flex gap-3 text-xs text-gray-400 mt-1\">\n<span></span>\n</div>\n</div>\n");
    expected.push_str("</div>\n");
    expected.push_str("<div class=\"bg-white rounded-xl shadow-sm p-6 border border-gray-100\">\n<h2 class=\"text-lg font-semibold text-gray-900 mb-4\">Recent Price History</h2>\n<div class=\"overflow-x-auto\">\n<table class=\"w-full text-sm\">\n<thead>\n<tr class=\"text-left text-gray-500 border-b\">\n<th class=\"py-2 pr-4\">Date</th><th class=\"py-2 pr-4 text-right\">Open</th><th class=\"py-2 pr-4 text-right\">High</th><th class=\"py-2 pr-4 text-right\">Low</th><th class=\"py-2 pr-4 text-right\">Close</th><th class=\"py-2 pr-4 text-right\">Volume</th>\n</tr>\n</thead>\n<tbody>\n");
    let line = |d: &str, o: &str, h: &str, l: &str, c: &str, v: &str| {
        format!("<tr class=\"border-b border-gray-50 hover:bg-gray-50\">\n<td class=\"py-2 pr-4 whitespace-nowrap\">{}</td>\n<td class=\"py-2 pr-4 text-right\">{}</td>\n<td class=\"py-2 pr-4 text-right\">{}</td>\n<td class=\"py-2 pr-4 text-right\">{}</td>\n<td class=\"py-2 pr-4 text-right font-medium\">{}</td>\n<td class=\"py-2 pr-4 text-right text-gray-500\">{}</td>\n</tr>\n", d, o, h, l, c, v)
    };
    expected.push_str(&line("1970-01-02", "3", "4", "2", "3.50", ""));
    expected.push_str(&line("1970-01-01", "", "", "", "", ""));
    expected.push_str(&line("1970-01-01", "1", "2", "0.5000", "1.50", "100"));
    expected.push_str("</tbody>\n</table>\n</div>\n</div>\n");
    expected.push_str(TAIL);
    assert_eq!(report_html("AAPL", &d), expected);
}

#[test]
fn report_lists_ten_articles_and_thirty_candles() {
    let mut d = unknown_data();
    for i in 0..12 {
        d.news.push(NewsItem {
            title: Some(format!("story-{}", i)),
            publisher: None,
            link: None,
            published_at: None,
        });
    }
    for i in 0..40i64 {
        d.candles.push(CandleRow {
            ts: Some(i * 86_400_000),
            open: Some(format!("open-{}", i)),
            high: None,
            low: None,
            close: None,
            volume: None,
        });
    }
    let html = report_html("AAPL", &d);
    assert!(html.contains("story-9<"));
    assert!(!html.contains("story-10"));
    assert!(!html.contains("story-11"));
    assert!(html.contains("open-10<"));
    assert!(!html.contains("open-9<"));
    assert_eq!(html.matches("<tr class=\"border-b border-gray-50").count(), 30);
    let newest = html.find("open-39<").unwrap();
    let oldest = html.find("open-10<").unwrap();
    assert!(newest < oldest);
}

#[test]
fn header_badges_need_exchange_or_sector() {
    let mut d = unknown_data();
    d.industry = s("Software");
    let html = report_html("MSFT", &d);
    assert!(!html.contains("Software"));
    d.sector = s("Technology");
    let html = report_html("MSFT", &d);
    assert!(html.contains("bg-purple-100 text-purple-700 text-xs font-medium rounded\">Software</span>"));
    assert!(!html.contains("bg-blue-100"));
}
