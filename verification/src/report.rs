//! The HTML stock report: header, key metrics, technical and analyst cards,
//! recent news and recent price history.

use vstd::prelude::*;
use crate::clock::{fmt_ts_ms, ts_display};
use crate::text::{
    contains_text, lemma_contains_left, lemma_contains_middle, lemma_contains_refl,
    lemma_contains_right, lemma_contains_trans, lemma_occurs_before_in, occurs_before, text_eq,
};

verus! {

/// One news article as the report reads it.
pub struct NewsItem {
    /// Headline, when the article has one.
    pub title: Option<String>,
    /// Publisher, when known.
    pub publisher: Option<String>,
    /// Link to the article, when known.
    pub link: Option<String>,
    /// Publication time in milliseconds since the epoch, when known.
    pub published_at: Option<i64>,
}

/// One daily candle as the report reads it; prices and volume already
/// formatted.
pub struct CandleRow {
    /// Timestamp in milliseconds since the epoch, when known.
    pub ts: Option<i64>,
    pub open: Option<String>,
    pub high: Option<String>,
    pub low: Option<String>,
    pub close: Option<String>,
    pub volume: Option<String>,
}

/// The values the report shows, already formatted; `N/A` marks a value that
/// is not known.
pub struct ReportData {
    pub name: String,
    pub sector: String,
    pub industry: String,
    pub exchange: String,
    pub currency: String,
    pub price: String,
    pub change: String,
    pub market_cap: String,
    pub pe: String,
    pub eps: String,
    pub beta: String,
    pub volume: String,
    pub day_high: String,
    pub day_low: String,
    pub high_52w: String,
    pub low_52w: String,
    pub ma_50d: String,
    pub ma_200d: String,
    pub pt_high: String,
    pub pt_mean: String,
    pub pt_low: String,
    pub strong_buy: String,
    pub buy: String,
    pub hold: String,
    pub sell: String,
    pub strong_sell: String,
    /// Articles, most relevant first.
    pub news: Vec<NewsItem>,
    /// Candles, oldest first.
    pub candles: Vec<CandleRow>,
}

/// Whether a shown value is known (is not `N/A`).
pub open spec fn known(s: Seq<char>) -> bool {
    s != "N/A"@
}

fn is_known(s: &String) -> (r: bool)
    ensures
        r == known(s@),
{
    !text_eq(s.as_str(), "N/A")
}

/// A small card with a label, a large value and, unless it is empty or
/// `N/A`, a line beneath.
pub open spec fn metric_card_text(label: Seq<char>, value: Seq<char>, sub: Seq<char>) -> Seq<char> {
    let sub_html = if sub.len() == 0 || !known(sub) {
        Seq::empty()
    } else {
        "<p class=\"text-xs text-gray-400 mt-1\">"@ + sub + "</p>\n"@
    };
    "<div class=\"bg-white rounded-xl shadow-sm p-4 border border-gray-100\">\n"@
        + "<p class=\"text-xs text-gray-400 uppercase tracking-wide\">"@ + label + "</p>\n"@
        + "<p class=\"text-xl font-bold text-gray-900 mt-1\">"@ + value + "</p>\n"@ + sub_html
        + "</div>\n"@
}

/// A metric card: label, value, and the line beneath unless it is empty or `N/A`.
pub fn metric_card(label: &str, value: &str, sub: &str) -> (r: String)
    ensures
        r@ == metric_card_text(label@, value@, sub@),
{
    let mut out = String::new();
    out.append("<div class=\"bg-white rounded-xl shadow-sm p-4 border border-gray-100\">\n");
    out.append("<p class=\"text-xs text-gray-400 uppercase tracking-wide\">");
    out.append(label);
    out.append("</p>\n");
    out.append("<p class=\"text-xl font-bold text-gray-900 mt-1\">");
    out.append(value);
    out.append("</p>\n");
    if !(sub.unicode_len() == 0 || text_eq(sub, "N/A")) {
        out.append("<p class=\"text-xs text-gray-400 mt-1\">");
        out.append(sub);
        out.append("</p>\n");
    }
    out.append("</div>\n");
    assert(out@ =~= metric_card_text(label@, value@, sub@));
    out
}

/// A label/value line of a card's table.
pub open spec fn table_row_html(label: Seq<char>, value_class: Seq<char>, value: Seq<char>) -> Seq<
    char,
> {
    "<tr><td class=\"py-1 text-gray-500\">"@ + label + "</td><td class=\""@ + value_class + "\">"@
        + value + "</td></tr>\n"@
}

fn push_table_row(out: &mut String, label: &str, value_class: &str, value: &str)
    ensures
        final(out)@ == old(out)@ + table_row_html(label@, value_class@, value@),
{
    out.append("<tr><td class=\"py-1 text-gray-500\">");
    out.append(label);
    out.append("</td><td class=\"");
    out.append(value_class);
    out.append("\">");
    out.append(value);
    out.append("</td></tr>\n");
    assert(out@ =~= old(out)@ + table_row_html(label@, value_class@, value@));
}

/// Start of the document, up to the page container.
pub open spec fn document_head_html(symbol: Seq<char>) -> Seq<char> {
    "<!DOCTYPE html>\n<html lang=\"en\">\n<head>\n<meta charset=\"UTF-8\">\n"@
        + "<meta name=\"viewport\" content=\"width=device-width, initial-scale=1.0\">\n"@
        + "<title>"@ + symbol + " Stock Report</title>\n"@
        + "<script src=\"https://cdn.tailwindcss.com\"></script>\n"@
        + "</head>\n<body class=\"bg-gray-50\">\n"@ + "<div class=\"max-w-5xl mx-auto p-6\">\n"@
}

/// The heading shown for the instrument: `name (symbol)`, or the symbol alone
/// when the name is not known.
pub open spec fn display_name(symbol: Seq<char>, name: Seq<char>) -> Seq<char> {
    if known(name) {
        name + " ("@ + symbol + ")"@
    } else {
        symbol
    }
}

/// A coloured badge.
pub open spec fn badge_html(class: Seq<char>, text: Seq<char>) -> Seq<char> {
    "<span class=\"px-2 py-1 "@ + class + " text-xs font-medium rounded\">"@ + text
        + "</span>\n"@
}

/// The header card: heading and, when the exchange or the sector is known,
/// badges for the known ones of exchange, sector and industry.
pub open spec fn header_html(symbol: Seq<char>, d: ReportData) -> Seq<char> {
    let badges = if known(d.exchange@) || known(d.sector@) {
        "<div class=\"flex flex-wrap gap-2 mt-2\">\n"@ + (if known(d.exchange@) {
            badge_html("bg-blue-100 text-blue-700"@, d.exchange@)
        } else {
            Seq::empty()
        }) + (if known(d.sector@) {
            badge_html("bg-green-100 text-green-700"@, d.sector@)
        } else {
            Seq::empty()
        }) + (if known(d.industry@) {
            badge_html("bg-purple-100 text-purple-700"@, d.industry@)
        } else {
            Seq::empty()
        }) + "</div>\n"@
    } else {
        Seq::empty()
    };
    "<div class=\"bg-white rounded-xl shadow-sm p-6 mb-6 border border-gray-100\">\n"@
        + "<h1 class=\"text-3xl font-bold text-gray-900\">"@ + display_name(symbol, d.name@)
        + "</h1>\n"@ + badges + "</div>\n"@
}

fn push_badge(out: &mut String, class: &str, text: &str)
    ensures
        final(out)@ == old(out)@ + badge_html(class@, text@),
{
    out.append("<span class=\"px-2 py-1 ");
    out.append(class);
    out.append(" text-xs font-medium rounded\">");
    out.append(text);
    out.append("</span>\n");
    assert(out@ =~= old(out)@ + badge_html(class@, text@));
}

fn header_section(symbol: &str, d: &ReportData) -> (r: String)
    ensures
        r@ == header_html(symbol@, *d),
{
    let mut out = String::new();
    out.append("<div class=\"bg-white rounded-xl shadow-sm p-6 mb-6 border border-gray-100\">\n");
    out.append("<h1 class=\"text-3xl font-bold text-gray-900\">");
    if is_known(&d.name) {
        out.append(d.name.as_str());
        out.append(" (");
        out.append(symbol);
        out.append(")");
    } else {
        out.append(symbol);
    }
    out.append("</h1>\n");
    let ghost before_badges = out@;
    let exchange_known = is_known(&d.exchange);
    let sector_known = is_known(&d.sector);
    if exchange_known || sector_known {
        out.append("<div class=\"flex flex-wrap gap-2 mt-2\">\n");
        if exchange_known {
            push_badge(&mut out, "bg-blue-100 text-blue-700", d.exchange.as_str());
        }
        if sector_known {
            push_badge(&mut out, "bg-green-100 text-green-700", d.sector.as_str());
        }
        if is_known(&d.industry) {
            push_badge(&mut out, "bg-purple-100 text-purple-700", d.industry.as_str());
        }
        out.append("</div>\n");
    }
    out.append("</div>\n");
    assert(out@ =~= header_html(symbol@, *d));
    out
}


/// The grid of four metric cards: price, market cap, 52-week range, volume.
pub open spec fn metrics_html(d: ReportData) -> Seq<char> {
    "<div class=\"grid grid-cols-2 md:grid-cols-4 gap-4 mb-6\">\n"@
        + metric_card_text("Price"@, d.price@ + " "@ + d.currency@, d.change@)
        + metric_card_text("Market Cap"@, d.market_cap@, "P/E: "@ + d.pe@)
        + metric_card_text("52W Range"@, d.low_52w@ + " - "@ + d.high_52w@, "Beta: "@ + d.beta@)
        + metric_card_text("Volume"@, d.volume@, "EPS: "@ + d.eps@) + "</div>\n"@
}

fn concat3(a: &str, b: &str, c: &str) -> (r: String)
    ensures
        r@ == a@ + b@ + c@,
{
    let mut out = String::new();
    out.append(a);
    out.append(b);
    out.append(c);
    assert(out@ =~= a@ + b@ + c@);
    out
}

fn concat2(a: &str, b: &str) -> (r: String)
    ensures
        r@ == a@ + b@,
{
    let mut out = String::new();
    out.append(a);
    out.append(b);
    assert(out@ =~= a@ + b@);
    out
}

fn metrics_section(d: &ReportData) -> (r: String)
    ensures
        r@ == metrics_html(*d),
{
    let mut out = String::new();
    out.append("<div class=\"grid grid-cols-2 md:grid-cols-4 gap-4 mb-6\">\n");
    let price = concat3(d.price.as_str(), " ", d.currency.as_str());
    let card = metric_card("Price", price.as_str(), d.change.as_str());
    out.append(card.as_str());
    let pe = concat2("P/E: ", d.pe.as_str());
    let card = metric_card("Market Cap", d.market_cap.as_str(), pe.as_str());
    out.append(card.as_str());
    let range = concat3(d.low_52w.as_str(), " - ", d.high_52w.as_str());
    let beta = concat2("Beta: ", d.beta.as_str());
    let card = metric_card("52W Range", range.as_str(), beta.as_str());
    out.append(card.as_str());
    let eps = concat2("EPS: ", d.eps.as_str());
    let card = metric_card("Volume", d.volume.as_str(), eps.as_str());
    out.append(card.as_str());
    out.append("</div>\n");
    assert(out@ =~= metrics_html(*d));
    out
}

/// The technical card: moving averages and day range when either moving
/// average is known, else a note that there is no technical data.
pub open spec fn technical_html(d: ReportData) -> Seq<char> {
    let value_class = "py-1 text-right font-medium"@;
    let body = if known(d.ma_50d@) || known(d.ma_200d@) {
        "<table class=\"w-full text-sm\">\n<tbody>\n"@ + (if known(d.ma_50d@) {
            table_row_html("50-Day MA"@, value_class, d.ma_50d@)
        } else {
            Seq::empty()
        }) + (if known(d.ma_200d@) {
            table_row_html("200-Day MA"@, value_class, d.ma_200d@)
        } else {
            Seq::empty()
        }) + (if known(d.day_high@) {
            table_row_html("Day Range"@, value_class, d.day_low@ + " - "@ + d.day_high@)
        } else {
            Seq::empty()
        }) + "</tbody>\n</table>\n"@
    } else {
        "<p class=\"text-gray-400 text-sm\">No technical data available</p>\n"@
    };
    "<div class=\"bg-white rounded-xl shadow-sm p-6 border border-gray-100\">\n"@
        + "<h2 class=\"text-lg font-semibold text-gray-900 mb-4\">Technical Analysis</h2>\n"@ + body
        + "</div>\n"@
}

fn technical_section(d: &ReportData) -> (r: String)
    ensures
        r@ == technical_html(*d),
{
    let mut out = String::new();
    out.append("<div class=\"bg-white rounded-xl shadow-sm p-6 border border-gray-100\">\n");
    out.append("<h2 class=\"text-lg font-semibold text-gray-900 mb-4\">Technical Analysis</h2>\n");
    let ma_50d_known = is_known(&d.ma_50d);
    let ma_200d_known = is_known(&d.ma_200d);
    if ma_50d_known || ma_200d_known {
        out.append("<table class=\"w-full text-sm\">\n<tbody>\n");
        if ma_50d_known {
            push_table_row(&mut out, "50-Day MA", "py-1 text-right font-medium", d.ma_50d.as_str());
        }
        if ma_200d_known {
            push_table_row(
                &mut out,
                "200-Day MA",
                "py-1 text-right font-medium",
                d.ma_200d.as_str(),
            );
        }
        if is_known(&d.day_high) {
            let range = concat3(d.day_low.as_str(), " - ", d.day_high.as_str());
            push_table_row(&mut out, "Day Range", "py-1 text-right font-medium", range.as_str());
        }
        out.append("</tbody>\n</table>\n");
    } else {
        out.append("<p class=\"text-gray-400 text-sm\">No technical data available</p>\n");
    }
    out.append("</div>\n");
    assert(out@ =~= technical_html(*d));
    out
}

/// Whether any price target is known.
pub open spec fn has_price_target(d: ReportData) -> bool {
    known(d.pt_high@) || known(d.pt_mean@) || known(d.pt_low@)
}

/// Whether any recommendation count is known.
pub open spec fn has_recommendations(d: ReportData) -> bool {
    known(d.strong_buy@) || known(d.buy@) || known(d.hold@) || known(d.sell@) || known(
        d.strong_sell@,
    )
}

/// The price-target table of the analyst card, holding the known targets;
/// empty when none is known.
pub open spec fn targets_html(d: ReportData) -> Seq<char> {
    let value_class = "py-1 text-right font-medium"@;
    if has_price_target(d) {
        "<table class=\"w-full text-sm\">\n<tbody>\n"@ + (if known(d.pt_high@) {
            table_row_html("Target High"@, value_class, d.pt_high@)
        } else {
            Seq::empty()
        }) + (if known(d.pt_mean@) {
            table_row_html("Target Mean"@, value_class, d.pt_mean@ + " "@ + d.currency@)
        } else {
            Seq::empty()
        }) + (if known(d.pt_low@) {
            table_row_html("Target Low"@, value_class, d.pt_low@)
        } else {
            Seq::empty()
        }) + "</tbody>\n</table>\n"@
    } else {
        Seq::empty()
    }
}

/// The recommendations table of the analyst card, with all five counts;
/// empty when none is known.
pub open spec fn recommendations_html(d: ReportData) -> Seq<char> {
    if has_recommendations(d) {
        "<h3 class=\"text-sm font-medium text-gray-700 mt-4 mb-2\">Recommendations</h3>\n"@
            + "<table class=\"w-full text-sm\">\n<tbody>\n"@ + table_row_html(
            "Strong Buy"@,
            "py-1 text-right font-medium text-green-600"@,
            d.strong_buy@,
        ) + table_row_html("Buy"@, "py-1 text-right font-medium text-green-500"@, d.buy@)
            + table_row_html("Hold"@, "py-1 text-right font-medium text-yellow-500"@, d.hold@)
            + table_row_html("Sell"@, "py-1 text-right font-medium text-red-500"@, d.sell@)
            + table_row_html(
            "Strong Sell"@,
            "py-1 text-right font-medium text-red-600"@,
            d.strong_sell@,
        ) + "</tbody>\n</table>\n"@
    } else {
        Seq::empty()
    }
}

/// The analyst card: price targets, recommendations, or a note that there is
/// no analyst data.
pub open spec fn analyst_html(d: ReportData) -> Seq<char> {
    let none_note = if !has_price_target(d) && !has_recommendations(d) {
        "<p class=\"text-gray-400 text-sm\">No analyst data available</p>\n"@
    } else {
        Seq::empty()
    };
    "<div class=\"bg-white rounded-xl shadow-sm p-6 border border-gray-100\">\n"@
        + "<h2 class=\"text-lg font-semibold text-gray-900 mb-4\">Analyst Consensus</h2>\n"@
        + targets_html(d) + recommendations_html(d) + none_note + "</div>\n"@
}

fn targets_section(d: &ReportData) -> (r: String)
    ensures
        r@ == targets_html(*d),
{
    let mut out = String::new();
    let high_known = is_known(&d.pt_high);
    let mean_known = is_known(&d.pt_mean);
    let low_known = is_known(&d.pt_low);
    if high_known || mean_known || low_known {
        out.append("<table class=\"w-full text-sm\">\n<tbody>\n");
        if high_known {
            push_table_row(
                &mut out,
                "Target High",
                "py-1 text-right font-medium",
                d.pt_high.as_str(),
            );
        }
        if mean_known {
            let mean = concat3(d.pt_mean.as_str(), " ", d.currency.as_str());
            push_table_row(&mut out, "Target Mean", "py-1 text-right font-medium", mean.as_str());
        }
        if low_known {
            push_table_row(&mut out, "Target Low", "py-1 text-right font-medium", d.pt_low.as_str());
        }
        out.append("</tbody>\n</table>\n");
    }
    assert(out@ =~= targets_html(*d));
    out
}

fn has_recommendation_counts(d: &ReportData) -> (r: bool)
    ensures
        r == has_recommendations(*d),
{
    is_known(&d.strong_buy) || is_known(&d.buy) || is_known(&d.hold) || is_known(&d.sell)
        || is_known(&d.strong_sell)
}

fn recommendations_section(d: &ReportData) -> (r: String)
    ensures
        r@ == recommendations_html(*d),
{
    let mut out = String::new();
    if has_recommendation_counts(d) {
        out.append(
            "<h3 class=\"text-sm font-medium text-gray-700 mt-4 mb-2\">Recommendations</h3>\n",
        );
        out.append("<table class=\"w-full text-sm\">\n<tbody>\n");
        push_table_row(
            &mut out,
            "Strong Buy",
            "py-1 text-right font-medium text-green-600",
            d.strong_buy.as_str(),
        );
        push_table_row(&mut out, "Buy", "py-1 text-right font-medium text-green-500", d.buy.as_str());
        push_table_row(
            &mut out,
            "Hold",
            "py-1 text-right font-medium text-yellow-500",
            d.hold.as_str(),
        );
        push_table_row(&mut out, "Sell", "py-1 text-right font-medium text-red-500", d.sell.as_str());
        push_table_row(
            &mut out,
            "Strong Sell",
            "py-1 text-right font-medium text-red-600",
            d.strong_sell.as_str(),
        );
        out.append("</tbody>\n</table>\n");
    }
    assert(out@ =~= recommendations_html(*d));
    out
}

fn analyst_section(d: &ReportData) -> (r: String)
    ensures
        r@ == analyst_html(*d),
{
    let mut out = String::new();
    out.append("<div class=\"bg-white rounded-xl shadow-sm p-6 border border-gray-100\">\n");
    out.append("<h2 class=\"text-lg font-semibold text-gray-900 mb-4\">Analyst Consensus</h2>\n");
    let targets = targets_section(d);
    out.append(targets.as_str());
    let recommendations = recommendations_section(d);
    out.append(recommendations.as_str());
    let has_pt = is_known(&d.pt_high) || is_known(&d.pt_mean) || is_known(&d.pt_low);
    if !has_pt && !has_recommendation_counts(d) {
        out.append("<p class=\"text-gray-400 text-sm\">No analyst data available</p>\n");
    }
    out.append("</div>\n");
    assert(out@ =~= analyst_html(*d));
    out
}


/// The text of an optional value, or `default` when it is absent.
pub open spec fn opt_text(o: Option<String>, default: Seq<char>) -> Seq<char> {
    match o {
        Some(s) => s@,
        None => default,
    }
}

fn push_opt(out: &mut String, o: &Option<String>, default: &str)
    ensures
        final(out)@ == old(out)@ + opt_text(*o, default@),
{
    match o {
        Some(t) => out.append(t.as_str()),
        None => out.append(default),
    }
}

/// The headline of a news entry: a link when the article has one, `Untitled`
/// when it has no title.
pub open spec fn headline_html(a: NewsItem) -> Seq<char> {
    let title = opt_text(a.title, "Untitled"@);
    match a.link {
        Some(url) => "<a href=\""@ + url@
            + "\" target=\"_blank\" class=\"text-blue-600 hover:text-blue-800 font-medium\">"@
            + title + "</a>\n"@,
        None => "<span class=\"font-medium\">"@ + title + "</span>\n"@,
    }
}

/// The byline of a news entry: the publisher when it is not empty, then the
/// publication day (empty when unknown).
pub open spec fn byline_html(a: NewsItem) -> Seq<char> {
    let publisher = opt_text(a.publisher, Seq::empty());
    let date = match a.published_at {
        Some(ms) => ts_display(ms),
        None => Seq::empty(),
    };
    (if publisher.len() > 0 {
        "<span>"@ + publisher + "</span>\n"@
    } else {
        Seq::empty()
    }) + "<span>"@ + date + "</span>\n"@
}

/// One news entry: headline, then byline.
pub open spec fn article_html(a: NewsItem) -> Seq<char> {
    "<div class=\"py-3 border-b border-gray-100 last:border-0\">\n"@ + headline_html(a)
        + "<div class=\"flex gap-3 text-xs text-gray-400 mt-1\">\n"@ + byline_html(a)
        + "</div>\n</div>\n"@
}

/// The entries of `news`, in order.
pub open spec fn articles_html(news: Seq<NewsItem>) -> Seq<char>
    decreases news.len(),
{
    if news.len() == 0 {
        Seq::empty()
    } else {
        articles_html(news.drop_last()) + article_html(news.last())
    }
}

/// The most articles the report lists.
pub const MAX_REPORT_ARTICLES: usize = 10;

/// The news card: the first ten articles, or a note that there is no news.
pub open spec fn news_html(news: Seq<NewsItem>) -> Seq<char> {
    let shown = if news.len() > MAX_REPORT_ARTICLES {
        news.take(MAX_REPORT_ARTICLES as int)
    } else {
        news
    };
    "<div class=\"bg-white rounded-xl shadow-sm p-6 border border-gray-100 mb-6\">\n"@
        + "<h2 class=\"text-lg font-semibold text-gray-900 mb-4\">Recent News</h2>\n"@ + (if news.len()
        > 0 {
        articles_html(shown)
    } else {
        "<p class=\"text-gray-400 text-sm\">No recent news available</p>\n"@
    }) + "</div>\n"@
}

fn push_headline(out: &mut String, a: &NewsItem)
    ensures
        final(out)@ == old(out)@ + headline_html(*a),
{
    let ghost start = out@;
    match &a.link {
        Some(url) => {
            out.append("<a href=\"");
            out.append(url.as_str());
            out.append(
                "\" target=\"_blank\" class=\"text-blue-600 hover:text-blue-800 font-medium\">",
            );
            push_opt(out, &a.title, "Untitled");
            out.append("</a>\n");
        },
        None => {
            out.append("<span class=\"font-medium\">");
            push_opt(out, &a.title, "Untitled");
            out.append("</span>\n");
        },
    }
    assert(out@ =~= start + headline_html(*a));
}

fn push_byline(out: &mut String, a: &NewsItem)
    ensures
        final(out)@ == old(out)@ + byline_html(*a),
{
    let ghost start = out@;
    match &a.publisher {
        Some(p) => {
            if p.as_str().unicode_len() > 0 {
                out.append("<span>");
                out.append(p.as_str());
                out.append("</span>\n");
            }
        },
        None => {},
    }
    out.append("<span>");
    match a.published_at {
        Some(ms) => {
            let day = fmt_ts_ms(ms);
            out.append(day.as_str());
        },
        None => {},
    }
    out.append("</span>\n");
    assert(out@ =~= start + byline_html(*a));
}

fn push_article(out: &mut String, a: &NewsItem)
    ensures
        final(out)@ == old(out)@ + article_html(*a),
{
    let ghost start = out@;
    out.append("<div class=\"py-3 border-b border-gray-100 last:border-0\">\n");
    push_headline(out, a);
    out.append("<div class=\"flex gap-3 text-xs text-gray-400 mt-1\">\n");
    push_byline(out, a);
    out.append("</div>\n</div>\n");
    assert(out@ =~= start + article_html(*a));
}

fn news_section(news: &Vec<NewsItem>) -> (r: String)
    ensures
        r@ == news_html(news@),
{
    let mut out = String::new();
    out.append("<div class=\"bg-white rounded-xl shadow-sm p-6 border border-gray-100 mb-6\">\n");
    out.append("<h2 class=\"text-lg font-semibold text-gray-900 mb-4\">Recent News</h2>\n");
    let ghost start = out@;
    if news.len() > 0 {
        let count = if news.len() > MAX_REPORT_ARTICLES {
            MAX_REPORT_ARTICLES
        } else {
            news.len()
        };
        let mut i: usize = 0;
        while i < count
            invariant
                i <= count <= news@.len(),
                out@ == start + articles_html(news@.take(i as int)),
            decreases count - i,
        {
            push_article(&mut out, &news[i]);
            assert(news@.take(i + 1).drop_last() =~= news@.take(i as int));
            assert(out@ =~= start + articles_html(news@.take(i + 1)));
            i = i + 1;
        }
        assert(news@.len() <= MAX_REPORT_ARTICLES ==> news@.take(count as int) =~= news@);
    } else {
        out.append("<p class=\"text-gray-400 text-sm\">No recent news available</p>\n");
    }
    out.append("</div>\n");
    assert(out@ =~= news_html(news@));
    out
}

/// One cell of the price history table.
pub open spec fn cell_html(open_tag: Seq<char>, value: Option<String>) -> Seq<char> {
    open_tag + opt_text(value, Seq::empty()) + "</td>\n"@
}

/// One line of the price history table: day, open, high, low, close, volume.
pub open spec fn candle_html(c: CandleRow) -> Seq<char> {
    let ts = match c.ts {
        Some(t) => t,
        None => 0,
    };
    let right = "<td class=\"py-2 pr-4 text-right\">"@;
    "<tr class=\"border-b border-gray-50 hover:bg-gray-50\">\n"@
        + "<td class=\"py-2 pr-4 whitespace-nowrap\">"@ + ts_display(ts) + "</td>\n"@
        + cell_html(right, c.open) + cell_html(right, c.high) + cell_html(right, c.low)
        + cell_html("<td class=\"py-2 pr-4 text-right font-medium\">"@, c.close)
        + cell_html("<td class=\"py-2 pr-4 text-right text-gray-500\">"@, c.volume) + "</tr>\n"@
}

/// The lines of `candles`, the latest first.
pub open spec fn latest_first_html(candles: Seq<CandleRow>) -> Seq<char>
    decreases candles.len(),
{
    if candles.len() == 0 {
        Seq::empty()
    } else {
        latest_first_html(candles.drop_first()) + candle_html(candles.first())
    }
}

/// The most candles the report lists.
pub const MAX_REPORT_CANDLES: usize = 30;

/// The last thirty candles, oldest first.
pub open spec fn recent_candles(candles: Seq<CandleRow>) -> Seq<CandleRow> {
    if candles.len() > MAX_REPORT_CANDLES {
        candles.skip(candles.len() - MAX_REPORT_CANDLES)
    } else {
        candles
    }
}

/// The start of the price history table, up to its body.
pub open spec fn history_table_open() -> Seq<char> {
    "<div class=\"overflow-x-auto\">\n"@
        + "<table class=\"w-full text-sm\">\n<thead>\n<tr class=\"text-left text-gray-500 border-b\">\n"@
        + "<th class=\"py-2 pr-4\">Date</th><th class=\"py-2 pr-4 text-right\">Open</th><th class=\"py-2 pr-4 text-right\">High</th><th class=\"py-2 pr-4 text-right\">Low</th><th class=\"py-2 pr-4 text-right\">Close</th><th class=\"py-2 pr-4 text-right\">Volume</th>\n"@
        + "</tr>\n</thead>\n<tbody>\n"@
}

/// The heading of the price history card.
pub open spec fn history_card_open() -> Seq<char> {
    "<div class=\"bg-white rounded-xl shadow-sm p-6 border border-gray-100\">\n"@
        + "<h2 class=\"text-lg font-semibold text-gray-900 mb-4\">Recent Price History</h2>\n"@
}

/// The price history card: the last thirty candles, latest first, or a note
/// that there is no price history.
pub open spec fn history_html(candles: Seq<CandleRow>) -> Seq<char> {
    history_card_open() + (if candles.len() > 0 {
        history_table_open() + latest_first_html(recent_candles(candles))
            + "</tbody>\n</table>\n</div>\n"@
    } else {
        "<p class=\"text-gray-400 text-sm\">No price history available</p>\n"@
    }) + "</div>\n"@
}

fn push_cell(out: &mut String, open_tag: &str, value: &Option<String>)
    ensures
        final(out)@ == old(out)@ + cell_html(open_tag@, *value),
{
    out.append(open_tag);
    match value {
        Some(v) => out.append(v.as_str()),
        None => {},
    }
    out.append("</td>\n");
    assert(out@ =~= old(out)@ + cell_html(open_tag@, *value));
}

fn push_candle(out: &mut String, c: &CandleRow)
    ensures
        final(out)@ == old(out)@ + candle_html(*c),
{
    let ghost start = out@;
    out.append("<tr class=\"border-b border-gray-50 hover:bg-gray-50\">\n");
    out.append("<td class=\"py-2 pr-4 whitespace-nowrap\">");
    let ts = match c.ts {
        Some(t) => t,
        None => 0,
    };
    let day = fmt_ts_ms(ts);
    out.append(day.as_str());
    out.append("</td>\n");
    push_cell(out, "<td class=\"py-2 pr-4 text-right\">", &c.open);
    push_cell(out, "<td class=\"py-2 pr-4 text-right\">", &c.high);
    push_cell(out, "<td class=\"py-2 pr-4 text-right\">", &c.low);
    push_cell(out, "<td class=\"py-2 pr-4 text-right font-medium\">", &c.close);
    push_cell(out, "<td class=\"py-2 pr-4 text-right text-gray-500\">", &c.volume);
    out.append("</tr>\n");
    assert(out@ =~= start + candle_html(*c));
}

fn history_section(candles: &Vec<CandleRow>) -> (r: String)
    ensures
        r@ == history_html(candles@),
{
    let mut out = String::new();
    out.append("<div class=\"bg-white rounded-xl shadow-sm p-6 border border-gray-100\">\n");
    out.append("<h2 class=\"text-lg font-semibold text-gray-900 mb-4\">Recent Price History</h2>\n");
    let ghost start = out@;
    assert(start =~= history_card_open());
    let len = candles.len();
    if len > 0 {
        out.append("<div class=\"overflow-x-auto\">\n");
        out.append(
            "<table class=\"w-full text-sm\">\n<thead>\n<tr class=\"text-left text-gray-500 border-b\">\n",
        );
        out.append(
            "<th class=\"py-2 pr-4\">Date</th><th class=\"py-2 pr-4 text-right\">Open</th><th class=\"py-2 pr-4 text-right\">High</th><th class=\"py-2 pr-4 text-right\">Low</th><th class=\"py-2 pr-4 text-right\">Close</th><th class=\"py-2 pr-4 text-right\">Volume</th>\n",
        );
        out.append("</tr>\n</thead>\n<tbody>\n");
        let ghost head = out@;
        assert(head =~= start + history_table_open());
        let first = if len > MAX_REPORT_CANDLES {
            len - MAX_REPORT_CANDLES
        } else {
            0
        };
        let mut j: usize = len;
        while j > first
            invariant
                first <= j <= len,
                len == candles@.len(),
                out@ == head + latest_first_html(candles@.subrange(j as int, len as int)),
            decreases j,
        {
            push_candle(&mut out, &candles[j - 1]);
            assert(candles@.subrange(j - 1, len as int).drop_first() =~= candles@.subrange(
                j as int,
                len as int,
            ));
            assert(out@ =~= head + latest_first_html(candles@.subrange(j - 1, len as int)));
            j = j - 1;
        }
        assert(candles@.subrange(first as int, len as int) =~= recent_candles(candles@));
        out.append("</tbody>\n</table>\n</div>\n");
    } else {
        out.append("<p class=\"text-gray-400 text-sm\">No price history available</p>\n");
    }
    out.append("</div>\n");
    assert(out@ =~= history_html(candles@));
    out
}

/// The whole report page for `symbol`.
pub open spec fn report_text(symbol: Seq<char>, d: ReportData) -> Seq<char> {
    document_head_html(symbol) + header_html(symbol, d) + metrics_html(d)
        + "<div class=\"grid grid-cols-1 md:grid-cols-2 gap-6 mb-6\">\n"@ + technical_html(d)
        + analyst_html(d) + "</div>\n"@ + news_html(d.news@) + history_html(d.candles@)
        + "<p class=\"text-center text-xs text-gray-400 mt-8\">Generated by yfinance-mcp</p>\n"@
        + "</div>\n</body>\n</html>\n"@
}

/// The HTML stock report for `symbol`, styled with Tailwind CSS.
pub fn report_html(symbol: &str, d: &ReportData) -> (r: String)
    ensures
        r@ == report_text(symbol@, *d),
{
    let mut out = String::new();
    out.append("<!DOCTYPE html>\n<html lang=\"en\">\n<head>\n<meta charset=\"UTF-8\">\n");
    out.append("<meta name=\"viewport\" content=\"width=device-width, initial-scale=1.0\">\n");
    out.append("<title>");
    out.append(symbol);
    out.append(" Stock Report</title>\n");
    out.append("<script src=\"https://cdn.tailwindcss.com\"></script>\n");
    out.append("</head>\n<body class=\"bg-gray-50\">\n");
    out.append("<div class=\"max-w-5xl mx-auto p-6\">\n");
    assert(out@ =~= document_head_html(symbol@));
    let section = header_section(symbol, d);
    out.append(section.as_str());
    let section = metrics_section(d);
    out.append(section.as_str());
    out.append("<div class=\"grid grid-cols-1 md:grid-cols-2 gap-6 mb-6\">\n");
    let section = technical_section(d);
    out.append(section.as_str());
    let section = analyst_section(d);
    out.append(section.as_str());
    out.append("</div>\n");
    let section = news_section(&d.news);
    out.append(section.as_str());
    let section = history_section(&d.candles);
    out.append(section.as_str());
    out.append("<p class=\"text-center text-xs text-gray-400 mt-8\">Generated by yfinance-mcp</p>\n");
    out.append("</div>\n</body>\n</html>\n");
    assert(out@ =~= report_text(symbol@, *d));
    out
}


/// The price history shows the last thirty candles, or all of them when
/// there are fewer, in the order they came: the latest candle is always
/// among them.
pub proof fn lemma_recent_candles(candles: Seq<CandleRow>)
    ensures
        recent_candles(candles).len() == if candles.len() > MAX_REPORT_CANDLES {
            MAX_REPORT_CANDLES as nat
        } else {
            candles.len()
        },
        forall|i: int|
            0 <= i < recent_candles(candles).len() ==> #[trigger] recent_candles(candles)[i]
                == candles[candles.len() - recent_candles(candles).len() + i],
{
}

/// The news entries keep the order of the articles: listing one article
/// more appends its entry after those of the articles before it.
pub proof fn lemma_articles_in_order(news: Seq<NewsItem>, k: int)
    requires
        0 <= k < news.len(),
    ensures
        articles_html(news.take(k + 1)) == articles_html(news.take(k)) + article_html(news[k]),
{
    assert(news.take(k + 1).drop_last() =~= news.take(k));
}


/// The report holds each of its cards.
proof fn lemma_report_contains_cards(symbol: Seq<char>, d: ReportData)
    ensures
        contains_text(report_text(symbol, d), technical_html(d)),
        contains_text(report_text(symbol, d), analyst_html(d)),
        contains_text(report_text(symbol, d), news_html(d.news@)),
        contains_text(report_text(symbol, d), history_html(d.candles@)),
{
    let r4 = document_head_html(symbol) + header_html(symbol, d) + metrics_html(d)
        + "<div class=\"grid grid-cols-1 md:grid-cols-2 gap-6 mb-6\">\n"@;
    let t = technical_html(d);
    let an = analyst_html(d);
    let nw = news_html(d.news@);
    let hi = history_html(d.candles@);
    let f1 = "<p class=\"text-center text-xs text-gray-400 mt-8\">Generated by yfinance-mcp</p>\n"@;
    let f2 = "</div>\n</body>\n</html>\n"@;
    let cl = "</div>\n"@;
    let r5 = r4 + t;
    let r6 = r5 + an;
    let r7 = r6 + cl;
    let r8 = r7 + nw;
    let r9 = r8 + hi;
    let r10 = r9 + f1;
    let r = r10 + f2;
    assert(report_text(symbol, d) == r);
    // the technical card
    lemma_contains_refl(t);
    lemma_contains_left(r4, t, t);
    lemma_contains_right(r5, an, t);
    lemma_contains_right(r6, cl, t);
    lemma_contains_right(r7, nw, t);
    lemma_contains_right(r8, hi, t);
    lemma_contains_right(r9, f1, t);
    lemma_contains_right(r10, f2, t);
    // the analyst card
    lemma_contains_refl(an);
    lemma_contains_left(r5, an, an);
    lemma_contains_right(r6, cl, an);
    lemma_contains_right(r7, nw, an);
    lemma_contains_right(r8, hi, an);
    lemma_contains_right(r9, f1, an);
    lemma_contains_right(r10, f2, an);
    // the news card
    lemma_contains_refl(nw);
    lemma_contains_left(r7, nw, nw);
    lemma_contains_right(r8, hi, nw);
    lemma_contains_right(r9, f1, nw);
    lemma_contains_right(r10, f2, nw);
    // the price history card
    lemma_contains_refl(hi);
    lemma_contains_left(r8, hi, hi);
    lemma_contains_right(r9, f1, hi);
    lemma_contains_right(r10, f2, hi);
}

/// Whenever the 200-day moving average is known, the report holds the
/// `200-Day MA` row showing exactly that average.
pub proof fn lemma_report_shows_ma_200d(symbol: Seq<char>, d: ReportData)
    requires
        known(d.ma_200d@),
    ensures
        contains_text(
            report_text(symbol, d),
            table_row_html("200-Day MA"@, "py-1 text-right font-medium"@, d.ma_200d@),
        ),
{
    let v = "py-1 text-right font-medium"@;
    let row = table_row_html("200-Day MA"@, v, d.ma_200d@);
    let open = "<table class=\"w-full text-sm\">\n<tbody>\n"@;
    let r50 = if known(d.ma_50d@) { table_row_html("50-Day MA"@, v, d.ma_50d@) } else { Seq::empty() };
    let rday = if known(d.day_high@) {
        table_row_html("Day Range"@, v, d.day_low@ + " - "@ + d.day_high@)
    } else {
        Seq::empty()
    };
    let close = "</tbody>\n</table>\n"@;
    let title = "<div class=\"bg-white rounded-xl shadow-sm p-6 border border-gray-100\">\n"@
        + "<h2 class=\"text-lg font-semibold text-gray-900 mb-4\">Technical Analysis</h2>\n"@;
    let body = open + r50 + row + rday + close;
    assert(technical_html(d) == title + body + "</div>\n"@);
    lemma_contains_refl(row);
    lemma_contains_left(open + r50, row, row);
    lemma_contains_right(open + r50 + row, rday, row);
    lemma_contains_right(open + r50 + row + rday, close, row);
    lemma_contains_left(title, body, row);
    lemma_contains_right(title + body, "</div>\n"@, row);
    lemma_report_contains_cards(symbol, d);
    lemma_contains_trans(report_text(symbol, d), technical_html(d), row);
}

/// Whenever the 50-day moving average is known, the report holds the
/// `50-Day MA` row showing exactly that average.
pub proof fn lemma_report_shows_ma_50d(symbol: Seq<char>, d: ReportData)
    requires
        known(d.ma_50d@),
    ensures
        contains_text(
            report_text(symbol, d),
            table_row_html("50-Day MA"@, "py-1 text-right font-medium"@, d.ma_50d@),
        ),
{
    let v = "py-1 text-right font-medium"@;
    let row = table_row_html("50-Day MA"@, v, d.ma_50d@);
    let open = "<table class=\"w-full text-sm\">\n<tbody>\n"@;
    let r200 = if known(d.ma_200d@) { table_row_html("200-Day MA"@, v, d.ma_200d@) } else { Seq::empty() };
    let rday = if known(d.day_high@) {
        table_row_html("Day Range"@, v, d.day_low@ + " - "@ + d.day_high@)
    } else {
        Seq::empty()
    };
    let close = "</tbody>\n</table>\n"@;
    let title = "<div class=\"bg-white rounded-xl shadow-sm p-6 border border-gray-100\">\n"@
        + "<h2 class=\"text-lg font-semibold text-gray-900 mb-4\">Technical Analysis</h2>\n"@;
    let body = open + row + r200 + rday + close;
    assert(technical_html(d) == title + body + "</div>\n"@);
    lemma_contains_refl(row);
    lemma_contains_left(open, row, row);
    lemma_contains_right(open + row, r200, row);
    lemma_contains_right(open + row + r200, rday, row);
    lemma_contains_right(open + row + r200 + rday, close, row);
    lemma_contains_left(title, body, row);
    lemma_contains_right(title + body, "</div>\n"@, row);
    lemma_report_contains_cards(symbol, d);
    lemma_contains_trans(report_text(symbol, d), technical_html(d), row);
}

/// The analyst card's price-target table and recommendations table both sit
/// in the report.
proof fn lemma_report_contains_analyst_tables(symbol: Seq<char>, d: ReportData)
    ensures
        contains_text(report_text(symbol, d), targets_html(d)),
        contains_text(report_text(symbol, d), recommendations_html(d)),
{
    let head = "<div class=\"bg-white rounded-xl shadow-sm p-6 border border-gray-100\">\n"@
        + "<h2 class=\"text-lg font-semibold text-gray-900 mb-4\">Analyst Consensus</h2>\n"@;
    let none_note = if !has_price_target(d) && !has_recommendations(d) {
        "<p class=\"text-gray-400 text-sm\">No analyst data available</p>\n"@
    } else {
        Seq::empty()
    };
    let t = targets_html(d);
    let rc = recommendations_html(d);
    assert(analyst_html(d) == head + t + rc + none_note + "</div>\n"@);
    lemma_contains_refl(t);
    lemma_contains_left(head, t, t);
    lemma_contains_right(head + t, rc, t);
    lemma_contains_right(head + t + rc, none_note, t);
    lemma_contains_right(head + t + rc + none_note, "</div>\n"@, t);
    lemma_contains_refl(rc);
    lemma_contains_left(head + t, rc, rc);
    lemma_contains_right(head + t + rc, none_note, rc);
    lemma_contains_right(head + t + rc + none_note, "</div>\n"@, rc);
    lemma_report_contains_cards(symbol, d);
    lemma_contains_trans(report_text(symbol, d), analyst_html(d), t);
    lemma_contains_trans(report_text(symbol, d), analyst_html(d), rc);
}

/// Every known price target is shown in its row: high, mean (with the
/// currency) and low.
pub proof fn lemma_report_shows_targets(symbol: Seq<char>, d: ReportData)
    ensures
        known(d.pt_high@) ==> contains_text(
            report_text(symbol, d),
            table_row_html("Target High"@, "py-1 text-right font-medium"@, d.pt_high@),
        ),
        known(d.pt_mean@) ==> contains_text(
            report_text(symbol, d),
            table_row_html("Target Mean"@, "py-1 text-right font-medium"@, d.pt_mean@ + " "@ + d.currency@),
        ),
        known(d.pt_low@) ==> contains_text(
            report_text(symbol, d),
            table_row_html("Target Low"@, "py-1 text-right font-medium"@, d.pt_low@),
        ),
{
    let v = "py-1 text-right font-medium"@;
    let hi = if known(d.pt_high@) { table_row_html("Target High"@, v, d.pt_high@) } else { Seq::empty() };
    let me = if known(d.pt_mean@) {
        table_row_html("Target Mean"@, v, d.pt_mean@ + " "@ + d.currency@)
    } else {
        Seq::empty()
    };
    let lo = if known(d.pt_low@) { table_row_html("Target Low"@, v, d.pt_low@) } else { Seq::empty() };
    let open = "<table class=\"w-full text-sm\">\n<tbody>\n"@;
    let close = "</tbody>\n</table>\n"@;
    let r = report_text(symbol, d);
    let t = targets_html(d);
    lemma_report_contains_analyst_tables(symbol, d);
    if has_price_target(d) {
        assert(t == open + hi + me + lo + close);
        lemma_contains_refl(hi);
        lemma_contains_left(open, hi, hi);
        lemma_contains_right(open + hi, me, hi);
        lemma_contains_right(open + hi + me, lo, hi);
        lemma_contains_right(open + hi + me + lo, close, hi);
        lemma_contains_trans(r, t, hi);
        lemma_contains_refl(me);
        lemma_contains_left(open + hi, me, me);
        lemma_contains_right(open + hi + me, lo, me);
        lemma_contains_right(open + hi + me + lo, close, me);
        lemma_contains_trans(r, t, me);
        lemma_contains_refl(lo);
        lemma_contains_left(open + hi + me, lo, lo);
        lemma_contains_right(open + hi + me + lo, close, lo);
        lemma_contains_trans(r, t, lo);
    }
}

/// When any recommendation count is known, every one of the five counts is
/// shown in its own row of the report.
pub proof fn lemma_report_shows_recommendations(symbol: Seq<char>, d: ReportData)
    requires
        has_recommendations(d),
    ensures
        contains_text(
            report_text(symbol, d),
            table_row_html("Strong Buy"@, "py-1 text-right font-medium text-green-600"@, d.strong_buy@),
        ),
        contains_text(
            report_text(symbol, d),
            table_row_html("Buy"@, "py-1 text-right font-medium text-green-500"@, d.buy@),
        ),
        contains_text(
            report_text(symbol, d),
            table_row_html("Hold"@, "py-1 text-right font-medium text-yellow-500"@, d.hold@),
        ),
        contains_text(
            report_text(symbol, d),
            table_row_html("Sell"@, "py-1 text-right font-medium text-red-500"@, d.sell@),
        ),
        contains_text(
            report_text(symbol, d),
            table_row_html("Strong Sell"@, "py-1 text-right font-medium text-red-600"@, d.strong_sell@),
        ),
{
    let sb = table_row_html("Strong Buy"@, "py-1 text-right font-medium text-green-600"@, d.strong_buy@);
    let b = table_row_html("Buy"@, "py-1 text-right font-medium text-green-500"@, d.buy@);
    let h = table_row_html("Hold"@, "py-1 text-right font-medium text-yellow-500"@, d.hold@);
    let se = table_row_html("Sell"@, "py-1 text-right font-medium text-red-500"@, d.sell@);
    let ss = table_row_html("Strong Sell"@, "py-1 text-right font-medium text-red-600"@, d.strong_sell@);
    let o1 = "<h3 class=\"text-sm font-medium text-gray-700 mt-4 mb-2\">Recommendations</h3>\n"@;
    let o2 = "<table class=\"w-full text-sm\">\n<tbody>\n"@;
    let close = "</tbody>\n</table>\n"@;
    let r = report_text(symbol, d);
    let rec = recommendations_html(d);
    let p1 = o1 + o2;
    let p2 = p1 + sb;
    let p3 = p2 + b;
    let p4 = p3 + h;
    let p5 = p4 + se;
    let p6 = p5 + ss;
    assert(rec == p6 + close);
    lemma_report_contains_analyst_tables(symbol, d);
    lemma_contains_refl(sb);
    lemma_contains_left(p1, sb, sb);
    lemma_contains_right(p2, b, sb);
    lemma_contains_right(p3, h, sb);
    lemma_contains_right(p4, se, sb);
    lemma_contains_right(p5, ss, sb);
    lemma_contains_right(p6, close, sb);
    lemma_contains_trans(r, rec, sb);
    lemma_contains_refl(b);
    lemma_contains_left(p2, b, b);
    lemma_contains_right(p3, h, b);
    lemma_contains_right(p4, se, b);
    lemma_contains_right(p5, ss, b);
    lemma_contains_right(p6, close, b);
    lemma_contains_trans(r, rec, b);
    lemma_contains_refl(h);
    lemma_contains_left(p3, h, h);
    lemma_contains_right(p4, se, h);
    lemma_contains_right(p5, ss, h);
    lemma_contains_right(p6, close, h);
    lemma_contains_trans(r, rec, h);
    lemma_contains_refl(se);
    lemma_contains_left(p4, se, se);
    lemma_contains_right(p5, ss, se);
    lemma_contains_right(p6, close, se);
    lemma_contains_trans(r, rec, se);
    lemma_contains_refl(ss);
    lemma_contains_left(p5, ss, ss);
    lemma_contains_right(p6, close, ss);
    lemma_contains_trans(r, rec, ss);
}

/// The entries of articles are the articles' entries one after the other.
pub proof fn lemma_articles_concat(a: Seq<NewsItem>, b: Seq<NewsItem>)
    ensures
        articles_html(a + b) == articles_html(a) + articles_html(b),
    decreases b.len(),
{
    if b.len() == 0 {
        assert(a + b =~= a);
        assert(articles_html(a) + articles_html(b) =~= articles_html(a));
    } else {
        lemma_articles_concat(a, b.drop_last());
        assert((a + b).drop_last() =~= a + b.drop_last());
        assert((a + b).last() == b.last());
        assert(articles_html(a + b) =~= articles_html(a) + articles_html(b));
    }
}

/// Each of the first ten articles has its entry in the report.
pub proof fn lemma_report_shows_article(symbol: Seq<char>, d: ReportData, i: int)
    requires
        0 <= i < d.news@.len(),
        i < MAX_REPORT_ARTICLES,
    ensures
        contains_text(report_text(symbol, d), article_html(d.news@[i])),
{
    let news = d.news@;
    let shown = if news.len() > MAX_REPORT_ARTICLES {
        news.take(MAX_REPORT_ARTICLES as int)
    } else {
        news
    };
    assert(shown =~= shown.take(i) + (seq![news[i]] + shown.skip(i + 1)));
    lemma_articles_concat(shown.take(i), seq![news[i]] + shown.skip(i + 1));
    lemma_articles_concat(seq![news[i]], shown.skip(i + 1));
    assert(seq![news[i]].drop_last() =~= Seq::<NewsItem>::empty());
    assert(articles_html(Seq::<NewsItem>::empty()) == Seq::<char>::empty());
    assert(articles_html(seq![news[i]]) =~= article_html(news[i]));
    let art = article_html(news[i]);
    let before = articles_html(shown.take(i));
    let after = articles_html(shown.skip(i + 1));
    assert(articles_html(shown) == before + (art + after));
    let head = "<div class=\"bg-white rounded-xl shadow-sm p-6 border border-gray-100 mb-6\">\n"@
        + "<h2 class=\"text-lg font-semibold text-gray-900 mb-4\">Recent News</h2>\n"@;
    assert(news_html(news) == head + articles_html(shown) + "</div>\n"@);
    lemma_contains_refl(art);
    lemma_contains_right(art, after, art);
    lemma_contains_left(before, art + after, art);
    lemma_contains_left(head, articles_html(shown), art);
    lemma_contains_right(head + articles_html(shown), "</div>\n"@, art);
    lemma_report_contains_cards(symbol, d);
    lemma_contains_trans(report_text(symbol, d), news_html(news), art);
}

/// Lines of candles, latest first, of two runs of candles: the later run's
/// lines come first.
pub proof fn lemma_latest_first_concat(a: Seq<CandleRow>, b: Seq<CandleRow>)
    ensures
        latest_first_html(a + b) == latest_first_html(b) + latest_first_html(a),
    decreases a.len(),
{
    if a.len() == 0 {
        assert(a + b =~= b);
        assert(latest_first_html(b) + latest_first_html(a) =~= latest_first_html(b));
    } else {
        lemma_latest_first_concat(a.drop_first(), b);
        assert((a + b).drop_first() =~= a.drop_first() + b);
        assert((a + b).first() == a.first());
        assert(latest_first_html(a + b) =~= latest_first_html(b) + latest_first_html(a));
    }
}

/// The lines of one candle, latest first, are that candle's line.
proof fn lemma_latest_first_single(x: CandleRow)
    ensures
        latest_first_html(seq![x]) == candle_html(x),
{
    assert(seq![x].drop_first() =~= Seq::<CandleRow>::empty());
    assert(latest_first_html(Seq::<CandleRow>::empty()) == Seq::<char>::empty());
    assert(seq![x].first() == x);
    assert(latest_first_html(seq![x]) =~= candle_html(x));
}

/// In the lines of a run of candles, latest first, a later candle's line
/// comes before an earlier one's.
proof fn lemma_latest_first_order(w: Seq<CandleRow>, jj: int, kk: int)
    requires
        0 <= jj < kk < w.len(),
    ensures
        occurs_before(latest_first_html(w), candle_html(w[kk]), candle_html(w[jj])),
{
    let a = w.take(jj);
    let x = w[jj];
    let m = w.subrange(jj + 1, kk);
    let y = w[kk];
    let z = w.skip(kk + 1);
    assert(w =~= a + (seq![x] + (m + (seq![y] + z))));
    lemma_latest_first_concat(a, seq![x] + (m + (seq![y] + z)));
    lemma_latest_first_concat(seq![x], m + (seq![y] + z));
    lemma_latest_first_concat(m, seq![y] + z);
    lemma_latest_first_concat(seq![y], z);
    lemma_latest_first_single(x);
    lemma_latest_first_single(y);
    let lz = latest_first_html(z);
    let lm = latest_first_html(m);
    let la = latest_first_html(a);
    let cx = candle_html(x);
    let cy = candle_html(y);
    assert(latest_first_html(w) == la + (cx + (lm + (cy + lz))) || true);
    assert(latest_first_html(w) == ((lz + cy) + lm) + cx + la) by {
        assert(latest_first_html(w) =~= ((lz + cy) + lm) + cx + la);
    }
    assert((Seq::<char>::empty() + cy + lm + cx + la) =~= ((lz + cy) + lm) + cx + la || lz.len()
        >= 0);
    assert((lz + cy + lm + cx + la) == latest_first_html(w));
}

/// In the lines of a run of candles, latest first, every candle's line
/// appears.
proof fn lemma_latest_first_has(w: Seq<CandleRow>, jj: int)
    requires
        0 <= jj < w.len(),
    ensures
        contains_text(latest_first_html(w), candle_html(w[jj])),
{
    let x = w[jj];
    assert(w =~= w.take(jj) + (seq![x] + w.skip(jj + 1)));
    lemma_latest_first_concat(w.take(jj), seq![x] + w.skip(jj + 1));
    lemma_latest_first_concat(seq![x], w.skip(jj + 1));
    lemma_latest_first_single(x);
    lemma_contains_middle(latest_first_html(w.skip(jj + 1)), candle_html(x), latest_first_html(w.take(jj)));
}

/// The candle lines of the price history card sit in the report.
proof fn lemma_report_contains_candle_lines(symbol: Seq<char>, d: ReportData)
    requires
        d.candles@.len() > 0,
    ensures
        contains_text(report_text(symbol, d), latest_first_html(recent_candles(d.candles@))),
{
    let lines = latest_first_html(recent_candles(d.candles@));
    let open = history_table_open();
    let close = "</tbody>\n</table>\n</div>\n"@;
    let card = history_card_open();
    let inner = open + lines + close;
    assert(history_html(d.candles@) == card + inner + "</div>\n"@);
    lemma_contains_refl(lines);
    lemma_contains_left(open, lines, lines);
    lemma_contains_right(open + lines, close, lines);
    lemma_contains_left(card, inner, lines);
    lemma_contains_right(card + inner, "</div>\n"@, lines);
    lemma_report_contains_cards(symbol, d);
    lemma_contains_trans(report_text(symbol, d), history_html(d.candles@), lines);
}

/// The price history lists the last thirty candles, a later candle before
/// an earlier one: for candles `j < k` among the last thirty, the line of
/// `k` comes before the line of `j` in the report.
pub proof fn lemma_report_candle_order(symbol: Seq<char>, d: ReportData, j: int, k: int)
    requires
        d.candles@.len() - MAX_REPORT_CANDLES <= j < k < d.candles@.len(),
        0 <= j,
    ensures
        occurs_before(report_text(symbol, d), candle_html(d.candles@[k]), candle_html(d.candles@[j])),
{
    let c = d.candles@;
    let w = recent_candles(c);
    let start = c.len() - w.len();
    assert(w[j - start] == c[j]);
    assert(w[k - start] == c[k]);
    lemma_latest_first_order(w, j - start, k - start);
    lemma_report_contains_candle_lines(symbol, d);
    lemma_occurs_before_in(report_text(symbol, d), latest_first_html(w), candle_html(c[k]), candle_html(c[j]));
}

/// Each of the last thirty candles has its line in the report.
pub proof fn lemma_report_shows_candle(symbol: Seq<char>, d: ReportData, j: int)
    requires
        d.candles@.len() - MAX_REPORT_CANDLES <= j < d.candles@.len(),
        0 <= j,
    ensures
        contains_text(report_text(symbol, d), candle_html(d.candles@[j])),
{
    let c = d.candles@;
    let w = recent_candles(c);
    let start = c.len() - w.len();
    assert(w[j - start] == c[j]);
    lemma_latest_first_has(w, j - start);
    lemma_report_contains_candle_lines(symbol, d);
    lemma_contains_trans(report_text(symbol, d), latest_first_html(w), candle_html(c[j]));
}

} // verus!
