//! The tools' arguments, titles and table rows.

use vstd::prelude::*;
use crate::clock::{expiration_timestamp, ymd_midnight_timestamp};
use crate::markdown::{json_block_text, json_md, json_md_text, JsonField};
use crate::request::{
    parse_interval, parse_interval_spec, parse_range, parse_range_spec, range_of_code, Interval,
    Range,
};
use crate::text::{
    contains_text, lemma_contains_middle, lemma_parse_decimal_round_trip, nat_digits,
    parse_unsigned_spec, push_digits, u64_text,
};

verus! {

/// The view of an optional owned text argument.
pub open spec fn opt_string_view(s: Option<String>) -> Option<Seq<char>> {
    match s {
        Some(t) => Some(t@),
        None => None,
    }
}

fn opt_as_str(s: &Option<String>) -> (r: Option<&str>)
    ensures
        match r {
            Some(t) => *s matches Some(u) && t@ == u@,
            None => *s is None,
        },
{
    match s {
        Some(t) => Some(t.as_str()),
        None => None,
    }
}

/// A tool argument naming one ticker.
pub struct SymbolArg {
    /// The ticker symbol (e.g. AAPL, MSFT, GOOGL).
    pub symbol: String,
}

/// Arguments of the historical data tool.
pub struct HistoryArgs {
    /// The ticker symbol.
    pub symbol: String,
    /// Time range: 1d, 5d, 1mo, 3mo, 6mo, ytd, 1y, 2y, 5y, 10y, max (default: 6mo).
    pub range: Option<String>,
    /// Interval: 1m, 2m, 5m, 15m, 30m, 1h, 1d, 5d, 1wk, 1mo, 3mo (default: 1d).
    pub interval: Option<String>,
    /// Include pre/post market data for intraday intervals (default: false).
    pub prepost: Option<bool>,
}

impl HistoryArgs {
    /// The range asked for (six months by default).
    pub fn range_choice(&self) -> (r: Range)
        ensures
            r == parse_range_spec(opt_string_view(self.range)),
    {
        parse_range(opt_as_str(&self.range))
    }

    /// The interval asked for (one day by default, `None` when unknown).
    pub fn interval_choice(&self) -> (r: Option<Interval>)
        ensures
            r == parse_interval_spec(opt_string_view(self.interval)),
    {
        parse_interval(opt_as_str(&self.interval))
    }

    /// Whether pre- and post-market data are asked for (no by default).
    pub fn include_prepost(&self) -> (r: bool)
        ensures
            r == (self.prepost == Some(true)),
    {
        match self.prepost {
            Some(b) => b,
            None => false,
        }
    }
}

/// Arguments of the corporate actions tool.
pub struct CorporateActionsArgs {
    /// The ticker symbol.
    pub symbol: String,
    /// Time range: 1d, 5d, 1mo, 3mo, 6mo, ytd, 1y, 2y, 5y, 10y, max (default: max).
    pub range: Option<String>,
}

impl CorporateActionsArgs {
    /// The range asked for: all history by default, six months for an
    /// unknown code.
    pub fn range_choice(&self) -> (r: Range)
        ensures
            r == match self.range {
                Some(code) => range_of_code(code@),
                None => Range::Max,
            },
    {
        match &self.range {
            Some(code) => parse_range(Some(code.as_str())),
            None => Range::Max,
        }
    }
}

/// Arguments of the batch quotes tool.
pub struct BatchQuotesArgs {
    /// List of ticker symbols (e.g. ["AAPL", "MSFT", "GOOGL"]).
    pub symbols: Vec<String>,
}

/// Arguments of the multi-symbol download tool.
pub struct DownloadArgs {
    /// List of ticker symbols.
    pub symbols: Vec<String>,
    /// Time range: 1d, 5d, 1mo, 3mo, 6mo, ytd, 1y, 2y, 5y, 10y, max (default: 6mo).
    pub range: Option<String>,
    /// Interval: 1d, 1wk, 1mo (default: 1d).
    pub interval: Option<String>,
}

impl DownloadArgs {
    /// The range asked for (six months by default).
    pub fn range_choice(&self) -> (r: Range)
        ensures
            r == parse_range_spec(opt_string_view(self.range)),
    {
        parse_range(opt_as_str(&self.range))
    }

    /// The interval asked for; one day when absent or unknown.
    pub fn interval_choice(&self) -> (r: Interval)
        ensures
            r == match parse_interval_spec(opt_string_view(self.interval)) {
                Some(i) => i,
                None => Interval::D1,
            },
    {
        match parse_interval(opt_as_str(&self.interval)) {
            Some(i) => i,
            None => Interval::D1,
        }
    }
}

/// Arguments of the financial statement tools.
pub struct StatementArgs {
    /// The ticker symbol.
    pub symbol: String,
    /// If true, return quarterly data instead of annual (default: false).
    pub quarterly: Option<bool>,
}

/// `label: subject`.
pub open spec fn title_text(label: Seq<char>, subject: Seq<char>) -> Seq<char> {
    label + ": "@ + subject
}

/// The period a statement request asks for.
pub open spec fn period_label(quarterly: bool) -> Seq<char> {
    if quarterly {
        "quarterly"@
    } else {
        "annual"@
    }
}

impl StatementArgs {
    /// Whether quarterly figures are asked for (annual by default).
    pub fn is_quarterly(&self) -> (r: bool)
        ensures
            r == (self.quarterly == Some(true)),
    {
        match self.quarterly {
            Some(b) => b,
            None => false,
        }
    }

    /// The answer's title: `label: symbol (quarterly)` or `label: symbol (annual)`.
    pub fn title(&self, label: &str) -> (r: String)
        ensures
            r@ == title_text(label@, self.symbol@) + " ("@ + period_label(
                self.quarterly == Some(true),
            ) + ")"@,
    {
        let mut out = tool_title(label, self.symbol.as_str());
        out.append(" (");
        if self.is_quarterly() {
            out.append("quarterly");
        } else {
            out.append("annual");
        }
        out.append(")");
        assert(out@ =~= title_text(label@, self.symbol@) + " ("@ + period_label(
            self.quarterly == Some(true),
        ) + ")"@);
        out
    }
}

/// Arguments of the option chain tool.
pub struct OptionChainArgs {
    /// The ticker symbol.
    pub symbol: String,
    /// Optional expiration date in YYYY-MM-DD format. If omitted, uses nearest expiration.
    pub date: Option<String>,
}

impl OptionChainArgs {
    /// The expiration asked for, as the Unix timestamp of its midnight UTC;
    /// `None` (the nearest expiration) when no date is given or it does not
    /// read as a `YYYY-MM-DD` date.
    pub fn expiration(&self) -> (r: Option<i64>)
        ensures
            r == match self.date {
                Some(d) => ymd_midnight_timestamp(d@),
                None => None,
            },
    {
        expiration_timestamp(opt_as_str(&self.date))
    }
}

/// Arguments of the ticker search tool.
pub struct SearchArgs {
    /// The search query (company name or keyword).
    pub query: String,
}

/// The title of a tool's answer: `label: subject`.
pub fn tool_title(label: &str, subject: &str) -> (r: String)
    ensures
        r@ == title_text(label@, subject@),
{
    let mut out = String::new();
    out.append(label);
    out.append(": ");
    out.append(subject);
    assert(out@ =~= title_text(label@, subject@));
    out
}

/// `label: subject (count unit)`.
pub open spec fn counted_title_text(label: Seq<char>, subject: Seq<char>, count: nat, unit: Seq<
    char,
>) -> Seq<char> {
    title_text(label, subject) + " ("@ + nat_digits(count) + " "@ + unit + ")"@
}

/// A title that also counts what the answer holds, e.g.
/// `Historical Data: AAPL (30 candles)`.
pub fn counted_title(label: &str, subject: &str, count: usize, unit: &str) -> (r: String)
    ensures
        r@ == counted_title_text(label@, subject@, count as nat, unit@),
{
    let mut out = tool_title(label, subject);
    out.append(" (");
    push_digits(&mut out, count as u64);
    out.append(" ");
    out.append(unit);
    out.append(")");
    assert(out@ =~= counted_title_text(label@, subject@, count as nat, unit@));
    out
}

/// `Option Chain: symbol (calls calls, puts puts)`.
pub open spec fn option_chain_title_text(symbol: Seq<char>, calls: nat, puts: nat) -> Seq<char> {
    "Option Chain: "@ + symbol + " ("@ + nat_digits(calls) + " calls, "@ + nat_digits(puts)
        + " puts)"@
}

/// The title of the option chain answer, with the numbers of calls and puts.
pub fn option_chain_title(symbol: &str, calls: usize, puts: usize) -> (r: String)
    ensures
        r@ == option_chain_title_text(symbol@, calls as nat, puts as nat),
{
    let mut out = String::new();
    out.append("Option Chain: ");
    out.append(symbol);
    out.append(" (");
    push_digits(&mut out, calls as u64);
    out.append(" calls, ");
    push_digits(&mut out, puts as u64);
    out.append(" puts)");
    assert(out@ =~= option_chain_title_text(symbol@, calls as nat, puts as nat));
    out
}

/// A corporate action, with its date and amounts already formatted.
pub enum CorporateAction {
    Dividend { date: String, amount: String },
    Split { date: String, numerator: u32, denominator: u32 },
    CapitalGain { date: String, gain: String },
    /// A kind of action this server does not know.
    Other,
}

/// The date of an action, `N/A` for an unknown kind.
pub open spec fn action_date_text(a: CorporateAction) -> Seq<char> {
    match a {
        CorporateAction::Dividend { date, .. } => date@,
        CorporateAction::Split { date, .. } => date@,
        CorporateAction::CapitalGain { date, .. } => date@,
        CorporateAction::Other => "N/A"@,
    }
}

/// The table row of an action: type, date, details.
pub open spec fn action_row_text(a: CorporateAction) -> Seq<Seq<char>> {
    match a {
        CorporateAction::Dividend { date, amount } => seq!["Dividend"@, date@, amount@],
        CorporateAction::Split { date, numerator, denominator } => seq![
            "Split"@,
            date@,
            nat_digits(numerator as nat) + ":"@ + nat_digits(denominator as nat),
        ],
        CorporateAction::CapitalGain { date, gain } => seq!["Capital Gain"@, date@, gain@],
        CorporateAction::Other => seq!["Unknown"@, "N/A"@, "N/A"@],
    }
}

/// The date of an action, `N/A` for an unknown kind.
pub fn fmt_action_date(a: &CorporateAction) -> (r: String)
    ensures
        r@ == action_date_text(*a),
{
    match a {
        CorporateAction::Dividend { date, .. } => date.clone(),
        CorporateAction::Split { date, .. } => date.clone(),
        CorporateAction::CapitalGain { date, .. } => date.clone(),
        CorporateAction::Other => String::from_str("N/A"),
    }
}

/// The views of a row of cells.
pub open spec fn row_view(row: Seq<String>) -> Seq<Seq<char>> {
    row.map_values(|c: String| c@)
}

/// The table row of an action: its type, its date, and the amount, the
/// split ratio `new:old`, or the gain.
pub fn action_row(a: &CorporateAction) -> (r: Vec<String>)
    ensures
        row_view(r@) == action_row_text(*a),
{
    let date = fmt_action_date(a);
    let mut row: Vec<String> = Vec::new();
    match a {
        CorporateAction::Dividend { amount, .. } => {
            row.push(String::from_str("Dividend"));
            row.push(date);
            row.push(amount.clone());
        },
        CorporateAction::Split { numerator, denominator, .. } => {
            let mut ratio = u64_text(*numerator as u64);
            ratio.append(":");
            push_digits(&mut ratio, *denominator as u64);
            row.push(String::from_str("Split"));
            row.push(date);
            row.push(ratio);
        },
        CorporateAction::CapitalGain { gain, .. } => {
            row.push(String::from_str("Capital Gain"));
            row.push(date);
            row.push(gain.clone());
        },
        CorporateAction::Other => {
            row.push(String::from_str("Unknown"));
            row.push(date);
            row.push(String::from_str("N/A"));
        },
    }
    assert(row_view(row@) =~= action_row_text(*a));
    row
}

/// A count, or the empty text when it is not known.
pub open spec fn count_cell_text(v: Option<u32>) -> Seq<char> {
    match v {
        Some(n) => nat_digits(n as nat),
        None => Seq::empty(),
    }
}

/// A recommendation count cell: the count, or empty when unknown.
pub fn count_cell(v: Option<u32>) -> (r: String)
    ensures
        r@ == count_cell_text(v),
{
    match v {
        Some(n) => u64_text(n as u64),
        None => String::new(),
    }
}

/// The table row of one period of analyst recommendations: period, then the
/// strong buy, buy, hold, sell and strong sell counts.
pub fn recommendation_row(
    period: String,
    strong_buy: Option<u32>,
    buy: Option<u32>,
    hold: Option<u32>,
    sell: Option<u32>,
    strong_sell: Option<u32>,
) -> (r: Vec<String>)
    ensures
        row_view(r@) == seq![
            period@,
            count_cell_text(strong_buy),
            count_cell_text(buy),
            count_cell_text(hold),
            count_cell_text(sell),
            count_cell_text(strong_sell),
        ],
{
    let mut row: Vec<String> = Vec::new();
    row.push(period);
    row.push(count_cell(strong_buy));
    row.push(count_cell(buy));
    row.push(count_cell(hold));
    row.push(count_cell(sell));
    row.push(count_cell(strong_sell));
    assert(row_view(row@) =~= seq![
        period@,
        count_cell_text(strong_buy),
        count_cell_text(buy),
        count_cell_text(hold),
        count_cell_text(sell),
        count_cell_text(strong_sell),
    ]);
    row
}

/// A share count, or `N/A` when it is not known.
pub open spec fn shares_cell_text(v: Option<u64>) -> Seq<char> {
    match v {
        Some(n) => nat_digits(n as nat),
        None => "N/A"@,
    }
}

/// A share count cell: the count, or `N/A` when unknown.
pub fn shares_cell(v: Option<u64>) -> (r: String)
    ensures
        r@ == shares_cell_text(v),
{
    match v {
        Some(n) => u64_text(n),
        None => String::from_str("N/A"),
    }
}

/// The text of an optional value, empty when it is absent.
pub open spec fn or_empty(s: Option<String>) -> Seq<char> {
    match s {
        Some(t) => t@,
        None => Seq::empty(),
    }
}

fn string_or_empty(s: Option<String>) -> (r: String)
    ensures
        r@ == or_empty(s),
{
    match s {
        Some(t) => t,
        None => String::new(),
    }
}

/// The table row of an institutional holder: holder, shares, percentage
/// held, value, date reported.
pub fn holder_row(holder: String, shares: Option<u64>, pct_held: String, value: String, date_reported: String) -> (r: Vec<String>)
    ensures
        row_view(r@) == seq![holder@, shares_cell_text(shares), pct_held@, value@, date_reported@],
{
    let mut row: Vec<String> = Vec::new();
    row.push(holder);
    row.push(shares_cell(shares));
    row.push(pct_held);
    row.push(value);
    row.push(date_reported);
    assert(row_view(row@) =~= seq![holder@, shares_cell_text(shares), pct_held@, value@, date_reported@]);
    row
}

/// The table row of a news article: title, publisher, date, link (the
/// missing ones empty).
pub fn news_row(title: String, publisher: Option<String>, published_at: String, link: Option<String>) -> (r: Vec<String>)
    ensures
        row_view(r@) == seq![title@, or_empty(publisher), published_at@, or_empty(link)],
{
    let mut row: Vec<String> = Vec::new();
    row.push(title);
    row.push(string_or_empty(publisher));
    row.push(published_at);
    row.push(string_or_empty(link));
    assert(row_view(row@) =~= seq![title@, or_empty(publisher), published_at@, or_empty(link)]);
    row
}

/// The table row of a search result: symbol, name (empty when unknown),
/// exchange, kind.
pub fn search_row(symbol: String, name: Option<String>, exchange: String, kind: String) -> (r: Vec<String>)
    ensures
        row_view(r@) == seq![symbol@, or_empty(name), exchange@, kind@],
{
    let mut row: Vec<String> = Vec::new();
    row.push(symbol);
    row.push(string_or_empty(name));
    row.push(exchange);
    row.push(kind);
    assert(row_view(row@) =~= seq![symbol@, or_empty(name), exchange@, kind@]);
    row
}


/// One candle of a multi-symbol download, its fields already formatted.
pub struct DownloadLine {
    pub ts: String,
    pub open: String,
    pub high: String,
    pub low: String,
    pub close: String,
    pub volume: String,
}

/// The candles of one symbol of a multi-symbol download.
pub struct DownloadSection {
    pub symbol: String,
    pub lines: Vec<DownloadLine>,
}

/// One table line of a download section.
pub open spec fn download_line_text(l: DownloadLine) -> Seq<char> {
    "| "@ + l.ts@ + " | "@ + l.open@ + " | "@ + l.high@ + " | "@ + l.low@ + " | "@ + l.close@
        + " | "@ + l.volume@ + " |\n"@
}

/// The table lines of a download section, in order.
pub open spec fn download_lines_text(lines: Seq<DownloadLine>) -> Seq<char>
    decreases lines.len(),
{
    if lines.len() == 0 {
        Seq::empty()
    } else {
        download_lines_text(lines.drop_last()) + download_line_text(lines.last())
    }
}

/// A download section: a heading with the symbol, then its table.
pub open spec fn download_section_text(s: DownloadSection) -> Seq<char> {
    "\n### "@ + s.symbol@
        + "\n\n| Date | Open | High | Low | Close | Volume |\n|------|------|------|------|-------|--------|\n"@
        + download_lines_text(s.lines@)
}

/// The download sections, in order.
pub open spec fn download_sections_text(sections: Seq<DownloadSection>) -> Seq<char>
    decreases sections.len(),
{
    if sections.len() == 0 {
        Seq::empty()
    } else {
        download_sections_text(sections.drop_last()) + download_section_text(sections.last())
    }
}

/// The answer of the multi-symbol download: the JSON block, then one table
/// per symbol; when no symbol came back, the table of the JSON's fields.
pub open spec fn download_markdown_text(
    json: Seq<char>,
    fields: Seq<JsonField>,
    sections: Seq<DownloadSection>,
) -> Seq<char> {
    if sections.len() == 0 {
        json_md_text("Multi-Symbol Download"@, json, fields)
    } else {
        json_block_text("Multi-Symbol Download"@, json) + download_sections_text(sections)
    }
}

fn push_download_line(out: &mut String, l: &DownloadLine)
    ensures
        final(out)@ == old(out)@ + download_line_text(*l),
{
    out.append("| ");
    out.append(l.ts.as_str());
    out.append(" | ");
    out.append(l.open.as_str());
    out.append(" | ");
    out.append(l.high.as_str());
    out.append(" | ");
    out.append(l.low.as_str());
    out.append(" | ");
    out.append(l.close.as_str());
    out.append(" | ");
    out.append(l.volume.as_str());
    out.append(" |\n");
    assert(out@ =~= old(out)@ + download_line_text(*l));
}

fn push_download_section(out: &mut String, s: &DownloadSection)
    ensures
        final(out)@ == old(out)@ + download_section_text(*s),
{
    let ghost start = out@;
    out.append("\n### ");
    out.append(s.symbol.as_str());
    out.append(
        "\n\n| Date | Open | High | Low | Close | Volume |\n|------|------|------|------|-------|--------|\n",
    );
    let ghost head = out@;
    let mut i: usize = 0;
    while i < s.lines.len()
        invariant
            i <= s.lines@.len(),
            out@ == head + download_lines_text(s.lines@.take(i as int)),
        decreases s.lines@.len() - i,
    {
        push_download_line(out, &s.lines[i]);
        assert(s.lines@.take(i + 1).drop_last() =~= s.lines@.take(i as int));
        assert(out@ =~= head + download_lines_text(s.lines@.take(i + 1)));
        i = i + 1;
    }
    assert(s.lines@.take(s.lines@.len() as int) =~= s.lines@);
    assert(out@ =~= start + download_section_text(*s));
}

/// The answer of the multi-symbol download tool.
pub fn download_markdown(json: &str, fields: &[JsonField], sections: &Vec<DownloadSection>) -> (r:
    String)
    ensures
        r@ == download_markdown_text(json@, fields@, sections@),
{
    if sections.len() == 0 {
        return json_md("Multi-Symbol Download", json, fields);
    }
    let mut out = String::new();
    out.append("## ");
    out.append("Multi-Symbol Download");
    out.append("\n\n```json\n");
    out.append(json);
    out.append("\n```\n");
    let ghost head = out@;
    assert(head =~= json_block_text("Multi-Symbol Download"@, json@));
    let mut i: usize = 0;
    while i < sections.len()
        invariant
            i <= sections@.len(),
            out@ == head + download_sections_text(sections@.take(i as int)),
        decreases sections@.len() - i,
    {
        push_download_section(&mut out, &sections[i]);
        assert(sections@.take(i + 1).drop_last() =~= sections@.take(i as int));
        assert(out@ =~= head + download_sections_text(sections@.take(i + 1)));
        i = i + 1;
    }
    assert(sections@.take(sections@.len() as int) =~= sections@);
    assert(out@ =~= download_markdown_text(json@, fields@, sections@));
    out
}

/// Arguments of the report tool.
pub struct ReportArgs {
    /// The ticker symbol.
    pub symbol: String,
    /// Time range of the price history: 1d, 5d, 1mo, 3mo, 6mo, ytd, 1y, 2y, 5y, 10y, max (default: 6mo).
    pub range: Option<String>,
}

impl ReportArgs {
    /// The range of price history asked for (six months by default).
    pub fn range_choice(&self) -> (r: Range)
        ensures
            r == parse_range_spec(opt_string_view(self.range)),
    {
        parse_range(opt_as_str(&self.range))
    }
}

/// Whether `symbol` can name a report file: it is not empty and holds no
/// `/` or `\`, so the file stays in the reports directory.
pub fn report_symbol_ok(symbol: &str) -> (r: bool)
    ensures
        r == (symbol@.len() > 0 && !symbol@.contains('/') && !symbol@.contains('\\')),
{
    let n = symbol.unicode_len();
    if n == 0 {
        return false;
    }
    let mut i: usize = 0;
    while i < n
        invariant
            i <= n,
            n == symbol@.len(),
            forall|k: int| 0 <= k < i ==> symbol@[k] != '/' && symbol@[k] != '\\',
        decreases n - i,
    {
        let c = symbol.get_char(i);
        if c == '/' || c == '\\' {
            return false;
        }
        i = i + 1;
    }
    true
}

/// The file a report for `symbol` is written to: `symbol.html`.
pub fn report_file_name(symbol: &str) -> (r: String)
    ensures
        r@ == symbol@ + ".html"@,
{
    let mut out = String::from_str(symbol);
    out.append(".html");
    out
}

/// Where a report file is served over HTTP: `base/reports/file`.
pub fn report_url(base_url: &str, file_name: &str) -> (r: String)
    ensures
        r@ == base_url@ + "/reports/"@ + file_name@,
{
    let mut out = String::from_str(base_url);
    out.append("/reports/");
    out.append(file_name);
    out
}


/// The details cell of a split reads back as the ratio in its order: the
/// text before its `:` is the numerator (new shares) and the text after it
/// the denominator (old shares), whichever is larger.
pub proof fn lemma_split_ratio_reads_back(date: String, numerator: u32, denominator: u32)
    ensures
        ({
            let row = action_row_text(
                CorporateAction::Split { date: date, numerator: numerator, denominator: denominator },
            );
            &&& row.len() == 3
            &&& row[0] == "Split"@
            &&& row[1] == date@
            &&& exists|k: int|
                0 <= k < row[2].len() && row[2][k] == ':' && parse_unsigned_spec(
                    #[trigger] row[2].take(k),
                    u32::MAX as nat,
                ) == Some(numerator as nat) && parse_unsigned_spec(row[2].skip(k + 1), u32::MAX as nat)
                    == Some(denominator as nat)
        }),
{
    let row = action_row_text(
        CorporateAction::Split { date: date, numerator: numerator, denominator: denominator },
    );
    let d = row[2];
    let n = nat_digits(numerator as nat);
    let m = nat_digits(denominator as nat);
    let k = n.len() as int;
    assert(d == n + ":"@ + m);
    reveal_strlit(":");
    assert(":"@ =~= seq![':']);
    assert(d.take(k) =~= n);
    assert(d.skip(k + 1) =~= m);
    assert(d[k] == ':');
    lemma_parse_decimal_round_trip(numerator as nat, u32::MAX as nat);
    lemma_parse_decimal_round_trip(denominator as nat, u32::MAX as nat);
    assert(parse_unsigned_spec(d.take(k), u32::MAX as nat) == Some(numerator as nat));
}

/// The lines of candles are the candles' lines one after the other.
pub proof fn lemma_download_lines_concat(a: Seq<DownloadLine>, b: Seq<DownloadLine>)
    ensures
        download_lines_text(a + b) == download_lines_text(a) + download_lines_text(b),
    decreases b.len(),
{
    if b.len() == 0 {
        assert(a + b =~= a);
        assert(download_lines_text(a) + download_lines_text(b) =~= download_lines_text(a));
    } else {
        lemma_download_lines_concat(a, b.drop_last());
        assert((a + b).drop_last() =~= a + b.drop_last());
        assert((a + b).last() == b.last());
        assert(download_lines_text(a + b) =~= download_lines_text(a) + download_lines_text(b));
    }
}

/// A download section holds one table line for every candle of its symbol,
/// none left out and in order: after the heading come the lines of the
/// candles before the `i`-th, then the `i`-th candle's line, then the lines
/// of the candles after it.
pub proof fn lemma_download_section_lines(s: DownloadSection, i: int)
    requires
        0 <= i < s.lines@.len(),
    ensures
        download_section_text(s) == "\n### "@ + s.symbol@
            + "\n\n| Date | Open | High | Low | Close | Volume |\n|------|------|------|------|-------|--------|\n"@
            + download_lines_text(s.lines@.take(i)) + download_line_text(s.lines@[i])
            + download_lines_text(s.lines@.skip(i + 1)),
{
    let lines = s.lines@;
    assert(lines =~= lines.take(i + 1) + lines.skip(i + 1));
    lemma_download_lines_concat(lines.take(i + 1), lines.skip(i + 1));
    assert(lines.take(i + 1).drop_last() =~= lines.take(i));
    assert(lines.take(i + 1).last() == lines[i]);
}

/// The sections of a download are the sections' texts one after the other.
pub proof fn lemma_download_sections_concat(a: Seq<DownloadSection>, b: Seq<DownloadSection>)
    ensures
        download_sections_text(a + b) == download_sections_text(a) + download_sections_text(b),
    decreases b.len(),
{
    if b.len() == 0 {
        assert(a + b =~= a);
        assert(download_sections_text(a) + download_sections_text(b) =~= download_sections_text(a));
    } else {
        lemma_download_sections_concat(a, b.drop_last());
        assert((a + b).drop_last() =~= a + b.drop_last());
        assert((a + b).last() == b.last());
        assert(download_sections_text(a + b) =~= download_sections_text(a) + download_sections_text(
            b,
        ));
    }
}

/// Every symbol that came back has its whole section in the download answer.
pub proof fn lemma_download_shows_every_section(
    json: Seq<char>,
    fields: Seq<JsonField>,
    sections: Seq<DownloadSection>,
    i: int,
)
    requires
        0 <= i < sections.len(),
    ensures
        contains_text(download_markdown_text(json, fields, sections), download_section_text(sections[i])),
{
    assert(sections =~= sections.take(i + 1) + sections.skip(i + 1));
    lemma_download_sections_concat(sections.take(i + 1), sections.skip(i + 1));
    assert(sections.take(i + 1).drop_last() =~= sections.take(i));
    assert(sections.take(i + 1).last() == sections[i]);
    let pre = json_block_text("Multi-Symbol Download"@, json) + download_sections_text(sections.take(i));
    let post = download_sections_text(sections.skip(i + 1));
    assert(download_markdown_text(json, fields, sections) =~= pre + download_section_text(sections[i]) + post);
    lemma_contains_middle(pre, download_section_text(sections[i]), post);
}

} // verus!
