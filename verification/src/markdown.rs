//! Markdown answers of the tools: a titled JSON block, optionally followed by
//! a table whose cells have their `|` escaped.

use vstd::prelude::*;
use crate::text::{
    contains_text, lemma_contains_middle, lemma_parse_decimal_round_trip, nat_digits,
    parse_unsigned_spec, push_char, usize_text,
};

verus! {

/// The text of one character once escaped for a Markdown table cell.
pub open spec fn escape_char_text(c: char) -> Seq<char> {
    if c == '|' {
        seq!['\\', '|']
    } else {
        seq![c]
    }
}

/// `s` with every `|` replaced by `\|`, all other characters kept in order.
pub open spec fn escape_md_text(s: Seq<char>) -> Seq<char>
    decreases s.len(),
{
    if s.len() == 0 {
        Seq::empty()
    } else {
        escape_md_text(s.drop_last()) + escape_char_text(s.last())
    }
}

/// Escapes a table cell: every `|` becomes `\|`.
pub fn escape_md(s: &str) -> (r: String)
    ensures
        r@ == escape_md_text(s@),
{
    let mut out = String::new();
    let len = s.unicode_len();
    let mut i: usize = 0;
    while i < len
        invariant
            i <= len,
            len == s@.len(),
            out@ == escape_md_text(s@.subrange(0, i as int)),
        decreases len - i,
    {
        let c = s.get_char(i);
        assert(s@.subrange(0, i + 1).drop_last() =~= s@.subrange(0, i as int));
        if c == '|' {
            push_char(&mut out, '\\');
            push_char(&mut out, '|');
        } else {
            push_char(&mut out, c);
        }
        assert(out@ =~= escape_md_text(s@.subrange(0, i + 1)));
        i = i + 1;
    }
    assert(s@.subrange(0, len as int) =~= s@);
    out
}


/// What `str::replace("\\|", "|")` gives: scanning from the left, every
/// `\|` becomes `|`, all other characters are kept.
pub open spec fn unescape_md_text(t: Seq<char>) -> Seq<char>
    decreases t.len(),
{
    if t.len() == 0 {
        Seq::empty()
    } else if t.len() >= 2 && t[0] == '\\' && t[1] == '|' {
        seq!['|'] + unescape_md_text(t.skip(2))
    } else {
        seq![t[0]] + unescape_md_text(t.skip(1))
    }
}

/// The number of `|` in `s` (what `s.matches('|').count()` gives).
pub open spec fn pipe_count(s: Seq<char>) -> nat
    decreases s.len(),
{
    if s.len() == 0 {
        0
    } else {
        pipe_count(s.drop_last()) + if s.last() == '|' {
            1nat
        } else {
            0nat
        }
    }
}

/// Escaping works character by character from the front too.
proof fn lemma_escape_md_prepend(c: char, s: Seq<char>)
    ensures
        escape_md_text(seq![c] + s) == escape_char_text(c) + escape_md_text(s),
    decreases s.len(),
{
    let t = seq![c] + s;
    if s.len() == 0 {
        assert(t.drop_last() =~= Seq::<char>::empty());
        assert(escape_md_text(t.drop_last()) == Seq::<char>::empty());
        assert(t.last() == c);
        assert(escape_md_text(t) =~= escape_char_text(c));
        assert(escape_md_text(s) =~= Seq::<char>::empty());
        assert(escape_char_text(c) + escape_md_text(s) =~= escape_char_text(c));
    } else {
        lemma_escape_md_prepend(c, s.drop_last());
        assert(t.drop_last() =~= seq![c] + s.drop_last());
        assert(t.last() == s.last());
        assert(escape_md_text(t) =~= escape_char_text(c) + escape_md_text(s));
    }
}

/// An escaped cell never begins with a bare `|`.
proof fn lemma_escape_md_first(s: Seq<char>)
    requires
        escape_md_text(s).len() > 0,
    ensures
        escape_md_text(s)[0] != '|',
{
    assert(s.len() > 0);
    assert(s =~= seq![s[0]] + s.skip(1));
    lemma_escape_md_prepend(s[0], s.skip(1));
}

/// Escaping loses nothing: `replace("\\|", "|")` on an escaped cell gives
/// the cell itself, so two different cells never escape to the same text.
pub proof fn lemma_escape_md_round_trip(s: Seq<char>)
    ensures
        unescape_md_text(escape_md_text(s)) == s,
    decreases s.len(),
{
    if s.len() > 0 {
        let rest = s.skip(1);
        assert(s =~= seq![s[0]] + rest);
        lemma_escape_md_prepend(s[0], rest);
        lemma_escape_md_round_trip(rest);
        let e = escape_md_text(rest);
        let t = escape_md_text(s);
        if s[0] == '|' {
            assert(t.skip(2) =~= e);
            assert(unescape_md_text(t) =~= s);
        } else {
            assert(t.skip(1) =~= e);
            if t.len() >= 2 && t[0] == '\\' && t[1] == '|' {
                lemma_escape_md_first(rest);
                assert(e[0] == t[1]);
            }
            assert(unescape_md_text(t) =~= s);
        }
    }
}

/// Escaping adds exactly one character per `|`: the escaped cell is as long
/// as the cell plus its number of `|`.
pub proof fn lemma_escape_md_len(s: Seq<char>)
    ensures
        escape_md_text(s).len() == s.len() + pipe_count(s),
    decreases s.len(),
{
    if s.len() > 0 {
        lemma_escape_md_len(s.drop_last());
    }
}

/// An escaped cell never ends a table column early: every `|` in it comes
/// right after a `\`.
pub proof fn lemma_escape_md_no_bare_pipe(s: Seq<char>)
    ensures
        forall|i: int|
            0 <= i < escape_md_text(s).len() && #[trigger] escape_md_text(s)[i] == '|' ==> i > 0
                && escape_md_text(s)[i - 1] == '\\',
    decreases s.len(),
{
    if s.len() > 0 {
        lemma_escape_md_no_bare_pipe(s.drop_last());
        let e = escape_md_text(s.drop_last());
        let t = escape_md_text(s);
        assert forall|i: int| 0 <= i < t.len() && #[trigger] t[i] == '|' implies i > 0 && t[i
            - 1] == '\\' by {
            if i < e.len() {
                assert(t[i] == e[i]);
                assert(e[i - 1] == t[i - 1]);
            }
        }
    }
}

/// A cell without `|` is written as it is.
pub proof fn lemma_escape_md_plain(s: Seq<char>)
    requires
        !s.contains('|'),
    ensures
        escape_md_text(s) == s,
    decreases s.len(),
{
    if s.len() > 0 {
        assert(!s.drop_last().contains('|')) by {
            if s.drop_last().contains('|') {
                let k = choose|k: int| 0 <= k < s.drop_last().len() && s.drop_last()[k] == '|';
                assert(s[k] == '|');
            }
        }
        lemma_escape_md_plain(s.drop_last());
        assert(s[s.len() - 1] != '|');
        assert(escape_md_text(s) =~= s);
    }
}

/// `parts` joined with `sep` between neighbours (empty when there are no parts).
pub open spec fn join_text(parts: Seq<Seq<char>>, sep: Seq<char>) -> Seq<char>
    decreases parts.len(),
{
    if parts.len() == 0 {
        Seq::empty()
    } else if parts.len() == 1 {
        parts[0]
    } else {
        join_text(parts.drop_last(), sep) + sep + parts.last()
    }
}

/// The titled JSON block that every tool answer begins with.
pub open spec fn json_block_text(title: Seq<char>, json: Seq<char>) -> Seq<char> {
    "## "@ + title + "\n\n```json\n"@ + json + "\n```\n"@
}

/// One top-level field of an answer's JSON, its value already written as
/// text.
pub struct JsonField {
    pub key: String,
    pub value: String,
}

/// A value of an answer's JSON as its field table reads it. Arrays and
/// objects inside it are kept as their compact JSON text.
pub enum JsonValue {
    Null,
    Bool(bool),
    /// A number, as its JSON text.
    Number(String),
    /// A string, as its characters (without quotes or escapes).
    Str(String),
    /// An array or an object, as its compact JSON text.
    Compound(String),
}

/// A member of a JSON object: its key and its value.
pub struct JsonMember {
    pub key: String,
    pub value: JsonValue,
}

/// The top level of an answer's JSON.
pub enum JsonTop {
    Object(Vec<JsonMember>),
    Array(Vec<JsonValue>),
    /// A number, string, boolean or null at the top level.
    Scalar(JsonValue),
}

/// How the field table shows a value: a string as its characters, any other
/// value as its JSON text.
pub open spec fn value_text(v: JsonValue) -> Seq<char> {
    match v {
        JsonValue::Null => "null"@,
        JsonValue::Bool(b) => if b {
            "true"@
        } else {
            "false"@
        },
        JsonValue::Number(n) => n@,
        JsonValue::Str(t) => t@,
        JsonValue::Compound(j) => j@,
    }
}

/// The fields of the JSON's top level, as `(key, value)` texts: the members
/// of an object in order, the elements of an array keyed by their position,
/// and none for a scalar.
pub open spec fn top_fields(top: JsonTop) -> Seq<(Seq<char>, Seq<char>)> {
    match top {
        JsonTop::Object(members) => members@.map_values(
            |m: JsonMember| (m.key@, value_text(m.value)),
        ),
        JsonTop::Array(items) => Seq::new(
            items@.len(),
            |i: int| (nat_digits(i as nat), value_text(items@[i])),
        ),
        JsonTop::Scalar(_) => Seq::empty(),
    }
}

/// The `(key, value)` texts of a list of fields.
pub open spec fn field_pairs(fields: Seq<JsonField>) -> Seq<(Seq<char>, Seq<char>)> {
    fields.map_values(|f: JsonField| (f.key@, f.value@))
}

fn json_value_text(v: &JsonValue) -> (r: String)
    ensures
        r@ == value_text(*v),
{
    match v {
        JsonValue::Null => String::from_str("null"),
        JsonValue::Bool(b) => if *b {
            String::from_str("true")
        } else {
            String::from_str("false")
        },
        JsonValue::Number(n) => n.clone(),
        JsonValue::Str(t) => t.clone(),
        JsonValue::Compound(j) => j.clone(),
    }
}

/// The rows of the field table of an answer's JSON: one per member of a
/// top-level object, one per element of a top-level array (keyed `0`, `1`,
/// ...), none for a scalar; strings shown as their characters, other values
/// as their JSON text.
pub fn json_fields(top: &JsonTop) -> (r: Vec<JsonField>)
    ensures
        field_pairs(r@) == top_fields(*top),
{
    let mut out: Vec<JsonField> = Vec::new();
    match top {
        JsonTop::Object(members) => {
            let mut i: usize = 0;
            while i < members.len()
                invariant
                    i <= members@.len(),
                    field_pairs(out@) =~= members@.take(i as int).map_values(
                        |m: JsonMember| (m.key@, value_text(m.value)),
                    ),
                decreases members@.len() - i,
            {
                let m = &members[i];
                let ghost before = out@;
                let f = JsonField { key: m.key.clone(), value: json_value_text(&m.value) };
                let ghost pair = (f.key@, f.value@);
                out.push(f);
                proof {
                    assert(field_pairs(out@) =~= field_pairs(before).push(pair));
                    assert(members@.take(i + 1) =~= members@.take(i as int).push(members@[i as int]));
                    assert(members@.take(i + 1).map_values(
                        |m: JsonMember| (m.key@, value_text(m.value)),
                    ) =~= members@.take(i as int).map_values(
                        |m: JsonMember| (m.key@, value_text(m.value)),
                    ).push(pair));
                }
                i = i + 1;
            }
            assert(members@.take(members@.len() as int) =~= members@);
        },
        JsonTop::Array(items) => {
            let mut i: usize = 0;
            while i < items.len()
                invariant
                    i <= items@.len(),
                    field_pairs(out@) =~= Seq::new(
                        i as nat,
                        |k: int| (nat_digits(k as nat), value_text(items@[k])),
                    ),
                decreases items@.len() - i,
            {
                let ghost before = out@;
                let f = JsonField { key: usize_text(i), value: json_value_text(&items[i]) };
                let ghost pair = (f.key@, f.value@);
                out.push(f);
                proof {
                    assert(field_pairs(out@) =~= field_pairs(before).push(pair));
                }
                i = i + 1;
            }
        },
        JsonTop::Scalar(_) => {},
    }
    out
}

/// The answer's field table reads the JSON's top level: building the rows
/// with `json_fields` gives, line by line, the top-level keys with their
/// values (escaped) after the `| Field | Value |` header.
pub proof fn lemma_fields_follow_json(fields: Seq<JsonField>, top: JsonTop)
    requires
        field_pairs(fields) == top_fields(top),
    ensures
        field_rows(fields) == top_fields(top).map_values(
            |p: (Seq<char>, Seq<char>)| seq![p.0, p.1],
        ),
{
    assert(field_rows(fields) =~= top_fields(top).map_values(
        |p: (Seq<char>, Seq<char>)| seq![p.0, p.1],
    )) by {
        assert forall|i: int| 0 <= i < fields.len() implies #[trigger] field_rows(fields)[i]
            == seq![top_fields(top)[i].0, top_fields(top)[i].1] by {
            assert(field_pairs(fields)[i] == (fields[i].key@, fields[i].value@));
        }
    }
}

/// The cells of the field table: one `[key, value]` row per field.
pub open spec fn field_rows(fields: Seq<JsonField>) -> Seq<Seq<Seq<char>>> {
    fields.map_values(|f: JsonField| seq![f.key@, f.value@])
}

/// The field table: a `| Field | Value |` header, a `|---|---|` separator,
/// and one escaped `| key | value |` line per field.
pub open spec fn field_table_text(fields: Seq<JsonField>) -> Seq<char> {
    "| Field | Value |\n|---|---|\n"@ + table_body(field_rows(fields))
}

/// A tool answer: the titled JSON block, a blank line, then the table of the
/// JSON's fields.
pub open spec fn json_md_text(title: Seq<char>, json: Seq<char>, fields: Seq<JsonField>) -> Seq<
    char,
> {
    json_block_text(title, json) + "\n"@ + field_table_text(fields)
}

/// One Markdown table line holding `cells`.
pub open spec fn table_line(cells: Seq<Seq<char>>) -> Seq<char> {
    "| "@ + join_text(cells, " | "@) + " |\n"@
}

/// The separator line under a header of `n` columns.
pub open spec fn separator_cells(n: nat) -> Seq<Seq<char>> {
    Seq::new(n, |i: int| "---"@)
}

/// The text views of a row of cells.
pub open spec fn cells_view(row: Seq<String>) -> Seq<Seq<char>> {
    row.map_values(|c: String| c@)
}

/// The body lines of a table: each row on its own line, its cells escaped.
pub open spec fn table_body(rows: Seq<Seq<Seq<char>>>) -> Seq<char>
    decreases rows.len(),
{
    if rows.len() == 0 {
        Seq::empty()
    } else {
        table_body(rows.drop_last()) + table_line(
            rows.last().map_values(|c: Seq<char>| escape_md_text(c)),
        )
    }
}

/// The titled JSON block, a blank line, and the table of `headers` and
/// `rows`; without rows, the table of the JSON's fields instead.
pub open spec fn json_md_with_table_text(
    title: Seq<char>,
    json: Seq<char>,
    fields: Seq<JsonField>,
    headers: Seq<Seq<char>>,
    rows: Seq<Seq<Seq<char>>>,
) -> Seq<char> {
    if rows.len() == 0 {
        json_md_text(title, json, fields)
    } else {
        json_block_text(title, json) + "\n"@ + table_line(headers) + table_line(
            separator_cells(headers.len()),
        ) + table_body(rows)
    }
}

fn json_block(title: &str, json: &str) -> (r: String)
    ensures
        r@ == json_block_text(title@, json@),
{
    let mut out = String::new();
    out.append("## ");
    out.append(title);
    out.append("\n\n```json\n");
    out.append(json);
    out.append("\n```\n");
    assert(out@ =~= json_block_text(title@, json@));
    out
}

fn push_field_row(out: &mut String, f: &JsonField)
    ensures
        final(out)@ == old(out)@ + table_line(
            seq![f.key@, f.value@].map_values(|c: Seq<char>| escape_md_text(c)),
        ),
{
    let key = escape_md(f.key.as_str());
    let value = escape_md(f.value.as_str());
    out.append("| ");
    out.append(key.as_str());
    out.append(" | ");
    out.append(value.as_str());
    out.append(" |\n");
    proof {
        let cells = seq![f.key@, f.value@].map_values(|c: Seq<char>| escape_md_text(c));
        assert(cells =~= seq![key@, value@]);
        assert(cells.drop_last() =~= seq![key@]);
        assert(join_text(cells.drop_last(), " | "@) == key@);
        assert(cells.last() == value@);
        assert(join_text(cells, " | "@) == key@ + " | "@ + value@);
        assert(out@ =~= old(out)@ + table_line(cells));
    }
}

/// Appends the table of the JSON's fields.
fn push_field_table(out: &mut String, fields: &[JsonField])
    ensures
        final(out)@ == old(out)@ + field_table_text(fields@),
{
    out.append("| Field | Value |\n|---|---|\n");
    let ghost head = out@;
    let ghost rows = field_rows(fields@);
    let mut i: usize = 0;
    while i < fields.len()
        invariant
            i <= fields@.len(),
            rows == field_rows(fields@),
            out@ == head + table_body(rows.subrange(0, i as int)),
        decreases fields@.len() - i,
    {
        push_field_row(out, &fields[i]);
        proof {
            let next = rows.subrange(0, i + 1);
            assert(next.drop_last() =~= rows.subrange(0, i as int));
            assert(next.last() == seq![fields@[i as int].key@, fields@[i as int].value@]);
            assert(out@ =~= head + table_body(next));
        }
        i = i + 1;
    }
    assert(rows.subrange(0, fields@.len() as int) =~= rows);
    assert(out@ =~= old(out)@ + field_table_text(fields@));
}

/// A tool answer: `## title`, the JSON text in a fenced block, a blank line,
/// then a `| Field | Value |` table with one escaped line per top-level field
/// of the JSON.
pub fn json_md(title: &str, json: &str, fields: &[JsonField]) -> (r: String)
    ensures
        r@ == json_md_text(title@, json@, fields@),
{
    let mut out = json_block(title, json);
    out.append("\n");
    push_field_table(&mut out, fields);
    assert(out@ =~= json_md_text(title@, json@, fields@));
    out
}

/// Appends `parts` joined by `sep`.
fn push_joined(out: &mut String, parts: &[&str], sep: &str)
    ensures
        final(out)@ == old(out)@ + join_text(parts@.map_values(|p: &str| p@), sep@),
{
    let ghost start = out@;
    let ghost views = parts@.map_values(|p: &str| p@);
    let mut i: usize = 0;
    while i < parts.len()
        invariant
            i <= parts@.len(),
            views == parts@.map_values(|p: &str| p@),
            out@ == start + join_text(views.subrange(0, i as int), sep@),
        decreases parts@.len() - i,
    {
        if i > 0 {
            out.append(sep);
        }
        out.append(parts[i]);
        proof {
            let next = views.subrange(0, i + 1);
            assert(next.drop_last() =~= views.subrange(0, i as int));
            if i == 0 {
                assert(join_text(next, sep@) == next[0]);
            }
            assert(out@ =~= start + join_text(next, sep@));
        }
        i = i + 1;
    }
    assert(views.subrange(0, parts@.len() as int) =~= views);
}

/// Appends the cells of `row`, escaped and joined by ` | `.
fn push_escaped_cells(out: &mut String, row: &Vec<String>)
    ensures
        final(out)@ == old(out)@ + join_text(
            cells_view(row@).map_values(|c: Seq<char>| escape_md_text(c)),
            " | "@,
        ),
{
    let ghost start = out@;
    let ghost views = cells_view(row@).map_values(|c: Seq<char>| escape_md_text(c));
    let mut i: usize = 0;
    while i < row.len()
        invariant
            i <= row@.len(),
            views == cells_view(row@).map_values(|c: Seq<char>| escape_md_text(c)),
            out@ == start + join_text(views.subrange(0, i as int), " | "@),
        decreases row@.len() - i,
    {
        if i > 0 {
            out.append(" | ");
        }
        let cell = escape_md(row[i].as_str());
        out.append(cell.as_str());
        proof {
            let next = views.subrange(0, i + 1);
            assert(next.drop_last() =~= views.subrange(0, i as int));
            if i == 0 {
                assert(join_text(next, " | "@) == next[0]);
            }
            assert(out@ =~= start + join_text(next, " | "@));
        }
        i = i + 1;
    }
    assert(views.subrange(0, row@.len() as int) =~= views);
}

/// Appends the separator line for `n` columns.
fn push_separator(out: &mut String, n: usize)
    ensures
        final(out)@ == old(out)@ + table_line(separator_cells(n as nat)),
{
    let ghost start = out@;
    out.append("| ");
    let mut i: usize = 0;
    while i < n
        invariant
            i <= n,
            out@ == start + "| "@ + join_text(separator_cells(i as nat), " | "@),
        decreases n - i,
    {
        if i > 0 {
            out.append(" | ");
        }
        out.append("---");
        proof {
            assert(separator_cells((i + 1) as nat).drop_last() =~= separator_cells(i as nat));
            if i == 0 {
                assert(join_text(separator_cells(1), " | "@) == "---"@);
            }
            assert(out@ =~= start + "| "@ + join_text(separator_cells((i + 1) as nat), " | "@));
        }
        i = i + 1;
    }
    out.append(" |\n");
    assert(out@ =~= start + table_line(separator_cells(n as nat)));
}

/// A tool answer with a table of its own: the titled JSON block, a blank
/// line, and the table of `headers` and `rows` (cells escaped); without rows,
/// the answer is that of `json_md`, with the table of the JSON's fields.
pub fn json_md_with_table(
    title: &str,
    json: &str,
    fields: &[JsonField],
    headers: &[&str],
    rows: &[Vec<String>],
) -> (r: String)
    ensures
        r@ == json_md_with_table_text(
            title@,
            json@,
            fields@,
            headers@.map_values(|h: &str| h@),
            rows@.map_values(|row: Vec<String>| cells_view(row@)),
        ),
{
    if rows.len() == 0 {
        return json_md(title, json, fields);
    }
    let ghost hv = headers@.map_values(|h: &str| h@);
    let ghost rv = rows@.map_values(|row: Vec<String>| cells_view(row@));
    let mut out = json_block(title, json);
    out.append("\n");
    let ghost prefix = out@;
    out.append("| ");
    push_joined(&mut out, headers, " | ");
    out.append(" |\n");
    push_separator(&mut out, headers.len());
    let ghost head = out@;
    assert(head =~= prefix + table_line(hv) + table_line(separator_cells(headers@.len())));
    let mut k: usize = 0;
    while k < rows.len()
        invariant
            k <= rows@.len(),
            rv == rows@.map_values(|row: Vec<String>| cells_view(row@)),
            out@ == head + table_body(rv.subrange(0, k as int)),
        decreases rows@.len() - k,
    {
        out.append("| ");
        push_escaped_cells(&mut out, &rows[k]);
        out.append(" |\n");
        proof {
            let next = rv.subrange(0, k + 1);
            assert(next.drop_last() =~= rv.subrange(0, k as int));
            assert(next.last() == cells_view(rows@[k as int]@));
            assert(out@ =~= head + table_body(next));
        }
        k = k + 1;
    }
    assert(rv.subrange(0, rows@.len() as int) =~= rv);
    assert(out@ =~= json_md_with_table_text(title@, json@, fields@, hv, rv));
    out
}

/// Every answer ends with a table: without rows of its own, an answer with
/// a table is the plain answer, ending with the table of the JSON's fields.
pub proof fn lemma_table_without_rows(
    title: Seq<char>,
    json: Seq<char>,
    fields: Seq<JsonField>,
    headers: Seq<Seq<char>>,
)
    ensures
        json_md_with_table_text(title, json, fields, headers, Seq::empty()) == json_md_text(
            title,
            json,
            fields,
        ),
{
}

/// The field table has one line per field after its header and separator:
/// listing one field more appends that field's escaped line.
pub proof fn lemma_field_table_lines(fields: Seq<JsonField>, k: int)
    requires
        0 <= k < fields.len(),
    ensures
        field_table_text(fields.take(k + 1)) == field_table_text(fields.take(k)) + table_line(
            seq![escape_md_text(fields[k].key@), escape_md_text(fields[k].value@)],
        ),
{
    let rows = field_rows(fields.take(k + 1));
    assert(rows.drop_last() =~= field_rows(fields.take(k)));
    assert(rows.last().map_values(|c: Seq<char>| escape_md_text(c)) =~= seq![
        escape_md_text(fields[k].key@),
        escape_md_text(fields[k].value@),
    ]);
    assert(field_table_text(fields.take(k + 1)) =~= field_table_text(fields.take(k)) + table_line(
        seq![escape_md_text(fields[k].key@), escape_md_text(fields[k].value@)],
    ));
}


/// The cells of a row once escaped.
pub open spec fn escaped_cells(row: Seq<Seq<char>>) -> Seq<Seq<char>> {
    row.map_values(|c: Seq<char>| escape_md_text(c))
}

/// The body of a table is its rows' lines one after the other: the body of
/// two lists of rows is the body of the first followed by that of the second.
pub proof fn lemma_table_body_concat(a: Seq<Seq<Seq<char>>>, b: Seq<Seq<Seq<char>>>)
    ensures
        table_body(a + b) == table_body(a) + table_body(b),
    decreases b.len(),
{
    if b.len() == 0 {
        assert(a + b =~= a);
        assert(table_body(b) =~= Seq::<char>::empty());
        assert(table_body(a) + table_body(b) =~= table_body(a));
    } else {
        lemma_table_body_concat(a, b.drop_last());
        assert((a + b).drop_last() =~= a + b.drop_last());
        assert((a + b).last() == b.last());
        assert(table_body(a + b) =~= table_body(a) + table_body(b));
    }
}

/// Every row of a table body has its own escaped line in it, and the lines
/// come in the order of the rows.
pub proof fn lemma_table_body_row(rows: Seq<Seq<Seq<char>>>, i: int)
    requires
        0 <= i < rows.len(),
    ensures
        table_body(rows) == table_body(rows.take(i)) + table_line(escaped_cells(rows[i]))
            + table_body(rows.skip(i + 1)),
{
    assert(rows =~= rows.take(i + 1) + rows.skip(i + 1));
    lemma_table_body_concat(rows.take(i + 1), rows.skip(i + 1));
    assert(rows.take(i + 1).drop_last() =~= rows.take(i));
    assert(rows.take(i + 1).last() == rows[i]);
}

/// Rows of its own always come out: whenever there is at least one row (a
/// single one included), the answer is the JSON block, a blank line, the
/// header line, the separator line and then the body of the rows, and every
/// row's escaped line is in it; the field table stands only in an answer
/// without rows.
pub proof fn lemma_table_with_rows(
    title: Seq<char>,
    json: Seq<char>,
    fields: Seq<JsonField>,
    headers: Seq<Seq<char>>,
    rows: Seq<Seq<Seq<char>>>,
)
    requires
        rows.len() > 0,
    ensures
        json_md_with_table_text(title, json, fields, headers, rows) == json_block_text(title, json)
            + "\n"@ + table_line(headers) + table_line(separator_cells(headers.len())) + table_body(
            rows,
        ),
        forall|i: int|
            0 <= i < rows.len() ==> contains_text(
                json_md_with_table_text(title, json, fields, headers, rows),
                table_line(#[trigger] escaped_cells(rows[i])),
            ),
{
    let text = json_md_with_table_text(title, json, fields, headers, rows);
    let head = json_block_text(title, json) + "\n"@ + table_line(headers) + table_line(
        separator_cells(headers.len()),
    );
    assert forall|i: int| 0 <= i < rows.len() implies contains_text(
        text,
        table_line(#[trigger] escaped_cells(rows[i])),
    ) by {
        lemma_table_body_row(rows, i);
        let line = table_line(escaped_cells(rows[i]));
        assert(text =~= (head + table_body(rows.take(i))) + line + table_body(rows.skip(i + 1)));
        lemma_contains_middle(head + table_body(rows.take(i)), line, table_body(rows.skip(i + 1)));
    }
}

/// Every field handed in has its escaped `| key | value |` line in the
/// answer.
pub proof fn lemma_json_md_shows_every_field(
    title: Seq<char>,
    json: Seq<char>,
    fields: Seq<JsonField>,
    i: int,
)
    requires
        0 <= i < fields.len(),
    ensures
        contains_text(
            json_md_text(title, json, fields),
            table_line(seq![escape_md_text(fields[i].key@), escape_md_text(fields[i].value@)]),
        ),
{
    let rows = field_rows(fields);
    lemma_table_body_row(rows, i);
    let line = table_line(seq![escape_md_text(fields[i].key@), escape_md_text(fields[i].value@)]);
    assert(escaped_cells(rows[i]) =~= seq![
        escape_md_text(fields[i].key@),
        escape_md_text(fields[i].value@),
    ]);
    let pre = json_block_text(title, json) + "\n"@ + "| Field | Value |\n|---|---|\n"@ + table_body(
        rows.take(i),
    );
    assert(json_md_text(title, json, fields) =~= pre + line + table_body(rows.skip(i + 1)));
    lemma_contains_middle(pre, line, table_body(rows.skip(i + 1)));
}

/// A top-level array gives one field per element, none left out: the
/// `i`-th field's key is the decimal text of `i` (it reads back as `i`) and
/// its value is the text of the `i`-th element.
pub proof fn lemma_array_fields(items: Vec<JsonValue>)
    ensures
        top_fields(JsonTop::Array(items)).len() == items@.len(),
        forall|i: int|
            0 <= i < items@.len() ==> {
                &&& parse_unsigned_spec(#[trigger] top_fields(JsonTop::Array(items))[i].0, i as nat)
                    == Some(i as nat)
                &&& top_fields(JsonTop::Array(items))[i].1 == value_text(items@[i])
            },
{
    assert forall|i: int| 0 <= i < items@.len() implies {
        &&& parse_unsigned_spec(#[trigger] top_fields(JsonTop::Array(items))[i].0, i as nat)
            == Some(i as nat)
        &&& top_fields(JsonTop::Array(items))[i].1 == value_text(items@[i])
    } by {
        lemma_parse_decimal_round_trip(i as nat, i as nat);
    }
}

/// A top-level object gives one field per member, in order: the `i`-th
/// field is the `i`-th member's key with the text of its value.
pub proof fn lemma_object_fields(members: Vec<JsonMember>)
    ensures
        top_fields(JsonTop::Object(members)).len() == members@.len(),
        forall|i: int|
            0 <= i < members@.len() ==> #[trigger] top_fields(JsonTop::Object(members))[i] == (
                members@[i].key@,
                value_text(members@[i].value),
            ),
{
}

} // verus!
