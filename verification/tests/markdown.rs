use yfinance_mcp::markdown::{
    escape_md, json_fields, json_md, json_md_with_table, JsonField, JsonMember, JsonTop, JsonValue,
};

fn field(k: &str, v: &str) -> JsonField {
    JsonField { key: k.to_string(), value: v.to_string() }
}

#[test]
fn escape_md_escapes_every_pipe() {
    assert_eq!(escape_md("a|b||c"), "a\\|b\\|\\|c");
}

#[test]
fn escape_md_keeps_plain_text() {
    assert_eq!(escape_md("Apple Inc."), "Apple Inc.");
    assert_eq!(escape_md(""), "");
    assert_eq!(escape_md("ü|é"), "ü\\|é");
}

#[test]
fn json_md_frames_the_json_and_tables_its_fields() {
    let fields = vec![field("symbol", "AAPL"), field("price", "150.25")];
    assert_eq!(
        json_md("Quote: AAPL", "{\n  \"price\": 150.25,\n  \"symbol\": \"AAPL\"\n}", &fields),
        "## Quote: AAPL\n\n```json\n{\n  \"price\": 150.25,\n  \"symbol\": \"AAPL\"\n}\n```\n\n| Field | Value |\n|---|---|\n| symbol | AAPL |\n| price | 150.25 |\n"
    );
}

#[test]
fn json_md_escapes_field_cells() {
    let fields = vec![field("a|b", "x|y")];
    assert_eq!(
        json_md("T", "{}", &fields),
        "## T\n\n```json\n{}\n```\n\n| Field | Value |\n|---|---|\n| a\\|b | x\\|y |\n"
    );
}

#[test]
fn json_md_without_fields_still_has_the_table_header() {
    assert_eq!(json_md("T", "null", &[]), "## T\n\n```json\nnull\n```\n\n| Field | Value |\n|---|---|\n");
}

#[test]
fn json_md_with_table_without_rows_is_the_plain_answer() {
    let rows: Vec<Vec<String>> = vec![];
    let fields = vec![field("0", "{}")];
    let out = json_md_with_table("News: X (0 articles)", "[]", &fields, &["Title", "Link"], &rows);
    assert_eq!(out, json_md("News: X (0 articles)", "[]", &fields));
}

#[test]
fn json_md_with_table_writes_header_separator_and_escaped_rows() {
    let rows = vec![
        vec!["AAPL".to_string(), "Apple | Inc".to_string()],
        vec!["MSFT".to_string(), "Microsoft".to_string()],
    ];
    let out = json_md_with_table("Search: a", "{}", &[], &["Symbol", "Name"], &rows);
    assert_eq!(
        out,
        "## Search: a\n\n```json\n{}\n```\n\n| Symbol | Name |\n| --- | --- |\n| AAPL | Apple \\| Inc |\n| MSFT | Microsoft |\n"
    );
}

#[test]
fn json_md_with_table_keeps_ragged_rows() {
    let rows = vec![vec!["only".to_string()], vec![]];
    let out = json_md_with_table("T", "1", &[], &["A", "B", "C"], &rows);
    assert_eq!(
        out,
        "## T\n\n```json\n1\n```\n\n| A | B | C |\n| --- | --- | --- |\n| only |\n|  |\n"
    );
}

#[test]
fn escape_md_length_and_read_back() {
    for cell in ["", "|", "a|b||c", "\\|", "x\\y", "||\\||"] {
        let e = escape_md(cell);
        assert_eq!(e.chars().count(), cell.chars().count() + cell.matches('|').count());
        assert_eq!(e.replace("\\|", "|"), cell);
    }
}

#[test]
fn json_fields_of_an_object() {
    let top = JsonTop::Object(vec![
        JsonMember { key: "symbol".to_string(), value: JsonValue::Str("AAPL".to_string()) },
        JsonMember { key: "price".to_string(), value: JsonValue::Number("150.25".to_string()) },
        JsonMember { key: "open".to_string(), value: JsonValue::Bool(true) },
        JsonMember { key: "bid".to_string(), value: JsonValue::Null },
        JsonMember { key: "tags".to_string(), value: JsonValue::Compound("[\"a\"]".to_string()) },
    ]);
    let fields = json_fields(&top);
    let pairs: Vec<(String, String)> = fields.into_iter().map(|f| (f.key, f.value)).collect();
    let expected: Vec<(String, String)> = [
        ("symbol", "AAPL"),
        ("price", "150.25"),
        ("open", "true"),
        ("bid", "null"),
        ("tags", "[\"a\"]"),
    ]
    .iter()
    .map(|(k, v)| (k.to_string(), v.to_string()))
    .collect();
    assert_eq!(pairs, expected);
}

#[test]
fn json_fields_of_an_array_and_a_scalar() {
    let top = JsonTop::Array(vec![JsonValue::Bool(false), JsonValue::Compound("{}".to_string())]);
    let fields = json_fields(&top);
    assert_eq!(fields.len(), 2);
    assert_eq!((fields[0].key.as_str(), fields[0].value.as_str()), ("0", "false"));
    assert_eq!((fields[1].key.as_str(), fields[1].value.as_str()), ("1", "{}"));
    assert!(json_fields(&JsonTop::Scalar(JsonValue::Number("3".to_string()))).is_empty());
    let answer = json_md("Q", "[false,{}]", &json_fields(&top));
    assert!(answer.ends_with("| Field | Value |\n|---|---|\n| 0 | false |\n| 1 | {} |\n"));
}
