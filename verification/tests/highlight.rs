use logchef::api::{Column, FieldValue, LogEntry};
use logchef::config::{HighlightsConfig, RegexHighlight};
use logchef::highlight::plan::color_for;
use logchef::highlight::{
    default_log_level_keywords, format_log_entry, format_log_entry_with_options, format_value,
    parse_color_style, Color, FormatOptions, HighlightOptions, HighlightPlan, TextStyle,
};

fn text(s: &str) -> FieldValue {
    FieldValue::Text(s.to_string())
}

fn entry(fields: Vec<(&str, FieldValue)>) -> LogEntry {
    LogEntry { fields: fields.into_iter().map(|(k, v)| (k.to_string(), v)).collect() }
}

fn columns(names: &[&str]) -> Vec<Column> {
    names
        .iter()
        .map(|n| Column { name: n.to_string(), column_type: "String".to_string() })
        .collect()
}

fn words(items: &[&str]) -> Vec<String> {
    items.iter().map(|s| s.to_string()).collect()
}

#[test]
fn values_show_by_the_kind_of_their_field() {
    assert_eq!(format_value("_timestamp", &text("2024-01-01")), "2024-01-01");
    assert_eq!(format_value("timestamp", &text("2024-01-01")), "2024-01-01");
    assert_eq!(format_value("level", &text("warn")), "[WARN]");
    assert_eq!(format_value("severity", &text("Error")), "[ERROR]");
    assert_eq!(format_value("msg", &text("hello")), "hello");
    assert_eq!(format_value("message", &text("hello")), "hello");
    assert_eq!(format_value("host", &text("web-1")), "host=web-1");
    assert_eq!(format_value("Level", &text("warn")), "Level=warn");
}

#[test]
fn levels_are_upper_cased_by_unicode() {
    assert_eq!(format_value("level", &text("stra\u{df}e")), "[STRASSE]");
    assert_eq!(format_value("level", &text("\u{e9}")), "[\u{c9}]");
    assert_eq!(format_value("level", &text("")), "[]");
}

#[test]
fn other_values_show_as_key_and_value() {
    assert_eq!(format_value("status", &FieldValue::Number("200".to_string())), "status=200");
    assert_eq!(
        format_value("timestamp", &FieldValue::Number("1700000000".to_string())),
        "1700000000"
    );
    assert_eq!(format_value("level", &FieldValue::Number("3".to_string())), "level=3");
    assert_eq!(format_value("ok", &FieldValue::Bool(true)), "ok=true");
    assert_eq!(format_value("ok", &FieldValue::Bool(false)), "ok=false");
    assert_eq!(format_value("x", &FieldValue::Null), "");
    assert_eq!(
        format_value(
            "tags",
            &FieldValue::Array {
                shown: "[String(\"a\")]".to_string(),
                json: "[\"a\"]".to_string()
            }
        ),
        "tags=[String(\"a\")]"
    );
    assert_eq!(
        format_value("ctx", &FieldValue::Object("{\"a\":1}".to_string())),
        "ctx={\"a\":1}"
    );
}

#[test]
fn line_leads_with_time_level_and_message() {
    let e = entry(vec![
        ("host", text("web-1")),
        ("msg", text("started")),
        ("level", text("info")),
        ("_timestamp", text("2024-01-01 00:00:00")),
        ("_internal", text("x")),
        ("status", FieldValue::Number("200".to_string())),
        ("empty", FieldValue::Null),
    ]);
    let line = format_log_entry(
        &e,
        &columns(&["_timestamp", "status", "level", "host", "_internal", "empty", "absent", "msg"]),
    );
    assert_eq!(line, "2024-01-01 00:00:00 [INFO] started status=200 host=web-1");
}

#[test]
fn line_without_columns_has_the_leading_fields_only() {
    let e = entry(vec![("message", text("m")), ("timestamp", text("t")), ("severity", text("s"))]);
    assert_eq!(format_log_entry(&e, &[]), "t [S] m");
    assert_eq!(format_log_entry(&entry(vec![]), &columns(&["a"])), "");
    assert_eq!(format_log_entry(&entry(vec![("a", text("1"))]), &columns(&["a", "a"])), "a=1 a=1");
}

#[test]
fn null_leading_field_leaves_a_gap() {
    let e = entry(vec![("level", FieldValue::Null), ("msg", text("m")), ("timestamp", text("t"))]);
    assert_eq!(format_log_entry(&e, &[]), "t  m");
    let e = entry(vec![("msg", FieldValue::Null)]);
    assert_eq!(format_log_entry(&e, &columns(&["k"])), "");
}

#[test]
fn first_field_of_a_name_counts() {
    let e = entry(vec![("k", text("one")), ("k", text("two"))]);
    assert_eq!(e.get("k").map(|v| format_value("k", v)).as_deref(), Some("k=one"));
    assert!(e.get("z").is_none());
    assert_eq!(format_log_entry(&e, &columns(&["k"])), "k=one");
}

#[test]
fn colours_by_name() {
    let plain = |color| TextStyle { color, bold: false, italic: false };
    assert_eq!(parse_color_style("red"), plain(Color::Red));
    assert_eq!(parse_color_style("GREEN"), plain(Color::Green));
    assert_eq!(parse_color_style("Yellow"), plain(Color::Yellow));
    assert_eq!(parse_color_style("blue"), plain(Color::Blue));
    assert_eq!(parse_color_style("magenta"), plain(Color::Magenta));
    assert_eq!(parse_color_style("cyan"), plain(Color::Cyan));
    assert_eq!(parse_color_style("white"), plain(Color::White));
    assert_eq!(parse_color_style("black"), plain(Color::Black));
    assert_eq!(parse_color_style("bright_red"), plain(Color::BrightRed));
    assert_eq!(parse_color_style("BrightRed"), plain(Color::BrightRed));
    assert_eq!(parse_color_style("bright_green"), plain(Color::BrightGreen));
    assert_eq!(parse_color_style("brightyellow"), plain(Color::BrightYellow));
    assert_eq!(parse_color_style("Bright_Blue"), plain(Color::BrightBlue));
    assert_eq!(parse_color_style("brightmagenta"), plain(Color::BrightMagenta));
    assert_eq!(parse_color_style("bright_cyan"), plain(Color::BrightCyan));
    assert_eq!(parse_color_style("BRIGHT_WHITE"), plain(Color::BrightWhite));
    assert_eq!(parse_color_style("orange"), plain(Color::Magenta));
    assert_eq!(parse_color_style(""), plain(Color::Magenta));
    assert_eq!(parse_color_style("bright_black"), plain(Color::Magenta));
    // the Kelvin sign is a capital K to Unicode
    assert_eq!(parse_color_style("blac\u{212a}"), plain(Color::Black));
    assert_eq!(color_for("RED"), Color::Magenta);
    assert_eq!(color_for("red"), Color::Red);
}

#[test]
fn styles_can_be_made_bold_and_italic() {
    let style = parse_color_style("cyan");
    assert_eq!(style.bold_if(false), style);
    assert_eq!(style.italic_if(false), style);
    assert_eq!(
        style.bold_if(true).italic_if(true),
        TextStyle { color: Color::Cyan, bold: true, italic: true }
    );
    assert!(style.bold_if(true).bold_if(false).bold);
}

#[test]
fn built_in_keywords() {
    let groups = default_log_level_keywords();
    assert_eq!(groups.len(), 9);
    assert_eq!(groups[0].words, words(&["ERROR", "FATAL", "CRITICAL", "error", "fatal", "critical"]));
    assert_eq!(groups[0].style, TextStyle { color: Color::Red, bold: true, italic: false });
    assert_eq!(groups[1].words, words(&["WARN", "WARNING", "warn", "warning"]));
    assert_eq!(groups[1].style, TextStyle { color: Color::Yellow, bold: false, italic: false });
    assert_eq!(groups[2].words, words(&["INFO", "info"]));
    assert_eq!(groups[2].style.color, Color::Green);
    assert_eq!(groups[3].words, words(&["DEBUG", "TRACE", "debug", "trace"]));
    assert_eq!(groups[3].style.color, Color::Blue);
    assert_eq!(groups[4].words, words(&["GET"]));
    assert_eq!(groups[4].style, TextStyle { color: Color::Green, bold: true, italic: false });
    assert_eq!(groups[5].words, words(&["POST"]));
    assert_eq!(groups[5].style, TextStyle { color: Color::Yellow, bold: true, italic: false });
    assert_eq!(groups[6].words, words(&["PUT", "PATCH"]));
    assert_eq!(groups[6].style, TextStyle { color: Color::Magenta, bold: true, italic: false });
    assert_eq!(groups[7].words, words(&["DELETE"]));
    assert_eq!(groups[7].style, TextStyle { color: Color::Red, bold: true, italic: false });
    assert_eq!(groups[8].words, words(&["null", "true", "false"]));
    assert_eq!(groups[8].style, TextStyle { color: Color::Cyan, bold: false, italic: false });
}

#[test]
fn plain_plan_has_every_group() {
    let plan = HighlightPlan::new(&HighlightsConfig::default());
    assert_eq!(plan.keywords.len(), 9);
    assert!(plan.regexes.is_empty());
    assert!(plan.dates && plan.numbers && plan.uuids && plan.ips && plan.urls);
    assert!(plan.paths && plan.pointers && plan.keyvalue && plan.quotes && plan.json);
}

#[test]
fn plan_follows_configuration_and_options() {
    let config = HighlightsConfig {
        custom_keywords: words(&["deploy", "rollback"]),
        disable_builtin: false,
        custom_regexes: vec![
            RegexHighlight {
                pattern: "req-\\d+".to_string(),
                color: "Cyan".to_string(),
                bold: true,
                italic: false,
            },
            RegexHighlight {
                pattern: "x".to_string(),
                color: "nope".to_string(),
                bold: false,
                italic: true,
            },
        ],
        disabled_groups: words(&["dates", "json"]),
    };
    let options = HighlightOptions {
        adhoc_highlights: vec![
            ("RED".to_string(), words(&["panic"])),
            ("teal".to_string(), words(&["a", "b"])),
        ],
        disabled_groups: words(&["ips", "keywords"]),
    };
    let plan = HighlightPlan::with_options(&config, &options);
    assert_eq!(plan.keywords.len(), 3);
    assert_eq!(plan.keywords[0].words, words(&["deploy", "rollback"]));
    assert_eq!(plan.keywords[0].style, TextStyle { color: Color::Magenta, bold: true, italic: false });
    assert_eq!(plan.keywords[1].words, words(&["panic"]));
    assert_eq!(plan.keywords[1].style, TextStyle { color: Color::Red, bold: false, italic: false });
    assert_eq!(plan.keywords[2].words, words(&["a", "b"]));
    assert_eq!(plan.keywords[2].style.color, Color::Magenta);
    assert_eq!(plan.regexes.len(), 2);
    assert_eq!(plan.regexes[0].pattern, "req-\\d+");
    assert_eq!(plan.regexes[0].style, TextStyle { color: Color::Cyan, bold: true, italic: false });
    assert_eq!(plan.regexes[1].style, TextStyle { color: Color::Magenta, bold: false, italic: true });
    assert!(!plan.dates && !plan.json && !plan.ips);
    assert!(plan.numbers && plan.uuids && plan.urls && plan.paths);
    assert!(plan.pointers && plan.keyvalue && plan.quotes);
}

#[test]
fn built_in_keywords_can_be_switched_off() {
    let config = HighlightsConfig {
        custom_keywords: vec![],
        disable_builtin: true,
        custom_regexes: vec![],
        disabled_groups: vec![],
    };
    let plan = HighlightPlan::new(&config);
    assert!(plan.keywords.is_empty());
    let config = HighlightsConfig { disabled_groups: words(&["Keywords"]), ..HighlightsConfig::default() };
    assert_eq!(HighlightPlan::new(&config).keywords.len(), 9);
    let config = HighlightsConfig { disabled_groups: words(&["keywords"]), ..HighlightsConfig::default() };
    assert!(HighlightPlan::new(&config).keywords.is_empty());
    assert!(HighlightOptions::default().adhoc_highlights.is_empty());
}

#[test]
fn line_can_leave_out_the_timestamp() {
    let e = entry(vec![
        ("_timestamp", text("t1")),
        ("timestamp", text("t2")),
        ("level", text("info")),
        ("msg", text("m")),
        ("host", text("h")),
    ]);
    let cols = columns(&["host", "timestamp"]);
    let with = FormatOptions { show_timestamp: true };
    let without = FormatOptions { show_timestamp: false };
    assert_eq!(format_log_entry_with_options(&e, &cols, &with), "t1 t2 [INFO] m host=h");
    assert_eq!(format_log_entry_with_options(&e, &cols, &without), "[INFO] m host=h");
    assert_eq!(format_log_entry_with_options(&e, &cols, &with), format_log_entry(&e, &cols));
}

#[test]
fn levels_stand_between_brackets() {
    assert_eq!(logchef::highlight::level_part("WARN"), "[WARN]");
    assert_eq!(logchef::highlight::level_part(""), "[]");
    assert_eq!(logchef::highlight::level_part("warn"), "[warn]");
}
