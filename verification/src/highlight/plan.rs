//! Which highlighting rules a configuration asks for.

use vstd::prelude::*;
use crate::config::schema::{HighlightsConfig, RegexHighlight};
use crate::text::{has_text, owned, text_eq, texts_cloned, texts_view};

verus! {

/// The highlighting wanted for one run, beyond what is configured: words to
/// highlight in a colour, and groups of rules to leave out.
#[derive(Debug)]
pub struct HighlightOptions {
    pub adhoc_highlights: Vec<(String, Vec<String>)>,
    pub disabled_groups: Vec<String>,
}

impl Default for HighlightOptions {
    /// No words and no groups.
    fn default() -> (options: Self)
        ensures
            options.adhoc_highlights@.len() == 0,
            options.disabled_groups@.len() == 0,
    {
        HighlightOptions { adhoc_highlights: Vec::new(), disabled_groups: Vec::new() }
    }
}

/// A colour of the terminal.
#[derive(Debug, Clone, Copy, PartialEq, Eq, Structural)]
pub enum Color {
    Black,
    Red,
    Green,
    Yellow,
    Blue,
    Magenta,
    Cyan,
    White,
    BrightBlack,
    BrightRed,
    BrightGreen,
    BrightYellow,
    BrightBlue,
    BrightMagenta,
    BrightCyan,
    BrightWhite,
}

/// How a match is shown.
#[derive(Debug, Clone, Copy, PartialEq, Eq, Structural)]
pub struct TextStyle {
    pub color: Color,
    pub bold: bool,
    pub italic: bool,
}

/// Words that are shown in one style.
#[derive(Debug)]
pub struct KeywordGroup {
    pub words: Vec<String>,
    pub style: TextStyle,
}

/// A regular expression whose matches are shown in one style.
#[derive(Debug)]
pub struct RegexRule {
    pub pattern: String,
    pub style: TextStyle,
}

/// The lower-case form of a text, as `str::to_lowercase` gives it.
pub uninterp spec fn lowercase_of(s: Seq<char>) -> Seq<char>;

/// `str::to_lowercase`: the text with each character replaced by its
/// lower-case form under Unicode's rules.
#[verifier::external_body]
fn lowercase(s: &str) -> (out: String)
    ensures
        out@ == lowercase_of(s@),
{
    s.to_lowercase()
}

/// The colour that a name in lower case stands for; magenta for a name
/// that is none.
pub open spec fn color_named(name: Seq<char>) -> Color {
    if name == "red"@ {
        Color::Red
    } else if name == "green"@ {
        Color::Green
    } else if name == "yellow"@ {
        Color::Yellow
    } else if name == "blue"@ {
        Color::Blue
    } else if name == "magenta"@ {
        Color::Magenta
    } else if name == "cyan"@ {
        Color::Cyan
    } else if name == "white"@ {
        Color::White
    } else if name == "black"@ {
        Color::Black
    } else if name == "bright_red"@ || name == "brightred"@ {
        Color::BrightRed
    } else if name == "bright_green"@ || name == "brightgreen"@ {
        Color::BrightGreen
    } else if name == "bright_yellow"@ || name == "brightyellow"@ {
        Color::BrightYellow
    } else if name == "bright_blue"@ || name == "brightblue"@ {
        Color::BrightBlue
    } else if name == "bright_magenta"@ || name == "brightmagenta"@ {
        Color::BrightMagenta
    } else if name == "bright_cyan"@ || name == "brightcyan"@ {
        Color::BrightCyan
    } else if name == "bright_white"@ || name == "brightwhite"@ {
        Color::BrightWhite
    } else {
        Color::Magenta
    }
}

/// The colour that a name in lower case stands for.
pub fn color_for(name: &str) -> (color: Color)
    ensures
        color == color_named(name@),
{
    if text_eq(name, "red") {
        Color::Red
    } else if text_eq(name, "green") {
        Color::Green
    } else if text_eq(name, "yellow") {
        Color::Yellow
    } else if text_eq(name, "blue") {
        Color::Blue
    } else if text_eq(name, "magenta") {
        Color::Magenta
    } else if text_eq(name, "cyan") {
        Color::Cyan
    } else if text_eq(name, "white") {
        Color::White
    } else if text_eq(name, "black") {
        Color::Black
    } else if text_eq(name, "bright_red") || text_eq(name, "brightred") {
        Color::BrightRed
    } else if text_eq(name, "bright_green") || text_eq(name, "brightgreen") {
        Color::BrightGreen
    } else if text_eq(name, "bright_yellow") || text_eq(name, "brightyellow") {
        Color::BrightYellow
    } else if text_eq(name, "bright_blue") || text_eq(name, "brightblue") {
        Color::BrightBlue
    } else if text_eq(name, "bright_magenta") || text_eq(name, "brightmagenta") {
        Color::BrightMagenta
    } else if text_eq(name, "bright_cyan") || text_eq(name, "brightcyan") {
        Color::BrightCyan
    } else if text_eq(name, "bright_white") || text_eq(name, "brightwhite") {
        Color::BrightWhite
    } else {
        Color::Magenta
    }
}

/// The plain style in a colour.
pub open spec fn plain(color: Color) -> TextStyle {
    TextStyle { color, bold: false, italic: false }
}

/// The style that a colour's name stands for, whatever the case of its
/// letters: the colour, neither bold nor italic.
pub fn parse_color_style(color: &str) -> (style: TextStyle)
    ensures
        style == plain(color_named(lowercase_of(color@))),
{
    let lower = lowercase(color);
    TextStyle { color: color_for(lower.as_str()), bold: false, italic: false }
}

impl TextStyle {
    /// This style, bold where `cond` holds.
    pub fn bold_if(self, cond: bool) -> (style: Self)
        ensures
            style == (TextStyle { bold: self.bold || cond, ..self }),
    {
        if cond {
            TextStyle { color: self.color, bold: true, italic: self.italic }
        } else {
            self
        }
    }

    /// This style, italic where `cond` holds.
    pub fn italic_if(self, cond: bool) -> (style: Self)
        ensures
            style == (TextStyle { italic: self.italic || cond, ..self }),
    {
        if cond {
            TextStyle { color: self.color, bold: self.bold, italic: true }
        } else {
            self
        }
    }
}

/// The rules of one run: the groups of keywords, the regular expressions,
/// and which of the built-in groups are on.
#[derive(Debug)]
pub struct HighlightPlan {
    pub keywords: Vec<KeywordGroup>,
    pub regexes: Vec<RegexRule>,
    pub dates: bool,
    pub numbers: bool,
    pub uuids: bool,
    pub ips: bool,
    pub urls: bool,
    pub paths: bool,
    pub pointers: bool,
    pub keyvalue: bool,
    pub quotes: bool,
    pub json: bool,
}

/// A group of keywords as plain values: the words and their style.
pub type GroupView = (Seq<Seq<char>>, TextStyle);

/// A style in a colour, bold.
pub open spec fn bold(color: Color) -> TextStyle {
    TextStyle { color, bold: true, italic: false }
}

/// The groups of keywords, as plain values.
pub open spec fn groups_view(groups: Seq<KeywordGroup>) -> Seq<GroupView> {
    Seq::new(groups.len(), |i: int| (texts_view(groups[i].words@), groups[i].style))
}

/// The built-in keywords: the log levels, the HTTP methods and the
/// literals of JSON.
pub open spec fn builtin_keywords() -> Seq<GroupView> {
    seq![
        (
            seq!["ERROR"@, "FATAL"@, "CRITICAL"@, "error"@, "fatal"@, "critical"@],
            bold(Color::Red),
        ),
        (seq!["WARN"@, "WARNING"@, "warn"@, "warning"@], plain(Color::Yellow)),
        (seq!["INFO"@, "info"@], plain(Color::Green)),
        (seq!["DEBUG"@, "TRACE"@, "debug"@, "trace"@], plain(Color::Blue)),
        (seq!["GET"@], bold(Color::Green)),
        (seq!["POST"@], bold(Color::Yellow)),
        (seq!["PUT"@, "PATCH"@], bold(Color::Magenta)),
        (seq!["DELETE"@], bold(Color::Red)),
        (seq!["null"@, "true"@, "false"@], plain(Color::Cyan)),
    ]
}

fn words1(a: &str) -> (out: Vec<String>)
    ensures
        texts_view(out@) == seq![a@],
{
    let mut out: Vec<String> = Vec::new();
    out.push(owned(a));
    assert(texts_view(out@) =~= seq![a@]);
    out
}

fn words2(a: &str, b: &str) -> (out: Vec<String>)
    ensures
        texts_view(out@) == seq![a@, b@],
{
    let mut out: Vec<String> = Vec::new();
    out.push(owned(a));
    out.push(owned(b));
    assert(texts_view(out@) =~= seq![a@, b@]);
    out
}

fn words3(a: &str, b: &str, c: &str) -> (out: Vec<String>)
    ensures
        texts_view(out@) == seq![a@, b@, c@],
{
    let mut out: Vec<String> = Vec::new();
    out.push(owned(a));
    out.push(owned(b));
    out.push(owned(c));
    assert(texts_view(out@) =~= seq![a@, b@, c@]);
    out
}

fn words4(a: &str, b: &str, c: &str, d: &str) -> (out: Vec<String>)
    ensures
        texts_view(out@) == seq![a@, b@, c@, d@],
{
    let mut out: Vec<String> = Vec::new();
    out.push(owned(a));
    out.push(owned(b));
    out.push(owned(c));
    out.push(owned(d));
    assert(texts_view(out@) =~= seq![a@, b@, c@, d@]);
    out
}

fn words6(a: &str, b: &str, c: &str, d: &str, e: &str, f: &str) -> (out: Vec<String>)
    ensures
        texts_view(out@) == seq![a@, b@, c@, d@, e@, f@],
{
    let mut out: Vec<String> = Vec::new();
    out.push(owned(a));
    out.push(owned(b));
    out.push(owned(c));
    out.push(owned(d));
    out.push(owned(e));
    out.push(owned(f));
    assert(texts_view(out@) =~= seq![a@, b@, c@, d@, e@, f@]);
    out
}

/// The built-in keywords.
pub fn default_log_level_keywords() -> (groups: Vec<KeywordGroup>)
    ensures
        groups_view(groups@) == builtin_keywords(),
{
    let red_bold = TextStyle { color: Color::Red, bold: true, italic: false };
    let mut groups: Vec<KeywordGroup> = Vec::new();
    groups.push(
        KeywordGroup {
            words: words6("ERROR", "FATAL", "CRITICAL", "error", "fatal", "critical"),
            style: red_bold,
        },
    );
    groups.push(
        KeywordGroup {
            words: words4("WARN", "WARNING", "warn", "warning"),
            style: TextStyle { color: Color::Yellow, bold: false, italic: false },
        },
    );
    groups.push(
        KeywordGroup {
            words: words2("INFO", "info"),
            style: TextStyle { color: Color::Green, bold: false, italic: false },
        },
    );
    groups.push(
        KeywordGroup {
            words: words4("DEBUG", "TRACE", "debug", "trace"),
            style: TextStyle { color: Color::Blue, bold: false, italic: false },
        },
    );
    groups.push(
        KeywordGroup {
            words: words1("GET"),
            style: TextStyle { color: Color::Green, bold: true, italic: false },
        },
    );
    groups.push(
        KeywordGroup {
            words: words1("POST"),
            style: TextStyle { color: Color::Yellow, bold: true, italic: false },
        },
    );
    groups.push(
        KeywordGroup {
            words: words2("PUT", "PATCH"),
            style: TextStyle { color: Color::Magenta, bold: true, italic: false },
        },
    );
    groups.push(KeywordGroup { words: words1("DELETE"), style: red_bold });
    groups.push(
        KeywordGroup {
            words: words3("null", "true", "false"),
            style: TextStyle { color: Color::Cyan, bold: false, italic: false },
        },
    );
    assert(groups_view(groups@) =~= builtin_keywords());
    groups
}

/// The groups that the words given for one run make: one group for each
/// colour and its words, in the colour's plain style.
pub open spec fn adhoc_groups(adhoc: Seq<(String, Vec<String>)>) -> Seq<GroupView> {
    Seq::new(
        adhoc.len(),
        |i: int| (texts_view(adhoc[i].1@), plain(color_named(lowercase_of(adhoc[i].0@)))),
    )
}

/// The style of a configured rule: its colour, bold and italic as it says.
pub open spec fn rule_style(rule: RegexHighlight) -> TextStyle {
    TextStyle { color: color_named(lowercase_of(rule.color@)), bold: rule.bold, italic: rule.italic }
}

/// The configured rules, as plain values: each pattern and its style.
pub open spec fn configured_rules(rules: Seq<RegexHighlight>) -> Seq<(Seq<char>, TextStyle)> {
    Seq::new(rules.len(), |i: int| (rules[i].pattern@, rule_style(rules[i])))
}

/// The rules of a plan, as plain values.
pub open spec fn rules_view(rules: Seq<RegexRule>) -> Seq<(Seq<char>, TextStyle)> {
    Seq::new(rules.len(), |i: int| (rules[i].pattern@, rules[i].style))
}

/// The groups that are left out: those that the configuration names and
/// those that the run names.
pub open spec fn disabled_groups(config: HighlightsConfig, options: HighlightOptions) -> Seq<
    Seq<char>,
> {
    texts_view(config.disabled_groups@) + texts_view(options.disabled_groups@)
}

/// The groups of keywords of a plan: the built-in ones unless they are
/// switched off or left out, then the configured words in bold magenta
/// where there are any, then the words given for the run.
pub open spec fn planned_keywords(config: HighlightsConfig, options: HighlightOptions) -> Seq<
    GroupView,
> {
    let builtin = if !config.disable_builtin && !disabled_groups(config, options).contains(
        "keywords"@,
    ) {
        builtin_keywords()
    } else {
        Seq::empty()
    };
    let custom = if config.custom_keywords@.len() > 0 {
        seq![(texts_view(config.custom_keywords@), bold(Color::Magenta))]
    } else {
        Seq::empty()
    };
    builtin + custom + adhoc_groups(options.adhoc_highlights@)
}

impl HighlightPlan {
    /// Whether this is the plan that the configuration and the options of
    /// a run ask for.
    pub open spec fn is_for(&self, config: HighlightsConfig, options: HighlightOptions) -> bool {
        let off = disabled_groups(config, options);
        &&& groups_view(self.keywords@) == planned_keywords(config, options)
        &&& rules_view(self.regexes@) == configured_rules(config.custom_regexes@)
        &&& self.dates == !off.contains("dates"@)
        &&& self.numbers == !off.contains("numbers"@)
        &&& self.uuids == !off.contains("uuids"@)
        &&& self.ips == !off.contains("ips"@)
        &&& self.urls == !off.contains("urls"@)
        &&& self.paths == !off.contains("paths"@)
        &&& self.pointers == !off.contains("pointers"@)
        &&& self.keyvalue == !off.contains("keyvalue"@)
        &&& self.quotes == !off.contains("quotes"@)
        &&& self.json == !off.contains("json"@)
    }

    /// The plan that a configuration asks for, with nothing added for the
    /// run.
    pub fn new(config: &HighlightsConfig) -> (plan: Self)
        ensures
            exists|options: HighlightOptions|
                options.adhoc_highlights@.len() == 0 && options.disabled_groups@.len() == 0
                    && #[trigger] plan.is_for(*config, options),
    {
        let options = HighlightOptions::default();
        HighlightPlan::with_options(config, &options)
    }

    /// The plan that a configuration and the options of a run ask for. A
    /// group is left out where either of them names it.
    pub fn with_options(config: &HighlightsConfig, options: &HighlightOptions) -> (plan: Self)
        ensures
            plan.is_for(*config, *options),
    {
        let ghost off = disabled_groups(*config, *options);
        let mut keywords: Vec<KeywordGroup> = Vec::new();
        if !config.disable_builtin && !is_off(config, options, "keywords") {
            keywords = default_log_level_keywords();
        }
        let ghost builtin = groups_view(keywords@);
        if config.custom_keywords.len() > 0 {
            keywords.push(
                KeywordGroup {
                    words: texts_cloned(&config.custom_keywords),
                    style: TextStyle { color: Color::Magenta, bold: true, italic: false },
                },
            );
        }
        let ghost fixed = groups_view(keywords@);
        assert(fixed =~= builtin + (if config.custom_keywords@.len() > 0 {
            seq![(texts_view(config.custom_keywords@), bold(Color::Magenta))]
        } else {
            Seq::<GroupView>::empty()
        }));
        let mut i: usize = 0;
        while i < options.adhoc_highlights.len()
            invariant
                i <= options.adhoc_highlights.len(),
                groups_view(keywords@) == fixed + adhoc_groups(options.adhoc_highlights@).take(
                    i as int,
                ),
            decreases options.adhoc_highlights.len() - i,
        {
            let style = parse_color_style(options.adhoc_highlights[i].0.as_str());
            let words = texts_cloned(&options.adhoc_highlights[i].1);
            let ghost before = groups_view(keywords@);
            let ghost all = adhoc_groups(options.adhoc_highlights@);
            keywords.push(KeywordGroup { words, style });
            assert(groups_view(keywords@) =~= before.push(all[i as int]));
            assert(all.take(i + 1) =~= all.take(i as int).push(all[i as int]));
            assert(groups_view(keywords@) =~= fixed + all.take(i + 1));
            i += 1;
        }
        assert(adhoc_groups(options.adhoc_highlights@).take(i as int) == adhoc_groups(
            options.adhoc_highlights@,
        ));
        let mut regexes: Vec<RegexRule> = Vec::new();
        let mut k: usize = 0;
        while k < config.custom_regexes.len()
            invariant
                k <= config.custom_regexes.len(),
                rules_view(regexes@) == configured_rules(config.custom_regexes@).take(k as int),
            decreases config.custom_regexes.len() - k,
        {
            let rule = &config.custom_regexes[k];
            let style = parse_color_style(rule.color.as_str()).bold_if(rule.bold).italic_if(
                rule.italic,
            );
            let ghost before = rules_view(regexes@);
            let ghost all = configured_rules(config.custom_regexes@);
            regexes.push(RegexRule { pattern: rule.pattern.clone(), style });
            assert(rules_view(regexes@) =~= before.push(all[k as int]));
            assert(all.take(k + 1) =~= all.take(k as int).push(all[k as int]));
            k += 1;
        }
        assert(configured_rules(config.custom_regexes@).take(k as int) == configured_rules(
            config.custom_regexes@,
        ));
        HighlightPlan {
            keywords,
            regexes,
            dates: !is_off(config, options, "dates"),
            numbers: !is_off(config, options, "numbers"),
            uuids: !is_off(config, options, "uuids"),
            ips: !is_off(config, options, "ips"),
            urls: !is_off(config, options, "urls"),
            paths: !is_off(config, options, "paths"),
            pointers: !is_off(config, options, "pointers"),
            keyvalue: !is_off(config, options, "keyvalue"),
            quotes: !is_off(config, options, "quotes"),
            json: !is_off(config, options, "json"),
        }
    }
}

fn is_off(config: &HighlightsConfig, options: &HighlightOptions, group: &str) -> (off: bool)
    ensures
        off == disabled_groups(*config, *options).contains(group@),
{
    let a = has_text(&config.disabled_groups, group);
    let b = has_text(&options.disabled_groups, group);
    proof {
        let x = texts_view(config.disabled_groups@);
        let y = texts_view(options.disabled_groups@);
        if a {
            let i = choose|i: int| 0 <= i < x.len() && x[i] == group@;
            assert((x + y)[i] == group@);
        }
        if b {
            let i = choose|i: int| 0 <= i < y.len() && y[i] == group@;
            assert((x + y)[x.len() + i] == group@);
        }
        if (x + y).contains(group@) {
            let i = choose|i: int| 0 <= i < (x + y).len() && (x + y)[i] == group@;
            if i < x.len() {
                assert(x[i] == group@);
            } else {
                assert(y[i - x.len()] == group@);
            }
        }
    }
    a || b
}

} // verus!
