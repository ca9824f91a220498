//! Canned rule lists for common kinds of text.
use vstd::prelude::*;

use crate::rules::{
    ascii_lower, color_model, color_seq, preset_named, rule_model, rules_model, text_is, Color,
    ColorModel, PresetColor, Rule, RuleModel,
};

verus! {

/// Every rule is a regular expression whose color is known.
pub open spec fn rules_usable(rules: Seq<Rule>) -> bool {
    forall|i: int|
        0 <= i < rules.len() ==> (#[trigger] rules[i]).is_regex && color_seq(&rules[i].color) is Some
}

/// A regular-expression rule, as plain values.
pub open spec fn regex_rule_model(keyword: Seq<char>, ignore_case: bool, color: ColorModel) -> RuleModel {
    RuleModel { keyword, is_regex: true, ignore_case, color }
}

/// The rules for log files: timestamps, addresses, levels, numbers and more, in order of precedence.
pub open spec fn logs_model() -> Seq<RuleModel> {
    seq![
        regex_rule_model(r"\b\d{4}-\d{2}-\d{2}[ T]\d{2}:\d{2}:\d{2}(\.\d+)?\b"@, false, ColorModel::Rgb(180, 180, 180)),
        regex_rule_model(r"\b\d{1,3}(\.\d{1,3}){3}\b"@, false, ColorModel::Rgb(255, 165, 0)),
        regex_rule_model(r"\b([0-9a-fA-F]{0,4}:){1,7}[0-9a-fA-F]{0,4}\b"@, false, ColorModel::Rgb(255, 165, 0)),
        regex_rule_model(r"https?://[^\s/$.?#].[^\s]*"@, false, ColorModel::Rgb(80, 200, 250)),
        regex_rule_model(r"\b([a-zA-Z0-9-]+\.)+[a-zA-Z]{2,}\b"@, false, ColorModel::Rgb(100, 150, 200)),
        regex_rule_model(r#""[^"]+"\s*:"#@, false, ColorModel::Rgb(200, 100, 200)),
        regex_rule_model(r"\b(user|uid|id|request_id|trace_id|span_id)=\S+\b"@, true, ColorModel::Rgb(206, 145, 120)),
        regex_rule_model(r"\b([A-Za-z_][\w$]*\.)+[A-Za-z_][\w$]*\b"@, false, ColorModel::Rgb(86, 156, 214)),
        regex_rule_model(r"(/[^ \t\n]+)+"@, false, ColorModel::Rgb(152, 195, 121)),
        regex_rule_model(r"\b(FATAL|CRITICAL|FF)\b"@, true, ColorModel::Rgb(255, 0, 0)),
        regex_rule_model(r"\b(ERROR|EE)\b"@, true, ColorModel::Named("Red"@)),
        regex_rule_model(r"\b(WARN(ING)?|WW)\b"@, true, ColorModel::Named("Yellow"@)),
        regex_rule_model(r"\b(INFO|II)\b"@, true, ColorModel::Named("Green"@)),
        regex_rule_model(r"\b(DEBUG|DD)\b"@, true, ColorModel::Named("Cyan"@)),
        regex_rule_model(r"\b(TRACE|VV)\b"@, true, ColorModel::Rgb(160, 160, 160)),
        regex_rule_model(r"\b(GET|POST|PUT|DELETE|PATCH|OPTIONS|HEAD)\b"@, false, ColorModel::Rgb(0, 200, 0)),
        regex_rule_model(r"\b(1\d{2}|2\d{2}|3\d{2}|4\d{2}|5\d{2})\b"@, false, ColorModel::Rgb(255, 140, 0)),
        regex_rule_model(r"\[(main|worker-\d+|thread-\d+)\]"@, true, ColorModel::Rgb(140, 140, 255)),
        regex_rule_model(r"\bpid=\d+\b"@, false, ColorModel::Rgb(140, 140, 255)),
        regex_rule_model(r"\b(Exception|Error|Traceback)\b"@, false, ColorModel::Rgb(255, 50, 50)),
        regex_rule_model(r"^\s+at\s+[^\s]+\([^\)]*\)"@, false, ColorModel::Rgb(180, 180, 255)),
        regex_rule_model(r"\b(SELECT|INSERT|UPDATE|DELETE|FROM|WHERE|JOIN|CREATE|DROP|ALTER)\b"@, true, ColorModel::Rgb(0, 255, 200)),
        regex_rule_model(r"(\$[a-zA-Z_][\w]*)"@, false, ColorModel::Rgb(255, 200, 100)),
        regex_rule_model(r"\b\d+(\.\d+)?\b"@, false, ColorModel::Rgb(181, 206, 168)),
        regex_rule_model(r#""([^"\\]|\\.)*""#@, false, ColorModel::Rgb(214, 157, 133)),
    ]
}

/// The rules for JSON documents, in order of precedence.
pub open spec fn json_model() -> Seq<RuleModel> {
    seq![
        regex_rule_model(r#""[^"]+"\s*:"#@, false, ColorModel::Rgb(214, 157, 133)),
        regex_rule_model(r#""([^"\\]|\\.)*""#@, false, ColorModel::Rgb(181, 206, 168)),
        regex_rule_model(r"\b\d+(\.\d+)?\b"@, false, ColorModel::Rgb(206, 145, 120)),
        regex_rule_model(r"\b(true|false|null)\b"@, true, ColorModel::Named("Cyan"@)),
    ]
}

/// The rules for C++ source, in order of precedence.
pub open spec fn cpp_model() -> Seq<RuleModel> {
    seq![
        regex_rule_model(r#""[^"\\]*(\\.[^"\\]*)*"|'[^'\\]*(\\.[^'\\]*)*'"#@, false, ColorModel::Rgb(206, 145, 120)),
        regex_rule_model(r"//.*|/\*.*\*/"@, false, ColorModel::Rgb(106, 153, 85)),
        regex_rule_model(r"^\s*#\s*(include|define|ifdef|ifndef|endif|if|else|pragma|line|error).*$"@, false, ColorModel::Named("Magenta"@)),
        regex_rule_model(r"\b(0x[0-9a-fA-F]+|0b[01]+|\d+\.?\d*([eE][+-]?\d+)?|\d+)\b"@, false, ColorModel::Rgb(181, 206, 168)),
        regex_rule_model(r"(->|::|<<=|>>=|==|!=|<=|>=|&&|\|\||\+\+|--|<<|>>|[\+\-\*\/%=&<>!&\|\^~\.\?:;])"@, false, ColorModel::Named("Red"@)),
        regex_rule_model(r"[\(\)\{\}\[\]]"@, false, ColorModel::Rgb(255, 215, 0)),
        regex_rule_model(r"\b(if|else|for|while|do|switch|case|default|return|break|continue|goto|throw|try|catch)\b"@, false, ColorModel::Rgb(197, 134, 192)),
        regex_rule_model(r"\b(int|long|short|char|float|double|bool|void|size_t|u?int(8|16|32|64)_t|auto|unsigned|signed|const|static|inline|virtual|override|final|volatile|mutable|thread_local|explicit|enum|struct|class|union|typename|template)\b"@, false, ColorModel::Named("Blue"@)),
        regex_rule_model(r"\b(public|private|protected|using|namespace|friend|this|operator|new|delete|true|false|nullptr|constexpr|static_cast|dynamic_cast|reinterpret_cast|const_cast)\b"@, false, ColorModel::Named("Cyan"@)),
        regex_rule_model(r"\bstd::\w*"@, false, ColorModel::Named("Yellow"@)),
        regex_rule_model(r"\b[A-Z]\w*\b"@, false, ColorModel::Named("Green"@)),
    ]
}

/// The rules of the preset of a given name; `None` for an unknown name.
pub open spec fn preset_model(name: Seq<char>) -> Option<Seq<RuleModel>> {
    if name == "logs"@ {
        Some(logs_model())
    } else if name == "json"@ {
        Some(json_model())
    } else if name == "cpp"@ {
        Some(cpp_model())
    } else {
        None
    }
}

/// A name that no preset answers to.
#[derive(Debug)]
pub enum PresetError {
    Unknown { name: String },
}

/// The color names that the presets use are known.
proof fn lemma_color_names()
    ensures
        preset_named("Red"@) == Some(PresetColor::Red),
        preset_named("Yellow"@) == Some(PresetColor::Yellow),
        preset_named("Blue"@) == Some(PresetColor::Blue),
        preset_named("Green"@) == Some(PresetColor::Green),
        preset_named("Cyan"@) == Some(PresetColor::Cyan),
        preset_named("Magenta"@) == Some(PresetColor::Magenta),
{
    reveal_strlit("Red");
    reveal_strlit("red");
    reveal_strlit("Yellow");
    reveal_strlit("yellow");
    reveal_strlit("Blue");
    reveal_strlit("blue");
    reveal_strlit("Green");
    reveal_strlit("green");
    reveal_strlit("Cyan");
    reveal_strlit("cyan");
    reveal_strlit("Magenta");
    reveal_strlit("magenta");
    reveal_strlit("yel");
    reveal_strlit("purple");
    assert(ascii_lower("Red"@) =~= "red"@);
    assert(ascii_lower("Yellow"@) =~= "yellow"@);
    assert(ascii_lower("Blue"@) =~= "blue"@);
    assert(ascii_lower("Green"@) =~= "green"@);
    assert(ascii_lower("Cyan"@) =~= "cyan"@);
    assert("cyan"@[0] != "blue"@[0]);
    assert(ascii_lower("Magenta"@) =~= "magenta"@);
}

/// A preset color given by name.
fn named(name: &str) -> (c: Color)
    ensures
        c matches Color::Preset { name: n } && n@ == name@,
{
    Color::Preset { name: name.to_owned() }
}

/// Appends a regular-expression rule.
fn add_rule(v: &mut Vec<Rule>, keyword: &str, ignore_case: bool, color: Color)
    requires
        rules_usable(old(v)@),
        color_seq(&color) is Some,
    ensures
        rules_model(final(v)@) == rules_model(old(v)@).push(
            regex_rule_model(keyword@, ignore_case, color_model(&color)),
        ),
        rules_usable(final(v)@),
{
    let ghost m = regex_rule_model(keyword@, ignore_case, color_model(&color));
    v.push(Rule { keyword: keyword.to_owned(), color, is_regex: true, ignore_case });
    assert(final(v)@[old(v)@.len() as int].is_regex);
    assert(rule_model(final(v)@[old(v)@.len() as int]) == m);
    assert(rules_model(final(v)@) =~= rules_model(old(v)@).push(m));
}

/// The rules for log files: timestamps, addresses, levels, numbers and more.
fn logs_rules() -> (r: Vec<Rule>)
    ensures
        rules_model(r@) == logs_model(),
        rules_usable(r@),
{
    proof {
        lemma_color_names();
    }
    let mut v: Vec<Rule> = Vec::new();
    assert(rules_model(v@) =~= Seq::<RuleModel>::empty());
    add_rule(&mut v, r"\b\d{4}-\d{2}-\d{2}[ T]\d{2}:\d{2}:\d{2}(\.\d+)?\b", false, Color::RGB { r: 180, g: 180, b: 180 });
    add_rule(&mut v, r"\b\d{1,3}(\.\d{1,3}){3}\b", false, Color::RGB { r: 255, g: 165, b: 0 });
    add_rule(&mut v, r"\b([0-9a-fA-F]{0,4}:){1,7}[0-9a-fA-F]{0,4}\b", false, Color::RGB { r: 255, g: 165, b: 0 });
    add_rule(&mut v, r"https?://[^\s/$.?#].[^\s]*", false, Color::RGB { r: 80, g: 200, b: 250 });
    add_rule(&mut v, r"\b([a-zA-Z0-9-]+\.)+[a-zA-Z]{2,}\b", false, Color::RGB { r: 100, g: 150, b: 200 });
    add_rule(&mut v, r#""[^"]+"\s*:"#, false, Color::RGB { r: 200, g: 100, b: 200 });
    add_rule(&mut v, r"\b(user|uid|id|request_id|trace_id|span_id)=\S+\b", true, Color::RGB { r: 206, g: 145, b: 120 });
    add_rule(&mut v, r"\b([A-Za-z_][\w$]*\.)+[A-Za-z_][\w$]*\b", false, Color::RGB { r: 86, g: 156, b: 214 });
    add_rule(&mut v, r"(/[^ \t\n]+)+", false, Color::RGB { r: 152, g: 195, b: 121 });
    add_rule(&mut v, r"\b(FATAL|CRITICAL|FF)\b", true, Color::RGB { r: 255, g: 0, b: 0 });
    add_rule(&mut v, r"\b(ERROR|EE)\b", true, named("Red"));
    add_rule(&mut v, r"\b(WARN(ING)?|WW)\b", true, named("Yellow"));
    add_rule(&mut v, r"\b(INFO|II)\b", true, named("Green"));
    add_rule(&mut v, r"\b(DEBUG|DD)\b", true, named("Cyan"));
    add_rule(&mut v, r"\b(TRACE|VV)\b", true, Color::RGB { r: 160, g: 160, b: 160 });
    add_rule(&mut v, r"\b(GET|POST|PUT|DELETE|PATCH|OPTIONS|HEAD)\b", false, Color::RGB { r: 0, g: 200, b: 0 });
    add_rule(&mut v, r"\b(1\d{2}|2\d{2}|3\d{2}|4\d{2}|5\d{2})\b", false, Color::RGB { r: 255, g: 140, b: 0 });
    add_rule(&mut v, r"\[(main|worker-\d+|thread-\d+)\]", true, Color::RGB { r: 140, g: 140, b: 255 });
    add_rule(&mut v, r"\bpid=\d+\b", false, Color::RGB { r: 140, g: 140, b: 255 });
    add_rule(&mut v, r"\b(Exception|Error|Traceback)\b", false, Color::RGB { r: 255, g: 50, b: 50 });
    add_rule(&mut v, r"^\s+at\s+[^\s]+\([^\)]*\)", false, Color::RGB { r: 180, g: 180, b: 255 });
    add_rule(&mut v, r"\b(SELECT|INSERT|UPDATE|DELETE|FROM|WHERE|JOIN|CREATE|DROP|ALTER)\b", true, Color::RGB { r: 0, g: 255, b: 200 });
    add_rule(&mut v, r"(\$[a-zA-Z_][\w]*)", false, Color::RGB { r: 255, g: 200, b: 100 });
    add_rule(&mut v, r"\b\d+(\.\d+)?\b", false, Color::RGB { r: 181, g: 206, b: 168 });
    add_rule(&mut v, r#""([^"\\]|\\.)*""#, false, Color::RGB { r: 214, g: 157, b: 133 });
    v
}

/// The rules for JSON documents.
fn json_rules() -> (r: Vec<Rule>)
    ensures
        rules_model(r@) == json_model(),
        rules_usable(r@),
{
    proof {
        lemma_color_names();
    }
    let mut v: Vec<Rule> = Vec::new();
    assert(rules_model(v@) =~= Seq::<RuleModel>::empty());
    add_rule(&mut v, r#""[^"]+"\s*:"#, false, Color::RGB { r: 214, g: 157, b: 133 });
    add_rule(&mut v, r#""([^"\\]|\\.)*""#, false, Color::RGB { r: 181, g: 206, b: 168 });
    add_rule(&mut v, r"\b\d+(\.\d+)?\b", false, Color::RGB { r: 206, g: 145, b: 120 });
    add_rule(&mut v, r"\b(true|false|null)\b", true, named("Cyan"));
    v
}

/// The rules for C++ source.
fn cpp_rules() -> (r: Vec<Rule>)
    ensures
        rules_model(r@) == cpp_model(),
        rules_usable(r@),
{
    proof {
        lemma_color_names();
    }
    let mut v: Vec<Rule> = Vec::new();
    assert(rules_model(v@) =~= Seq::<RuleModel>::empty());
    add_rule(&mut v, r#""[^"\\]*(\\.[^"\\]*)*"|'[^'\\]*(\\.[^'\\]*)*'"#, false, Color::RGB { r: 206, g: 145, b: 120 });
    add_rule(&mut v, r"//.*|/\*.*\*/", false, Color::RGB { r: 106, g: 153, b: 85 });
    add_rule(&mut v, r"^\s*#\s*(include|define|ifdef|ifndef|endif|if|else|pragma|line|error).*$", false, named("Magenta"));
    add_rule(&mut v, r"\b(0x[0-9a-fA-F]+|0b[01]+|\d+\.?\d*([eE][+-]?\d+)?|\d+)\b", false, Color::RGB { r: 181, g: 206, b: 168 });
    add_rule(&mut v, r"(->|::|<<=|>>=|==|!=|<=|>=|&&|\|\||\+\+|--|<<|>>|[\+\-\*\/%=&<>!&\|\^~\.\?:;])", false, named("Red"));
    add_rule(&mut v, r"[\(\)\{\}\[\]]", false, Color::RGB { r: 255, g: 215, b: 0 });
    add_rule(&mut v, r"\b(if|else|for|while|do|switch|case|default|return|break|continue|goto|throw|try|catch)\b", false, Color::RGB { r: 197, g: 134, b: 192 });
    add_rule(&mut v, r"\b(int|long|short|char|float|double|bool|void|size_t|u?int(8|16|32|64)_t|auto|unsigned|signed|const|static|inline|virtual|override|final|volatile|mutable|thread_local|explicit|enum|struct|class|union|typename|template)\b", false, named("Blue"));
    add_rule(&mut v, r"\b(public|private|protected|using|namespace|friend|this|operator|new|delete|true|false|nullptr|constexpr|static_cast|dynamic_cast|reinterpret_cast|const_cast)\b", false, named("Cyan"));
    add_rule(&mut v, r"\bstd::\w*", false, named("Yellow"));
    add_rule(&mut v, r"\b[A-Z]\w*\b", false, named("Green"));
    v
}

/// The rules of the preset with the given name: `logs`, `json` or `cpp`.
pub fn get_preset(name: &str) -> (r: Result<Vec<Rule>, PresetError>)
    ensures
        r is Ok <==> preset_model(name@) is Some,
        r matches Ok(v) ==> Some(rules_model(v@)) == preset_model(name@) && rules_usable(v@),
        r matches Err(PresetError::Unknown { name: n }) ==> n@ == name@,
{
    let n = name.to_owned();
    if text_is(&n, "logs") {
        Ok(logs_rules())
    } else if text_is(&n, "json") {
        Ok(json_rules())
    } else if text_is(&n, "cpp") {
        Ok(cpp_rules())
    } else {
        Err(PresetError::Unknown { name: n })
    }
}

} // verus!
