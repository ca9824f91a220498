use highlite::highlight::{EngineError, HighlightingEngine};
use highlite::preset::get_preset;
use highlite::rules::{Color, PresetColor, Rule};

fn literal(keyword: &str, name: &str, ignore_case: bool) -> Rule {
    Rule {
        keyword: keyword.into(),
        color: Color::Preset { name: name.into() },
        is_regex: false,
        ignore_case,
    }
}

fn regex_rule(keyword: &str, color: Color) -> Rule {
    Rule {
        keyword: keyword.into(),
        color,
        is_regex: true,
        ignore_case: false,
    }
}

fn render(engine: &HighlightingEngine, input: &str) -> String {
    let mut out = String::new();
    engine.render_line(input, &mut out);
    out
}

#[test]
fn rule_level_ignore_case_works() {
    let rules = vec![Rule {
        keyword: "error".into(),
        color: Color::Preset { name: "Red".into() },
        is_regex: false,
        ignore_case: true,
    }];

    let engine = HighlightingEngine::new(&rules, false).unwrap();
    let mut out = String::new();

    engine.render_line("ERROR\n", &mut out);
    assert!(out.contains("\x1b[31mERROR\x1b[0m"));
}

#[test]
fn cli_ignore_case_overrides_rules() {
    let rules = vec![Rule {
        keyword: "error".into(),
        color: Color::Preset { name: "Red".into() },
        is_regex: false,
        ignore_case: false,
    }];

    let engine = HighlightingEngine::new(&rules, true).unwrap();
    let mut out = String::new();

    engine.render_line("ERROR\n", &mut out);
    assert!(out.contains("\x1b[31mERROR\x1b[0m"));
}

#[test]
fn case_sensitive_rule_does_not_match() {
    let rules = vec![Rule {
        keyword: "error".into(),
        color: Color::Preset { name: "Red".into() },
        is_regex: false,
        ignore_case: false,
    }];

    let engine = HighlightingEngine::new(&rules, false).unwrap();
    let mut out = String::new();

    engine.render_line("ERROR\n", &mut out);
    assert!(!out.contains("\x1b[31m"));
}

#[test]
fn line_without_match_is_unchanged() {
    let engine = HighlightingEngine::new(&[literal("ERROR", "Red", false)], false).unwrap();
    assert_eq!(render(&engine, "all is well, ünïcode too\n"), "all is well, ünïcode too\n");
}

#[test]
fn empty_line_renders_empty() {
    let engine = HighlightingEngine::new(&[literal("ERROR", "Red", false)], false).unwrap();
    assert_eq!(render(&engine, ""), "");
}

#[test]
fn buffer_reuse_leaves_no_residue() {
    let engine = HighlightingEngine::new(&[literal("ERROR", "Red", false)], false).unwrap();
    let mut out = String::new();
    engine.render_line("a long first line with ERROR in it\n", &mut out);
    engine.render_line("ok\n", &mut out);
    assert_eq!(out, "ok\n");
}

#[test]
fn literal_dot_is_not_a_wildcard() {
    let engine = HighlightingEngine::new(&[literal("a.b", "Green", false)], false).unwrap();
    assert_eq!(render(&engine, "a.b\n"), "\x1b[32ma.b\x1b[0m\n");
    assert_eq!(render(&engine, "axb\n"), "axb\n");
}

#[test]
fn earlier_rule_wins_at_same_position() {
    let rules = vec![
        regex_rule(r"\d{4}-\d{2}-\d{2} \d{2}:\d{2}:\d{2}", Color::RGB { r: 180, g: 180, b: 180 }),
        regex_rule(r"\d+", Color::Preset { name: "Blue".into() }),
    ];
    let engine = HighlightingEngine::new(&rules, false).unwrap();
    assert_eq!(
        render(&engine, "at 2024-01-01 10:00:00 ok\n"),
        "at \x1b[38;2;180;180;180m2024-01-01 10:00:00\x1b[0m ok\n"
    );
}

#[test]
fn later_numeric_rule_splits_when_listed_first() {
    let rules = vec![
        regex_rule(r"\d+", Color::Preset { name: "Blue".into() }),
        regex_rule(r"\d{4}-\d{2}-\d{2}", Color::Preset { name: "Red".into() }),
    ];
    let engine = HighlightingEngine::new(&rules, false).unwrap();
    assert_eq!(
        render(&engine, "2024-01-01"),
        "\x1b[34m2024\x1b[0m-\x1b[34m01\x1b[0m-\x1b[34m01\x1b[0m"
    );
}

#[test]
fn concrete_error_line() {
    let engine = HighlightingEngine::new(&[literal("ERROR", "Red", true)], false).unwrap();
    assert_eq!(render(&engine, "status: ERROR\n"), "status: \x1b[31mERROR\x1b[0m\n");
}

#[test]
fn unbalanced_group_is_rejected() {
    let rules = vec![regex_rule("(", Color::Preset { name: "Red".into() })];
    assert!(matches!(
        HighlightingEngine::new(&rules, false),
        Err(EngineError::InvalidPattern { .. })
    ));
}

#[test]
fn unknown_color_is_rejected() {
    let rules = vec![literal("a", "Red", false), literal("b", "mauve", false)];
    assert!(matches!(
        HighlightingEngine::new(&rules, false),
        Err(EngineError::UnknownColor { index: 1 })
    ));
}

#[test]
fn adjacent_matches_have_no_separator() {
    let rules = vec![literal("ab", "Red", false), literal("cd", "Green", false)];
    let engine = HighlightingEngine::new(&rules, false).unwrap();
    assert_eq!(render(&engine, "abcd"), "\x1b[31mab\x1b[0m\x1b[32mcd\x1b[0m");
}

#[test]
fn many_rules_keep_their_colors() {
    let mut rules = Vec::new();
    for i in 0..12 {
        rules.push(regex_rule(&format!("k{}x", i), Color::RGB { r: i as u8, g: 0, b: 0 }));
    }
    let engine = HighlightingEngine::new(&rules, false).unwrap();
    assert_eq!(render(&engine, "k11x"), "\x1b[38;2;11;0;0mk11x\x1b[0m");
    assert_eq!(render(&engine, " k1x"), " \x1b[38;2;1;0;0mk1x\x1b[0m");
}

#[test]
fn user_group_named_like_a_rule_is_unused() {
    let rules = vec![regex_rule("(?P<r7>q)z", Color::Preset { name: "Cyan".into() })];
    let engine = HighlightingEngine::new(&rules, false).unwrap();
    assert_eq!(render(&engine, "qz"), "\x1b[36mqz\x1b[0m");
}

#[test]
fn rgb_color_sequence() {
    let s = Color::RGB { r: 1, g: 22, b: 255 }.to_ansi().ok().unwrap();
    assert_eq!(s, "\x1b[38;2;1;22;255m");
}

#[test]
fn preset_color_aliases_ignore_case() {
    let s = Color::Preset { name: "YeL".into() }.to_ansi().ok().unwrap();
    assert_eq!(s, "\x1b[33m");
    let p = PresetColor::parse("Purple").ok().unwrap();
    assert_eq!(p.to_ansi(), "\x1b[35m");
    assert!(Color::Preset { name: "mauve".into() }.to_ansi().is_err());
}

#[test]
fn presets_have_their_rules_and_compile() {
    for (name, len) in [("logs", 25), ("json", 4), ("cpp", 11)] {
        let rules = get_preset(name).unwrap();
        assert_eq!(rules.len(), len);
        assert!(HighlightingEngine::new(&rules, false).is_ok());
    }
    assert!(get_preset("yaml").is_err());
}

#[test]
fn logs_preset_colors_levels() {
    let engine = HighlightingEngine::new(&get_preset("logs").unwrap(), false).unwrap();
    assert_eq!(render(&engine, "ERROR\n"), "\x1b[31mERROR\x1b[0m\n");
}

fn is_rgb(c: &Color, r: u8, g: u8, b: u8) -> bool {
    matches!(c, Color::RGB { r: x, g: y, b: z } if *x == r && *y == g && *z == b)
}

fn is_named(c: &Color, name: &str) -> bool {
    matches!(c, Color::Preset { name: n } if n == name)
}

#[test]
fn logs_preset_order_and_ends() {
    let v = get_preset("logs").unwrap();
    assert_eq!(v[0].keyword, r"\b\d{4}-\d{2}-\d{2}[ T]\d{2}:\d{2}:\d{2}(\.\d+)?\b");
    assert!(is_rgb(&v[0].color, 180, 180, 180));
    assert_eq!(v[1].keyword, r"\b\d{1,3}(\.\d{1,3}){3}\b");
    assert_eq!(v[23].keyword, r"\b\d+(\.\d+)?\b");
    assert_eq!(v[24].keyword, r#""([^"\\]|\\.)*""#);
    assert!(v.iter().all(|r| r.is_regex));
}

#[test]
fn json_and_cpp_preset_last_rules() {
    let j = get_preset("json").unwrap();
    assert_eq!(j[3].keyword, r"\b(true|false|null)\b");
    assert!(j[3].ignore_case);
    assert!(is_named(&j[3].color, "Cyan"));
    let c = get_preset("cpp").unwrap();
    assert_eq!(c[10].keyword, r"\b[A-Z]\w*\b");
    assert!(c.iter().all(|r| r.is_regex && !r.ignore_case));
}

#[test]
fn presets_are_fresh_copies() {
    let mut a = get_preset("json").unwrap();
    a[0].keyword.push_str("changed");
    let b = get_preset("json").unwrap();
    assert_eq!(b[0].keyword, r#""[^"]+"\s*:"#);
}
