//! Rule definitions and the translation of colors to terminal escape sequences.
use vstd::prelude::*;

verus! {

/// The escape sequence that ends a colored span.
pub open spec fn reset_seq() -> Seq<char> {
    "\x1b[0m"@
}

/// The ten ASCII digits, in order of value.
pub open spec fn digit_chars() -> Seq<char> {
    seq!['0', '1', '2', '3', '4', '5', '6', '7', '8', '9']
}

/// The decimal notation of `n`, without sign or leading zeros.
pub open spec fn decimal(n: nat) -> Seq<char>
    decreases n,
{
    if n < 10 {
        seq![digit_chars()[n as int]]
    } else {
        decimal(n / 10) + seq![digit_chars()[(n % 10) as int]]
    }
}

/// `c` with the ASCII letters 'A'..='Z' mapped to lower case.
pub open spec fn ascii_lower_char(c: char) -> char {
    if 'A' <= c && c <= 'Z' {
        ((c as u32) + 32) as char
    } else {
        c
    }
}

/// `s` with every ASCII upper-case letter mapped to lower case.
pub open spec fn ascii_lower(s: Seq<char>) -> Seq<char> {
    s.map_values(|c: char| ascii_lower_char(c))
}

/// The digit of a value below ten.
fn digit_str(d: usize) -> (r: &'static str)
    requires
        d < 10,
    ensures
        r@ == seq![digit_chars()[d as int]],
{
    proof {
        reveal_strlit("0");
        reveal_strlit("1");
        reveal_strlit("2");
        reveal_strlit("3");
        reveal_strlit("4");
        reveal_strlit("5");
        reveal_strlit("6");
        reveal_strlit("7");
        reveal_strlit("8");
        reveal_strlit("9");
    }
    let r = if d == 0 {
        "0"
    } else if d == 1 {
        "1"
    } else if d == 2 {
        "2"
    } else if d == 3 {
        "3"
    } else if d == 4 {
        "4"
    } else if d == 5 {
        "5"
    } else if d == 6 {
        "6"
    } else if d == 7 {
        "7"
    } else if d == 8 {
        "8"
    } else {
        "9"
    };
    assert(r@ =~= seq![digit_chars()[d as int]]);
    r
}

/// The digits of `n` before its last one.
spec fn leading_digits(n: nat) -> Seq<char> {
    if n < 10 {
        Seq::empty()
    } else {
        decimal(n / 10)
    }
}

/// The decimal notation of a value.
pub(crate) fn decimal_string(n: usize) -> (r: String)
    ensures
        r@ == decimal(n as nat),
{
    let mut rest = n;
    let mut r = digit_str(rest % 10).to_owned();
    assert(decimal(n as nat) =~= leading_digits(n as nat) + r@);
    while rest >= 10
        invariant
            decimal(n as nat) == leading_digits(rest as nat) + r@,
        decreases rest,
    {
        let ghost old_r = r@;
        rest = rest / 10;
        let d = digit_str(rest % 10).to_owned();
        r = d.concat(r.as_str());
        assert(decimal(rest as nat) =~= leading_digits(rest as nat) + d@);
        assert(leading_digits(rest as nat) + r@ =~= (leading_digits(rest as nat) + d@) + old_r);
    }
    assert(r@ =~= leading_digits(rest as nat) + r@);
    r
}

/// Relies on `str::to_ascii_lowercase`: ASCII letters lowered, all else kept.
#[verifier::external_body]
fn to_ascii_lowercase(s: &str) -> (r: String)
    ensures
        r@ == ascii_lower(s@),
{
    s.to_ascii_lowercase()
}

/// Whether `s` holds exactly the text of `lit`.
pub(crate) fn text_is(s: &String, lit: &str) -> (r: bool)
    ensures
        r == (s@ == lit@),
{
    let l = lit.to_owned();
    *s == l
}

/// One of the named colors of the standard eight-color palette.
#[derive(Debug, Clone, Copy, PartialEq, Eq, Structural)]
pub enum PresetColor {
    Red,
    Yellow,
    Blue,
    Green,
    Cyan,
    Magenta,
}

/// The preset that a lower-case name (or one of its aliases) denotes.
pub open spec fn preset_for_lower(name: Seq<char>) -> Option<PresetColor> {
    if name == "red"@ {
        Some(PresetColor::Red)
    } else if name == "yellow"@ || name == "yel"@ {
        Some(PresetColor::Yellow)
    } else if name == "blue"@ {
        Some(PresetColor::Blue)
    } else if name == "green"@ {
        Some(PresetColor::Green)
    } else if name == "cyan"@ {
        Some(PresetColor::Cyan)
    } else if name == "magenta"@ || name == "purple"@ {
        Some(PresetColor::Magenta)
    } else {
        None
    }
}

/// The preset that a name denotes, compared without regard to ASCII case.
pub open spec fn preset_named(name: Seq<char>) -> Option<PresetColor> {
    preset_for_lower(ascii_lower(name))
}

/// The escape sequence that starts text in a preset color.
pub open spec fn preset_seq(p: PresetColor) -> Seq<char> {
    match p {
        PresetColor::Red => "\x1b[31m"@,
        PresetColor::Yellow => "\x1b[33m"@,
        PresetColor::Blue => "\x1b[34m"@,
        PresetColor::Green => "\x1b[32m"@,
        PresetColor::Cyan => "\x1b[36m"@,
        PresetColor::Magenta => "\x1b[35m"@,
    }
}

impl PresetColor {
    /// The escape sequence that starts text in this color.
    pub fn to_ansi(self) -> (r: &'static str)
        ensures
            r@ == preset_seq(self),
    {
        match self {
            PresetColor::Red => "\x1b[31m",
            PresetColor::Yellow => "\x1b[33m",
            PresetColor::Blue => "\x1b[34m",
            PresetColor::Green => "\x1b[32m",
            PresetColor::Cyan => "\x1b[36m",
            PresetColor::Magenta => "\x1b[35m",
        }
    }

    /// Looks a color up by name, ignoring ASCII case.
    pub fn parse(name: &str) -> (r: Result<PresetColor, ColorError>)
        ensures
            r matches Ok(p) ==> preset_named(name@) == Some(p),
            r is Err <==> preset_named(name@) is None,
            r matches Err(ColorError::UnknownPreset { name: n }) ==> n@ == ascii_lower(name@),
    {
        let lower = to_ascii_lowercase(name);
        if text_is(&lower, "red") {
            Ok(PresetColor::Red)
        } else if text_is(&lower, "yellow") || text_is(&lower, "yel") {
            Ok(PresetColor::Yellow)
        } else if text_is(&lower, "blue") {
            Ok(PresetColor::Blue)
        } else if text_is(&lower, "green") {
            Ok(PresetColor::Green)
        } else if text_is(&lower, "cyan") {
            Ok(PresetColor::Cyan)
        } else if text_is(&lower, "magenta") || text_is(&lower, "purple") {
            Ok(PresetColor::Magenta)
        } else {
            Err(ColorError::UnknownPreset { name: lower })
        }
    }
}

/// A color name that no preset answers to.
#[derive(Debug)]
pub enum ColorError {
    UnknownPreset { name: String },
}


/// A render color: a named preset, or an explicit 24-bit RGB value.
#[derive(Debug, Clone)]
pub enum Color {
    Preset { name: String },
    RGB { r: u8, g: u8, b: u8 },
}

/// The escape sequence that starts text in a 24-bit color.
pub open spec fn rgb_seq(r: u8, g: u8, b: u8) -> Seq<char> {
    "\x1b[38;2;"@ + decimal(r as nat) + ";"@ + decimal(g as nat) + ";"@ + decimal(b as nat) + "m"@
}

/// The escape sequence that a color translates to; `None` for an unknown preset name.
pub open spec fn color_seq(c: &Color) -> Option<Seq<char>> {
    match c {
        Color::Preset { name } => match preset_named(name@) {
            Some(p) => Some(preset_seq(p)),
            None => None,
        },
        Color::RGB { r, g, b } => Some(rgb_seq(*r, *g, *b)),
    }
}

impl Color {
    /// Translates this color into the escape sequence that starts it.
    pub fn to_ansi(&self) -> (res: Result<String, ColorError>)
        ensures
            res is Ok <==> color_seq(self) is Some,
            res matches Ok(s) ==> Some(s@) == color_seq(self),
    {
        match self {
            Color::Preset { name } => {
                let p = PresetColor::parse(name.as_str())?;
                Ok(p.to_ansi().to_owned())
            },
            Color::RGB { r, g, b } => {
                let mut s = "\x1b[38;2;".to_owned();
                s.append(decimal_string(*r as usize).as_str());
                s.append(";");
                s.append(decimal_string(*g as usize).as_str());
                s.append(";");
                s.append(decimal_string(*b as usize).as_str());
                s.append("m");
                Ok(s)
            },
        }
    }
}

/// One matching directive: what to match, how, and in which color.
#[derive(Debug, Clone)]
pub struct Rule {
    pub keyword: String,
    pub color: Color,
    pub is_regex: bool,
    pub ignore_case: bool,
}

/// What a color is, as plain values.
pub enum ColorModel {
    Named(Seq<char>),
    Rgb(u8, u8, u8),
}

/// What a rule is, as plain values.
pub struct RuleModel {
    pub keyword: Seq<char>,
    pub is_regex: bool,
    pub ignore_case: bool,
    pub color: ColorModel,
}

/// The plain value of a color.
pub open spec fn color_model(c: &Color) -> ColorModel {
    match c {
        Color::Preset { name } => ColorModel::Named(name@),
        Color::RGB { r, g, b } => ColorModel::Rgb(*r, *g, *b),
    }
}

/// The plain value of a rule.
pub open spec fn rule_model(r: Rule) -> RuleModel {
    RuleModel {
        keyword: r.keyword@,
        is_regex: r.is_regex,
        ignore_case: r.ignore_case,
        color: color_model(&r.color),
    }
}

/// The plain values of a list of rules.
pub open spec fn rules_model(rules: Seq<Rule>) -> Seq<RuleModel> {
    rules.map_values(|r: Rule| rule_model(r))
}

} // verus!
