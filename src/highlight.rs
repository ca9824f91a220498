//! The highlighting engine: all rules compiled into one matcher, and the
//! rendering of lines with it.
use vstd::prelude::*;
use vstd::string::{StrSliceExecFns, StringSliceAdditionalSpecFns};
use vstd::utf8::{decode_utf8, encode_utf8};

use crate::matcher::{capture_names, captures, compile, captures_of, compiles, group_names_of, view_names, Matcher};
use crate::pattern::{all_folding, build_pattern, combined_pattern, lemma_override_folds_every_rule};
use crate::render::{render_captures, rendered, table_fits, view_colors};
use crate::rules::{color_seq, Rule};

verus! {

broadcast use vstd::utf8::encode_utf8_decode_utf8;

/// Whether `c` is an ASCII digit.
pub open spec fn is_digit(c: char) -> bool {
    '0' <= c && c <= '9'
}

/// Whether every character of `s` is an ASCII digit.
pub open spec fn all_digits(s: Seq<char>) -> bool {
    forall|i: int| 0 <= i < s.len() ==> is_digit(#[trigger] s[i])
}

/// The value of a string of ASCII digits, read in decimal.
pub open spec fn digits_value(s: Seq<char>) -> nat
    decreases s.len(),
{
    if s.len() == 0 {
        0
    } else {
        digits_value(s.drop_last()) * 10 + ((s.last() as u32) - ('0' as u32)) as nat
    }
}

/// The rule that a capture slot's name stands for: names of the form
/// `r` followed by decimal digits whose value is below `n`.
pub open spec fn rule_index_of(name: Seq<char>, n: nat) -> Option<usize> {
    let digits = name.drop_first();
    if name.len() >= 2 && name[0] == 'r' && all_digits(digits) && digits_value(digits) < n {
        Some(digits_value(digits) as usize)
    } else {
        None
    }
}

/// The rule that each capture slot stands for, if any.
pub open spec fn slot_table(names: Seq<Option<Seq<char>>>, n: nat) -> Seq<Option<usize>> {
    names.map_values(
        |name: Option<Seq<char>>|
            match name {
                Some(s) => rule_index_of(s, n),
                None => None,
            },
    )
}

/// Whether every rule's color is known.
pub open spec fn all_colors_known(rules: Seq<Rule>) -> bool {
    forall|i: int| 0 <= i < rules.len() ==> (#[trigger] color_seq(&rules[i].color)) is Some
}

/// The escape sequence of each rule's color.
pub open spec fn rule_colors(rules: Seq<Rule>) -> Seq<Seq<char>> {
    rules.map_values(|r: Rule| color_seq(&r.color)->Some_0)
}

/// Adding a digit at the end never lowers the value.
proof fn lemma_digits_grow(s: Seq<char>)
    requires
        s.len() > 0,
    ensures
        digits_value(s) >= digits_value(s.drop_last()),
{
}

/// Reads the rule that a capture slot's name stands for.
fn rule_index(name: &str, n: usize) -> (r: Option<usize>)
    ensures
        r == rule_index_of(name@, n as nat),
{
    let len = name.unicode_len();
    if len < 2 || name.get_char(0) != 'r' {
        return None;
    }
    let ghost digits = name@.drop_first();
    let mut value: u128 = 0;
    let mut large = n == 0;
    let mut i: usize = 1;
    while i < len
        invariant
            1 <= i <= len,
            len == name@.len(),
            digits == name@.drop_first(),
            all_digits(digits.subrange(0, i - 1)),
            large ==> digits_value(digits.subrange(0, i - 1)) >= n,
            !large ==> value == digits_value(digits.subrange(0, i - 1)) && value < n,
        decreases len - i,
    {
        let c = name.get_char(i);
        if c < '0' || c > '9' {
            assert(!is_digit(digits[i - 1]));
            return None;
        }
        let ghost prev = digits.subrange(0, i - 1);
        let ghost next = digits.subrange(0, i as int);
        assert(next.drop_last() =~= prev);
        assert(next.last() == c);
        proof {
            lemma_digits_grow(next);
        }
        if !large {
            value = value * 10 + ((c as u32) - ('0' as u32)) as u128;
            if value >= n as u128 {
                large = true;
            }
        }
        i = i + 1;
    }
    assert(digits.subrange(0, len - 1) =~= digits);
    if large {
        None
    } else {
        Some(value as usize)
    }
}

/// Why an engine could not be built.
#[derive(Debug)]
pub enum EngineError {
    /// The rule at `index` names a color that no preset answers to.
    UnknownColor { index: usize },
    /// The combined expression of the rules is not a valid regular expression.
    InvalidPattern { error: regex::Error },
}

/// All rules compiled into one matcher, with each capture slot traced back
/// to its rule and each rule's color translated in advance.
pub struct HighlightingEngine {
    matcher: Matcher,
    cap_to_color: Vec<Option<usize>>,
    ansi_colors: Vec<String>,
}

impl HighlightingEngine {
    /// The combined expression the engine matches with.
    pub closed spec fn pattern(&self) -> Seq<char> {
        self.matcher.source()
    }

    /// The rule that each capture slot stands for.
    pub closed spec fn table(&self) -> Seq<Option<usize>> {
        self.cap_to_color@
    }

    /// The escape sequence of each rule's color.
    pub closed spec fn colors(&self) -> Seq<Seq<char>> {
        view_colors(self.ansi_colors@)
    }

    /// Every slot that stands for a rule names a rule that has a color.
    #[verifier::type_invariant]
    closed spec fn wf(&self) -> bool {
        table_fits(self.cap_to_color@, self.ansi_colors@.len())
    }

    /// The bytes of the rendering of `input`.
    pub open spec fn rendering(&self, input: Seq<char>) -> Seq<u8> {
        rendered(encode_utf8(input), captures_of(self.pattern(), input), self.table(), self.colors())
    }

    /// Compiles the rules into one engine. A rule folds case where it asks to
    /// or where `force_ignore_case` is set. Fails on the first rule whose color
    /// is unknown, and then where the combined expression does not compile.
    pub fn new(rules: &[Rule], force_ignore_case: bool) -> (r: Result<Self, EngineError>)
        ensures
            r is Ok <==> all_colors_known(rules@) && compiles(
                combined_pattern(rules@, force_ignore_case),
            ),
            r matches Err(EngineError::UnknownColor { .. }) <==> !all_colors_known(rules@),
            r matches Err(EngineError::UnknownColor { index }) ==> index < rules@.len() && color_seq(&rules@[index as int].color) is None
                && forall|j: int| 0 <= j < index ==> (#[trigger] color_seq(&rules@[j].color)) is Some,
            r matches Err(EngineError::InvalidPattern { .. }) <==> all_colors_known(rules@)
                && !compiles(combined_pattern(rules@, force_ignore_case)),
            r matches Ok(e) ==> e.pattern() == combined_pattern(rules@, force_ignore_case)
                && e.colors() == rule_colors(rules@) && e.table() == slot_table(
                group_names_of(e.pattern()),
                rules@.len(),
            ),
    {
        let mut ansi_colors: Vec<String> = Vec::new();
        let mut i: usize = 0;
        while i < rules.len()
            invariant
                i <= rules@.len(),
                ansi_colors@.len() == i,
                forall|j: int| 0 <= j < i ==> color_seq(&rules@[j].color) == Some(#[trigger] ansi_colors@[j]@),
            decreases rules@.len() - i,
        {
            match rules[i].color.to_ansi() {
                Ok(s) => ansi_colors.push(s),
                Err(_) => {
                    assert(color_seq(&rules@[i as int].color) is None);
                    assert forall|j: int| 0 <= j < i implies (#[trigger] color_seq(&rules@[j].color)) is Some by {
                        assert(color_seq(&rules@[j].color) == Some(ansi_colors@[j]@));
                    }
                    return Err(EngineError::UnknownColor { index: i });
                },
            }
            i = i + 1;
        }
        assert forall|j: int| 0 <= j < rules@.len() implies (#[trigger] color_seq(&rules@[j].color)) is Some by {
            assert(color_seq(&rules@[j].color) == Some(ansi_colors@[j]@));
        }
        assert(view_colors(ansi_colors@) =~= rule_colors(rules@));
        let pattern = build_pattern(rules, force_ignore_case);
        let matcher = match compile(&pattern) {
            Ok(m) => m,
            Err(error) => {
                return Err(EngineError::InvalidPattern { error });
            },
        };
        let names = capture_names(&matcher);
        let ghost expected = slot_table(view_names(names@), rules@.len() as nat);
        let mut cap_to_color: Vec<Option<usize>> = Vec::new();
        let mut j: usize = 0;
        while j < names.len()
            invariant
                j <= names@.len(),
                cap_to_color@.len() == j,
                expected == slot_table(view_names(names@), rules@.len() as nat),
                forall|m: int| 0 <= m < j ==> #[trigger] cap_to_color@[m] == expected[m],
            decreases names@.len() - j,
        {
            let slot = match &names[j] {
                Some(name) => rule_index(name.as_str(), rules.len()),
                None => None,
            };
            cap_to_color.push(slot);
            j = j + 1;
        }
        assert(cap_to_color@ =~= expected);
        let e = HighlightingEngine { matcher, cap_to_color, ansi_colors };
        assert(e.table() == expected);
        Ok(e)
    }

    /// Renders one line into `output`, which is cleared first: each match of
    /// a rule is wrapped in the rule's color and the reset sequence, and all
    /// other text is copied as it stands.
    pub fn render_line(&self, input: &str, output: &mut String)
        ensures
            encode_utf8(final(output)@) == self.rendering(input@),
            final(output)@ == decode_utf8(self.rendering(input@)),
            captures_of(self.pattern(), input@).len() == 0 ==> final(output)@ == input@,
    {
        proof {
            use_type_invariant(self);
        }
        let caps = captures(&self.matcher, input);
        render_captures(input, &caps, &self.cap_to_color, &self.ansi_colors, output);
        proof {
            let text = input.spec_bytes();
            if captures_of(self.pattern(), input@).len() == 0 {
                assert(text.subrange(0, text.len() as int) =~= text);
                assert(encode_utf8(final(output)@) == encode_utf8(input@));
                assert(decode_utf8(encode_utf8(final(output)@)) == final(output)@);
            }
        }
    }
}

/// Building with the case override renders every line exactly as building
/// without it from the rules each set to ignore case.
pub proof fn lemma_override_renders_as_folding_rules(
    forced: HighlightingEngine,
    folding: HighlightingEngine,
    rules: Seq<Rule>,
    input: Seq<char>,
)
    requires
        forced.pattern() == combined_pattern(rules, true),
        forced.colors() == rule_colors(rules),
        forced.table() == slot_table(group_names_of(forced.pattern()), rules.len()),
        folding.pattern() == combined_pattern(all_folding(rules), false),
        folding.colors() == rule_colors(all_folding(rules)),
        folding.table() == slot_table(group_names_of(folding.pattern()), all_folding(rules).len()),
    ensures
        forced.rendering(input) == folding.rendering(input),
{
    lemma_override_folds_every_rule(rules);
    assert(rule_colors(rules) =~= rule_colors(all_folding(rules)));
}

} // verus!
