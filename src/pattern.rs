//! Combining the rules into one alternation with a named group per rule.
use vstd::prelude::*;

use crate::rules::{decimal, decimal_string, Rule};

verus! {

/// Whether `c` has a meaning of its own in a regular expression.
pub open spec fn is_meta(c: char) -> bool {
    c == '\\' || c == '.' || c == '+' || c == '*' || c == '?' || c == '(' || c == ')' || c == '|'
        || c == '[' || c == ']' || c == '{' || c == '}' || c == '^' || c == '$' || c == '#'
        || c == '&' || c == '-' || c == '~'
}

/// `s` with a backslash put before each meta character, so that it matches itself.
pub open spec fn escaped(s: Seq<char>) -> Seq<char>
    decreases s.len(),
{
    if s.len() == 0 {
        Seq::empty()
    } else if is_meta(s.last()) {
        escaped(s.drop_last()) + seq!['\\', s.last()]
    } else {
        escaped(s.drop_last()) + seq![s.last()]
    }
}

/// Relies on `regex::escape`: each meta character gets a backslash before it.
#[verifier::external_body]
fn escape(s: &str) -> (r: String)
    ensures
        r@ == escaped(s@),
{
    regex::escape(s)
}

/// The expression a rule stands for: its keyword as a regular expression,
/// or its keyword escaped so that it matches verbatim.
pub open spec fn base_fragment(rule: Rule) -> Seq<char> {
    if rule.is_regex {
        rule.keyword@
    } else {
        escaped(rule.keyword@)
    }
}

/// Whether a rule matches without regard to case.
pub open spec fn folds_case(rule: Rule, force_ignore_case: bool) -> bool {
    force_ignore_case || rule.ignore_case
}

/// A rule's expression, scoped case-insensitive where the rule asks for it.
pub open spec fn case_fragment(rule: Rule, force_ignore_case: bool) -> Seq<char> {
    if folds_case(rule, force_ignore_case) {
        "(?i:"@ + base_fragment(rule) + ")"@
    } else {
        base_fragment(rule)
    }
}

/// The name of the group that stands for the rule at `index`.
pub open spec fn group_name(index: nat) -> Seq<char> {
    seq!['r'] + decimal(index)
}

/// The rule at `index` as a named group of the combined expression.
pub open spec fn rule_fragment(rule: Rule, index: nat, force_ignore_case: bool) -> Seq<char> {
    "(?P<"@ + group_name(index) + ">"@ + case_fragment(rule, force_ignore_case) + ")"@
}

/// The fragments of the first `n` rules joined by alternation.
pub open spec fn joined_fragments(rules: Seq<Rule>, force_ignore_case: bool, n: nat) -> Seq<char>
    decreases n,
{
    if n == 0 {
        Seq::empty()
    } else if n == 1 {
        rule_fragment(rules[0], 0, force_ignore_case)
    } else {
        joined_fragments(rules, force_ignore_case, (n - 1) as nat) + "|"@ + rule_fragment(
            rules[n - 1],
            (n - 1) as nat,
            force_ignore_case,
        )
    }
}

/// The one expression that all rules are compiled into.
pub open spec fn combined_pattern(rules: Seq<Rule>, force_ignore_case: bool) -> Seq<char> {
    joined_fragments(rules, force_ignore_case, rules.len())
}

/// The rules, each set to match without regard to case.
pub open spec fn all_folding(rules: Seq<Rule>) -> Seq<Rule> {
    rules.map_values(
        |r: Rule|
            Rule { keyword: r.keyword, color: r.color, is_regex: r.is_regex, ignore_case: true },
    )
}

/// The override makes every rule fold case: the combined expression built
/// with it is the one built without it from the rules each set to ignore case.
pub proof fn lemma_override_folds_every_rule(rules: Seq<Rule>)
    ensures
        combined_pattern(rules, true) == combined_pattern(all_folding(rules), false),
{
    lemma_joined_folding(rules, rules.len());
}

proof fn lemma_joined_folding(rules: Seq<Rule>, n: nat)
    requires
        n <= rules.len(),
    ensures
        joined_fragments(rules, true, n) == joined_fragments(all_folding(rules), false, n),
    decreases n,
{
    if n > 0 {
        lemma_joined_folding(rules, (n - 1) as nat);
        assert(rule_fragment(rules[n - 1], (n - 1) as nat, true) == rule_fragment(
            all_folding(rules)[n - 1],
            (n - 1) as nat,
            false,
        ));
        if n == 1 {
            assert(rule_fragment(rules[0], 0, true) == rule_fragment(all_folding(rules)[0], 0, false));
        }
    }
}

/// Builds the fragment of one rule.
fn build_fragment(rule: &Rule, index: usize, force_ignore_case: bool) -> (r: String)
    ensures
        r@ == rule_fragment(*rule, index as nat, force_ignore_case),
{
    let base = if rule.is_regex {
        rule.keyword.clone()
    } else {
        escape(rule.keyword.as_str())
    };
    let mut r = "(?P<r".to_owned();
    r.append(decimal_string(index).as_str());
    r.append(">");
    if force_ignore_case || rule.ignore_case {
        r.append("(?i:");
        r.append(base.as_str());
        r.append(")");
    } else {
        r.append(base.as_str());
    }
    r.append(")");
    proof {
        reveal_strlit("(?P<r");
        reveal_strlit("(?P<");
        assert(r@ =~= rule_fragment(*rule, index as nat, force_ignore_case));
    }
    r
}

/// Builds the combined expression of all rules.
pub fn build_pattern(rules: &[Rule], force_ignore_case: bool) -> (r: String)
    ensures
        r@ == combined_pattern(rules@, force_ignore_case),
{
    let mut r = String::new();
    let mut i: usize = 0;
    while i < rules.len()
        invariant
            i <= rules@.len(),
            r@ == joined_fragments(rules@, force_ignore_case, i as nat),
        decreases rules@.len() - i,
    {
        let frag = build_fragment(&rules[i], i, force_ignore_case);
        if i > 0 {
            r.append("|");
        }
        r.append(frag.as_str());
        proof {
            if i == 0 {
                assert(r@ =~= joined_fragments(rules@, force_ignore_case, 1));
            }
        }
        i = i + 1;
    }
    r
}

} // verus!
