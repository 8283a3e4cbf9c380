//! Declarative semantic validation rules.
//!
//! A semantic validator checks a field's parsed value against business
//! rules and reports the first broken rule's message.  Writing such a
//! validator by hand is always possible; this module provides the common
//! rules declaratively: a [`ValidationBuilder`] accumulates rules for one
//! named field, in order, and the built [`FieldRules`] checks a value
//! against them, reporting the first failure with a message naming the
//! field.

use vstd::prelude::*;
use crate::decimal::{dec_rep, int_rep, i64_to_dec, u64_to_dec};

verus! {

/// Whether `pattern` occurs in `s` starting at `k`.
pub open spec fn match_at(s: Seq<char>, pattern: Seq<char>, k: int) -> bool {
    s.subrange(k, k + pattern.len()) == pattern
}

/// Whether `pattern` occurs contiguously inside `s`.
pub open spec fn contains_seq(s: Seq<char>, pattern: Seq<char>) -> bool {
    exists|k: int| 0 <= k <= s.len() - pattern.len() && #[trigger] match_at(s, pattern, k)
}

/// Substring search: whether `pattern` occurs contiguously inside `s`.
pub fn str_contains(s: &str, pattern: &str) -> (r: bool)
    ensures
        r == contains_seq(s@, pattern@),
{
    let n = s.unicode_len();
    let m = pattern.unicode_len();
    if m == 0 {
        proof {
            assert(s@.subrange(0, 0) =~= pattern@);
            assert(match_at(s@, pattern@, 0));
        }
        return true;
    }
    if m > n {
        proof {
            assert(!contains_seq(s@, pattern@));
        }
        return false;
    }
    let mut k: usize = 0;
    while k < n - m + 1
        invariant
            0 <= k <= n - m + 1,
            1 <= m <= n,
            n == s@.len(),
            m == pattern@.len(),
            forall|q: int| 0 <= q < k ==> !match_at(s@, pattern@, q),
        decreases n - m + 1 - k,
    {
        let mut j: usize = 0;
        let mut mismatched = false;
        while j < m
            invariant
                0 <= j <= m,
                0 <= k <= n - m,
                1 <= m <= n,
                n == s@.len(),
                m == pattern@.len(),
                !mismatched ==> forall|q: int| 0 <= q < j ==> s@[k + q] == pattern@[q],
                mismatched ==> !match_at(s@, pattern@, k as int),
            decreases m - j,
        {
            if s.get_char(k + j) != pattern.get_char(j) {
                proof {
                    assert(s@.subrange(k as int, k + m) != pattern@) by {
                        assert(s@.subrange(k as int, k + m)[j as int] == s@[k + j]);
                    }
                }
                mismatched = true;
                j = m;
            } else {
                j = j + 1;
            }
        }
        if !mismatched {
            proof {
                assert(s@.subrange(k as int, k + m) =~= pattern@);
                assert(match_at(s@, pattern@, k as int));
            }
            return true;
        }
        k = k + 1;
    }
    false
}

/// The message for a field that must not be empty.
pub open spec fn required_message(name: Seq<char>) -> Seq<char> {
    name + " is required"@
}

/// The message for a field shorter than its minimum length.
pub open spec fn min_len_message(name: Seq<char>, min_len: nat) -> Seq<char> {
    name + " must be >= "@ + dec_rep(min_len) + " characters"@
}

/// The message for a field longer than its maximum length.
pub open spec fn max_len_message(name: Seq<char>, max_len: nat) -> Seq<char> {
    name + " must be <= "@ + dec_rep(max_len) + " characters"@
}

/// The message for a field missing a required pattern.
pub open spec fn contains_message(name: Seq<char>, pattern: Seq<char>) -> Seq<char> {
    name + " must contain "@ + pattern
}

/// The message for a value below its minimum.
pub open spec fn min_value_message(name: Seq<char>, min_value: int) -> Seq<char> {
    name + " must be >= "@ + int_rep(min_value)
}

/// The message for a value above its maximum.
pub open spec fn max_value_message(name: Seq<char>, max_value: int) -> Seq<char> {
    name + " must be <= "@ + int_rep(max_value)
}

/// The message for a value a list rules out.
pub open spec fn not_allowed_message(name: Seq<char>, value: int) -> Seq<char> {
    name + " cannot be "@ + int_rep(value)
}

/// One declarative rule on a string-typed field.
pub enum StrRule {
    /// The field must not be empty.
    Required,
    /// The field must be at least this many characters long.
    MinLen(usize),
    /// The field must be at most this many characters long.
    MaxLen(usize),
    /// The field must contain the pattern.
    Contains(String),
}

/// Whether a string value satisfies one rule.
pub open spec fn str_rule_holds(rule: StrRule, value: Seq<char>) -> bool {
    match rule {
        StrRule::Required => value.len() > 0,
        StrRule::MinLen(n) => value.len() >= n,
        StrRule::MaxLen(n) => value.len() <= n,
        StrRule::Contains(p) => contains_seq(value, p@),
    }
}

/// The message a broken string rule reports.
pub open spec fn str_rule_message(name: Seq<char>, rule: StrRule) -> Seq<char> {
    match rule {
        StrRule::Required => required_message(name),
        StrRule::MinLen(n) => min_len_message(name, n as nat),
        StrRule::MaxLen(n) => max_len_message(name, n as nat),
        StrRule::Contains(p) => contains_message(name, p@),
    }
}

/// Checks a string value against one rule, reporting the rule's message
/// on failure.
pub fn check_str_rule(name: &str, rule: &StrRule, value: &str) -> (r: Result<(), String>)
    ensures
        r is Ok <==> str_rule_holds(*rule, value@),
        r matches Err(m) ==> m@ == str_rule_message(name@, *rule),
{
    match rule {
        StrRule::Required => {
            if value.unicode_len() == 0 {
                Err(name.to_owned().concat(" is required"))
            } else {
                Ok(())
            }
        },
        StrRule::MinLen(n) => {
            if value.unicode_len() < *n {
                let m = name.to_owned().concat(" must be >= ");
                let m = m.concat(u64_to_dec(*n as u64).as_str());
                Err(m.concat(" characters"))
            } else {
                Ok(())
            }
        },
        StrRule::MaxLen(n) => {
            if value.unicode_len() > *n {
                let m = name.to_owned().concat(" must be <= ");
                let m = m.concat(u64_to_dec(*n as u64).as_str());
                Err(m.concat(" characters"))
            } else {
                Ok(())
            }
        },
        StrRule::Contains(p) => {
            if !str_contains(value, p.as_str()) {
                let m = name.to_owned().concat(" must contain ");
                Err(m.concat(p.as_str()))
            } else {
                Ok(())
            }
        },
    }
}

/// One declarative rule on an integer-typed field.
pub enum IntRule {
    /// The value must be at least this.
    MinValue(i64),
    /// The value must be at most this.
    MaxValue(i64),
    /// The value must be one of these.
    Whitelist(Vec<i64>),
    /// The value must be none of these.
    Blacklist(Vec<i64>),
}

/// Whether an integer value satisfies one rule.
pub open spec fn int_rule_holds(rule: IntRule, value: i64) -> bool {
    match rule {
        IntRule::MinValue(m) => value >= m,
        IntRule::MaxValue(m) => value <= m,
        IntRule::Whitelist(list) => list@.contains(value),
        IntRule::Blacklist(list) => !list@.contains(value),
    }
}

/// The message a broken integer rule reports.
pub open spec fn int_rule_message(name: Seq<char>, rule: IntRule, value: i64) -> Seq<char> {
    match rule {
        IntRule::MinValue(m) => min_value_message(name, m as int),
        IntRule::MaxValue(m) => max_value_message(name, m as int),
        IntRule::Whitelist(_) => not_allowed_message(name, value as int),
        IntRule::Blacklist(_) => not_allowed_message(name, value as int),
    }
}

/// Whether a list holds a value.
fn list_contains(list: &Vec<i64>, value: i64) -> (r: bool)
    ensures
        r == list@.contains(value),
{
    let mut i: usize = 0;
    while i < list.len()
        invariant
            0 <= i <= list@.len(),
            forall|j: int| 0 <= j < i ==> list@[j] != value,
        decreases list@.len() - i,
    {
        if list[i] == value {
            return true;
        }
        i = i + 1;
    }
    proof {
        assert(!list@.contains(value));
    }
    false
}

/// Checks an integer value against one rule, reporting the rule's message
/// on failure.
pub fn check_int_rule(name: &str, rule: &IntRule, value: i64) -> (r: Result<(), String>)
    ensures
        r is Ok <==> int_rule_holds(*rule, value),
        r matches Err(m) ==> m@ == int_rule_message(name@, *rule, value),
{
    match rule {
        IntRule::MinValue(m) => {
            if value < *m {
                let msg = name.to_owned().concat(" must be >= ");
                Err(msg.concat(i64_to_dec(*m).as_str()))
            } else {
                Ok(())
            }
        },
        IntRule::MaxValue(m) => {
            if value > *m {
                let msg = name.to_owned().concat(" must be <= ");
                Err(msg.concat(i64_to_dec(*m).as_str()))
            } else {
                Ok(())
            }
        },
        IntRule::Whitelist(list) => {
            if !list_contains(list, value) {
                let msg = name.to_owned().concat(" cannot be ");
                Err(msg.concat(i64_to_dec(value).as_str()))
            } else {
                Ok(())
            }
        },
        IntRule::Blacklist(list) => {
            if list_contains(list, value) {
                let msg = name.to_owned().concat(" cannot be ");
                Err(msg.concat(i64_to_dec(value).as_str()))
            } else {
                Ok(())
            }
        },
    }
}

/// The outcome of checking a value against rules in order: the first
/// broken rule's message, or `Ok` when every rule holds.
pub open spec fn str_rules_outcome(
    name: Seq<char>,
    rules: Seq<StrRule>,
    value: Seq<char>,
) -> Result<(), Seq<char>>
    decreases rules.len(),
{
    if rules.len() == 0 {
        Ok(())
    } else if !str_rule_holds(rules[0], value) {
        Err(str_rule_message(name, rules[0]))
    } else {
        str_rules_outcome(name, rules.skip(1), value)
    }
}

/// While every rule before `i` holds of the value, the outcome over all
/// the rules is the outcome over those from `i` on.
proof fn lemma_str_rules_outcome_skip(
    name: Seq<char>,
    rules: Seq<StrRule>,
    value: Seq<char>,
    i: int,
)
    requires
        0 <= i <= rules.len(),
        forall|j: int| 0 <= j < i ==> str_rule_holds(#[trigger] rules[j], value),
    ensures
        str_rules_outcome(name, rules, value) == str_rules_outcome(name, rules.skip(i), value),
    decreases i,
{
    if i > 0 {
        lemma_str_rules_outcome_skip(name, rules, value, i - 1);
        assert(rules.skip(i - 1)[0] == rules[i - 1]);
        assert(rules.skip(i - 1).skip(1) =~= rules.skip(i));
    } else {
        assert(rules.skip(0) =~= rules);
    }
}

/// The outcome of checking an integer against rules in order.
pub open spec fn int_rules_outcome(
    name: Seq<char>,
    rules: Seq<IntRule>,
    value: i64,
) -> Result<(), Seq<char>>
    decreases rules.len(),
{
    if rules.len() == 0 {
        Ok(())
    } else if !int_rule_holds(rules[0], value) {
        Err(int_rule_message(name, rules[0], value))
    } else {
        int_rules_outcome(name, rules.skip(1), value)
    }
}

/// While every rule before `i` holds of the value, the outcome over all
/// the rules is the outcome over those from `i` on.
proof fn lemma_int_rules_outcome_skip(name: Seq<char>, rules: Seq<IntRule>, value: i64, i: int)
    requires
        0 <= i <= rules.len(),
        forall|j: int| 0 <= j < i ==> int_rule_holds(#[trigger] rules[j], value),
    ensures
        int_rules_outcome(name, rules, value) == int_rules_outcome(name, rules.skip(i), value),
    decreases i,
{
    if i > 0 {
        lemma_int_rules_outcome_skip(name, rules, value, i - 1);
        assert(rules.skip(i - 1)[0] == rules[i - 1]);
        assert(rules.skip(i - 1).skip(1) =~= rules.skip(i));
    } else {
        assert(rules.skip(0) =~= rules);
    }
}

/// The built rule set for one named field.
pub struct FieldRules<R> {
    /// The field's name, used in error messages.
    pub name: String,
    /// The rules, checked in the order they were declared.
    pub rules: Vec<R>,
}

impl FieldRules<StrRule> {
    /// Checks a string value against the rules, in order, reporting the
    /// first broken rule's message.
    pub fn validate(&self, value: &str) -> (r: Result<(), String>)
        ensures
            r is Ok <==> str_rules_outcome(self.name@, self.rules@, value@) is Ok,
            r matches Err(m) ==> str_rules_outcome(self.name@, self.rules@, value@)
                matches Err(expected) && m@ == expected,
    {
        let mut i: usize = 0;
        while i < self.rules.len()
            invariant
                0 <= i <= self.rules@.len(),
                forall|j: int| 0 <= j < i ==> str_rule_holds(#[trigger] self.rules@[j], value@),
            decreases self.rules@.len() - i,
        {
            let outcome = check_str_rule(self.name.as_str(), &self.rules[i], value);
            match outcome {
                Err(m) => {
                    proof {
                        lemma_str_rules_outcome_skip(self.name@, self.rules@, value@, i as int);
                        assert(self.rules@.skip(i as int)[0] == self.rules@[i as int]);
                    }
                    return Err(m);
                },
                Ok(()) => {},
            }
            i = i + 1;
        }
        proof {
            lemma_str_rules_outcome_skip(self.name@, self.rules@, value@, i as int);
            assert(self.rules@.skip(i as int) =~= Seq::<StrRule>::empty());
        }
        Ok(())
    }
}

impl FieldRules<IntRule> {
    /// Checks an integer value against the rules, in order, reporting the
    /// first broken rule's message.
    pub fn validate(&self, value: i64) -> (r: Result<(), String>)
        ensures
            r is Ok <==> int_rules_outcome(self.name@, self.rules@, value) is Ok,
            r matches Err(m) ==> int_rules_outcome(self.name@, self.rules@, value)
                matches Err(expected) && m@ == expected,
    {
        let mut i: usize = 0;
        while i < self.rules.len()
            invariant
                0 <= i <= self.rules@.len(),
                forall|j: int| 0 <= j < i ==> int_rule_holds(#[trigger] self.rules@[j], value),
            decreases self.rules@.len() - i,
        {
            let outcome = check_int_rule(self.name.as_str(), &self.rules[i], value);
            match outcome {
                Err(m) => {
                    proof {
                        lemma_int_rules_outcome_skip(self.name@, self.rules@, value, i as int);
                        assert(self.rules@.skip(i as int)[0] == self.rules@[i as int]);
                    }
                    return Err(m);
                },
                Ok(()) => {},
            }
            i = i + 1;
        }
        proof {
            lemma_int_rules_outcome_skip(self.name@, self.rules@, value, i as int);
            assert(self.rules@.skip(i as int) =~= Seq::<IntRule>::empty());
        }
        Ok(())
    }
}

/// A declarative builder for one field's semantic validation rules.
///
/// Rules are checked in the order they are declared.
pub struct ValidationBuilder<R> {
    /// The field's name, used in error messages.
    pub name: String,
    /// The rules declared so far.
    pub rules: Vec<R>,
}

impl<R> ValidationBuilder<R> {
    /// Starts an empty rule set; the field is called "Field" in messages
    /// until [`ValidationBuilder::named`] renames it.
    pub fn new() -> (r: Self)
        ensures
            r.name@ == "Field"@,
            r.rules@ == Seq::<R>::empty(),
    {
        ValidationBuilder { name: "Field".to_owned(), rules: Vec::new() }
    }

    /// Names the field for error messages.
    pub fn named(self, name: &str) -> (r: Self)
        ensures
            r.name@ == name@,
            r.rules == self.rules,
    {
        let mut s = self;
        s.name = name.to_owned();
        s
    }

    /// Builds the declared rules into a checkable rule set.
    pub fn build(self) -> (r: FieldRules<R>)
        ensures
            r.name == self.name,
            r.rules == self.rules,
    {
        FieldRules { name: self.name, rules: self.rules }
    }
}

impl ValidationBuilder<StrRule> {
    /// Requires the field to not be empty.
    pub fn required(self) -> (r: Self)
        ensures
            r.name == self.name,
            r.rules@ == self.rules@.push(StrRule::Required),
    {
        let mut s = self;
        s.rules.push(StrRule::Required);
        s
    }

    /// Requires the field to be at least `min_len` characters long.
    pub fn min_len(self, min_len: usize) -> (r: Self)
        ensures
            r.name == self.name,
            r.rules@ == self.rules@.push(StrRule::MinLen(min_len)),
    {
        let mut s = self;
        s.rules.push(StrRule::MinLen(min_len));
        s
    }

    /// Requires the field to be at most `max_len` characters long.
    pub fn max_len(self, max_len: usize) -> (r: Self)
        ensures
            r.name == self.name,
            r.rules@ == self.rules@.push(StrRule::MaxLen(max_len)),
    {
        let mut s = self;
        s.rules.push(StrRule::MaxLen(max_len));
        s
    }

    /// Requires the field to contain `pattern`.
    pub fn contains(self, pattern: &str) -> (r: Self)
        ensures
            r.name == self.name,
            r.rules@.len() == self.rules@.len() + 1,
            r.rules@.drop_last() == self.rules@,
            r.rules@.last() matches StrRule::Contains(p) && p@ == pattern@,
    {
        let mut s = self;
        s.rules.push(StrRule::Contains(pattern.to_owned()));
        s
    }
}

impl ValidationBuilder<IntRule> {
    /// Requires the value to be at least `min_value`.
    pub fn min_value(self, min_value: i64) -> (r: Self)
        ensures
            r.name == self.name,
            r.rules@ == self.rules@.push(IntRule::MinValue(min_value)),
    {
        let mut s = self;
        s.rules.push(IntRule::MinValue(min_value));
        s
    }

    /// Requires the value to be at most `max_value`.
    pub fn max_value(self, max_value: i64) -> (r: Self)
        ensures
            r.name == self.name,
            r.rules@ == self.rules@.push(IntRule::MaxValue(max_value)),
    {
        let mut s = self;
        s.rules.push(IntRule::MaxValue(max_value));
        s
    }

    /// Requires the value to be in the whitelist.
    pub fn whitelist(self, whitelist: Vec<i64>) -> (r: Self)
        ensures
            r.name == self.name,
            r.rules@ == self.rules@.push(IntRule::Whitelist(whitelist)),
    {
        let mut s = self;
        s.rules.push(IntRule::Whitelist(whitelist));
        s
    }

    /// Requires the value to not be in the blacklist.
    pub fn blacklist(self, blacklist: Vec<i64>) -> (r: Self)
        ensures
            r.name == self.name,
            r.rules@ == self.rules@.push(IntRule::Blacklist(blacklist)),
    {
        let mut s = self;
        s.rules.push(IntRule::Blacklist(blacklist));
        s
    }
}

} // verus!
