//! Validation of request payloads: the rules (lengths, ranges, character
//! classes, email addresses) and the errors that report broken rules.

use vstd::prelude::*;

verus! {

/// One broken validation rule: the field, the rule's code and, for rules
/// that have one, a message for the client.
#[derive(Clone, Copy, Debug, PartialEq, Eq)]
pub struct Violation {
    pub field: &'static str,
    pub code: &'static str,
    pub message: Option<&'static str>,
}

/// A violation as plain text: field, code, message.
pub type ViolationView = (Seq<char>, Seq<char>, Option<Seq<char>>);

pub open spec fn message_view(m: Option<&'static str>) -> Option<Seq<char>> {
    match m {
        Some(s) => Some(s@),
        None => None,
    }
}

impl View for Violation {
    type V = ViolationView;

    open spec fn view(&self) -> ViolationView {
        (self.field@, self.code@, message_view(self.message))
    }
}

/// All the rules a payload broke, field by field in declaration order and,
/// within a field, rule by rule in declaration order.
#[derive(Clone, Debug)]
pub struct Violations {
    pub violations: Vec<Violation>,
}

impl View for Violations {
    type V = Seq<ViolationView>;

    open spec fn view(&self) -> Seq<ViolationView> {
        self.violations@.map_values(|v: Violation| v@)
    }
}

/// A payload with validation rules.
pub trait Validate {
    /// The rules the payload breaks, in order.
    spec fn violations(&self) -> Seq<ViolationView>;

    /// Checks the rules: `Ok` exactly when no rule is broken, and otherwise
    /// every broken rule, in order.
    fn validate(&self) -> (r: Result<(), Violations>)
        ensures
            r is Ok <==> self.violations().len() == 0,
            r matches Err(e) ==> e@ == self.violations(),
    ;
}

/// The violation recorded when a rule with the given field, code and
/// message does not hold; nothing when it holds.
pub open spec fn rule(holds: bool, field: &'static str, code: &'static str, message: Option<&'static str>) -> Seq<ViolationView> {
    if holds {
        Seq::<ViolationView>::empty()
    } else {
        seq![(field@, code@, message_view(message))]
    }
}

/// Collects violations while a payload is checked.
pub struct Collector {
    pub violations: Vec<Violation>,
}

impl Collector {
    pub open spec fn seen(&self) -> Seq<ViolationView> {
        self.violations@.map_values(|v: Violation| v@)
    }

    pub fn new() -> (c: Collector)
        ensures
            c.seen() == Seq::<ViolationView>::empty(),
    {
        let c = Collector { violations: Vec::new() };
        assert(c.seen() =~= Seq::<ViolationView>::empty());
        c
    }

    /// Records a violation of the rule unless it holds.
    pub fn check(&mut self, holds: bool, field: &'static str, code: &'static str, message: Option<&'static str>)
        ensures
            final(self).seen() == old(self).seen() + rule(holds, field, code, message),
    {
        let ghost before = self.violations@;
        if !holds {
            self.violations.push(Violation { field, code, message });
        }
        assert(self.seen() =~= before.map_values(|v: Violation| v@) + rule(holds, field, code, message));
    }

    /// `Ok` when no rule was broken, else all the violations.
    pub fn finish(self) -> (r: Result<(), Violations>)
        ensures
            r is Ok <==> self.seen().len() == 0,
            r matches Err(e) ==> e@ == self.seen(),
    {
        if self.violations.len() == 0 {
            Ok(())
        } else {
            Err(Violations { violations: self.violations })
        }
    }
}

// ------------------------------------------------------------------
// Rules

/// The `length` rule: the number of characters is within the bounds.
pub open spec fn length_ok(s: Seq<char>, min: Option<int>, max: Option<int>) -> bool {
    (min matches Some(m) ==> s.len() >= m) && (max matches Some(m) ==> s.len() <= m)
}

pub fn check_length(s: &str, min: Option<u64>, max: Option<u64>) -> (r: bool)
    ensures
        r == length_ok(
            s@,
            match min { Some(m) => Some(m as int), None => None },
            match max { Some(m) => Some(m as int), None => None },
        ),
{
    let n = s.unicode_len() as u64;
    let lo = match min { Some(m) => n >= m, None => true };
    let hi = match max { Some(m) => n <= m, None => true };
    lo && hi
}

/// The `range` rule on an integer.
pub open spec fn range_ok(v: int, min: Option<int>, max: Option<int>) -> bool {
    (min matches Some(m) ==> v >= m) && (max matches Some(m) ==> v <= m)
}

/// Whether `s` is an email address as `validator::validate_email` judges it.
pub uninterp spec fn valid_email(s: Seq<char>) -> bool;

/// Checks an email address with `validator::validate_email` (the HTML5
/// rule: a user part and a domain part, with length limits). The verdict
/// depends on the text only; it is named, not restated.
#[verifier::external_body]
pub(crate) fn check_email(s: &str) -> (r: bool)
    ensures
        r == valid_email(s@),
{
    validator::validate_email(s)
}

/// Character classes the payload rules look for.
#[derive(Clone, Copy, Debug, PartialEq, Eq)]
pub enum CharClass {
    /// `0` to `9`.
    Digit,
    /// One of `#?!@$%^&*-`.
    Symbol,
    /// `A` to `Z`.
    Upper,
    /// `a` to `z`.
    Lower,
    /// `a` to `z`, `0` to `9` or `_`.
    LowerAlnumUnderscore,
    /// `a` to `z` or `A` to `Z`.
    Letter,
    /// A letter or a digit.
    LetterOrDigit,
}

pub open spec fn in_class(c: char, class: CharClass) -> bool {
    match class {
        CharClass::Digit => '0' <= c && c <= '9',
        CharClass::Symbol => c == '#' || c == '?' || c == '!' || c == '@' || c == '$' || c == '%'
            || c == '^' || c == '&' || c == '*' || c == '-',
        CharClass::Upper => 'A' <= c && c <= 'Z',
        CharClass::Lower => 'a' <= c && c <= 'z',
        CharClass::LowerAlnumUnderscore => ('a' <= c && c <= 'z') || ('0' <= c && c <= '9') || c == '_',
        CharClass::Letter => ('a' <= c && c <= 'z') || ('A' <= c && c <= 'Z'),
        CharClass::LetterOrDigit => ('a' <= c && c <= 'z') || ('A' <= c && c <= 'Z') || ('0' <= c
            && c <= '9'),
    }
}

pub fn char_in_class(c: char, class: CharClass) -> (r: bool)
    ensures
        r == in_class(c, class),
{
    match class {
        CharClass::Digit => '0' <= c && c <= '9',
        CharClass::Symbol => c == '#' || c == '?' || c == '!' || c == '@' || c == '$' || c == '%'
            || c == '^' || c == '&' || c == '*' || c == '-',
        CharClass::Upper => 'A' <= c && c <= 'Z',
        CharClass::Lower => 'a' <= c && c <= 'z',
        CharClass::LowerAlnumUnderscore => ('a' <= c && c <= 'z') || ('0' <= c && c <= '9') || c == '_',
        CharClass::Letter => ('a' <= c && c <= 'z') || ('A' <= c && c <= 'Z'),
        CharClass::LetterOrDigit => ('a' <= c && c <= 'z') || ('A' <= c && c <= 'Z') || ('0' <= c
            && c <= '9'),
    }
}

/// The symbols a password may use are exactly the ten characters the
/// password rule's message lists: `#?!@$%^&*-`.
pub proof fn lemma_symbol_class(c: char)
    ensures
        in_class(c, CharClass::Symbol) <==> "#?!@$%^&*-"@.contains(c),
{
    reveal_strlit("#?!@$%^&*-");
    let l = "#?!@$%^&*-"@;
    if in_class(c, CharClass::Symbol) {
        if c == '#' { assert(l[0] == c); }
        else if c == '?' { assert(l[1] == c); }
        else if c == '!' { assert(l[2] == c); }
        else if c == '@' { assert(l[3] == c); }
        else if c == '$' { assert(l[4] == c); }
        else if c == '%' { assert(l[5] == c); }
        else if c == '^' { assert(l[6] == c); }
        else if c == '&' { assert(l[7] == c); }
        else if c == '*' { assert(l[8] == c); }
        else { assert(l[9] == c); }
    }
}

/// Whether some character of `s` is in the class.
pub open spec fn contains_class(s: Seq<char>, class: CharClass) -> bool {
    exists|i: int| 0 <= i < s.len() && #[trigger] in_class(s[i], class)
}

/// Whether `s` is non-empty and made only of characters of the class.
pub open spec fn only_class(s: Seq<char>, class: CharClass) -> bool {
    s.len() > 0 && forall|i: int| 0 <= i < s.len() ==> #[trigger] in_class(s[i], class)
}

pub fn has_class(s: &str, class: CharClass) -> (r: bool)
    ensures
        r == contains_class(s@, class),
{
    let n = s.unicode_len();
    let mut i: usize = 0;
    while i < n
        invariant
            n == s@.len(),
            i <= n,
            forall|k: int| 0 <= k < i ==> !in_class(#[trigger] s@[k], class),
        decreases n - i,
    {
        let c = s.get_char(i);
        if char_in_class(c, class) {
            return true;
        }
        i = i + 1;
    }
    false
}

pub fn all_class(s: &str, class: CharClass) -> (r: bool)
    ensures
        r == only_class(s@, class),
{
    let n = s.unicode_len();
    if n == 0 {
        return false;
    }
    let mut i: usize = 0;
    while i < n
        invariant
            n == s@.len(),
            i <= n,
            forall|k: int| 0 <= k < i ==> in_class(#[trigger] s@[k], class),
        decreases n - i,
    {
        let c = s.get_char(i);
        if !char_in_class(c, class) {
            return false;
        }
        i = i + 1;
    }
    true
}

/// A password is strong when it has a digit, a symbol among `#?!@$%^&*-`,
/// an uppercase and a lowercase letter.
pub open spec fn strong_password_rules(s: Seq<char>) -> (bool, bool, bool, bool) {
    (
        contains_class(s, CharClass::Digit),
        contains_class(s, CharClass::Symbol),
        contains_class(s, CharClass::Upper),
        contains_class(s, CharClass::Lower),
    )
}

/// A vehicle plate in the Brazilian `AAA####` or Mercosul `AAA#A##` format
/// (`A` a letter, `#` a digit).
pub open spec fn is_vehicle_plate(s: Seq<char>) -> bool {
    &&& s.len() == 7
    &&& in_class(s[0], CharClass::Letter)
    &&& in_class(s[1], CharClass::Letter)
    &&& in_class(s[2], CharClass::Letter)
    &&& in_class(s[3], CharClass::Digit)
    &&& in_class(s[4], CharClass::LetterOrDigit)
    &&& in_class(s[5], CharClass::Digit)
    &&& in_class(s[6], CharClass::Digit)
}

pub fn check_vehicle_plate(s: &str) -> (r: bool)
    ensures
        r == is_vehicle_plate(s@),
{
    if s.unicode_len() != 7 {
        return false;
    }
    char_in_class(s.get_char(0), CharClass::Letter) && char_in_class(s.get_char(1), CharClass::Letter)
        && char_in_class(s.get_char(2), CharClass::Letter) && char_in_class(
        s.get_char(3),
        CharClass::Digit,
    ) && char_in_class(s.get_char(4), CharClass::LetterOrDigit) && char_in_class(
        s.get_char(5),
        CharClass::Digit,
    ) && char_in_class(s.get_char(6), CharClass::Digit)
}

} // verus!
