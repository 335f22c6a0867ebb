//! Resource Path and File Naming requirements module (`/req/core/naming-system`).
//!
//! SHALL requirements surface as [`NamingViolation`] errors; SHOULD
//! recommendations surface as [`NamingWarning`]s. Requirement Name7-B is a
//! SHALL whose predicate ("is this extension industry standard?") cannot be
//! decided here, so it too is reported as a warning a profile can silence.

use vstd::prelude::*;
use crate::text::{
    all_ascii, chars_all_ascii, chars_of, eq_fold, eq_ignore_ascii_case, is_alphabetic,
    is_alphanumeric, is_control, is_cc, is_lowercase, is_uppercase, is_whitespace, is_ws, lower,
    owned, str_eq, string_from, to_ascii_lowercase, unicode_alphabetic, unicode_alphanumeric,
    unicode_lowercase, unicode_uppercase,
};

verus! {

/// Characters that SHALL NOT be used in any resource path, folder name or
/// resource name (Recommendation Name1-B). Blank spaces are covered
/// separately by Requirement Name1.
pub const FORBIDDEN_CHARACTERS: [char; 17] = [
    '#',
    '%',
    '&',
    '{',
    '}',
    '\\',
    '<',
    '>',
    '*',
    '?',
    '/',
    '$',
    '!',
    '\'',
    '"',
    ':',
    '@',
];

/// Membership in [`FORBIDDEN_CHARACTERS`].
pub open spec fn is_forbidden(c: char) -> bool {
    ||| c == '#'
    ||| c == '%'
    ||| c == '&'
    ||| c == '{'
    ||| c == '}'
    ||| c == '\\'
    ||| c == '<'
    ||| c == '>'
    ||| c == '*'
    ||| c == '?'
    ||| c == '/'
    ||| c == '$'
    ||| c == '!'
    ||| c == '\''
    ||| c == '"'
    ||| c == ':'
    ||| c == '@'
}

/// Whether `c` is one of [`FORBIDDEN_CHARACTERS`].
pub fn forbidden(c: char) -> (r: bool)
    ensures
        r == is_forbidden(c),
{
    c == '#' || c == '%' || c == '&' || c == '{' || c == '}' || c == '\\' || c == '<' || c
        == '>' || c == '*' || c == '?' || c == '/' || c == '$' || c == '!' || c == '\'' || c
        == '"' || c == ':' || c == '@'
}

/// The four case rules of Requirement Name6 (`/req/core/name-case`).
#[derive(Debug, Clone, Copy, PartialEq, Eq, Hash, Structural)]
pub enum CaseRule {
    PascalCase,
    CamelCase,
    /// Lowercase words joined by `_`; an all-caps form is admitted too.
    SnakeCase,
    KebabCase,
}

/// A violation of a SHALL requirement in the naming module.
#[derive(Debug, Clone, PartialEq, Eq)]
pub enum NamingViolation {
    EmptyName,
    ContainsSpace { name: String },
    ForbiddenCharacter { name: String, character: char },
    /// Control characters are unportable across file systems.
    ControlCharacter { name: String, codepoint: u32 },
    CaseRuleViolation { name: String, expected: CaseRule },
    EmptyPathComponent { path: String },
    PathTraversal { path: String, component: String },
}

/// The mathematical content of a [`NamingViolation`].
pub enum NamingViolationModel {
    EmptyName,
    ContainsSpace { name: Seq<char> },
    ForbiddenCharacter { name: Seq<char>, character: char },
    ControlCharacter { name: Seq<char>, codepoint: u32 },
    CaseRuleViolation { name: Seq<char>, expected: CaseRule },
    EmptyPathComponent { path: Seq<char> },
    PathTraversal { path: Seq<char>, component: Seq<char> },
}

impl View for NamingViolation {
    type V = NamingViolationModel;

    open spec fn view(&self) -> NamingViolationModel {
        match self {
            NamingViolation::EmptyName => NamingViolationModel::EmptyName,
            NamingViolation::ContainsSpace { name } => NamingViolationModel::ContainsSpace {
                name: name@,
            },
            NamingViolation::ForbiddenCharacter { name, character } =>
                NamingViolationModel::ForbiddenCharacter { name: name@, character: *character },
            NamingViolation::ControlCharacter { name, codepoint } =>
                NamingViolationModel::ControlCharacter { name: name@, codepoint: *codepoint },
            NamingViolation::CaseRuleViolation { name, expected } =>
                NamingViolationModel::CaseRuleViolation { name: name@, expected: *expected },
            NamingViolation::EmptyPathComponent { path } =>
                NamingViolationModel::EmptyPathComponent { path: path@ },
            NamingViolation::PathTraversal { path, component } =>
                NamingViolationModel::PathTraversal { path: path@, component: component@ },
        }
    }
}

/// A naming finding reported as a warning rather than a hard error.
#[derive(Debug, Clone, PartialEq, Eq)]
pub enum NamingWarning {
    /// Recommendation Name1-A: unicode SHOULD not be used.
    NonAscii { name: String },
    /// Requirement Name7-B: the extension is outside the spec table.
    NonSpecExtension { name: String, extension: String },
}

/// The mathematical content of a [`NamingWarning`].
pub enum NamingWarningModel {
    NonAscii { name: Seq<char> },
    NonSpecExtension { name: Seq<char>, extension: Seq<char> },
}

impl View for NamingWarning {
    type V = NamingWarningModel;

    open spec fn view(&self) -> NamingWarningModel {
        match self {
            NamingWarning::NonAscii { name } => NamingWarningModel::NonAscii { name: name@ },
            NamingWarning::NonSpecExtension { name, extension } =>
                NamingWarningModel::NonSpecExtension { name: name@, extension: extension@ },
        }
    }
}

/// The models of a list of warnings.
pub open spec fn warnings_model(v: Seq<NamingWarning>) -> Seq<NamingWarningModel> {
    v.map_values(|w: NamingWarning| w@)
}

/// The model of a naming result.
pub open spec fn naming_result(r: Result<(), NamingViolation>) -> Result<(), NamingViolationModel> {
    match r {
        Ok(()) => Ok(()),
        Err(e) => Err(e@),
    }
}

// ---------------------------------------------------------------------------
// Case rules (Requirement Name6)

/// Every character is Unicode alphanumeric.
pub open spec fn all_alnum(s: Seq<char>) -> bool {
    forall|i: int| 0 <= i < s.len() ==> unicode_alphanumeric(#[trigger] s[i])
}

/// Every character is Unicode alphanumeric or `sep`.
pub open spec fn all_alnum_or(s: Seq<char>, sep: char) -> bool {
    forall|i: int| 0 <= i < s.len() ==> unicode_alphanumeric(#[trigger] s[i]) || s[i] == sep
}

/// `i` is the position of the first alphabetic character of `s`.
pub open spec fn is_first_letter(s: Seq<char>, i: int) -> bool {
    &&& 0 <= i < s.len()
    &&& unicode_alphabetic(s[i])
    &&& forall|j: int| 0 <= j < i ==> !unicode_alphabetic(#[trigger] s[j])
}

/// The first alphabetic character, if any, is uppercase.
pub open spec fn first_letter_upper(s: Seq<char>) -> bool {
    forall|i: int| #[trigger] is_first_letter(s, i) ==> unicode_uppercase(s[i])
}

/// The first alphabetic character, if any, is lowercase.
pub open spec fn first_letter_lower(s: Seq<char>) -> bool {
    forall|i: int| #[trigger] is_first_letter(s, i) ==> unicode_lowercase(s[i])
}

/// Every alphabetic character is lowercase.
pub open spec fn letters_lower(s: Seq<char>) -> bool {
    forall|i: int| 0 <= i < s.len() && unicode_alphabetic(#[trigger] s[i]) ==> unicode_lowercase(
        s[i],
    )
}

/// Every alphabetic character is uppercase.
pub open spec fn letters_upper(s: Seq<char>) -> bool {
    forall|i: int| 0 <= i < s.len() && unicode_alphabetic(#[trigger] s[i]) ==> unicode_uppercase(
        s[i],
    )
}

/// Splitting `s` at `sep` yields no empty piece: `s` is non-empty, neither
/// starts nor ends with `sep`, and never holds two `sep` in a row.
pub open spec fn no_empty_segment(s: Seq<char>, sep: char) -> bool {
    &&& s.len() > 0
    &&& s[0] != sep
    &&& s.last() != sep
    &&& forall|i: int| 0 <= i < s.len() - 1 ==> !(#[trigger] s[i] == sep && s[i + 1] == sep)
}

/// Whether a stem (a name without extension) satisfies a case rule.
pub open spec fn rule_matches(rule: CaseRule, s: Seq<char>) -> bool {
    match rule {
        CaseRule::PascalCase => all_alnum(s) && first_letter_upper(s),
        CaseRule::CamelCase => all_alnum(s) && first_letter_lower(s),
        CaseRule::SnakeCase => all_alnum_or(s, '_') && no_empty_segment(s, '_') && (
        letters_lower(s) || letters_upper(s)),
        CaseRule::KebabCase => all_alnum_or(s, '-') && no_empty_segment(s, '-') && letters_lower(
            s,
        ),
    }
}

/// `seq![rule]` when `s` satisfies `rule`, otherwise empty.
pub open spec fn if_matches(rule: CaseRule, s: Seq<char>) -> Seq<CaseRule> {
    if rule_matches(rule, s) {
        seq![rule]
    } else {
        Seq::empty()
    }
}

/// All rules `s` is consistent with, in listing order.
pub open spec fn classify_spec(s: Seq<char>) -> Seq<CaseRule> {
    if_matches(CaseRule::PascalCase, s) + if_matches(CaseRule::CamelCase, s) + if_matches(
        CaseRule::SnakeCase,
        s,
    ) + if_matches(CaseRule::KebabCase, s)
}

/// Whether every character of `v` is alphanumeric, or `sep` when `sep` is
/// given.
fn chars_alnum_or(v: &Vec<char>, sep: Option<char>) -> (r: bool)
    ensures
        sep is None ==> r == all_alnum(v@),
        sep is Some ==> r == all_alnum_or(v@, sep->0),
{
    let mut i: usize = 0;
    while i < v.len()
        invariant
            0 <= i <= v@.len(),
            sep is None ==> forall|k: int| 0 <= k < i ==> unicode_alphanumeric(#[trigger] v@[k]),
            sep is Some ==> forall|k: int|
                0 <= k < i ==> unicode_alphanumeric(#[trigger] v@[k]) || v@[k] == sep->0,
        decreases v@.len() - i,
    {
        let c = v[i];
        let ok = match sep {
            Some(s) => is_alphanumeric(c) || c == s,
            None => is_alphanumeric(c),
        };
        if !ok {
            return false;
        }
        i += 1;
    }
    true
}

/// Whether the first alphabetic character (if any) is uppercase (`upper`)
/// or lowercase (`!upper`).
fn first_letter_has_case(v: &Vec<char>, upper: bool) -> (r: bool)
    ensures
        upper ==> r == first_letter_upper(v@),
        !upper ==> r == first_letter_lower(v@),
{
    let mut i: usize = 0;
    while i < v.len()
        invariant
            0 <= i <= v@.len(),
            forall|j: int| 0 <= j < i ==> !unicode_alphabetic(#[trigger] v@[j]),
        decreases v@.len() - i,
    {
        if is_alphabetic(v[i]) {
            assert(is_first_letter(v@, i as int));
            assert forall|k: int| #[trigger] is_first_letter(v@, k) implies k == i by {
                if k < i {
                } else if k > i {
                    assert(!unicode_alphabetic(v@[i as int]));
                }
            }
            return if upper {
                is_uppercase(v[i])
            } else {
                is_lowercase(v[i])
            };
        }
        i += 1;
    }
    true
}

/// Whether every alphabetic character is uppercase (`upper`) or lowercase.
fn letters_have_case(v: &Vec<char>, upper: bool) -> (r: bool)
    ensures
        upper ==> r == letters_upper(v@),
        !upper ==> r == letters_lower(v@),
{
    let mut i: usize = 0;
    while i < v.len()
        invariant
            0 <= i <= v@.len(),
            upper ==> forall|k: int|
                0 <= k < i && unicode_alphabetic(#[trigger] v@[k]) ==> unicode_uppercase(v@[k]),
            !upper ==> forall|k: int|
                0 <= k < i && unicode_alphabetic(#[trigger] v@[k]) ==> unicode_lowercase(v@[k]),
        decreases v@.len() - i,
    {
        let c = v[i];
        if is_alphabetic(c) {
            let ok = if upper {
                is_uppercase(c)
            } else {
                is_lowercase(c)
            };
            if !ok {
                return false;
            }
        }
        i += 1;
    }
    true
}

/// Whether splitting `v` at `sep` yields no empty piece.
fn segments_nonempty(v: &Vec<char>, sep: char) -> (r: bool)
    ensures
        r == no_empty_segment(v@, sep),
{
    if v.len() == 0 || v[0] == sep || v[v.len() - 1] == sep {
        return false;
    }
    let mut i: usize = 0;
    while i < v.len() - 1
        invariant
            v@.len() > 0,
            0 <= i <= v@.len() - 1,
            forall|k: int| 0 <= k < i ==> !(#[trigger] v@[k] == sep && v@[k + 1] == sep),
        decreases v@.len() - i,
    {
        if v[i] == sep && v[i + 1] == sep {
            return false;
        }
        i += 1;
    }
    true
}

impl CaseRule {
    /// Every rule, in listing order.
    pub const ALL: [CaseRule; 4] = [
        CaseRule::PascalCase,
        CaseRule::CamelCase,
        CaseRule::SnakeCase,
        CaseRule::KebabCase,
    ];

    /// Whether the characters of a stem satisfy this rule.
    pub fn matches_chars(self, v: &Vec<char>) -> (r: bool)
        ensures
            r == rule_matches(self, v@),
    {
        match self {
            CaseRule::PascalCase => chars_alnum_or(v, None) && first_letter_has_case(v, true),
            CaseRule::CamelCase => chars_alnum_or(v, None) && first_letter_has_case(v, false),
            CaseRule::SnakeCase => chars_alnum_or(v, Some('_')) && segments_nonempty(v, '_') && (
            letters_have_case(v, false) || letters_have_case(v, true)),
            CaseRule::KebabCase => chars_alnum_or(v, Some('-')) && segments_nonempty(v, '-')
                && letters_have_case(v, false),
        }
    }

    /// Whether `stem` (a name without its file extension) satisfies this
    /// rule. Letter case is Unicode-aware; names without letters (such as
    /// `"001"`) match every rule.
    pub fn matches(self, stem: &str) -> (r: bool)
        ensures
            r == rule_matches(self, stem@),
    {
        let v = chars_of(stem);
        self.matches_chars(&v)
    }

    /// Whether a file name satisfies this rule; the extension is exempt.
    pub fn matches_file_name(self, name: &str) -> (r: bool)
        ensures
            r == rule_matches(self, split_ext(name@).0),
    {
        let (stem, _) = split_extension(name);
        self.matches(stem.as_str())
    }

    /// All rules a name is consistent with, in listing order.
    pub fn classify(name: &str) -> (out: Vec<CaseRule>)
        ensures
            out@ == classify_spec(name@),
    {
        let v = chars_of(name);
        let mut out: Vec<CaseRule> = Vec::new();
        if CaseRule::PascalCase.matches_chars(&v) {
            out.push(CaseRule::PascalCase);
        }
        assert(out@ == if_matches(CaseRule::PascalCase, name@));
        let ghost a = out@;
        if CaseRule::CamelCase.matches_chars(&v) {
            out.push(CaseRule::CamelCase);
        }
        assert(out@ == a + if_matches(CaseRule::CamelCase, name@));
        let ghost b = out@;
        if CaseRule::SnakeCase.matches_chars(&v) {
            out.push(CaseRule::SnakeCase);
        }
        assert(out@ == b + if_matches(CaseRule::SnakeCase, name@));
        let ghost c = out@;
        if CaseRule::KebabCase.matches_chars(&v) {
            out.push(CaseRule::KebabCase);
        }
        assert(out@ == c + if_matches(CaseRule::KebabCase, name@));
        out
    }

    /// The spec's own spelling of the rule.
    pub fn to_string(&self) -> (out: String)
        ensures
            out@ == rule_spelling(*self),
    {
        match self {
            CaseRule::PascalCase => owned("PascalCase"),
            CaseRule::CamelCase => owned("camelCase"),
            CaseRule::SnakeCase => owned("Snake_case"),
            CaseRule::KebabCase => owned("kebab-case"),
        }
    }
}

/// The spec's spelling of each case rule.
pub open spec fn rule_spelling(rule: CaseRule) -> Seq<char> {
    match rule {
        CaseRule::PascalCase => "PascalCase"@,
        CaseRule::CamelCase => "camelCase"@,
        CaseRule::SnakeCase => "Snake_case"@,
        CaseRule::KebabCase => "kebab-case"@,
    }
}

// ---------------------------------------------------------------------------
// Structural rules (Requirements Name1, Name1-B)

/// What is wrong with a single character of a name, if anything. Checks run
/// whitespace, then the forbidden list, then control characters.
pub open spec fn char_fault(name: Seq<char>, c: char) -> Option<NamingViolationModel> {
    if is_ws(c) {
        Some(NamingViolationModel::ContainsSpace { name })
    } else if is_forbidden(c) {
        Some(NamingViolationModel::ForbiddenCharacter { name, character: c })
    } else if is_cc(c) {
        Some(NamingViolationModel::ControlCharacter { name, codepoint: c as u32 })
    } else {
        None
    }
}

/// The first character fault of `name` at or after position `i`.
pub open spec fn fault_from(name: Seq<char>, i: int) -> Option<NamingViolationModel>
    decreases name.len() - i,
{
    if i < 0 || i >= name.len() {
        None
    } else if char_fault(name, name[i]) is Some {
        char_fault(name, name[i])
    } else {
        fault_from(name, i + 1)
    }
}

/// Structural validation of a single folder or resource name.
pub open spec fn component_spec(name: Seq<char>) -> Result<(), NamingViolationModel> {
    if name.len() == 0 {
        Err(NamingViolationModel::EmptyName)
    } else {
        match fault_from(name, 0) {
            Some(v) => Err(v),
            None => Ok(()),
        }
    }
}

/// The first character fault of `v` at or after `from`.
fn find_fault(v: &Vec<char>, name: &str, from: usize) -> (r: Result<(), NamingViolation>)
    requires
        v@ == name@,
        from <= v@.len(),
    ensures
        naming_result(r) == match fault_from(name@, from as int) {
            Some(f) => Err(f),
            None => Ok(()),
        },
    decreases v@.len() - from,
{
    if from == v.len() {
        return Ok(());
    }
    let c = v[from];
    if is_whitespace(c) {
        return Err(NamingViolation::ContainsSpace { name: owned(name) });
    }
    if forbidden(c) {
        return Err(NamingViolation::ForbiddenCharacter { name: owned(name), character: c });
    }
    if is_control(c) {
        return Err(NamingViolation::ControlCharacter { name: owned(name), codepoint: c as u32 });
    }
    find_fault(v, name, from + 1)
}

/// Structural validation of a single folder or resource name
/// (Requirements Name1, Name1-B; not case-rule aware).
pub fn validate_component(name: &str) -> (r: Result<(), NamingViolation>)
    ensures
        naming_result(r) == component_spec(name@),
{
    let v = chars_of(name);
    if v.len() == 0 {
        return Err(NamingViolation::EmptyName);
    }
    find_fault(&v, name, 0)
}

/// The SHOULD-level findings for a single name (Recommendation Name1-A).
pub open spec fn component_warnings_spec(name: Seq<char>) -> Seq<NamingWarningModel> {
    if all_ascii(name) {
        Seq::empty()
    } else {
        seq![NamingWarningModel::NonAscii { name }]
    }
}

/// SHOULD-level findings for a single name (Recommendation Name1-A).
pub fn component_warnings(name: &str) -> (out: Vec<NamingWarning>)
    ensures
        warnings_model(out@) == component_warnings_spec(name@),
{
    let v = chars_of(name);
    let mut out: Vec<NamingWarning> = Vec::new();
    if !chars_all_ascii(&v) {
        out.push(NamingWarning::NonAscii { name: owned(name) });
    }
    assert(warnings_model(out@) =~= component_warnings_spec(name@));
    out
}

// ---------------------------------------------------------------------------
// Paths

/// End of the `/`-separated segment starting at `start`: the first `/` at
/// or after `start`, or the end of `s`.
pub open spec fn seg_end(s: Seq<char>, start: int) -> int
    decreases s.len() - start,
{
    if start >= s.len() {
        s.len() as int
    } else if s[start] == '/' {
        start
    } else {
        seg_end(s, start + 1)
    }
}

/// `s` without one leading `/`.
pub open spec fn relative(s: Seq<char>) -> Seq<char> {
    if s.len() > 0 && s[0] == '/' {
        s.drop_first()
    } else {
        s
    }
}

/// Whether a segment is `.` or `..`.
pub open spec fn is_dot_segment(c: Seq<char>) -> bool {
    c == seq!['.'] || c == seq!['.', '.']
}

/// Path validation of the segments of `rel` from `start` on, each segment
/// judged first for emptiness and traversal, then by `component_spec`.
pub open spec fn path_from(path: Seq<char>, rel: Seq<char>, start: int) -> Result<
    (),
    NamingViolationModel,
>
    decreases rel.len() - start,
{
    if start < 0 || start > rel.len() {
        Ok(())
    } else {
        let end = seg_end(rel, start);
        proof {
            lemma_seg_end(rel, start);
        }
        let c = rel.subrange(start, end);
        if c.len() == 0 {
            Err(NamingViolationModel::EmptyPathComponent { path })
        } else if is_dot_segment(c) {
            Err(NamingViolationModel::PathTraversal { path, component: c })
        } else {
            match component_spec(c) {
                Err(e) => Err(e),
                Ok(()) => if end >= rel.len() {
                    Ok(())
                } else {
                    path_from(path, rel, end + 1)
                },
            }
        }
    }
}

/// Structural validation of a `/`-separated path; one leading `/` (the
/// datastore root) is allowed.
pub open spec fn path_spec(path: Seq<char>) -> Result<(), NamingViolationModel> {
    if path.len() == 0 {
        Err(NamingViolationModel::EmptyName)
    } else if relative(path).len() == 0 {
        Ok(())
    } else {
        path_from(path, relative(path), 0)
    }
}

/// Lemma: the segment end lies between `start` and the end, and the
/// segment holds no `/`.
pub proof fn lemma_seg_end(s: Seq<char>, start: int)
    requires
        0 <= start <= s.len(),
    ensures
        start <= seg_end(s, start) <= s.len(),
        seg_end(s, start) < s.len() ==> s[seg_end(s, start)] == '/',
        forall|k: int| start <= k < seg_end(s, start) ==> s[k] != '/',
    decreases s.len() - start,
{
    if start < s.len() && s[start] != '/' {
        lemma_seg_end(s, start + 1);
    }
}

/// Executable segment end.
pub fn find_seg_end(v: &Vec<char>, start: usize) -> (r: usize)
    requires
        start <= v@.len(),
    ensures
        r == seg_end(v@, start as int),
        start <= r <= v@.len(),
{
    proof {
        lemma_seg_end(v@, start as int);
    }
    let mut i = start;
    while i < v.len() && v[i] != '/'
        invariant
            start <= i <= v@.len(),
            seg_end(v@, i as int) == seg_end(v@, start as int),
        decreases v@.len() - i,
    {
        i += 1;
    }
    i
}

/// The position where the relative part of `v` begins.
fn relative_start(v: &Vec<char>) -> (r: usize)
    ensures
        r <= v@.len(),
        v@.subrange(r as int, v@.len() as int) == relative(v@),
{
    if v.len() > 0 && v[0] == '/' {
        assert(v@.subrange(1, v@.len() as int) == v@.drop_first());
        1
    } else {
        assert(v@.subrange(0, v@.len() as int) == v@);
        0
    }
}

/// Whether `v[a..b]` is `.` or `..`.
fn dot_segment(v: &Vec<char>, a: usize, b: usize) -> (r: bool)
    requires
        a <= b <= v@.len(),
    ensures
        r == is_dot_segment(v@.subrange(a as int, b as int)),
{
    let ghost seg = v@.subrange(a as int, b as int);
    if b - a == 1 {
        if v[a] == '.' {
            assert(seg =~= seq!['.']);
            true
        } else {
            assert(seg[0] != seq!['.', '.'][0]);
            assert(seg != seq!['.']);
            false
        }
    } else if b - a == 2 {
        if v[a] == '.' && v[a + 1] == '.' {
            assert(seg =~= seq!['.', '.']);
            true
        } else {
            assert(seg.len() != seq!['.'].len());
            if v[a] != '.' {
                assert(seg[0] != seq!['.', '.'][0]);
            } else {
                assert(seg[1] != seq!['.', '.'][1]);
            }
            false
        }
    } else {
        assert(seg.len() != 1 && seg.len() != 2);
        assert(seg != seq!['.']);
        assert(seg != seq!['.', '.']);
        false
    }
}

/// Relates the suffix view of a vector to the vector itself.
proof fn lemma_suffix_view(v: Seq<char>, a: int, start: int)
    requires
        0 <= a <= v.len(),
        0 <= start <= v.len() - a,
    ensures
        seg_end(v.subrange(a, v.len() as int), start) == seg_end(v, a + start) - a,
    decreases v.len() - a - start,
{
    let r = v.subrange(a, v.len() as int);
    if start < r.len() && r[start] != '/' {
        lemma_suffix_view(v, a, start + 1);
    }
}

/// Structural validation of a `/`-separated path. A single leading `/` is
/// allowed (Requirement File5). Rejects empty components and `.`/`..`
/// traversal (Requirement File2: all content under the root).
pub fn validate_path(path: &str) -> (r: Result<(), NamingViolation>)
    ensures
        naming_result(r) == path_spec(path@),
{
    let v = chars_of(path);
    if v.len() == 0 {
        return Err(NamingViolation::EmptyName);
    }
    let a = relative_start(&v);
    if a == v.len() {
        return Ok(());
    }
    let ghost rel = relative(path@);
    let mut start = a;
    loop
        invariant
            v@ == path@,
            a <= start <= v@.len(),
            a < v@.len(),
            rel == v@.subrange(a as int, v@.len() as int),
            path_spec(path@) == path_from(path@, rel, start - a),
        decreases v@.len() - start,
    {
        let end = find_seg_end(&v, start);
        proof {
            lemma_suffix_view(v@, a as int, (start - a) as int);
            assert(rel.subrange(start - a, end - a) =~= v@.subrange(start as int, end as int));
        }
        if end == start {
            return Err(NamingViolation::EmptyPathComponent { path: owned(path) });
        }
        if dot_segment(&v, start, end) {
            return Err(
                NamingViolation::PathTraversal { path: owned(path), component: string_from(&v, start, end) },
            );
        }
        let component = string_from(&v, start, end);
        match validate_component(component.as_str()) {
            Err(e) => {
                return Err(e);
            },
            Ok(()) => {},
        }
        if end == v.len() {
            return Ok(());
        }
        start = end + 1;
    }
}

// ---------------------------------------------------------------------------
// Extensions (Requirement Name7)

/// The last position of `c` in `s`, or -1.
pub open spec fn rfind(s: Seq<char>, c: char) -> int
    decreases s.len(),
{
    if s.len() == 0 {
        -1
    } else if s.last() == c {
        s.len() - 1
    } else {
        rfind(s.drop_last(), c)
    }
}

/// Splits a name into (stem, extension) at the last dot. A leading dot is
/// part of the stem, not an extension separator.
pub open spec fn split_ext(name: Seq<char>) -> (Seq<char>, Option<Seq<char>>) {
    let i = rfind(name, '.');
    if i > 0 {
        (name.take(i), Some(name.skip(i + 1)))
    } else {
        (name, None)
    }
}

/// The last position of `c` in `s`, or -1: range lemma.
pub proof fn lemma_rfind(s: Seq<char>, c: char)
    ensures
        -1 <= rfind(s, c) < s.len(),
        rfind(s, c) >= 0 ==> s[rfind(s, c)] == c,
        forall|k: int| rfind(s, c) < k < s.len() ==> s[k] != c,
    decreases s.len(),
{
    if s.len() > 0 && s.last() != c {
        lemma_rfind(s.drop_last(), c);
        assert forall|k: int| rfind(s, c) < k < s.len() implies s[k] != c by {
            if k < s.len() - 1 {
                assert(s[k] == s.drop_last()[k]);
            }
        }
    }
}

/// A name joined from a non-empty stem, a dot and an extension without
/// dots splits back into that stem and extension.
pub proof fn split_ext_of_joined(stem: Seq<char>, ext: Seq<char>)
    requires
        stem.len() > 0,
        forall|i: int| 0 <= i < ext.len() ==> ext[i] != '.',
    ensures
        split_ext(stem + seq!['.'] + ext) == (stem, Some(ext)),
{
    let s = stem + seq!['.'] + ext;
    lemma_rfind(s, '.');
    let i = rfind(s, '.');
    assert(s[stem.len() as int] == '.');
    assert forall|k: int| stem.len() < k < s.len() implies s[k] != '.' by {
        assert(s[k] == ext[k - stem.len() - 1]);
    }
    assert(i == stem.len());
    assert(s.take(i) =~= stem);
    assert(s.skip(i + 1) =~= ext);
}

/// Executable last-position search over `v[..n]`.
fn rfind_exec(v: &Vec<char>, c: char) -> (r: Option<usize>)
    ensures
        r is None ==> rfind(v@, c) == -1,
        r is Some ==> rfind(v@, c) == r->0 as int,
{
    let mut n = v.len();
    assert(v@.take(n as int) == v@);
    while n > 0 && v[n - 1] != c
        invariant
            0 <= n <= v@.len(),
            rfind(v@, c) == rfind(v@.take(n as int), c),
        decreases n,
    {
        assert(v@.take(n as int).drop_last() =~= v@.take(n - 1));
        n -= 1;
    }
    if n == 0 {
        assert(v@.take(0).len() == 0);
        None
    } else {
        Some(n - 1)
    }
}

/// Splits `v` at its extension dot: `(stem_end, Some(ext_start))`.
fn split_extension_bounds(v: &Vec<char>) -> (r: Option<usize>)
    ensures
        r is None ==> split_ext(v@) == (v@, None::<Seq<char>>),
        r is Some ==> {
            &&& 0 < r->0 < v@.len()
            &&& split_ext(v@) == (v@.take(r->0 as int), Some(v@.skip(r->0 + 1)))
        },
{
    proof {
        lemma_rfind(v@, '.');
    }
    match rfind_exec(v, '.') {
        Some(i) if i > 0 => Some(i),
        _ => None,
    }
}

/// Splits `name` into (stem, extension) at the last dot. A leading dot is
/// part of the stem, not an extension separator.
pub fn split_extension(name: &str) -> (r: (String, Option<String>))
    ensures
        r.0@ == split_ext(name@).0,
        r.1 is Some == split_ext(name@).1 is Some,
        r.1 is Some ==> r.1->0@ == split_ext(name@).1->0,
{
    let v = chars_of(name);
    match split_extension_bounds(&v) {
        Some(i) => {
            assert(i < v.len());
            assert(v@.take(i as int) == v@.subrange(0, i as int));
            assert(v@.skip(i + 1) == v@.subrange(i + 1, v@.len() as int));
            (string_from(&v, 0, i), Some(string_from(&v, i + 1, v.len())))
        },
        None => (owned(name), None),
    }
}

/// The Requirement Name7 table (§7.4.8): the file format an extension
/// (already folded to lowercase) denotes.
pub open spec fn extension_format(e: Seq<char>) -> Option<Seq<char>> {
    if e == "bmp"@ {
        Some("Bitmap Image"@)
    } else if e == "dbf"@ || e == "dbt"@ {
        Some("dBASE"@)
    } else if e == "gpkg"@ {
        Some("GeoPackage"@)
    } else if e == "gltf"@ {
        Some("glTF JSON/ASCII"@)
    } else if e == "glb"@ {
        Some("glTF Binary"@)
    } else if e == "jp2"@ {
        Some("JPEG 2000"@)
    } else if e == "json"@ {
        Some("JSON"@)
    } else if e == "flt"@ {
        Some("OpenFlight"@)
    } else if e == "shp"@ || e == "shx"@ {
        Some("Shapefile"@)
    } else if e == "rgb"@ {
        Some("SGI Image"@)
    } else if e == "rgba"@ {
        Some("SGI Image + Alpha"@)
    } else if e == "tif"@ {
        Some("TIFF"@)
    } else if e == "xml"@ || e == "xsd"@ {
        Some("XML"@)
    } else if e == "zip"@ {
        Some("ZIP"@)
    } else {
        None
    }
}

/// Looks up an extension (case-insensitive) in the Requirement Name7 table,
/// returning the file format it denotes.
pub fn known_extension(extension: &str) -> (r: Option<&'static str>)
    ensures
        r is Some == extension_format(lower(extension@)) is Some,
        r is Some ==> r->0@ == extension_format(lower(extension@))->0,
{
    let e = to_ascii_lowercase(extension);
    let e = e.as_str();
    if str_eq(e, "bmp") {
        Some("Bitmap Image")
    } else if str_eq(e, "dbf") || str_eq(e, "dbt") {
        Some("dBASE")
    } else if str_eq(e, "gpkg") {
        Some("GeoPackage")
    } else if str_eq(e, "gltf") {
        Some("glTF JSON/ASCII")
    } else if str_eq(e, "glb") {
        Some("glTF Binary")
    } else if str_eq(e, "jp2") {
        Some("JPEG 2000")
    } else if str_eq(e, "json") {
        Some("JSON")
    } else if str_eq(e, "flt") {
        Some("OpenFlight")
    } else if str_eq(e, "shp") || str_eq(e, "shx") {
        Some("Shapefile")
    } else if str_eq(e, "rgb") {
        Some("SGI Image")
    } else if str_eq(e, "rgba") {
        Some("SGI Image + Alpha")
    } else if str_eq(e, "tif") {
        Some("TIFF")
    } else if str_eq(e, "xml") || str_eq(e, "xsd") {
        Some("XML")
    } else if str_eq(e, "zip") {
        Some("ZIP")
    } else {
        None
    }
}

/// Warning-level findings for a file name: non-ASCII (Name1-A) and an
/// extension outside the Name7 table (Name7-B).
pub open spec fn file_warnings_spec(name: Seq<char>) -> Seq<NamingWarningModel> {
    component_warnings_spec(name) + match split_ext(name).1 {
        Some(e) => if extension_format(lower(e)) is None {
            seq![NamingWarningModel::NonSpecExtension { name, extension: e }]
        } else {
            Seq::empty()
        },
        None => Seq::empty(),
    }
}

/// Warning-level findings for a file name: non-ASCII (Recommendation
/// Name1-A) and extensions outside the Name7 table (Requirement Name7-B).
pub fn file_warnings(name: &str) -> (out: Vec<NamingWarning>)
    ensures
        warnings_model(out@) == file_warnings_spec(name@),
{
    let mut out = component_warnings(name);
    let ghost first = out@;
    let (_, extension) = split_extension(name);
    if let Some(extension) = extension {
        if known_extension(extension.as_str()).is_none() {
            out.push(NamingWarning::NonSpecExtension { name: owned(name), extension });
        }
    }
    assert(warnings_model(out@) =~= file_warnings_spec(name@)) by {
        assert(warnings_model(first) == component_warnings_spec(name@));
    }
    out
}

/// The guard half of the crate's case stance: ASCII case-insensitive
/// equality for every comparison that decides which on-disk thing a name
/// points at. Folding is ASCII-only.
pub fn guard_eq(a: &str, b: &str) -> (r: bool)
    ensures
        r == eq_fold(a@, b@),
{
    eq_ignore_ascii_case(a, b)
}

// ---------------------------------------------------------------------------
// Style guide (Requirement Name5)

/// The naming style guide an application profile SHALL define
/// (Requirement Name5): the datastore-wide case rule (Name6), the language
/// (Name3), and the spec-mandated names that are exempt from the case rule.
#[derive(Debug, Clone)]
pub struct StyleGuide {
    case_rule: CaseRule,
    language: String,
    reserved_names: Vec<String>,
}

/// The names reserved for every profile.
pub open spec fn default_reserved() -> Set<Seq<char>> {
    set!["global_metadata"@, "vector_attributes"@, "crs"@, "versions"@]
}

impl StyleGuide {
    /// The reserved names, as a set.
    pub closed spec fn reserved(&self) -> Set<Seq<char>> {
        Set::new(|s: Seq<char>| exists|i: int| 0 <= i < self.reserved_names@.len() && #[trigger] self.reserved_names@[i]@ == s)
    }

    /// The datastore-wide case rule.
    pub closed spec fn rule(&self) -> CaseRule {
        self.case_rule
    }

    /// The datastore-wide naming language.
    pub closed spec fn lang(&self) -> Seq<char> {
        self.language@
    }

    /// A style guide with the four names reserved for every profile:
    /// `global_metadata`, `vector_attributes`, `crs` and `versions`.
    pub fn new(case_rule: CaseRule, language: &str) -> (g: Self)
        ensures
            g.rule() == case_rule,
            g.lang() == language@,
            g.reserved() == default_reserved(),
    {
        let mut reserved_names: Vec<String> = Vec::new();
        reserved_names.push(owned("global_metadata"));
        reserved_names.push(owned("vector_attributes"));
        reserved_names.push(owned("crs"));
        reserved_names.push(owned("versions"));
        let g = StyleGuide { case_rule, language: owned(language), reserved_names };
        assert(g.reserved() =~= default_reserved()) by {
            assert forall|s: Seq<char>| g.reserved().contains(s) <==> default_reserved().contains(s) by {
                if default_reserved().contains(s) {
                    if s == "global_metadata"@ {
                        assert(g.reserved_names@[0]@ == s);
                    } else if s == "vector_attributes"@ {
                        assert(g.reserved_names@[1]@ == s);
                    } else if s == "crs"@ {
                        assert(g.reserved_names@[2]@ == s);
                    } else {
                        assert(g.reserved_names@[3]@ == s);
                    }
                }
            }
        }
        g
    }

    /// The datastore-wide case rule.
    pub fn case_rule(&self) -> (r: CaseRule)
        ensures
            r == self.rule(),
    {
        self.case_rule
    }

    /// The single language for all names (Requirement Name3-A).
    pub fn language(&self) -> (r: &str)
        ensures
            r@ == self.lang(),
    {
        self.language.as_str()
    }

    /// Marks a name (stem) as spec-mandated, exempting it from the case rule.
    pub fn reserve_name(&mut self, name: &str)
        ensures
            final(self).reserved() == old(self).reserved().insert(name@),
            final(self).rule() == old(self).rule(),
            final(self).lang() == old(self).lang(),
    {
        let ghost before = self.reserved_names@;
        if !self.is_reserved(name) {
            self.reserved_names.push(owned(name));
        }
        assert(self.reserved() =~= old(self).reserved().insert(name@)) by {
            assert forall|s: Seq<char>| #[trigger] self.reserved().contains(s) == old(self).reserved().insert(name@).contains(s) by {
                if old(self).reserved().contains(s) {
                    let i = choose|i: int| 0 <= i < before.len() && #[trigger] before[i]@ == s;
                    assert(self.reserved_names@[i]@ == s);
                }
                if self.reserved().contains(s) {
                    let i = choose|i: int| 0 <= i < self.reserved_names@.len() && #[trigger] self.reserved_names@[i]@ == s;
                    if i < before.len() {
                        assert(before[i]@ == s);
                    }
                }
                if s == name@ && old(self).reserved().contains(s) {
                } else if s == name@ {
                    assert(self.reserved_names@[before.len() as int]@ == s);
                }
            }
        }
    }

    /// Whether `stem` is spec-mandated and therefore exempt from the Name6
    /// case rule. Byte-exact, deliberately.
    pub fn is_reserved(&self, stem: &str) -> (r: bool)
        ensures
            r == self.reserved().contains(stem@),
    {
        let mut i: usize = 0;
        while i < self.reserved_names.len()
            invariant
                0 <= i <= self.reserved_names@.len(),
                forall|k: int| 0 <= k < i ==> #[trigger] self.reserved_names@[k]@ != stem@,
            decreases self.reserved_names@.len() - i,
        {
            if str_eq(self.reserved_names[i].as_str(), stem) {
                return true;
            }
            i += 1;
        }
        assert(!self.reserved().contains(stem@));
        false
    }

    /// Structural checks plus the case rule applied to the stem.
    pub open spec fn component_rule(&self, name: Seq<char>) -> Result<(), NamingViolationModel> {
        match component_spec(name) {
            Err(e) => Err(e),
            Ok(()) => if self.reserved().contains(split_ext(name).0) || rule_matches(
                self.rule(),
                split_ext(name).0,
            ) {
                Ok(())
            } else {
                Err(NamingViolationModel::CaseRuleViolation { name, expected: self.rule() })
            },
        }
    }

    /// Structural checks plus the case rule applied to the stem.
    pub fn validate_component(&self, name: &str) -> (r: Result<(), NamingViolation>)
        ensures
            naming_result(r) == self.component_rule(name@),
    {
        validate_component(name)?;
        let (stem, _) = split_extension(name);
        if self.is_reserved(stem.as_str()) {
            return Ok(());
        }
        if !self.case_rule.matches(stem.as_str()) {
            return Err(
                NamingViolation::CaseRuleViolation { name: owned(name), expected: self.case_rule },
            );
        }
        Ok(())
    }

    /// The style-guide check of the segments of `rel` from `start` on.
    pub open spec fn guide_path_from(&self, rel: Seq<char>, start: int) -> Result<
        (),
        NamingViolationModel,
    >
        decreases rel.len() - start,
    {
        if start < 0 || start > rel.len() {
            Ok(())
        } else {
            let end = seg_end(rel, start);
            proof {
                lemma_seg_end(rel, start);
            }
            match self.component_rule(rel.subrange(start, end)) {
                Err(e) => Err(e),
                Ok(()) => if end >= rel.len() {
                    Ok(())
                } else {
                    self.guide_path_from(rel, end + 1)
                },
            }
        }
    }

    /// Every component of a path, judged against this style guide.
    pub open spec fn path_rule(&self, path: Seq<char>) -> Result<(), NamingViolationModel> {
        match path_spec(path) {
            Err(e) => Err(e),
            Ok(()) => if relative(path).len() == 0 {
                Ok(())
            } else {
                self.guide_path_from(relative(path), 0)
            },
        }
    }

    /// Validates every component of a path against this style guide.
    pub fn validate_path(&self, path: &str) -> (r: Result<(), NamingViolation>)
        ensures
            naming_result(r) == self.path_rule(path@),
    {
        validate_path(path)?;
        let v = chars_of(path);
        let a = relative_start(&v);
        if a == v.len() {
            return Ok(());
        }
        let ghost rel = relative(path@);
        let mut start = a;
        loop
            invariant
                v@ == path@,
                a <= start <= v@.len(),
                a < v@.len(),
                rel == v@.subrange(a as int, v@.len() as int),
                path_spec(path@) is Ok,
                self.path_rule(path@) == self.guide_path_from(rel, start - a),
            decreases v@.len() - start,
        {
            let end = find_seg_end(&v, start);
            proof {
                lemma_suffix_view(v@, a as int, (start - a) as int);
                assert(rel.subrange(start - a, end - a) =~= v@.subrange(start as int, end as int));
            }
            let component = string_from(&v, start, end);
            match self.validate_component(component.as_str()) {
                Err(e) => {
                    return Err(e);
                },
                Ok(()) => {},
            }
            if end == v.len() {
                return Ok(());
            }
            start = end + 1;
        }
    }
}

impl Default for StyleGuide {
    /// PascalCase names in English.
    fn default() -> (g: Self)
        ensures
            g.rule() == CaseRule::PascalCase,
            g.lang() == "en"@,
            g.reserved() == default_reserved(),
    {
        StyleGuide::new(CaseRule::PascalCase, "en")
    }
}

// ---------------------------------------------------------------------------
// Laws of the naming rules

/// The segment of `rel` starting at `k` is a valid, non-traversal name.
pub open spec fn segment_ok(rel: Seq<char>, k: int) -> bool {
    let c = rel.subrange(k, seg_end(rel, k));
    &&& c.len() > 0
    &&& !is_dot_segment(c)
    &&& component_spec(c) is Ok
}

proof fn lemma_path_from_segments(path: Seq<char>, rel: Seq<char>, start: int)
    requires
        0 <= start <= rel.len(),
        path_from(path, rel, start) is Ok,
    ensures
        forall|k: int|
            start <= k <= rel.len() && (k == start || rel[k - 1] == '/') ==> #[trigger] segment_ok(
                rel,
                k,
            ),
    decreases rel.len() - start,
{
    let end = seg_end(rel, start);
    lemma_seg_end(rel, start);
    if end < rel.len() {
        lemma_path_from_segments(path, rel, end + 1);
    }
    assert forall|k: int|
        start <= k <= rel.len() && (k == start || rel[k - 1] == '/') implies #[trigger] segment_ok(
        rel,
        k,
    ) by {
        if k != start {
            assert(rel[k - 1] == '/');
            assert(!(start <= k - 1 < end));
        }
    }
}

/// A path that passes validation has no empty, `.` or `..` segment, and
/// each of its segments is a valid name: it cannot leave the datastore root.
pub proof fn valid_paths_stay_under_the_root(path: Seq<char>)
    requires
        path_spec(path) is Ok,
    ensures
        forall|k: int|
            0 <= k <= relative(path).len() && relative(path).len() > 0 && (k == 0 || relative(
                path,
            )[k - 1] == '/') ==> #[trigger] segment_ok(relative(path), k),
{
    if relative(path).len() > 0 {
        lemma_path_from_segments(path, relative(path), 0);
    }
}

/// The rules a name is classified under are exactly the rules it matches.
pub proof fn classify_lists_the_matching_rules(s: Seq<char>, rule: CaseRule)
    ensures
        classify_spec(s).contains(rule) <==> rule_matches(rule, s),
{
    let a = if_matches(CaseRule::PascalCase, s);
    let b = if_matches(CaseRule::CamelCase, s);
    let c = if_matches(CaseRule::SnakeCase, s);
    let d = if_matches(CaseRule::KebabCase, s);
    let all = classify_spec(s);
    if rule_matches(rule, s) {
        let i: int = match rule {
            CaseRule::PascalCase => 0,
            CaseRule::CamelCase => a.len() as int,
            CaseRule::SnakeCase => (a.len() + b.len()) as int,
            CaseRule::KebabCase => (a.len() + b.len() + c.len()) as int,
        };
        assert(all[i] == rule);
    } else if all.contains(rule) {
        let i = choose|i: int| 0 <= i < all.len() && all[i] == rule;
        assert(i < a.len() ==> a[i] == CaseRule::PascalCase);
    }
}

/// The separated rules never leave an empty word: a stem matching the
/// snake-case rule is non-empty and every `_` in it stands between two
/// characters that are not `_` (so a stem cannot start or end with `_`,
/// nor hold `__`); the same holds of `-` for the kebab-case rule.
pub proof fn separated_rules_leave_no_empty_word(s: Seq<char>)
    ensures
        rule_matches(CaseRule::SnakeCase, s) ==> s.len() > 0 && forall|i: int|
            0 <= i < s.len() && #[trigger] s[i] == '_' ==> 0 < i < s.len() - 1 && s[i - 1] != '_'
                && s[i + 1] != '_',
        rule_matches(CaseRule::KebabCase, s) ==> s.len() > 0 && forall|i: int|
            0 <= i < s.len() && #[trigger] s[i] == '-' ==> 0 < i < s.len() - 1 && s[i - 1] != '-'
                && s[i + 1] != '-',
{
    lemma_no_empty_word(s, '_');
    lemma_no_empty_word(s, '-');
}

proof fn lemma_no_empty_word(s: Seq<char>, sep: char)
    ensures
        no_empty_segment(s, sep) ==> s.len() > 0 && forall|i: int|
            0 <= i < s.len() && #[trigger] s[i] == sep ==> 0 < i < s.len() - 1 && s[i - 1] != sep
                && s[i + 1] != sep,
{
    if no_empty_segment(s, sep) {
        assert forall|i: int| 0 <= i < s.len() && #[trigger] s[i] == sep implies 0 < i < s.len() - 1
            && s[i - 1] != sep && s[i + 1] != sep by {
            assert(s.last() == s[s.len() - 1]);
            if i > 0 {
                let h = i - 1;
                assert(h + 1 == i);
                assert(!(s[h] == sep && s[h + 1] == sep));
            }
            if i < s.len() - 1 {
                assert(!(s[i] == sep && s[i + 1] == sep));
            }
        }
    }
}

/// A non-empty stem whose characters are alphanumeric but not letters, and
/// not the `_` or `-` separators (such as `001`), matches every case rule.
pub proof fn letterless_names_match_every_rule(s: Seq<char>, rule: CaseRule)
    requires
        s.len() > 0,
        forall|i: int|
            0 <= i < s.len() ==> unicode_alphanumeric(#[trigger] s[i]) && !unicode_alphabetic(s[i])
                && s[i] != '_' && s[i] != '-',
    ensures
        rule_matches(rule, s),
{
    assert(s.last() == s[s.len() - 1]);
    assert forall|i: int| #[trigger] is_first_letter(s, i) implies unicode_uppercase(s[i]) by {}
    assert forall|i: int| #[trigger] is_first_letter(s, i) implies unicode_lowercase(s[i]) by {}
}

} // verus!
