//! A minimal WKT-2 (ISO 19162) reader for CRS metadata: keyword tree,
//! quoted strings with `""` escapes, numbers, bare enumerations. It is
//! lenient about missing commas between sibling nodes and whitespace before
//! brackets, as the standard's own CRS examples contain both.
//!
//! A number is kept as the decimal text it was written with; the reader
//! checks that text against the floating-point literal grammar.

use vstd::prelude::*;
use vstd::utf8::{encode_scalar, encode_utf8};
use crate::crs::{CrsViolation, CrsViolationModel};
use crate::text::{
    chars_of, is_ascii_alnum, is_ascii_alpha, is_ascii_alphabetic, is_ascii_alphanumeric,
    is_ascii_decimal, is_ascii_digit, is_ascii_ws, owned, push_char, push_str, str_eq,
    string_from, upper, uppercase_range,
};

verus! {

/// The deepest node nesting the reader accepts.
pub const MAX_DEPTH: usize = 64;

/// A WKT node: `KEYWORD[argument, …]`, keyword in uppercase.
#[derive(Debug)]
pub struct WktNode {
    pub keyword: String,
    pub arguments: Vec<WktValue>,
}

/// An argument of a WKT node.
#[derive(Debug)]
pub enum WktValue {
    /// A quoted string, unescaped.
    Text(String),
    /// A number, as the decimal text it was written with.
    Number(String),
    /// A bare enumeration keyword such as `NORTH`, in uppercase.
    Keyword(String),
    Node(WktNode),
}

/// The content of a [`WktNode`].
pub struct WktNodeModel {
    pub keyword: Seq<char>,
    pub arguments: Seq<WktValueModel>,
}

/// The content of a [`WktValue`].
pub enum WktValueModel {
    Text(Seq<char>),
    Number(Seq<char>),
    Keyword(Seq<char>),
    Node(WktNodeModel),
}

/// The content of a value.
pub open spec fn value_model(v: WktValue) -> WktValueModel
    decreases v,
{
    match v {
        WktValue::Text(t) => WktValueModel::Text(t@),
        WktValue::Number(t) => WktValueModel::Number(t@),
        WktValue::Keyword(t) => WktValueModel::Keyword(t@),
        WktValue::Node(n) => WktValueModel::Node(node_model(n)),
    }
}

/// The content of a node.
pub open spec fn node_model(n: WktNode) -> WktNodeModel
    decreases n,
{
    WktNodeModel {
        keyword: n.keyword@,
        arguments: Seq::new(
            n.arguments@.len(),
            |i: int|
                if 0 <= i < n.arguments@.len() {
                    value_model(n.arguments@[i])
                } else {
                    WktValueModel::Text(Seq::empty())
                },
        ),
    }
}

/// The contents of a list of values.
pub open spec fn values_model(v: Seq<WktValue>) -> Seq<WktValueModel> {
    Seq::new(v.len(), |i: int| value_model(v[i]))
}

// ---------------------------------------------------------------------------
// The grammar, over the characters of the input

/// A reader error: the character position and the reason.
pub type WktErr = (int, Seq<char>);

/// The first position from `i` on that is not ASCII whitespace.
pub open spec fn ws_end(s: Seq<char>, i: int) -> int
    decreases s.len() - i,
{
    if 0 <= i < s.len() && is_ascii_ws(s[i]) {
        ws_end(s, i + 1)
    } else {
        i
    }
}

/// A character that may continue a keyword.
pub open spec fn is_kw_char(c: char) -> bool {
    is_ascii_alnum(c) || c == '_'
}

/// The end of the keyword characters from `i` on.
pub open spec fn kw_end(s: Seq<char>, i: int) -> int
    decreases s.len() - i,
{
    if 0 <= i < s.len() && is_kw_char(s[i]) {
        kw_end(s, i + 1)
    } else {
        i
    }
}

/// A character that may occur in a number.
pub open spec fn is_num_char(c: char) -> bool {
    is_ascii_digit(c) || c == '+' || c == '-' || c == '.' || c == 'e' || c == 'E'
}

/// The end of the number characters from `i` on.
pub open spec fn num_end(s: Seq<char>, i: int) -> int
    decreases s.len() - i,
{
    if 0 <= i < s.len() && is_num_char(s[i]) {
        num_end(s, i + 1)
    } else {
        i
    }
}

/// The end of the decimal digits from `i` on.
pub open spec fn digits_end(s: Seq<char>, i: int) -> int
    decreases s.len() - i,
{
    if 0 <= i < s.len() && is_ascii_digit(s[i]) {
        digits_end(s, i + 1)
    } else {
        i
    }
}

/// A sign character.
pub open spec fn is_sign(c: char) -> bool {
    c == '+' || c == '-'
}

/// The decimal floating-point literal grammar (`f64`'s `FromStr`) for text
/// made of digits, signs, dots and exponent marks: an optional sign, digits
/// with at most one dot and at least one digit, and an optional exponent
/// `e`/`E`, optional sign, digits.
pub open spec fn float_lexeme(t: Seq<char>) -> bool {
    let k0: int = if t.len() > 0 && is_sign(t[0]) { 1 } else { 0 };
    let d1 = digits_end(t, k0);
    let has_dot = d1 < t.len() && t[d1] == '.';
    let d2 = if has_dot { digits_end(t, d1 + 1) } else { d1 };
    let mantissa = d1 > k0 || (has_dot && d2 > d1 + 1);
    &&& mantissa
    &&& (d2 == t.len() || (t[d2] == 'e' || t[d2] == 'E') && {
        let k: int = if d2 + 1 < t.len() && is_sign(t[d2 + 1]) { d2 + 2 } else { d2 + 1 };
        let d3 = digits_end(t, k);
        d3 > k && d3 == t.len()
    })
}

/// `t` in double quotes.
pub open spec fn quoted(t: Seq<char>) -> Seq<char> {
    seq!['"'] + t + seq!['"']
}

/// The keyword starting at `i`, uppercased, and where it ends.
pub open spec fn spec_keyword(s: Seq<char>, i: int) -> Result<(Seq<char>, int), WktErr> {
    if 0 <= i < s.len() && is_ascii_alpha(s[i]) {
        let e = kw_end(s, i + 1);
        Ok((upper(s.subrange(i, e)), e))
    } else {
        Err((i, "expected a WKT keyword"@))
    }
}

/// The body of a quoted string from `j` on, after `acc` was read.
pub open spec fn string_body(s: Seq<char>, j: int, acc: Seq<char>) -> Result<(Seq<char>, int), WktErr>
    decreases s.len() - j,
{
    if j < 0 || j >= s.len() {
        Err((j, "unterminated quoted string"@))
    } else if s[j] == '"' {
        if j + 1 < s.len() && s[j + 1] == '"' {
            string_body(s, j + 2, acc.push('"'))
        } else {
            Ok((acc, j + 1))
        }
    } else {
        string_body(s, j + 1, acc.push(s[j]))
    }
}

/// The number starting at `i` and where it ends.
pub open spec fn spec_number(s: Seq<char>, i: int) -> Result<(Seq<char>, int), WktErr> {
    let e = num_end(s, i);
    let t = s.subrange(i, e);
    if float_lexeme(t) {
        Ok((t, e))
    } else {
        Err((i, "invalid number "@ + quoted(t)))
    }
}

/// Whether an opening bracket stands at `w`.
pub open spec fn opens_at(s: Seq<char>, w: int) -> bool {
    0 <= w < s.len() && (s[w] == '[' || s[w] == '(')
}

/// The closing bracket matching the one at `w`.
pub open spec fn closer(s: Seq<char>, w: int) -> char {
    if s[w] == '[' {
        ']'
    } else {
        ')'
    }
}

/// The value starting at `i`, at nesting `depth`, and where it ends.
pub open spec fn spec_value(s: Seq<char>, i: int, depth: int) -> Result<(WktValueModel, int), WktErr>
    decreases s.len() - i, 2int,
{
    if i < 0 || i >= s.len() {
        Err((i, "unexpected end of input"@))
    } else if s[i] == '"' {
        match string_body(s, i + 1, Seq::empty()) {
            Ok((t, e)) => Ok((WktValueModel::Text(t), e)),
            Err(e) => Err(e),
        }
    } else if is_sign(s[i]) || s[i] == '.' || is_ascii_digit(s[i]) {
        match spec_number(s, i) {
            Ok((t, e)) => Ok((WktValueModel::Number(t), e)),
            Err(e) => Err(e),
        }
    } else if is_ascii_alpha(s[i]) {
        let e = kw_end(s, i + 1);
        if opens_at(s, ws_end(s, e)) {
            match spec_node(s, i, depth + 1) {
                Ok((n, e)) => Ok((WktValueModel::Node(n), e)),
                Err(e) => Err(e),
            }
        } else {
            Ok((WktValueModel::Keyword(upper(s.subrange(i, e))), e))
        }
    } else {
        Err((i, "unexpected character"@))
    }
}

/// The node starting at `i`, at nesting `depth`, and where it ends.
pub open spec fn spec_node(s: Seq<char>, i: int, depth: int) -> Result<(WktNodeModel, int), WktErr>
    decreases s.len() - i, 1int,
{
    if i < 0 || i > s.len() {
        Err((i, "expected a WKT keyword"@))
    } else if depth > 64 {
        Err((i, "nesting too deep"@))
    } else {
        match spec_keyword(s, i) {
            Err(e) => Err(e),
            Ok((kw, e)) => {
                let w = ws_end(s, e);
                if !opens_at(s, w) {
                    Err((w, "expected `[` after "@ + kw))
                } else {
                    let p = ws_end(s, w + 1);
                    proof {
                        lemma_kw_end(s, i + 1);
                        lemma_ws_end(s, e);
                        lemma_ws_end(s, w + 1);
                    }
                    if p < s.len() && s[p] == closer(s, w) {
                        Ok((WktNodeModel { keyword: kw, arguments: Seq::empty() }, p + 1))
                    } else {
                        spec_args(s, p, depth, closer(s, w), kw, Seq::empty())
                    }
                }
            },
        }
    }
}

/// The arguments of a node from `p` on, after `acc` was read; `close` is
/// the bracket that ends the node.
pub open spec fn spec_args(
    s: Seq<char>,
    p: int,
    depth: int,
    close: char,
    kw: Seq<char>,
    acc: Seq<WktValueModel>,
) -> Result<(WktNodeModel, int), WktErr>
    decreases s.len() - p, 3int,
{
    if p < 0 || p > s.len() {
        Err((p, "unexpected end of input"@))
    } else {
        let q = ws_end(s, p);
        proof {
            lemma_ws_end(s, p);
        }
        match spec_value(s, q, depth) {
            Err(e) => Err(e),
            Ok((v, r)) => if r <= q || r > s.len() {
                Err((q, "unexpected end of input"@))
            } else {
                let t = ws_end(s, r);
                proof {
                    lemma_ws_end(s, r);
                }
                let acc2 = acc.push(v);
                if t < s.len() && s[t] == close {
                    Ok((WktNodeModel { keyword: kw, arguments: acc2 }, t + 1))
                } else if t < s.len() && s[t] == ',' {
                    spec_args(s, t + 1, depth, close, kw, acc2)
                } else if t < s.len() && (s[t] == ']' || s[t] == ')') {
                    Err((t, "mismatched closing bracket"@))
                } else if t >= s.len() {
                    Err((t, "unterminated "@ + kw))
                } else {
                    spec_args(s, t, depth, close, kw, acc2)
                }
            },
        }
    }
}

/// One WKT-2 definition with nothing but whitespace around it.
pub open spec fn wkt_parse(s: Seq<char>) -> Result<WktNodeModel, WktErr> {
    match spec_node(s, ws_end(s, 0), 0) {
        Err(e) => Err(e),
        Ok((n, e)) => {
            let f = ws_end(s, e);
            if f != s.len() {
                Err((f, "unexpected trailing content"@))
            } else {
                Ok(n)
            }
        },
    }
}

/// The byte offset of character position `p` in the UTF-8 text of `s`.
pub open spec fn byte_offset(s: Seq<char>, p: int) -> int {
    encode_utf8(s.take(p)).len() as int
}

/// The outcome of reading a definition, as the reader reports it.
pub open spec fn parse_outcome(s: Seq<char>, r: Result<WktNode, CrsViolation>) -> bool {
    match (r, wkt_parse(s)) {
        (Ok(n), Ok(m)) => node_model(n) == m,
        (Err(v), Err(e)) => v@ == (CrsViolationModel::InvalidWkt {
            position: byte_offset(s, e.0) as usize,
            reason: e.1,
        }),
        _ => false,
    }
}

// ---------------------------------------------------------------------------
// Lemmas on the scanners

/// Whitespace skipping moves forward and stays within the text.
pub proof fn lemma_ws_end(s: Seq<char>, i: int)
    ensures
        ws_end(s, i) >= i,
        0 <= i <= s.len() ==> ws_end(s, i) <= s.len(),
        0 <= i <= s.len() ==> ws_end(s, ws_end(s, i)) == ws_end(s, i),
        0 <= i <= s.len() && ws_end(s, i) < s.len() ==> !is_ascii_ws(s[ws_end(s, i)]),
    decreases s.len() - i,
{
    if 0 <= i < s.len() && is_ascii_ws(s[i]) {
        lemma_ws_end(s, i + 1);
    }
}

/// Keyword scanning moves forward and stays within the text.
pub proof fn lemma_kw_end(s: Seq<char>, i: int)
    ensures
        kw_end(s, i) >= i,
        0 <= i <= s.len() ==> kw_end(s, i) <= s.len(),
        forall|k: int| i <= k < kw_end(s, i) ==> is_kw_char(#[trigger] s[k]),
        0 <= i <= s.len() && kw_end(s, i) < s.len() ==> !is_kw_char(s[kw_end(s, i)]),
    decreases s.len() - i,
{
    if 0 <= i < s.len() && is_kw_char(s[i]) {
        lemma_kw_end(s, i + 1);
    }
}

/// Number scanning moves forward and stays within the text.
pub proof fn lemma_num_end(s: Seq<char>, i: int)
    ensures
        num_end(s, i) >= i,
        0 <= i <= s.len() ==> num_end(s, i) <= s.len(),
    decreases s.len() - i,
{
    if 0 <= i < s.len() && is_num_char(s[i]) {
        lemma_num_end(s, i + 1);
    }
}

/// Digit scanning moves forward and stays within the text.
pub proof fn lemma_digits_end(s: Seq<char>, i: int)
    ensures
        digits_end(s, i) >= i,
        0 <= i <= s.len() ==> digits_end(s, i) <= s.len(),
    decreases s.len() - i,
{
    if 0 <= i < s.len() && is_ascii_digit(s[i]) {
        lemma_digits_end(s, i + 1);
    }
}

/// The string body ends after where it starts and within the text.
pub proof fn lemma_string_body(s: Seq<char>, j: int, acc: Seq<char>)
    ensures
        string_body(s, j, acc) is Ok ==> string_body(s, j, acc)->Ok_0.1 > j
            && string_body(s, j, acc)->Ok_0.1 <= s.len(),
    decreases s.len() - j,
{
    if j < 0 || j >= s.len() {
    } else if s[j] == '"' {
        if j + 1 < s.len() && s[j + 1] == '"' {
            lemma_string_body(s, j + 2, acc.push('"'));
        }
    } else {
        lemma_string_body(s, j + 1, acc.push(s[j]));
    }
}

/// UTF-8 encoding distributes over concatenation.
pub proof fn lemma_encode_concat(a: Seq<char>, b: Seq<char>)
    ensures
        encode_utf8(a + b) == encode_utf8(a) + encode_utf8(b),
    decreases a.len(),
{
    if a.len() == 0 {
        assert(a + b =~= b);
        assert(encode_utf8(a) =~= Seq::<u8>::empty());
        assert(Seq::<u8>::empty() + encode_utf8(b) =~= encode_utf8(b));
    } else {
        assert((a + b).drop_first() =~= a.drop_first() + b);
        lemma_encode_concat(a.drop_first(), b);
        assert(encode_utf8(a + b) =~= encode_scalar((a + b)[0] as u32) + encode_utf8(
            (a + b).drop_first(),
        ));
    }
}

// ---------------------------------------------------------------------------
// The reader

/// The number of UTF-8 bytes of a character.
fn utf8_width(c: char) -> (r: usize)
    ensures
        r == encode_scalar(c as u32).len(),
        1 <= r <= 4,
{
    let u = c as u32;
    proof {
        vstd::utf8::char_is_scalar(c);
    }
    if u < 0x80 {
        1
    } else if u < 0x800 {
        2
    } else if u < 0x10000 {
        3
    } else {
        4
    }
}

/// The reader's state: the input's characters and its UTF-8 length.
struct Parser {
    chars: Vec<char>,
    byte_len: usize,
}

impl Parser {
    spec fn text(&self) -> Seq<char> {
        self.chars@
    }

    spec fn wf(&self) -> bool {
        encode_utf8(self.chars@).len() == self.byte_len
    }

    /// The character at `pos`, if any.
    fn peek(&self, pos: usize) -> (r: Option<char>)
        ensures
            r == if pos < self.chars@.len() {
                Some(self.chars@[pos as int])
            } else {
                None::<char>
            },
    {
        if pos < self.chars.len() {
            Some(self.chars[pos])
        } else {
            None
        }
    }

    /// The first position from `pos` on that is not ASCII whitespace.
    fn skip_ws(&self, pos: usize) -> (r: usize)
        requires
            pos <= self.chars@.len(),
        ensures
            r == ws_end(self.chars@, pos as int),
            pos <= r <= self.chars@.len(),
    {
        let mut p = pos;
        while p < self.chars.len() && crate::text::is_ascii_whitespace(self.chars[p])
            invariant
                pos <= p <= self.chars@.len(),
                ws_end(self.chars@, pos as int) == ws_end(self.chars@, p as int),
            decreases self.chars@.len() - p,
        {
            p += 1;
        }
        p
    }

    /// The byte offset of character position `pos`.
    fn byte_pos(&self, pos: usize) -> (r: usize)
        requires
            self.wf(),
            pos <= self.chars@.len(),
        ensures
            r == byte_offset(self.chars@, pos as int),
    {
        let ghost s = self.chars@;
        let mut total: usize = 0;
        let mut k: usize = 0;
        while k < pos
            invariant
                k <= pos <= s.len(),
                s == self.chars@,
                self.wf(),
                total == encode_utf8(s.take(k as int)).len(),
            decreases pos - k,
        {
            proof {
                assert(s.take(k + 1) =~= s.take(k as int) + seq![s[k as int]]);
                lemma_encode_concat(s.take(k as int), seq![s[k as int]]);
                assert(encode_utf8(seq![s[k as int]]) =~= encode_scalar(s[k as int] as u32)
                    + encode_utf8(seq![s[k as int]].drop_first()));
                assert(seq![s[k as int]].drop_first() =~= Seq::<char>::empty());
                assert(s =~= s.take(k + 1) + s.skip(k + 1));
                lemma_encode_concat(s.take(k + 1), s.skip(k + 1));
            }
            total = total + utf8_width(self.chars[k]);
            k += 1;
        }
        total
    }

    /// A reader error at `pos`.
    fn err(&self, pos: usize, reason: String) -> (r: CrsViolation)
        requires
            self.wf(),
            pos <= self.chars@.len(),
        ensures
            r@ == (CrsViolationModel::InvalidWkt {
                position: byte_offset(self.chars@, pos as int) as usize,
                reason: reason@,
            }),
    {
        CrsViolation::InvalidWkt { position: self.byte_pos(pos), reason }
    }

    /// The keyword starting at `pos`, uppercased, and where it ends.
    fn parse_keyword(&self, pos: usize) -> (r: Result<(String, usize), CrsViolation>)
        requires
            self.wf(),
            pos <= self.chars@.len(),
        ensures
            match (r, spec_keyword(self.chars@, pos as int)) {
                (Ok((k, e)), Ok((sk, se))) => k@ == sk && e == se,
                (Err(v), Err(se)) => v@ == (CrsViolationModel::InvalidWkt {
                    position: byte_offset(self.chars@, se.0) as usize,
                    reason: se.1,
                }),
                _ => false,
            },
    {
        let n = self.chars.len();
        if pos >= n || !is_ascii_alphabetic(self.chars[pos]) {
            return Err(self.err(pos, owned("expected a WKT keyword")));
        }
        let mut end = pos + 1;
        while end < self.chars.len() && (is_ascii_alphanumeric(self.chars[end]) || self.chars[end]
            == '_')
            invariant
                pos < end <= self.chars@.len(),
                kw_end(self.chars@, pos + 1) == kw_end(self.chars@, end as int),
            decreases self.chars@.len() - end,
        {
            end += 1;
        }
        Ok((uppercase_range(&self.chars, pos, end), end))
    }

    /// The quoted string starting at `pos` (at its opening quote).
    fn parse_string(&self, pos: usize) -> (r: Result<(String, usize), CrsViolation>)
        requires
            self.wf(),
            pos < self.chars@.len(),
        ensures
            match (r, string_body(self.chars@, pos + 1, Seq::empty())) {
                (Ok((t, e)), Ok((st, se))) => t@ == st && e == se,
                (Err(v), Err(se)) => v@ == (CrsViolationModel::InvalidWkt {
                    position: byte_offset(self.chars@, se.0) as usize,
                    reason: se.1,
                }),
                _ => false,
            },
    {
        let ghost s = self.chars@;
        let n = self.chars.len();
        let mut out = String::new();
        let mut j = pos + 1;
        loop
            invariant
                pos + 1 <= j <= s.len(),
                s == self.chars@,
                self.wf(),
                string_body(s, pos + 1, Seq::empty()) == string_body(s, j as int, out@),
            decreases s.len() - j,
        {
            if j >= self.chars.len() {
                return Err(self.err(j, owned("unterminated quoted string")));
            }
            if self.chars[j] == '"' {
                if j + 1 < self.chars.len() && self.chars[j + 1] == '"' {
                    push_char(&mut out, '"');
                    j = j + 2;
                } else {
                    return Ok((out, j + 1));
                }
            } else {
                push_char(&mut out, self.chars[j]);
                j = j + 1;
            }
        }
    }

    /// The number starting at `pos` and where it ends.
    fn parse_number(&self, pos: usize) -> (r: Result<(String, usize), CrsViolation>)
        requires
            self.wf(),
            pos <= self.chars@.len(),
        ensures
            match (r, spec_number(self.chars@, pos as int)) {
                (Ok((t, e)), Ok((st, se))) => t@ == st && e == se,
                (Err(v), Err(se)) => v@ == (CrsViolationModel::InvalidWkt {
                    position: byte_offset(self.chars@, se.0) as usize,
                    reason: se.1,
                }),
                _ => false,
            },
    {
        let mut end = pos;
        while end < self.chars.len() && is_num_char_exec(self.chars[end])
            invariant
                pos <= end <= self.chars@.len(),
                num_end(self.chars@, pos as int) == num_end(self.chars@, end as int),
            decreases self.chars@.len() - end,
        {
            end += 1;
        }
        let text = string_from(&self.chars, pos, end);
        if float_lexeme_exec(&self.chars, pos, end) {
            Ok((text, end))
        } else {
            let mut reason = owned("invalid number \"");
            push_str(&mut reason, text.as_str());
            push_str(&mut reason, "\"");
            proof {
                reveal_strlit("invalid number \"");
                reveal_strlit("invalid number ");
                reveal_strlit("\"");
                assert(reason@ =~= "invalid number "@ + quoted(text@));
            }
            Err(self.err(pos, reason))
        }
    }
}

impl Parser {
    /// The value starting at `pos`, at nesting `depth`, and where it ends.
    fn parse_value(&self, pos: usize, depth: usize) -> (r: Result<(WktValue, usize), CrsViolation>)
        requires
            self.wf(),
            pos <= self.chars@.len(),
            depth <= 64,
        ensures
            match (r, spec_value(self.chars@, pos as int, depth as int)) {
                (Ok((v, e)), Ok((sv, se))) => value_model(v) == sv && e == se,
                (Err(v), Err(se)) => v@ == (CrsViolationModel::InvalidWkt {
                    position: byte_offset(self.chars@, se.0) as usize,
                    reason: se.1,
                }),
                _ => false,
            },
            r is Ok ==> pos < r->Ok_0.1 <= self.chars@.len(),
        decreases self.chars@.len() - pos, 2int,
    {
        let ghost s = self.chars@;
        let n = self.chars.len();
        if pos >= n {
            return Err(self.err(pos, owned("unexpected end of input")));
        }
        let c = self.chars[pos];
        if c == '"' {
            proof {
                lemma_string_body(s, pos + 1, Seq::empty());
            }
            match self.parse_string(pos) {
                Ok((t, e)) => Ok((WktValue::Text(t), e)),
                Err(v) => Err(v),
            }
        } else if c == '+' || c == '-' || c == '.' || is_ascii_decimal(c) {
            proof {
                lemma_num_end(s, pos as int);
                let e = num_end(s, pos as int);
                let t = s.subrange(pos as int, e);
                let k0: int = if t.len() > 0 && is_sign(t[0]) { 1 } else { 0 };
                lemma_digits_end(t, k0);
            }
            match self.parse_number(pos) {
                Ok((t, e)) => Ok((WktValue::Number(t), e)),
                Err(v) => Err(v),
            }
        } else if is_ascii_alphabetic(c) {
            let (keyword, e) = match self.parse_keyword(pos) {
                Ok(x) => x,
                Err(v) => {
                    return Err(v);
                },
            };
            proof {
                lemma_kw_end(s, pos + 1);
            }
            let w = self.skip_ws(e);
            if w < n && (self.chars[w] == '[' || self.chars[w] == '(') {
                match self.parse_node(pos, depth + 1) {
                    Ok((node, e2)) => Ok((WktValue::Node(node), e2)),
                    Err(v) => Err(v),
                }
            } else {
                Ok((WktValue::Keyword(keyword), e))
            }
        } else {
            Err(self.err(pos, owned("unexpected character")))
        }
    }

    /// The node starting at `pos`, at nesting `depth`, and where it ends.
    fn parse_node(&self, pos: usize, depth: usize) -> (r: Result<(WktNode, usize), CrsViolation>)
        requires
            self.wf(),
            pos <= self.chars@.len(),
            depth <= 65,
        ensures
            match (r, spec_node(self.chars@, pos as int, depth as int)) {
                (Ok((nd, e)), Ok((sn, se))) => node_model(nd) == sn && e == se,
                (Err(v), Err(se)) => v@ == (CrsViolationModel::InvalidWkt {
                    position: byte_offset(self.chars@, se.0) as usize,
                    reason: se.1,
                }),
                _ => false,
            },
            r is Ok ==> pos < r->Ok_0.1 <= self.chars@.len(),
        decreases self.chars@.len() - pos, 1int,
    {
        let ghost s = self.chars@;
        if depth > MAX_DEPTH {
            return Err(self.err(pos, owned("nesting too deep")));
        }
        let (keyword, e) = match self.parse_keyword(pos) {
            Ok(x) => x,
            Err(v) => {
                return Err(v);
            },
        };
        proof {
            lemma_kw_end(s, pos + 1);
        }
        let n = self.chars.len();
        let w = self.skip_ws(e);
        if !(w < n && (self.chars[w] == '[' || self.chars[w] == '(')) {
            let mut reason = owned("expected `[` after ");
            push_str(&mut reason, keyword.as_str());
            return Err(self.err(w, reason));
        }
        let close = if self.chars[w] == '[' {
            ']'
        } else {
            ')'
        };
        let mut p = self.skip_ws(w + 1);
        let mut arguments: Vec<WktValue> = Vec::new();
        if p < n && self.chars[p] == close {
            let node = WktNode { keyword, arguments };
            proof {
                assert(node_model(node).arguments =~= Seq::<WktValueModel>::empty());
            }
            return Ok((node, p + 1));
        }
        assert(values_model(arguments@) =~= Seq::<WktValueModel>::empty());
        loop
            invariant
                self.wf(),
                s == self.chars@,
                n == s.len(),
                pos < p <= n,
                depth <= 64,
                close == closer(s, w as int),
                spec_node(s, pos as int, depth as int) == spec_args(
                    s,
                    p as int,
                    depth as int,
                    close,
                    keyword@,
                    values_model(arguments@),
                ),
            decreases n - p,
        {
            let q = self.skip_ws(p);
            let (value, r) = match self.parse_value(q, depth) {
                Ok(x) => x,
                Err(v) => {
                    return Err(v);
                },
            };
            let t = self.skip_ws(r);
            let ghost before = arguments@;
            arguments.push(value);
            proof {
                assert(values_model(arguments@) =~= values_model(before).push(value_model(value)));
            }
            if t < n && self.chars[t] == close {
                let node = WktNode { keyword, arguments };
                proof {
                    assert(node_model(node).arguments =~= values_model(node.arguments@));
                }
                return Ok((node, t + 1));
            } else if t < n && self.chars[t] == ',' {
                p = t + 1;
            } else if t < n && (self.chars[t] == ']' || self.chars[t] == ')') {
                return Err(self.err(t, owned("mismatched closing bracket")));
            } else if t >= n {
                let mut reason = owned("unterminated ");
                push_str(&mut reason, keyword.as_str());
                return Err(self.err(t, reason));
            } else {
                p = t;
            }
        }
    }
}

/// Reads one WKT-2 definition; anything but whitespace after it is an
/// error. Keywords are uppercased.
pub fn parse(input: &str) -> (r: Result<WktNode, CrsViolation>)
    ensures
        parse_outcome(input@, r),
{
    let chars = chars_of(input);
    let byte_len = input.as_bytes().len();
    let parser = Parser { chars, byte_len };
    let start = parser.skip_ws(0);
    let (node, e) = match parser.parse_node(start, 0) {
        Ok(x) => x,
        Err(v) => {
            return Err(v);
        },
    };
    let f = parser.skip_ws(e);
    if f != parser.chars.len() {
        return Err(parser.err(f, owned("unexpected trailing content")));
    }
    Ok(node)
}

/// Whether a character may occur in a number.
fn is_num_char_exec(c: char) -> (r: bool)
    ensures
        r == is_num_char(c),
{
    is_ascii_decimal(c) || c == '+' || c == '-' || c == '.' || c == 'e' || c == 'E'
}

/// The end of the decimal digits of `v` from `i` on.
fn digits_end_exec(v: &Vec<char>, from: usize, to: usize, i: usize) -> (r: usize)
    requires
        from <= i <= to <= v@.len(),
    ensures
        r == from + digits_end(v@.subrange(from as int, to as int), i - from),
        i <= r <= to,
{
    let ghost t = v@.subrange(from as int, to as int);
    let mut k = i;
    while k < to && is_ascii_decimal(v[k])
        invariant
            from <= i <= k <= to <= v@.len(),
            t == v@.subrange(from as int, to as int),
            digits_end(t, i - from) == digits_end(t, k - from),
        decreases to - k,
    {
        k += 1;
    }
    k
}

/// Whether `v[from..to]` is a floating-point literal.
fn float_lexeme_exec(v: &Vec<char>, from: usize, to: usize) -> (r: bool)
    requires
        from <= to <= v@.len(),
    ensures
        r == float_lexeme(v@.subrange(from as int, to as int)),
{
    let ghost t = v@.subrange(from as int, to as int);
    let k0 = if from < to && (v[from] == '+' || v[from] == '-') { from + 1 } else { from };
    let d1 = digits_end_exec(v, from, to, k0);
    let has_dot = d1 < to && v[d1] == '.';
    let d2 = if has_dot { digits_end_exec(v, from, to, d1 + 1) } else { d1 };
    let mantissa = d1 > k0 || (has_dot && d2 > d1 + 1);
    if !mantissa {
        return false;
    }
    if d2 == to {
        return true;
    }
    if !(v[d2] == 'e' || v[d2] == 'E') {
        return false;
    }
    let k = if d2 + 1 < to && (v[d2 + 1] == '+' || v[d2 + 1] == '-') { d2 + 2 } else { d2 + 1 };
    let d3 = digits_end_exec(v, from, to, k);
    d3 > k && d3 == to
}

// ---------------------------------------------------------------------------
// Reading a node

/// The first quoted-string argument, if any.
pub open spec fn first_text(args: Seq<WktValueModel>) -> Option<Seq<char>>
    decreases args.len(),
{
    if args.len() == 0 {
        None
    } else {
        match args[0] {
            WktValueModel::Text(t) => Some(t),
            _ => first_text(args.drop_first()),
        }
    }
}

/// The child nodes among the arguments, in order.
pub open spec fn child_models(args: Seq<WktValueModel>) -> Seq<WktNodeModel>
    decreases args.len(),
{
    if args.len() == 0 {
        Seq::empty()
    } else {
        let rest = child_models(args.drop_first());
        match args[0] {
            WktValueModel::Node(n) => seq![n] + rest,
            _ => rest,
        }
    }
}

/// The first child node with the given keyword, if any.
pub open spec fn find_child(children: Seq<WktNodeModel>, keyword: Seq<char>) -> Option<WktNodeModel>
    decreases children.len(),
{
    if children.len() == 0 {
        None
    } else if children[0].keyword == keyword {
        Some(children[0])
    } else {
        find_child(children.drop_first(), keyword)
    }
}

impl WktNode {
    /// The node's name: its first quoted-string argument.
    pub fn name(&self) -> (r: Option<&str>)
        ensures
            match r {
                Some(t) => first_text(node_model(*self).arguments) == Some(t@),
                None => first_text(node_model(*self).arguments) is None,
            },
    {
        let ghost args = node_model(*self).arguments;
        let mut i: usize = 0;
        assert(args.skip(0) =~= args);
        while i < self.arguments.len()
            invariant
                0 <= i <= self.arguments@.len(),
                args == node_model(*self).arguments,
                args.len() == self.arguments@.len(),
                first_text(args) == first_text(args.skip(i as int)),
            decreases self.arguments@.len() - i,
        {
            proof {
                assert(args.skip(i as int).drop_first() =~= args.skip(i + 1));
                assert(args.skip(i as int)[0] == value_model(self.arguments@[i as int]));
            }
            match &self.arguments[i] {
                WktValue::Text(t) => {
                    return Some(t.as_str());
                },
                _ => {},
            }
            i += 1;
        }
        proof {
            assert(args.skip(i as int) =~= Seq::<WktValueModel>::empty());
        }
        None
    }

    /// The child nodes, in order.
    pub fn child_nodes(&self) -> (r: Vec<&WktNode>)
        ensures
            r@.map_values(|c: &WktNode| node_model(*c)) == child_models(
                node_model(*self).arguments,
            ),
    {
        let ghost args = node_model(*self).arguments;
        let mut out: Vec<&WktNode> = Vec::new();
        let mut i: usize = 0;
        assert(args.skip(0) =~= args);
        assert(out@.map_values(|c: &WktNode| node_model(*c)) + child_models(args) =~= child_models(
            args,
        ));
        while i < self.arguments.len()
            invariant
                0 <= i <= self.arguments@.len(),
                args == node_model(*self).arguments,
                args.len() == self.arguments@.len(),
                out@.map_values(|c: &WktNode| node_model(*c)) + child_models(args.skip(i as int))
                    == child_models(args),
            decreases self.arguments@.len() - i,
        {
            proof {
                assert(args.skip(i as int).drop_first() =~= args.skip(i + 1));
                assert(args.skip(i as int)[0] == value_model(self.arguments@[i as int]));
            }
            let ghost before = out@;
            match &self.arguments[i] {
                WktValue::Node(n) => {
                    out.push(n);
                    proof {
                        assert(out@.map_values(|c: &WktNode| node_model(*c)) =~= before.map_values(
                            |c: &WktNode| node_model(*c),
                        ).push(node_model(*n)));
                        assert(out@.map_values(|c: &WktNode| node_model(*c)) + child_models(
                            args.skip(i + 1),
                        ) =~= before.map_values(|c: &WktNode| node_model(*c)) + child_models(
                            args.skip(i as int),
                        ));
                    }
                },
                _ => {},
            }
            i += 1;
        }
        proof {
            assert(args.skip(i as int) =~= Seq::<WktValueModel>::empty());
            assert(out@.map_values(|c: &WktNode| node_model(*c)) + Seq::<WktNodeModel>::empty()
                =~= out@.map_values(|c: &WktNode| node_model(*c)));
        }
        out
    }

    /// The first direct child node with the given (uppercase) keyword.
    pub fn find(&self, keyword: &str) -> (r: Option<&WktNode>)
        ensures
            match r {
                Some(c) => find_child(child_models(node_model(*self).arguments), keyword@) == Some(
                    node_model(*c),
                ),
                None => find_child(child_models(node_model(*self).arguments), keyword@) is None,
            },
    {
        let children = self.child_nodes();
        let ghost models = children@.map_values(|c: &WktNode| node_model(*c));
        let mut i: usize = 0;
        assert(models.skip(0) =~= models);
        while i < children.len()
            invariant
                0 <= i <= children@.len(),
                models == children@.map_values(|c: &WktNode| node_model(*c)),
                models == child_models(node_model(*self).arguments),
                find_child(models, keyword@) == find_child(models.skip(i as int), keyword@),
            decreases children@.len() - i,
        {
            proof {
                assert(models.skip(i as int).drop_first() =~= models.skip(i + 1));
            }
            if str_eq(children[i].keyword.as_str(), keyword) {
                proof {
                    assert(models.skip(i as int)[0] == models[i as int]);
                    assert(models[i as int] == node_model(*children@[i as int]));
                    assert(node_model(*children@[i as int]).keyword == children@[i as int].keyword@);
                    assert(find_child(models.skip(i as int), keyword@) == Some(models[i as int]));
                }
                return Some(children[i]);
            }
            i += 1;
        }
        proof {
            assert(models.skip(i as int) =~= Seq::<WktNodeModel>::empty());
        }
        None
    }
}

// ---------------------------------------------------------------------------
// Equality

/// Whether two values have the same content.
fn value_eq(a: &WktValue, b: &WktValue) -> (r: bool)
    ensures
        r == (value_model(*a) == value_model(*b)),
    decreases *a, 0int,
{
    match (a, b) {
        (WktValue::Text(x), WktValue::Text(y)) => str_eq(x.as_str(), y.as_str()),
        (WktValue::Number(x), WktValue::Number(y)) => str_eq(x.as_str(), y.as_str()),
        (WktValue::Keyword(x), WktValue::Keyword(y)) => str_eq(x.as_str(), y.as_str()),
        (WktValue::Node(x), WktValue::Node(y)) => node_eq(x, y),
        _ => false,
    }
}

/// Whether two nodes have the same content.
fn node_eq(a: &WktNode, b: &WktNode) -> (r: bool)
    ensures
        r == (node_model(*a) == node_model(*b)),
    decreases *a, 1int,
{
    let ghost ma = node_model(*a);
    let ghost mb = node_model(*b);
    if !str_eq(a.keyword.as_str(), b.keyword.as_str()) {
        return false;
    }
    if a.arguments.len() != b.arguments.len() {
        assert(ma.arguments.len() != mb.arguments.len());
        return false;
    }
    let mut i: usize = 0;
    while i < a.arguments.len()
        invariant
            0 <= i <= a.arguments@.len(),
            a.arguments@.len() == b.arguments@.len(),
            ma == node_model(*a),
            mb == node_model(*b),
            forall|k: int| 0 <= k < i ==> #[trigger] ma.arguments[k] == mb.arguments[k],
        decreases a.arguments@.len() - i,
    {
        proof {
            assert(decreases_to!(*a => a.arguments));
            assert(decreases_to!(a.arguments => a.arguments@));
            assert(decreases_to!(a.arguments@ => a.arguments@[i as int]));
        }
        if !value_eq(&a.arguments[i], &b.arguments[i]) {
            assert(ma.arguments[i as int] != mb.arguments[i as int]);
            return false;
        }
        i += 1;
    }
    assert(ma.arguments =~= mb.arguments);
    true
}

impl PartialEq for WktNode {
    fn eq(&self, other: &Self) -> (r: bool) {
        node_eq(self, other)
    }
}

impl vstd::std_specs::cmp::PartialEqSpecImpl for WktNode {
    open spec fn obeys_eq_spec() -> bool {
        true
    }

    open spec fn eq_spec(&self, other: &WktNode) -> bool {
        node_model(*self) == node_model(*other)
    }
}

impl PartialEq for WktValue {
    fn eq(&self, other: &Self) -> (r: bool) {
        value_eq(self, other)
    }
}

impl vstd::std_specs::cmp::PartialEqSpecImpl for WktValue {
    open spec fn obeys_eq_spec() -> bool {
        true
    }

    open spec fn eq_spec(&self, other: &WktValue) -> bool {
        value_model(*self) == value_model(*other)
    }
}

// ---------------------------------------------------------------------------
// The canonical single-line form

/// `t` with each `"` doubled.
pub open spec fn escape_quotes(t: Seq<char>) -> Seq<char>
    decreases t.len(),
{
    if t.len() == 0 {
        Seq::empty()
    } else {
        escape_quotes(t.drop_last()) + if t.last() == '"' {
            seq!['"', '"']
        } else {
            seq![t.last()]
        }
    }
}

/// The canonical form of a value.
pub open spec fn display_value(v: WktValueModel) -> Seq<char>
    decreases v, 0int,
{
    match v {
        WktValueModel::Text(t) => seq!['"'] + escape_quotes(t) + seq!['"'],
        WktValueModel::Number(t) => t,
        WktValueModel::Keyword(k) => k,
        WktValueModel::Node(n) => display_node(n),
    }
}

/// The canonical form of the arguments from `i` on, comma-separated.
pub open spec fn display_args(args: Seq<WktValueModel>, i: int) -> Seq<char>
    decreases args, args.len() - i,
{
    if i < 0 || i >= args.len() {
        Seq::empty()
    } else {
        (if i > 0 {
            seq![',']
        } else {
            Seq::empty()
        }) + display_value(args[i]) + display_args(args, i + 1)
    }
}

/// The canonical single-line form of a node: `KEYWORD[a,b,…]`, quotes
/// doubled inside strings.
pub open spec fn display_node(n: WktNodeModel) -> Seq<char>
    decreases n, 0int,
{
    n.keyword + seq!['['] + display_args(n.arguments, 0) + seq![']']
}

/// Appends a quoted string with its quotes doubled.
fn write_text(t: &String, out: &mut String)
    ensures
        final(out)@ == old(out)@ + seq!['"'] + escape_quotes(t@) + seq!['"'],
{
    let v = chars_of(t.as_str());
    let ghost start = out@;
    push_char(out, '"');
    let mut k: usize = 0;
    while k < v.len()
        invariant
            0 <= k <= v@.len(),
            v@ == t@,
            out@ == start + seq!['"'] + escape_quotes(v@.take(k as int)),
        decreases v@.len() - k,
    {
        proof {
            assert(v@.take(k + 1).drop_last() =~= v@.take(k as int));
        }
        if v[k] == '"' {
            push_char(out, '"');
            push_char(out, '"');
        } else {
            push_char(out, v[k]);
        }
        k += 1;
    }
    proof {
        assert(v@.take(k as int) =~= v@);
    }
    push_char(out, '"');
}

/// Appends the canonical form of a value.
fn write_value(v: &WktValue, out: &mut String)
    ensures
        final(out)@ == old(out)@ + display_value(value_model(*v)),
    decreases *v, 0int,
{
    match v {
        WktValue::Text(t) => write_text(t, out),
        WktValue::Number(t) => push_str(out, t.as_str()),
        WktValue::Keyword(k) => push_str(out, k.as_str()),
        WktValue::Node(n) => write_node(n, out),
    }
}

/// Appends the canonical form of a node.
fn write_node(n: &WktNode, out: &mut String)
    ensures
        final(out)@ == old(out)@ + display_node(node_model(*n)),
    decreases *n, 1int,
{
    let ghost m = node_model(*n);
    let ghost start = out@;
    push_str(out, n.keyword.as_str());
    push_char(out, '[');
    let mut i: usize = 0;
    while i < n.arguments.len()
        invariant
            0 <= i <= n.arguments@.len(),
            m == node_model(*n),
            m.arguments.len() == n.arguments@.len(),
            out@ + display_args(m.arguments, i as int) == start + n.keyword@ + seq!['['] + display_args(
                m.arguments,
                0,
            ),
        decreases n.arguments@.len() - i,
    {
        let ghost before = out@;
        if i > 0 {
            push_char(out, ',');
        }
        proof {
            assert(decreases_to!(*n => n.arguments));
            assert(decreases_to!(n.arguments => n.arguments@));
            assert(decreases_to!(n.arguments@ => n.arguments@[i as int]));
            assert(m.arguments[i as int] == value_model(n.arguments@[i as int]));
        }
        write_value(&n.arguments[i], out);
        proof {
            assert(out@ =~= before + (if i > 0 {
                seq![',']
            } else {
                Seq::empty()
            }) + display_value(m.arguments[i as int]));
        }
        i += 1;
    }
    push_char(out, ']');
    proof {
        assert(out@ =~= start + display_node(m));
    }
}

impl WktNode {
    /// The canonical single-line form, `KEYWORD[a,b,…]`.
    pub fn to_string(&self) -> (r: String)
        ensures
            r@ == display_node(node_model(*self)),
    {
        let mut out = String::new();
        write_node(self, &mut out);
        assert(out@ =~= display_node(node_model(*self)));
        out
    }
}

// ---------------------------------------------------------------------------
// Classification

/// CRS classification per the WKT-2 root keyword (2015 and 2019 aliases).
#[derive(Debug, Clone, PartialEq, Eq)]
pub enum CrsKind {
    Geodetic,
    Geographic,
    Projected,
    Vertical,
    Engineering,
    Compound,
    Temporal,
    Parametric,
    Other(String),
}

/// The mathematical content of a [`CrsKind`].
pub enum CrsKindModel {
    Geodetic,
    Geographic,
    Projected,
    Vertical,
    Engineering,
    Compound,
    Temporal,
    Parametric,
    Other(Seq<char>),
}

impl View for CrsKind {
    type V = CrsKindModel;

    open spec fn view(&self) -> CrsKindModel {
        match self {
            CrsKind::Geodetic => CrsKindModel::Geodetic,
            CrsKind::Geographic => CrsKindModel::Geographic,
            CrsKind::Projected => CrsKindModel::Projected,
            CrsKind::Vertical => CrsKindModel::Vertical,
            CrsKind::Engineering => CrsKindModel::Engineering,
            CrsKind::Compound => CrsKindModel::Compound,
            CrsKind::Temporal => CrsKindModel::Temporal,
            CrsKind::Parametric => CrsKindModel::Parametric,
            CrsKind::Other(k) => CrsKindModel::Other(k@),
        }
    }
}

/// The kind of CRS a root keyword names.
pub open spec fn kind_of(k: Seq<char>) -> CrsKindModel {
    if k == "GEODCRS"@ || k == "GEODETICCRS"@ {
        CrsKindModel::Geodetic
    } else if k == "GEOGCRS"@ || k == "GEOGRAPHICCRS"@ {
        CrsKindModel::Geographic
    } else if k == "PROJCRS"@ || k == "PROJECTEDCRS"@ {
        CrsKindModel::Projected
    } else if k == "VERTCRS"@ || k == "VERTICALCRS"@ {
        CrsKindModel::Vertical
    } else if k == "ENGCRS"@ || k == "ENGINEERINGCRS"@ {
        CrsKindModel::Engineering
    } else if k == "COMPOUNDCRS"@ {
        CrsKindModel::Compound
    } else if k == "TIMECRS"@ {
        CrsKindModel::Temporal
    } else if k == "PARAMETRICCRS"@ {
        CrsKindModel::Parametric
    } else {
        CrsKindModel::Other(k)
    }
}

/// Reveals the CRS keywords, so that they are known apart.
proof fn lemma_crs_keywords()
    ensures
        "GEODCRS"@ =~= seq!['G', 'E', 'O', 'D', 'C', 'R', 'S'],
        "GEODETICCRS"@ =~= seq!['G', 'E', 'O', 'D', 'E', 'T', 'I', 'C', 'C', 'R', 'S'],
        "GEOGCRS"@ =~= seq!['G', 'E', 'O', 'G', 'C', 'R', 'S'],
        "GEOGRAPHICCRS"@ =~= seq!['G', 'E', 'O', 'G', 'R', 'A', 'P', 'H', 'I', 'C', 'C', 'R', 'S'],
        "PROJCRS"@ =~= seq!['P', 'R', 'O', 'J', 'C', 'R', 'S'],
        "PROJECTEDCRS"@ =~= seq!['P', 'R', 'O', 'J', 'E', 'C', 'T', 'E', 'D', 'C', 'R', 'S'],
        "VERTCRS"@ =~= seq!['V', 'E', 'R', 'T', 'C', 'R', 'S'],
        "VERTICALCRS"@ =~= seq!['V', 'E', 'R', 'T', 'I', 'C', 'A', 'L', 'C', 'R', 'S'],
        "ENGCRS"@ =~= seq!['E', 'N', 'G', 'C', 'R', 'S'],
        "ENGINEERINGCRS"@ =~= seq!['E', 'N', 'G', 'I', 'N', 'E', 'E', 'R', 'I', 'N', 'G', 'C', 'R', 'S'],
        "COMPOUNDCRS"@ =~= seq!['C', 'O', 'M', 'P', 'O', 'U', 'N', 'D', 'C', 'R', 'S'],
        "TIMECRS"@ =~= seq!['T', 'I', 'M', 'E', 'C', 'R', 'S'],
        "PARAMETRICCRS"@ =~= seq!['P', 'A', 'R', 'A', 'M', 'E', 'T', 'R', 'I', 'C', 'C', 'R', 'S'],
{
    reveal_strlit("GEODCRS");
    reveal_strlit("GEODETICCRS");
    reveal_strlit("GEOGCRS");
    reveal_strlit("GEOGRAPHICCRS");
    reveal_strlit("PROJCRS");
    reveal_strlit("PROJECTEDCRS");
    reveal_strlit("VERTCRS");
    reveal_strlit("VERTICALCRS");
    reveal_strlit("ENGCRS");
    reveal_strlit("ENGINEERINGCRS");
    reveal_strlit("COMPOUNDCRS");
    reveal_strlit("TIMECRS");
    reveal_strlit("PARAMETRICCRS");
}

/// Each CRS kind is named by exactly its WKT-2 keywords, the 2015 alias
/// and the 2019 long form alike: a root keyword is classified as geodetic,
/// geographic, projected, vertical or engineering if and only if it is one
/// of that kind's two keywords, and a keyword of neither form is no CRS.
pub proof fn crs_kinds_are_named_by_their_keywords(k: Seq<char>)
    ensures
        kind_of(k) == CrsKindModel::Geodetic <==> (k == "GEODCRS"@ || k == "GEODETICCRS"@),
        kind_of(k) == CrsKindModel::Geographic <==> (k == "GEOGCRS"@ || k == "GEOGRAPHICCRS"@),
        kind_of(k) == CrsKindModel::Projected <==> (k == "PROJCRS"@ || k == "PROJECTEDCRS"@),
        kind_of(k) == CrsKindModel::Vertical <==> (k == "VERTCRS"@ || k == "VERTICALCRS"@),
        kind_of(k) == CrsKindModel::Engineering <==> (k == "ENGCRS"@ || k == "ENGINEERINGCRS"@),
        kind_of(k) == CrsKindModel::Compound <==> k == "COMPOUNDCRS"@,
        kind_of(k) is Other <==> !(k == "GEODCRS"@ || k == "GEODETICCRS"@ || k == "GEOGCRS"@
            || k == "GEOGRAPHICCRS"@ || k == "PROJCRS"@ || k == "PROJECTEDCRS"@ || k == "VERTCRS"@
            || k == "VERTICALCRS"@ || k == "ENGCRS"@ || k == "ENGINEERINGCRS"@ || k == "COMPOUNDCRS"@
            || k == "TIMECRS"@ || k == "PARAMETRICCRS"@),
{
    lemma_crs_keywords();
}

/// Classifies a node by its root keyword (2015 and 2019 aliases).
pub fn classify(node: &WktNode) -> (r: CrsKind)
    ensures
        r@ == kind_of(node.keyword@),
{
    let k = node.keyword.as_str();
    if str_eq(k, "GEODCRS") || str_eq(k, "GEODETICCRS") {
        CrsKind::Geodetic
    } else if str_eq(k, "GEOGCRS") || str_eq(k, "GEOGRAPHICCRS") {
        CrsKind::Geographic
    } else if str_eq(k, "PROJCRS") || str_eq(k, "PROJECTEDCRS") {
        CrsKind::Projected
    } else if str_eq(k, "VERTCRS") || str_eq(k, "VERTICALCRS") {
        CrsKind::Vertical
    } else if str_eq(k, "ENGCRS") || str_eq(k, "ENGINEERINGCRS") {
        CrsKind::Engineering
    } else if str_eq(k, "COMPOUNDCRS") {
        CrsKind::Compound
    } else if str_eq(k, "TIMECRS") {
        CrsKind::Temporal
    } else if str_eq(k, "PARAMETRICCRS") {
        CrsKind::Parametric
    } else {
        CrsKind::Other(owned(k))
    }
}

/// Whether a node's keyword names a CRS.
pub fn is_crs_node(node: &WktNode) -> (r: bool)
    ensures
        r == !(kind_of(node.keyword@) is Other),
{
    match classify(node) {
        CrsKind::Other(_) => false,
        _ => true,
    }
}

/// The dimension a unit measures.
#[derive(Debug, Clone, Copy, PartialEq, Eq, Hash, Structural)]
pub enum UnitKind {
    Angle,
    Length,
    Scale,
    Time,
    Parametric,
    Generic,
}

/// Whether a CRS node declares a dynamic reference frame: it has a
/// `DYNAMIC` child.
pub fn is_dynamic(crs: &WktNode) -> (r: bool)
    ensures
        r == find_child(child_models(node_model(*crs).arguments), "DYNAMIC"@) is Some,
{
    crs.find("DYNAMIC").is_some()
}

/// The dimension a unit keyword names, or `None` for a keyword that is not
/// a unit's.
pub open spec fn unit_kind_spec(keyword: Seq<char>) -> Option<UnitKind> {
    if keyword == "ANGLEUNIT"@ {
        Some(UnitKind::Angle)
    } else if keyword == "LENGTHUNIT"@ {
        Some(UnitKind::Length)
    } else if keyword == "SCALEUNIT"@ {
        Some(UnitKind::Scale)
    } else if keyword == "TIMEUNIT"@ {
        Some(UnitKind::Time)
    } else if keyword == "PARAMETRICUNIT"@ {
        Some(UnitKind::Parametric)
    } else if keyword == "UNIT"@ {
        Some(UnitKind::Generic)
    } else {
        None
    }
}

/// If `node` is a unit node, the dimension its keyword names.
pub fn unit_kind(node: &WktNode) -> (r: Option<UnitKind>)
    ensures
        r == unit_kind_spec(node.keyword@),
{
    let k = node.keyword.as_str();
    if str_eq(k, "ANGLEUNIT") {
        Some(UnitKind::Angle)
    } else if str_eq(k, "LENGTHUNIT") {
        Some(UnitKind::Length)
    } else if str_eq(k, "SCALEUNIT") {
        Some(UnitKind::Scale)
    } else if str_eq(k, "TIMEUNIT") {
        Some(UnitKind::Time)
    } else if str_eq(k, "PARAMETRICUNIT") {
        Some(UnitKind::Parametric)
    } else if str_eq(k, "UNIT") {
        Some(UnitKind::Generic)
    } else {
        None
    }
}

} // verus!
