//! The canonical single-line form of a WKT-2 tree reads back as the same
//! tree.

use vstd::prelude::*;
use crate::crs::wkt2::{
    closer, digits_end, display_args, display_node, display_value, escape_quotes, float_lexeme,
    is_kw_char, is_num_char, is_sign, kw_end, num_end, opens_at, spec_args, spec_keyword,
    spec_node, spec_number, spec_value, string_body, wkt_parse, ws_end, lemma_kw_end,
    lemma_ws_end, WktErr, WktNodeModel, WktValueModel, MAX_DEPTH,
};
use crate::text::{is_ascii_alpha, is_ascii_digit, is_ascii_upper, upper};

verus! {

// ---------------------------------------------------------------------------
// The shape of a canonical tree

/// A keyword as the reader returns it: an upper-case letter, then upper-case
/// letters, digits and underscores.
pub open spec fn keyword_shape(k: Seq<char>) -> bool {
    &&& k.len() > 0
    &&& is_ascii_upper(k[0])
    &&& forall|j: int|
        0 <= j < k.len() ==> is_ascii_upper(#[trigger] k[j]) || is_ascii_digit(k[j]) || k[j] == '_'
}

/// A value in canonical shape at nesting `depth`: a number is a
/// floating-point literal, a bare keyword and a nested node are upper case,
/// and nested nodes stay within the reader's nesting limit.
pub open spec fn canonical_value(v: WktValueModel, depth: int) -> bool
    decreases v, 0int,
{
    match v {
        WktValueModel::Text(_) => true,
        WktValueModel::Number(t) => float_lexeme(t),
        WktValueModel::Keyword(k) => keyword_shape(k),
        WktValueModel::Node(n) => canonical_node(n, depth + 1),
    }
}

/// The arguments from `i` on are in canonical shape.
pub open spec fn canonical_args(args: Seq<WktValueModel>, i: int, depth: int) -> bool
    decreases args, args.len() - i,
{
    if i < 0 || i >= args.len() {
        true
    } else {
        canonical_value(args[i], depth) && canonical_args(args, i + 1, depth)
    }
}

/// A node in canonical shape at nesting `depth`.
pub open spec fn canonical_node(n: WktNodeModel, depth: int) -> bool
    decreases n, 0int,
{
    &&& 0 <= depth <= MAX_DEPTH
    &&& keyword_shape(n.keyword)
    &&& canonical_args(n.arguments, 0, depth)
}

// ---------------------------------------------------------------------------
// Text found at a position

/// `t` stands in `s` at position `i`.
pub open spec fn at(s: Seq<char>, i: int, t: Seq<char>) -> bool {
    &&& 0 <= i
    &&& i + t.len() <= s.len()
    &&& forall|k: int| 0 <= k < t.len() ==> s[i + k] == #[trigger] t[k]
}

proof fn lemma_at_split(s: Seq<char>, i: int, a: Seq<char>, b: Seq<char>)
    requires
        at(s, i, a + b),
    ensures
        at(s, i, a),
        at(s, i + a.len(), b),
{
    assert forall|k: int| 0 <= k < a.len() implies s[i + k] == #[trigger] a[k] by {
        assert((a + b)[k] == a[k]);
    }
    assert forall|k: int| 0 <= k < b.len() implies s[i + a.len() + k] == #[trigger] b[k] by {
        assert((a + b)[a.len() + k] == b[k]);
        assert(s[i + (a.len() + k)] == (a + b)[a.len() + k]);
    }
}

// ---------------------------------------------------------------------------
// Scanners over runs of known characters

proof fn lemma_kw_run(s: Seq<char>, i: int, e: int)
    requires
        0 <= i <= e <= s.len(),
        forall|k: int| i <= k < e ==> is_kw_char(#[trigger] s[k]),
        e == s.len() || !is_kw_char(s[e]),
    ensures
        kw_end(s, i) == e,
    decreases e - i,
{
    if i < e {
        lemma_kw_run(s, i + 1, e);
    }
}

proof fn lemma_num_run(s: Seq<char>, i: int, e: int)
    requires
        0 <= i <= e <= s.len(),
        forall|k: int| i <= k < e ==> is_num_char(#[trigger] s[k]),
        e == s.len() || !is_num_char(s[e]),
    ensures
        num_end(s, i) == e,
    decreases e - i,
{
    if i < e {
        lemma_num_run(s, i + 1, e);
    }
}

proof fn lemma_digits_run(t: Seq<char>, i: int)
    requires
        0 <= i <= t.len(),
    ensures
        i <= digits_end(t, i) <= t.len(),
        forall|k: int| i <= k < digits_end(t, i) ==> is_ascii_digit(#[trigger] t[k]),
    decreases t.len() - i,
{
    if i < t.len() && is_ascii_digit(t[i]) {
        lemma_digits_run(t, i + 1);
    }
}

/// A floating-point literal is made of number characters and starts with a
/// sign, a dot or a digit.
proof fn lemma_lexeme_chars(t: Seq<char>)
    requires
        float_lexeme(t),
    ensures
        t.len() > 0,
        is_sign(t[0]) || t[0] == '.' || is_ascii_digit(t[0]),
        forall|k: int| 0 <= k < t.len() ==> is_num_char(#[trigger] t[k]),
{
    let k0: int = if t.len() > 0 && is_sign(t[0]) { 1 } else { 0 };
    lemma_digits_run(t, k0);
    let d1 = digits_end(t, k0);
    let has_dot = d1 < t.len() && t[d1] == '.';
    if has_dot {
        lemma_digits_run(t, d1 + 1);
    }
    let d2 = if has_dot { digits_end(t, d1 + 1) } else { d1 };
    if d2 < t.len() {
        let k: int = if d2 + 1 < t.len() && is_sign(t[d2 + 1]) { d2 + 2 } else { d2 + 1 };
        lemma_digits_run(t, k);
    }
}

// ---------------------------------------------------------------------------
// Quoted strings

/// Doubling the quotes of a text, seen from its first character.
proof fn lemma_escape_front(t: Seq<char>)
    requires
        t.len() > 0,
    ensures
        escape_quotes(t) == (if t[0] == '"' {
            seq!['"', '"']
        } else {
            seq![t[0]]
        }) + escape_quotes(t.drop_first()),
    decreases t.len(),
{
    if t.len() == 1 {
        assert(t.drop_last() =~= Seq::<char>::empty());
        assert(t.drop_first() =~= Seq::<char>::empty());
        assert(escape_quotes(Seq::<char>::empty()) =~= Seq::<char>::empty());
    } else {
        lemma_escape_front(t.drop_last());
        assert(t.drop_last()[0] == t[0]);
        assert(t.drop_last().drop_first() =~= t.drop_first().drop_last());
        assert(t.drop_first().last() == t.last());
        let front = if t[0] == '"' {
            seq!['"', '"']
        } else {
            seq![t[0]]
        };
        let back = if t.last() == '"' {
            seq!['"', '"']
        } else {
            seq![t.last()]
        };
        assert(escape_quotes(t) == escape_quotes(t.drop_last()) + back);
        assert(escape_quotes(t.drop_first()) == escape_quotes(t.drop_first().drop_last()) + back);
        assert(front + escape_quotes(t.drop_first().drop_last()) + back =~= front + (
        escape_quotes(t.drop_first().drop_last()) + back));
    }
}

/// Reading a string body whose quotes were doubled gives the text back.
proof fn lemma_string_run(s: Seq<char>, j: int, acc: Seq<char>, t: Seq<char>, c: char)
    requires
        c != '"',
        at(s, j, escape_quotes(t) + seq!['"', c]),
    ensures
        string_body(s, j, acc) == Ok::<(Seq<char>, int), WktErr>(
            (acc + t, j + escape_quotes(t).len() + 1),
        ),
    decreases t.len(),
{
    let tail = seq!['"', c];
    if t.len() == 0 {
        assert(escape_quotes(t) =~= Seq::<char>::empty());
        assert(tail[0] == '"' && tail[1] == c);
        assert(s[j + 0] == (escape_quotes(t) + tail)[0]);
        assert(s[j + 1] == (escape_quotes(t) + tail)[1]);
        assert(acc + t =~= acc);
    } else {
        lemma_escape_front(t);
        let rest = t.drop_first();
        let whole = escape_quotes(t) + tail;
        if t[0] == '"' {
            assert(whole =~= seq!['"', '"'] + (escape_quotes(rest) + tail));
            lemma_at_split(s, j, seq!['"', '"'], escape_quotes(rest) + tail);
            assert(s[j + 0] == seq!['"', '"'][0]);
            assert(s[j + 1] == seq!['"', '"'][1]);
            lemma_string_run(s, j + 2, acc.push('"'), rest, c);
            assert(acc.push('"') + rest =~= acc + t);
        } else {
            assert(whole =~= seq![t[0]] + (escape_quotes(rest) + tail));
            lemma_at_split(s, j, seq![t[0]], escape_quotes(rest) + tail);
            assert(s[j + 0] == seq![t[0]][0]);
            lemma_string_run(s, j + 1, acc.push(t[0]), rest, c);
            assert(acc.push(t[0]) + rest =~= acc + t);
        }
    }
}

// ---------------------------------------------------------------------------
// Reading the canonical form

/// The canonical form of a canonical value is nonempty and starts with a
/// quote, a sign, a dot, a digit or a letter.
proof fn lemma_value_head(v: WktValueModel, depth: int)
    requires
        canonical_value(v, depth),
    ensures
        display_value(v).len() > 0,
        ({
            let h = display_value(v)[0];
            h == '"' || is_sign(h) || h == '.' || is_ascii_digit(h) || is_ascii_alpha(h)
        }),
{
    match v {
        WktValueModel::Text(t) => {
            assert((seq!['"'] + escape_quotes(t) + seq!['"'])[0] == '"');
        },
        WktValueModel::Number(t) => {
            lemma_lexeme_chars(t);
        },
        WktValueModel::Keyword(k) => {},
        WktValueModel::Node(n) => {
            assert(display_node(n)[0] == n.keyword[0]);
        },
    }
}

/// An upper-case keyword is its own upper-case form.
proof fn lemma_upper_shape(k: Seq<char>)
    requires
        keyword_shape(k),
    ensures
        upper(k) == k,
        forall|j: int| 0 <= j < k.len() ==> is_kw_char(#[trigger] k[j]),
        is_ascii_alpha(k[0]),
{
    assert(upper(k) =~= k);
}

/// A keyword standing at `i` and followed by a non-keyword character is
/// scanned whole.
proof fn lemma_keyword_at(s: Seq<char>, i: int, k: Seq<char>)
    requires
        keyword_shape(k),
        at(s, i, k),
        i + k.len() < s.len(),
        !is_kw_char(s[i + k.len()]),
    ensures
        is_ascii_alpha(s[i]),
        kw_end(s, i + 1) == i + k.len(),
        upper(s.subrange(i, i + k.len())) == k,
{
    lemma_upper_shape(k);
    assert(s[i + 0] == k[0]);
    assert forall|m: int| i + 1 <= m < i + k.len() implies is_kw_char(#[trigger] s[m]) by {
        assert(s[i + (m - i)] == k[m - i]);
    }
    lemma_kw_run(s, i + 1, i + k.len());
    assert(s.subrange(i, i + k.len()) =~= k);
}

proof fn lemma_read_value(v: WktValueModel, s: Seq<char>, i: int, depth: int, c: char)
    requires
        canonical_value(v, depth),
        0 <= depth,
        c == ',' || c == ']',
        at(s, i, display_value(v) + seq![c]),
    ensures
        spec_value(s, i, depth) == Ok::<(WktValueModel, int), WktErr>(
            (v, i + display_value(v).len()),
        ),
    decreases v, 0int,
{
    let dv = display_value(v);
    lemma_at_split(s, i, dv, seq![c]);
    assert(s[i + dv.len() + 0] == seq![c][0]);
    lemma_value_head(v, depth);
    assert(s[i + 0] == dv[0]);
    match v {
        WktValueModel::Text(t) => {
            assert(dv + seq![c] =~= seq!['"'] + (escape_quotes(t) + seq!['"', c]));
            lemma_at_split(s, i, seq!['"'], escape_quotes(t) + seq!['"', c]);
            lemma_string_run(s, i + 1, Seq::empty(), t, c);
            assert(Seq::<char>::empty() + t =~= t);
        },
        WktValueModel::Number(t) => {
            lemma_lexeme_chars(t);
            assert forall|m: int| i <= m < i + t.len() implies is_num_char(#[trigger] s[m]) by {
                assert(s[i + (m - i)] == t[m - i]);
            }
            lemma_num_run(s, i, i + t.len());
            assert(s.subrange(i, i + t.len()) =~= t);
            assert(spec_number(s, i) == Ok::<(Seq<char>, int), WktErr>((t, i + t.len())));
        },
        WktValueModel::Keyword(k) => {
            lemma_keyword_at(s, i, k);
        },
        WktValueModel::Node(n) => {
            let kw = n.keyword;
            assert(dv =~= kw + (seq!['['] + display_args(n.arguments, 0) + seq![']']));
            lemma_at_split(s, i, kw, seq!['['] + display_args(n.arguments, 0) + seq![']']);
            assert(s[i + kw.len() + 0] == (seq!['['] + display_args(n.arguments, 0) + seq![']'])[
                0
            ]);
            lemma_keyword_at(s, i, kw);
            lemma_read_node(n, s, i, depth + 1);
        },
    }
}

proof fn lemma_read_args(
    args: Seq<WktValueModel>,
    j: int,
    s: Seq<char>,
    p: int,
    depth: int,
    kw: Seq<char>,
)
    requires
        0 <= j < args.len(),
        canonical_args(args, j, depth),
        0 <= depth,
        at(s, p, display_value(args[j]) + display_args(args, j + 1) + seq![']']),
    ensures
        spec_args(s, p, depth, ']', kw, args.take(j)) == Ok::<(WktNodeModel, int), WktErr>(
            (
                WktNodeModel { keyword: kw, arguments: args },
                p + display_value(args[j]).len() + display_args(args, j + 1).len() + 1,
            ),
        ),
    decreases args, args.len() - j,
{
    let v = args[j];
    let dv = display_value(v);
    let rest = display_args(args, j + 1);
    lemma_value_head(v, depth);
    assert(dv + rest + seq![']'] =~= dv + (rest + seq![']']));
    lemma_at_split(s, p, dv, rest + seq![']']);
    assert(s[p + 0] == dv[0]);
    assert(args.take(j).push(v) =~= args.take(j + 1));
    let r = p + dv.len();
    if j + 1 < args.len() {
        let v2 = args[j + 1];
        let rest2 = display_args(args, j + 2);
        assert(rest =~= seq![','] + display_value(v2) + rest2);
        assert(rest + seq![']'] =~= seq![','] + (display_value(v2) + rest2 + seq![']']));
        lemma_at_split(s, r, seq![','], display_value(v2) + rest2 + seq![']']);
        assert(s[r + 0] == seq![','][0]);
        assert forall|k: int| 0 <= k < (dv + seq![',']).len() implies s[p + k]
            == #[trigger] (dv + seq![','])[k] by {
            if k < dv.len() {
                assert(s[p + k] == dv[k]);
            }
        }
        lemma_read_value(v, s, p, depth, ',');
        lemma_read_args(args, j + 1, s, r + 1, depth, kw);
    } else {
        assert(rest =~= Seq::<char>::empty());
        assert(rest + seq![']'] =~= seq![']']);
        assert(s[r + 0] == seq![']'][0]);
        assert(dv + seq![']'] =~= dv + (rest + seq![']']));
        lemma_read_value(v, s, p, depth, ']');
        assert(args.take(j + 1) =~= args);
    }
}

proof fn lemma_read_node(n: WktNodeModel, s: Seq<char>, i: int, depth: int)
    requires
        canonical_node(n, depth),
        at(s, i, display_node(n)),
    ensures
        spec_node(s, i, depth) == Ok::<(WktNodeModel, int), WktErr>(
            (n, i + display_node(n).len()),
        ),
    decreases n, 0int,
{
    let kw = n.keyword;
    let args = n.arguments;
    let da = display_args(args, 0);
    let after = seq!['['] + (da + seq![']']);
    assert(display_node(n) =~= kw + after);
    lemma_at_split(s, i, kw, after);
    lemma_at_split(s, i + kw.len(), seq!['['], da + seq![']']);
    assert(s[i + kw.len() + 0] == seq!['['][0]);
    lemma_keyword_at(s, i, kw);
    assert(spec_keyword(s, i) == Ok::<(Seq<char>, int), WktErr>((kw, i + kw.len())));
    let w = i + kw.len();
    assert(ws_end(s, w) == w);
    assert(opens_at(s, w));
    let p = w + 1;
    if args.len() == 0 {
        assert(da =~= Seq::<char>::empty());
        assert(da + seq![']'] =~= seq![']']);
        assert(s[p + 0] == seq![']'][0]);
        assert(ws_end(s, p) == p);
        assert(args =~= Seq::<WktValueModel>::empty());
    } else {
        assert(da =~= display_value(args[0]) + display_args(args, 1));
        lemma_value_head(args[0], depth);
        assert(s[p + 0] == (da + seq![']'])[0]);
        assert(ws_end(s, p) == p);
        assert(args.take(0) =~= Seq::<WktValueModel>::empty());
        lemma_read_args(args, 0, s, p, depth, kw);
    }
}

/// Writing a tree in canonical shape in its canonical form and reading that
/// text back gives the same tree.
pub proof fn canonical_form_reads_back(n: WktNodeModel)
    requires
        canonical_node(n, 0),
    ensures
        wkt_parse(display_node(n)) == Ok::<WktNodeModel, WktErr>(n),
{
    let s = display_node(n);
    assert(at(s, 0, s));
    assert(s[0] == n.keyword[0]);
    assert(ws_end(s, 0) == 0);
    lemma_read_node(n, s, 0, 0);
    assert(ws_end(s, s.len() as int) == s.len());
}

// ---------------------------------------------------------------------------
// What the reader returns

/// The upper-case form of a scanned keyword has keyword shape.
proof fn lemma_upper_keyword(s: Seq<char>, i: int, e: int)
    requires
        0 <= i < e <= s.len(),
        is_ascii_alpha(s[i]),
        forall|k: int| i + 1 <= k < e ==> is_kw_char(#[trigger] s[k]),
    ensures
        keyword_shape(upper(s.subrange(i, e))),
{
    let u = upper(s.subrange(i, e));
    assert forall|j: int| 0 <= j < u.len() implies is_ascii_upper(#[trigger] u[j])
        || is_ascii_digit(u[j]) || u[j] == '_' by {
        assert(s.subrange(i, e)[j] == s[i + j]);
        if j > 0 {
            assert(is_kw_char(s[i + j]));
        }
    }
}

/// Values all in canonical shape make canonical arguments.
proof fn lemma_args_canonical(args: Seq<WktValueModel>, i: int, depth: int)
    requires
        0 <= i <= args.len(),
        forall|k: int| i <= k < args.len() ==> canonical_value(#[trigger] args[k], depth),
    ensures
        canonical_args(args, i, depth),
    decreases args.len() - i,
{
    if i < args.len() {
        lemma_args_canonical(args, i + 1, depth);
    }
}

proof fn lemma_value_shape(s: Seq<char>, i: int, depth: int)
    requires
        0 <= depth,
    ensures
        spec_value(s, i, depth) is Ok ==> canonical_value(spec_value(s, i, depth)->Ok_0.0, depth),
    decreases s.len() - i, 2int,
{
    if 0 <= i < s.len() && s[i] != '"' && !(is_sign(s[i]) || s[i] == '.' || is_ascii_digit(s[i]))
        && is_ascii_alpha(s[i]) {
        let e = kw_end(s, i + 1);
        lemma_kw_end(s, i + 1);
        if opens_at(s, ws_end(s, e)) {
            lemma_node_shape(s, i, depth + 1);
        } else {
            lemma_upper_keyword(s, i, e);
        }
    }
}

proof fn lemma_node_shape(s: Seq<char>, i: int, depth: int)
    requires
        0 <= depth,
    ensures
        spec_node(s, i, depth) is Ok ==> canonical_node(spec_node(s, i, depth)->Ok_0.0, depth),
    decreases s.len() - i, 1int,
{
    if 0 <= i <= s.len() && depth <= 64 && spec_keyword(s, i) is Ok {
        let e = kw_end(s, i + 1);
        lemma_kw_end(s, i + 1);
        lemma_upper_keyword(s, i, e);
        let kw = upper(s.subrange(i, e));
        let w = ws_end(s, e);
        lemma_ws_end(s, e);
        if opens_at(s, w) {
            let p = ws_end(s, w + 1);
            lemma_ws_end(s, w + 1);
            if !(p < s.len() && s[p] == closer(s, w)) {
                lemma_args_shape(s, p, depth, closer(s, w), kw, Seq::empty());
            }
        }
    }
}

proof fn lemma_args_shape(
    s: Seq<char>,
    p: int,
    depth: int,
    close: char,
    kw: Seq<char>,
    acc: Seq<WktValueModel>,
)
    requires
        0 <= depth <= 64,
        keyword_shape(kw),
        forall|k: int| 0 <= k < acc.len() ==> canonical_value(#[trigger] acc[k], depth),
    ensures
        spec_args(s, p, depth, close, kw, acc) is Ok ==> canonical_node(
            spec_args(s, p, depth, close, kw, acc)->Ok_0.0,
            depth,
        ),
    decreases s.len() - p, 3int,
{
    if 0 <= p <= s.len() {
        let q = ws_end(s, p);
        lemma_ws_end(s, p);
        lemma_value_shape(s, q, depth);
        if spec_value(s, q, depth) is Ok {
            let (v, r) = spec_value(s, q, depth)->Ok_0;
            if q < r <= s.len() {
                let t = ws_end(s, r);
                lemma_ws_end(s, r);
                let acc2 = acc.push(v);
                assert forall|k: int| 0 <= k < acc2.len() implies canonical_value(
                    #[trigger] acc2[k],
                    depth,
                ) by {
                    if k < acc.len() {
                        assert(acc2[k] == acc[k]);
                    }
                }
                if t < s.len() && s[t] == close {
                    lemma_args_canonical(acc2, 0, depth);
                } else if t < s.len() && s[t] == ',' {
                    lemma_args_shape(s, t + 1, depth, close, kw, acc2);
                } else if t < s.len() && !(s[t] == ']' || s[t] == ')') {
                    lemma_args_shape(s, t, depth, close, kw, acc2);
                }
            }
        }
    }
}

/// Every tree the reader returns is in canonical shape.
pub proof fn read_trees_are_canonical(s: Seq<char>)
    ensures
        wkt_parse(s) is Ok ==> canonical_node(wkt_parse(s)->Ok_0, 0),
{
    lemma_node_shape(s, ws_end(s, 0), 0);
}

/// Reading a definition, writing the tree in its canonical form and reading
/// that again gives the same tree.
pub proof fn reread_of_canonical_form(s: Seq<char>)
    requires
        wkt_parse(s) is Ok,
    ensures
        wkt_parse(display_node(wkt_parse(s)->Ok_0)) == wkt_parse(s),
{
    read_trees_are_canonical(s);
    canonical_form_reads_back(wkt_parse(s)->Ok_0);
}

} // verus!
