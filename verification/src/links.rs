//! Links requirements module (`/req/core/links`): a link describes a
//! relationship with another resource. `href` and `rel` are mandatory;
//! `type` (media type hint) and `title` are recommended and optional.

use vstd::prelude::*;
use crate::text::{
    chars_of, is_ascii_alnum, is_ascii_alpha, is_ascii_alphabetic, is_ascii_alphanumeric, is_cc,
    is_control, is_whitespace, is_ws, owned,
};

verus! {

/// A violation of a SHALL requirement in the links module.
#[derive(Debug, Clone, PartialEq, Eq)]
pub enum LinkViolation {
    InvalidHref { href: String, reason: &'static str },
    MissingRel,
}

/// The mathematical content of a [`LinkViolation`].
pub enum LinkViolationModel {
    InvalidHref { href: Seq<char>, reason: Seq<char> },
    MissingRel,
}

impl View for LinkViolation {
    type V = LinkViolationModel;

    open spec fn view(&self) -> LinkViolationModel {
        match self {
            LinkViolation::InvalidHref { href, reason } => LinkViolationModel::InvalidHref {
                href: href@,
                reason: reason@,
            },
            LinkViolation::MissingRel => LinkViolationModel::MissingRel,
        }
    }
}

/// Whether an href is an absolute URL or a relative reference; both are
/// allowed by Requirement Link1.
#[derive(Debug, Clone, Copy, PartialEq, Eq, Structural)]
pub enum HrefKind {
    Absolute,
    Relative,
}

/// Characters RFC 3986 excludes from URLs; they must be percent-encoded.
pub open spec fn is_disallowed_url_char(c: char) -> bool {
    c == '<' || c == '>' || c == '"' || c == '{' || c == '}' || c == '|' || c == '\\' || c
        == '^' || c == '`'
}

fn disallowed_url_char(c: char) -> (r: bool)
    ensures
        r == is_disallowed_url_char(c),
{
    c == '<' || c == '>' || c == '"' || c == '{' || c == '}' || c == '|' || c == '\\' || c
        == '^' || c == '`'
}

/// The reason given for an href character that is whitespace or a control
/// character.
pub open spec fn reason_blank() -> Seq<char> {
    "whitespace and control characters must be percent-encoded"@
}

/// The reason given for a character RFC 3986 excludes.
pub open spec fn reason_excluded() -> Seq<char> {
    "character excluded by RFC 3986 must be percent-encoded"@
}

/// RFC 3986 §3.1: `ALPHA *( ALPHA / DIGIT / "+" / "-" / "." )`.
pub open spec fn valid_scheme(s: Seq<char>) -> bool {
    &&& s.len() > 0
    &&& is_ascii_alpha(s[0])
    &&& forall|i: int|
        1 <= i < s.len() ==> is_ascii_alnum(#[trigger] s[i]) || s[i] == '+' || s[i] == '-' || s[i]
            == '.'
}

/// The position of the first `c` in `s`, or -1.
pub open spec fn find_first(s: Seq<char>, c: char) -> int {
    if exists|i: int| 0 <= i < s.len() && s[i] == c {
        choose|i: int|
            0 <= i < s.len() && s[i] == c && forall|j: int| 0 <= j < i ==> #[trigger] s[j] != c
    } else {
        -1
    }
}

/// The first character fault of an href from position `i` on.
pub open spec fn href_char_fault(s: Seq<char>, i: int) -> Option<Seq<char>>
    decreases s.len() - i,
{
    if i < 0 || i >= s.len() {
        None
    } else if is_ws(s[i]) || is_cc(s[i]) {
        Some(reason_blank())
    } else if is_disallowed_url_char(s[i]) {
        Some(reason_excluded())
    } else {
        href_char_fault(s, i + 1)
    }
}

/// The Requirement Link1 verdict on an href.
pub open spec fn href_spec(s: Seq<char>) -> Result<HrefKind, LinkViolationModel> {
    if s.len() == 0 {
        Err(LinkViolationModel::InvalidHref { href: s, reason: "empty"@ })
    } else if href_char_fault(s, 0) is Some {
        Err(LinkViolationModel::InvalidHref { href: s, reason: href_char_fault(s, 0)->0 })
    } else {
        let i = find_first(s, ':');
        if i >= 0 && valid_scheme(s.take(i)) {
            if s.skip(i + 1).len() == 0 {
                Err(
                    LinkViolationModel::InvalidHref { href: s, reason: "nothing after URL scheme"@ },
                )
            } else {
                Ok(HrefKind::Absolute)
            }
        } else {
            Ok(HrefKind::Relative)
        }
    }
}

/// The model of an href verdict.
pub open spec fn href_result(r: Result<HrefKind, LinkViolation>) -> Result<
    HrefKind,
    LinkViolationModel,
> {
    match r {
        Ok(k) => Ok(k),
        Err(e) => Err(e@),
    }
}

/// The model of a link verdict.
pub open spec fn link_result(r: Result<(), LinkViolation>) -> Result<(), LinkViolationModel> {
    match r {
        Ok(()) => Ok(()),
        Err(e) => Err(e@),
    }
}

/// Whether `v[a..b]` is a well-formed URI scheme.
pub(crate) fn scheme_ok(v: &Vec<char>, b: usize) -> (r: bool)
    requires
        b <= v@.len(),
    ensures
        r == valid_scheme(v@.take(b as int)),
{
    let ghost s = v@.take(b as int);
    if b == 0 || !is_ascii_alphabetic(v[0]) {
        return false;
    }
    let mut i: usize = 1;
    while i < b
        invariant
            1 <= i <= b <= v@.len(),
            s == v@.take(b as int),
            forall|k: int|
                1 <= k < i ==> is_ascii_alnum(#[trigger] s[k]) || s[k] == '+' || s[k] == '-'
                    || s[k] == '.',
        decreases b - i,
    {
        let c = v[i];
        if !(is_ascii_alphanumeric(c) || c == '+' || c == '-' || c == '.') {
            assert(s[i as int] == c);
            return false;
        }
        i += 1;
    }
    true
}

/// The first character fault of `v` from `from` on.
fn scan_href(v: &Vec<char>, from: usize) -> (r: Option<&'static str>)
    requires
        from <= v@.len(),
    ensures
        r is Some == href_char_fault(v@, from as int) is Some,
        r is Some ==> r->0@ == href_char_fault(v@, from as int)->0,
    decreases v@.len() - from,
{
    if from == v.len() {
        return None;
    }
    let c = v[from];
    if is_whitespace(c) || is_control(c) {
        return Some("whitespace and control characters must be percent-encoded");
    }
    if disallowed_url_char(c) {
        return Some("character excluded by RFC 3986 must be percent-encoded");
    }
    scan_href(v, from + 1)
}

/// Validates an href per Requirement Link1 and classifies it.
pub fn classify_href(href: &str) -> (r: Result<HrefKind, LinkViolation>)
    ensures
        href_result(r) == href_spec(href@),
{
    let v = chars_of(href);
    if v.len() == 0 {
        return Err(LinkViolation::InvalidHref { href: owned(href), reason: "empty" });
    }
    if let Some(reason) = scan_href(&v, 0) {
        return Err(LinkViolation::InvalidHref { href: owned(href), reason });
    }
    let mut i: usize = 0;
    while i < v.len() && v[i] != ':'
        invariant
            0 <= i <= v@.len(),
            forall|j: int| 0 <= j < i ==> #[trigger] v@[j] != ':',
        decreases v@.len() - i,
    {
        i += 1;
    }
    if i == v.len() {
        assert(find_first(href@, ':') == -1);
        return Ok(HrefKind::Relative);
    }
    assert(find_first(href@, ':') == i as int) by {
        let k = find_first(href@, ':');
        assert(href@[i as int] == ':');
        if k != i {
            assert(k < i ==> v@[k] != ':');
            assert(k > i ==> href@[i as int] != ':');
        }
    }
    if scheme_ok(&v, i) {
        if i + 1 == v.len() {
            assert(href@.skip(i + 1).len() == 0);
            Err(LinkViolation::InvalidHref { href: owned(href), reason: "nothing after URL scheme" })
        } else {
            Ok(HrefKind::Absolute)
        }
    } else {
        Ok(HrefKind::Relative)
    }
}

/// A relationship with another entity (spec §7.7 table).
#[derive(Debug, Clone, PartialEq, Eq)]
pub struct Link {
    /// The actual link, as a URL; relative and absolute both allowed (Link1).
    pub href: String,
    /// The type or semantics of the relation (Link2, mandatory).
    pub rel: String,
    /// Hint of the media type of the referenced entity (Link3, recommended).
    pub media_type: Option<String>,
    /// Human readable title for rendered displays (Link4, recommended).
    pub title: Option<String>,
}

/// The Requirements Link1 and Link2 verdict on a link's href and rel.
pub open spec fn link_spec(href: Seq<char>, rel: Seq<char>) -> Result<(), LinkViolationModel> {
    match href_spec(href) {
        Err(e) => Err(e),
        Ok(_) => if rel.len() == 0 {
            Err(LinkViolationModel::MissingRel)
        } else {
            Ok(())
        },
    }
}

impl Link {
    /// A link with no media type and no title, checked against Link1/Link2.
    pub fn new(href: &str, rel: &str) -> (r: Result<Self, LinkViolation>)
        ensures
            r is Ok <==> link_spec(href@, rel@) is Ok,
            r is Err ==> Err::<(), LinkViolationModel>(r->Err_0@) == link_spec(href@, rel@),
            r is Ok ==> {
                &&& r->Ok_0.href@ == href@
                &&& r->Ok_0.rel@ == rel@
                &&& r->Ok_0.media_type is None
                &&& r->Ok_0.title is None
            },
    {
        let link = Link { href: owned(href), rel: owned(rel), media_type: None, title: None };
        link.validate()?;
        Ok(link)
    }

    /// This link with the given media type hint.
    pub fn with_media_type(self, media_type: &str) -> (r: Self)
        ensures
            r.href == self.href,
            r.rel == self.rel,
            r.title == self.title,
            r.media_type is Some && r.media_type->0@ == media_type@,
    {
        Link { media_type: Some(owned(media_type)), ..self }
    }

    /// This link with the given title.
    pub fn with_title(self, title: &str) -> (r: Self)
        ensures
            r.href == self.href,
            r.rel == self.rel,
            r.media_type == self.media_type,
            r.title is Some && r.title->0@ == title@,
    {
        Link { title: Some(owned(title)), ..self }
    }

    /// Checks the SHALL requirements Link1 and Link2.
    pub fn validate(&self) -> (r: Result<(), LinkViolation>)
        ensures
            link_result(r) == link_spec(self.href@, self.rel@),
    {
        classify_href(self.href.as_str())?;
        if self.rel.as_str().is_empty() {
            return Err(LinkViolation::MissingRel);
        }
        Ok(())
    }

    /// The kind of this link's href.
    pub fn kind(&self) -> (r: Result<HrefKind, LinkViolation>)
        ensures
            href_result(r) == href_spec(self.href@),
    {
        classify_href(self.href.as_str())
    }
}

} // verus!
