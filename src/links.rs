//! Pagination links: the `link` header and its `next` relation.
use vstd::prelude::*;

verus! {

#[verifier::external_type_specification]
#[verifier::external_body]
pub struct ExLink(hyperx::header::Link);

/// The values of a link header, in order: each one's target and whether its
/// first relation is `next`.
pub uninterp spec fn link_entries(l: hyperx::header::Link) -> Seq<(Seq<char>, bool)>;

/// The entries of the link header a header text parses as (each value's
/// target and whether its first relation is `next`), or `None` when it does
/// not parse.
pub uninterp spec fn parsed_link_entries(s: Seq<u8>) -> Option<Seq<(Seq<char>, bool)>>;

/// Whether a byte may stand in a header value read as text: visible ASCII or
/// a tab.
pub open spec fn is_visible_ascii(b: u8) -> bool {
    (32 <= b && b < 127) || b == 9
}

/// Whether a header value can be read as text.
pub open spec fn is_header_text(s: Seq<u8>) -> bool {
    forall|i: int| 0 <= i < s.len() ==> is_visible_ascii(#[trigger] s[i])
}

/// Relies on `hyperx::header::Link`'s `FromStr`; the bytes are visible ASCII,
/// so reading them as UTF-8 only changes their type.
#[verifier::external_body]
fn parse_link(s: &[u8]) -> (r: Option<hyperx::header::Link>)
    requires
        is_header_text(s@),
    ensures
        r is Some <==> parsed_link_entries(s@) is Some,
        r matches Some(l) ==> link_entries(l) == parsed_link_entries(s@).unwrap(),
{
    std::str::from_utf8(s).ok().and_then(|t| t.parse().ok())
}

/// Relies on `hyperx::header::Link::values`: the number of values.
#[verifier::external_body]
fn link_count(l: &hyperx::header::Link) -> (r: usize)
    ensures
        r == link_entries(*l).len(),
{
    l.values().len()
}

/// Relies on `hyperx::header::LinkValue::link`: the target of a value.
#[verifier::external_body]
fn link_target(l: &hyperx::header::Link, i: usize) -> (r: String)
    requires
        i < link_entries(*l).len(),
    ensures
        r@ == link_entries(*l)[i as int].0,
{
    l.values()[i].link().to_owned()
}

/// Relies on `hyperx::header::LinkValue::rel`: whether a value's first
/// relation is `next`.
#[verifier::external_body]
fn link_is_next(l: &hyperx::header::Link, i: usize) -> (r: bool)
    requires
        i < link_entries(*l).len(),
    ensures
        r == link_entries(*l)[i as int].1,
{
    matches!(l.values()[i].rel().unwrap_or(&[]).first(), Some(hyperx::header::RelationType::Next))
}

/// Relies on `LinkValue::new`, `LinkValue::push_rel` and `Link::new`: a link
/// header of one value, the target with the `next` relation.
#[verifier::external_body]
fn link_with_next(target: String) -> (r: hyperx::header::Link)
    ensures
        link_entries(r) == seq![(target@, true)],
{
    let value = hyperx::header::LinkValue::new(target).push_rel(hyperx::header::RelationType::Next);
    hyperx::header::Link::new(vec![value])
}

/// The target of the first value whose first relation is `next`.
pub open spec fn first_next(e: Seq<(Seq<char>, bool)>) -> Option<Seq<char>>
    decreases e.len(),
{
    if e.len() == 0 {
        None
    } else if e[0].1 {
        Some(e[0].0)
    } else {
        first_next(e.drop_first())
    }
}

/// The link header of a response's header value, if it is text and parses.
pub fn parse_link_header(value: &[u8]) -> (r: Option<hyperx::header::Link>)
    ensures
        r is Some <==> (is_header_text(value@) && parsed_link_entries(value@) is Some),
        r matches Some(l) ==> link_entries(l) == parsed_link_entries(value@).unwrap(),
{
    let mut i: usize = 0;
    while i < value.len()
        invariant
            i <= value.len(),
            forall|j: int| 0 <= j < i ==> is_visible_ascii(#[trigger] value@[j]),
        decreases value.len() - i,
    {
        let b = value[i];
        if !((32 <= b && b < 127) || b == 9) {
            assert(!is_visible_ascii(value@[i as int]));
            return None;
        }
        i = i + 1;
    }
    parse_link(value)
}

/// The target of the `next` relation of a link header, if it has one.
pub fn next_link(l: &hyperx::header::Link) -> (r: Option<String>)
    ensures
        opt_string_view(r) == first_next(link_entries(*l)),
{
    let n = link_count(l);
    let ghost e = link_entries(*l);
    let mut i: usize = 0;
    assert(e.subrange(0, e.len() as int) == e);
    while i < n
        invariant
            i <= n,
            n == e.len(),
            e == link_entries(*l),
            first_next(e) == first_next(e.subrange(i as int, e.len() as int)),
        decreases n - i,
    {
        let ghost rest = e.subrange(i as int, e.len() as int);
        assert(rest.drop_first() == e.subrange(i as int + 1, e.len() as int));
        assert(rest[0] == e[i as int]);
        if link_is_next(l, i) {
            return Some(link_target(l, i));
        }
        i = i + 1;
    }
    None
}

/// The view of an optional string.
pub open spec fn opt_string_view(o: Option<String>) -> Option<Seq<char>> {
    match o {
        Some(s) => Some(s@),
        None => None,
    }
}

/// The link header that stands for a stored `next` link.
pub fn next_link_header(target: String) -> (r: hyperx::header::Link)
    ensures
        link_entries(r) == seq![(target@, true)],
{
    link_with_next(target)
}

/// A `next` link survives being turned into a link header and read back:
/// reading the `next` relation of the header built from a target gives that
/// target.
pub proof fn lemma_next_link_round_trip(l: hyperx::header::Link, target: Seq<char>)
    requires
        link_entries(l) == seq![(target, true)],
    ensures
        first_next(link_entries(l)) == Some(target),
{
}

} // verus!
