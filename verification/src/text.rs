//! Text helpers for reporting a run: trimming, clipping long text, joining.
use vstd::prelude::*;

use crate::artifacts::{ActionPacket, Decision, DecisionLink, DecisionLinkModel, ProvenanceLinkModel, provenance};

verus! {

/// Whether `c` has the Unicode `White_Space` property: the characters
/// U+0009 to U+000D, U+0020, U+0085, U+00A0, U+1680, U+2000 to U+200A,
/// U+2028, U+2029, U+202F, U+205F and U+3000. This is the set that
/// `char::is_whitespace` and `str::trim` use.
pub open spec fn white_space(c: char) -> bool {
    let u = c as u32;
    ||| 0x09 <= u <= 0x0D
    ||| u == 0x20
    ||| u == 0x85
    ||| u == 0xA0
    ||| u == 0x1680
    ||| 0x2000 <= u <= 0x200A
    ||| u == 0x2028
    ||| u == 0x2029
    ||| u == 0x202F
    ||| u == 0x205F
    ||| u == 0x3000
}

/// Whether `c` has the Unicode `White_Space` property.
pub fn is_whitespace(c: char) -> (r: bool)
    ensures
        r == white_space(c),
{
    let u = c as u32;
    (0x09 <= u && u <= 0x0D) || u == 0x20 || u == 0x85 || u == 0xA0 || u == 0x1680 || (0x2000
        <= u && u <= 0x200A) || u == 0x2028 || u == 0x2029 || u == 0x202F || u == 0x205F || u
        == 0x3000
}

/// The text without its leading whitespace.
pub open spec fn trim_start(s: Seq<char>) -> Seq<char>
    decreases s.len(),
{
    if s.len() > 0 && white_space(s[0]) {
        trim_start(s.drop_first())
    } else {
        s
    }
}

/// The text without its trailing whitespace.
pub open spec fn trim_end(s: Seq<char>) -> Seq<char>
    decreases s.len(),
{
    if s.len() > 0 && white_space(s.last()) {
        trim_end(s.drop_last())
    } else {
        s
    }
}

/// The text without its leading and trailing whitespace.
pub open spec fn trimmed(s: Seq<char>) -> Seq<char> {
    trim_end(trim_start(s))
}

/// The text without its leading and trailing whitespace.
pub fn trim(s: &str) -> (r: &str)
    ensures
        r@ == trimmed(s@),
{
    let n: usize = s.unicode_len();
    let mut a: usize = 0;
    assert(s@.subrange(0, n as int) =~= s@);
    loop
        invariant
            n == s@.len(),
            a <= n,
            trim_start(s@) == trim_start(s@.subrange(a as int, n as int)),
        ensures
            a <= n,
            trim_start(s@) == trim_start(s@.subrange(a as int, n as int)),
            a == n || !white_space(s@[a as int]),
        decreases n - a,
    {
        if a == n {
            break;
        }
        if !is_whitespace(s.get_char(a)) {
            break;
        }
        assert(s@.subrange(a as int, n as int).drop_first() =~= s@.subrange(a + 1, n as int));
        a = a + 1;
    }
    assert(trim_start(s@) == s@.subrange(a as int, n as int));
    let mut b: usize = n;
    loop
        invariant
            n == s@.len(),
            a <= b <= n,
            trim_end(s@.subrange(a as int, n as int)) == trim_end(s@.subrange(a as int, b as int)),
        ensures
            a <= b <= n,
            trim_end(s@.subrange(a as int, n as int)) == trim_end(s@.subrange(a as int, b as int)),
            b == a || !white_space(s@[b - 1]),
        decreases b - a,
    {
        if b == a {
            break;
        }
        if !is_whitespace(s.get_char(b - 1)) {
            break;
        }
        assert(s@.subrange(a as int, b as int).drop_last() =~= s@.subrange(a as int, b - 1));
        b = b - 1;
    }
    assert(trim_end(s@.subrange(a as int, b as int)) == s@.subrange(a as int, b as int));
    s.substring_char(a, b)
}

/// Text trimmed and, past sixty characters, cut to its first fifty-seven
/// followed by `...`.
pub open spec fn clipped(s: Seq<char>) -> Seq<char> {
    let t = trimmed(s);
    if t.len() <= 60 {
        t
    } else {
        t.take(57) + "..."@
    }
}

/// Trim `s`, and clip it to sixty characters at most.
pub fn clip(s: &str) -> (r: String)
    ensures
        r@ == clipped(s@),
        r@.len() <= 60,
{
    let t = trim(s);
    if t.unicode_len() <= 60 {
        String::from_str(t)
    } else {
        let head = t.substring_char(0, 57);
        proof {
            reveal_strlit("...");
        }
        assert(head@ =~= trimmed(s@).take(57));
        String::from_str(head).concat("...")
    }
}

/// Texts joined with a separator.
pub open spec fn joined(items: Seq<Seq<char>>, sep: Seq<char>) -> Seq<char>
    decreases items.len(),
{
    if items.len() == 0 {
        Seq::empty()
    } else if items.len() == 1 {
        items[0]
    } else {
        joined(items.drop_last(), sep) + sep + items.last()
    }
}

/// The reference of the first link to a sensing item, if there is one.
pub open spec fn first_sensing_reference(links: Seq<DecisionLinkModel>) -> Option<Seq<char>>
    decreases links.len(),
{
    if links.len() == 0 {
        None
    } else {
        match links[0] {
            DecisionLinkModel::Sensemaking { reference } => Some(reference),
            DecisionLinkModel::Other => first_sensing_reference(links.drop_first()),
        }
    }
}

/// The sensing item a decision was promoted from: the reference of its
/// first sensemaking link.
pub fn sensing_reference(decision: &Decision) -> (r: Option<String>)
    ensures
        match r {
            Some(s) => first_sensing_reference(decision@.links) == Some(s@),
            None => first_sensing_reference(decision@.links) is None,
        },
{
    let ghost links = decision@.links;
    let n: usize = decision.links.len();
    let mut i: usize = 0;
    assert(links.subrange(0, n as int) =~= links);
    while i < n
        invariant
            n == decision.links@.len(),
            links == decision@.links,
            i <= n,
            first_sensing_reference(links) == first_sensing_reference(links.subrange(i as int, n as int)),
        decreases n - i,
    {
        assert(links.subrange(i as int, n as int).drop_first() =~= links.subrange(i + 1, n as int));
        match &decision.links[i] {
            DecisionLink::Sensemaking { reference } => {
                return Some(reference.clone());
            },
            DecisionLink::Other => {},
        }
        i = i + 1;
    }
    None
}

/// The ids of a list of provenance links.
pub open spec fn link_ids(links: Seq<ProvenanceLinkModel>) -> Seq<Seq<char>> {
    links.map_values(|l: ProvenanceLinkModel| l.id)
}

/// The ids of the decisions a packet is linked to, joined with `, `.
pub fn decision_refs(packet: &ActionPacket) -> (r: String)
    ensures
        r@ == joined(link_ids(packet@.linked_decisions), ", "@),
{
    let ghost items = link_ids(packet@.linked_decisions);
    let mut r = String::new();
    let n: usize = packet.linked_decisions.len();
    for i in 0..n
        invariant
            n == packet.linked_decisions@.len(),
            items == link_ids(provenance(packet.linked_decisions@)),
            r@ == joined(items.take(i as int), ", "@),
    {
        if i > 0 {
            r.append(", ");
        }
        r.append(packet.linked_decisions[i].id.as_str());
        assert(items.take(i + 1).drop_last() =~= items.take(i as int));
        assert(items.take(1) =~= seq![items[0]]);
    }
    assert(items.take(n as int) =~= items);
    r
}

} // verus!
