//! The link map document: its decoding from the upstream's bytes and the
//! lookup of a key in it.
use vstd::prelude::*;
use crate::json::{decode_number, decode_object, decode_text, json_number, json_object, json_text, members_view};

verus! {

/// Why the upstream's answer could not be used.
#[derive(Debug, Clone, Copy, PartialEq, Eq, Structural)]
pub enum Error {
    /// The fetch failed at the transport layer.
    UpstreamUnreachable,
    /// The body could not be decoded into a link map document.
    MalformedDocument,
}

/// One resolvable target.
#[derive(Debug, Clone, PartialEq, Eq)]
pub struct LinkEntry {
    pub href: String,
}

/// The link map document: a description, an order number (kept as its
/// decimal text), and the entries in the order they were decoded. A later
/// entry under a key shadows an earlier one.
#[derive(Debug, Clone)]
pub struct LinkDocument {
    pub content: String,
    pub order: String,
    pub entries: Vec<(String, LinkEntry)>,
}

/// What a document means: its description, order, and key-to-href map.
pub struct DocumentView {
    pub content: Seq<char>,
    pub order: Seq<char>,
    pub entries: Map<Seq<char>, Seq<char>>,
}

/// The map that a sequence of entries stands for: the last entry under a key wins.
pub open spec fn entry_map(s: Seq<(String, LinkEntry)>) -> Map<Seq<char>, Seq<char>>
    decreases s.len(),
{
    if s.len() == 0 {
        Map::empty()
    } else {
        entry_map(s.drop_last()).insert(s.last().0@, s.last().1.href@)
    }
}

impl View for LinkDocument {
    type V = DocumentView;

    open spec fn view(&self) -> DocumentView {
        DocumentView { content: self.content@, order: self.order@, entries: entry_map(self.entries@) }
    }
}

pub open spec fn content_name() -> Seq<char> {
    seq!['c', 'o', 'n', 't', 'e', 'n', 't']
}

pub open spec fn order_name() -> Seq<char> {
    seq!['o', 'r', 'd', 'e', 'r']
}

pub open spec fn href_name() -> Seq<char> {
    seq!['h', 'r', 'e', 'f']
}

/// The value of the last member named `k`.
pub open spec fn last_value(ms: Seq<(Seq<char>, Seq<u8>)>, k: Seq<char>) -> Option<Seq<u8>>
    decreases ms.len(),
{
    if ms.len() == 0 {
        None
    } else if ms.last().0 == k {
        Some(ms.last().1)
    } else {
        last_value(ms.drop_last(), k)
    }
}

/// The href of an entry: the string under `href` in the JSON object `b`.
pub open spec fn entry_href(b: Seq<u8>) -> Option<Seq<char>> {
    match json_object(b) {
        Some(inner) => match last_value(inner, href_name()) {
            Some(v) => json_text(v),
            None => None,
        },
        None => None,
    }
}

/// A member has the shape its name asks for: `content` a string, `order` a
/// number, any other name an object with a string `href`.
pub open spec fn member_valid(m: (Seq<char>, Seq<u8>)) -> bool {
    if m.0 == content_name() {
        json_text(m.1) is Some
    } else if m.0 == order_name() {
        json_number(m.1) is Some
    } else {
        entry_href(m.1) is Some
    }
}

pub open spec fn members_valid(ms: Seq<(Seq<char>, Seq<u8>)>) -> bool {
    forall|i: int| 0 <= i < ms.len() ==> member_valid(#[trigger] ms[i])
}

/// The entries that the members other than `content` and `order` make.
pub open spec fn members_entries(ms: Seq<(Seq<char>, Seq<u8>)>) -> Map<Seq<char>, Seq<char>>
    decreases ms.len(),
{
    if ms.len() == 0 {
        Map::empty()
    } else {
        let rest = members_entries(ms.drop_last());
        let m = ms.last();
        if m.0 == content_name() || m.0 == order_name() {
            rest
        } else {
            rest.insert(m.0, entry_href(m.1).unwrap())
        }
    }
}

/// The document that a body decodes to, or `None` where it is malformed.
pub open spec fn parse_spec(b: Seq<u8>) -> Option<DocumentView> {
    match json_object(b) {
        Some(ms) => {
            if members_valid(ms) && last_value(ms, content_name()) is Some && last_value(ms, order_name()) is Some {
                Some(DocumentView {
                    content: json_text(last_value(ms, content_name()).unwrap()).unwrap(),
                    order: json_number(last_value(ms, order_name()).unwrap()).unwrap(),
                    entries: members_entries(ms),
                })
            } else {
                None
            }
        },
        None => None,
    }
}

/// Decoding depends on the bytes alone: the same body decoded twice gives
/// equal documents, or fails both times.
pub proof fn parse_is_deterministic(b: Seq<u8>, d1: Option<DocumentView>, d2: Option<DocumentView>)
    requires
        d1 == parse_spec(b),
        d2 == parse_spec(b),
    ensures
        d1 == d2,
{
}

/// The href of an entry's JSON object.
fn decode_href(b: &[u8]) -> (r: Option<String>)
    ensures
        match r {
            Some(s) => entry_href(b@) == Some(s@),
            None => entry_href(b@) is None,
        },
{
    let inner = match decode_object(b) {
        Some(v) => v,
        None => return None,
    };
    let href = String::from_str("href");
    proof {
        reveal_strlit("href");
        assert(href@ == href_name());
    }
    let ghost ms = members_view(inner@);
    let mut i: usize = inner.len();
    assert(ms.take(i as int) == ms);
    while i > 0
        invariant
            i <= inner.len(),
            ms == members_view(inner@),
            json_object(b@) == Some(ms),
            last_value(ms, href_name()) == last_value(ms.take(i as int), href_name()),
            href@ == href_name(),
        decreases i,
    {
        assert(ms.take(i as int).drop_last() == ms.take(i - 1));
        assert(ms.take(i as int).last() == ms[i - 1]);
        assert(ms[i - 1] == (inner@[i - 1].0@, inner@[i - 1].1@));
        if inner[i - 1].0 == href {
            return decode_text(inner[i - 1].1.as_slice());
        }
        i = i - 1;
    }
    assert(ms.take(0) =~= Seq::<(Seq<char>, Seq<u8>)>::empty());
    None
}

impl LinkDocument {
    /// Decodes the upstream's body. Fails with `MalformedDocument` unless it
    /// is a JSON object whose `content` is a string, whose `order` is a
    /// number, and whose every other member is an object with a string `href`.
    pub fn parse(body: &[u8]) -> (r: Result<LinkDocument, Error>)
        ensures
            match r {
                Ok(d) => parse_spec(body@) == Some(d@),
                Err(e) => e == Error::MalformedDocument && parse_spec(body@) is None,
            },
    {
        let members = match decode_object(body) {
            Some(v) => v,
            None => return Err(Error::MalformedDocument),
        };
        let ghost ms = members_view(members@);
        let content_key = String::from_str("content");
        let order_key = String::from_str("order");
        proof {
            reveal_strlit("content");
            reveal_strlit("order");
            assert(content_key@ == content_name());
            assert(order_key@ == order_name());
        }
        let mut content: Option<String> = None;
        let mut order: Option<String> = None;
        let mut entries: Vec<(String, LinkEntry)> = Vec::new();
        let mut i: usize = 0;
        while i < members.len()
            invariant
                i <= members.len(),
                ms == members_view(members@),
                json_object(body@) == Some(ms),
                content_key@ == content_name(),
                order_key@ == order_name(),
                members_valid(ms.take(i as int)),
                entry_map(entries@) == members_entries(ms.take(i as int)),
                match content {
                    Some(c) => last_value(ms.take(i as int), content_name()) is Some
                        && json_text(last_value(ms.take(i as int), content_name()).unwrap()) == Some(c@),
                    None => last_value(ms.take(i as int), content_name()) is None,
                },
                match order {
                    Some(o) => last_value(ms.take(i as int), order_name()) is Some
                        && json_number(last_value(ms.take(i as int), order_name()).unwrap()) == Some(o@),
                    None => last_value(ms.take(i as int), order_name()) is None,
                },
            decreases members.len() - i,
        {
            let ghost prev = ms.take(i as int);
            let ghost next = ms.take(i + 1);
            assert(next.drop_last() == prev);
            assert(next.last() == ms[i as int]);
            assert(ms[i as int] == (members@[i as int].0@, members@[i as int].1@));
            let name = &members[i].0;
            let value = members[i].1.as_slice();
            if *name == content_key {
                match decode_text(value) {
                    Some(c) => content = Some(c),
                    None => {
                        assert(!member_valid(ms[i as int]));
                        assert(!members_valid(ms));
                        return Err(Error::MalformedDocument);
                    },
                }
            } else if *name == order_key {
                match decode_number(value) {
                    Some(o) => order = Some(o),
                    None => {
                        assert(!member_valid(ms[i as int]));
                        assert(!members_valid(ms));
                        return Err(Error::MalformedDocument);
                    },
                }
            } else {
                match decode_href(value) {
                    Some(h) => {
                        let ghost old_entries = entries@;
                        entries.push((name.clone(), LinkEntry { href: h }));
                        assert(entries@.drop_last() == old_entries);
                    },
                    None => {
                        assert(!member_valid(ms[i as int]));
                        assert(!members_valid(ms));
                        return Err(Error::MalformedDocument);
                    },
                }
            }
            assert forall|j: int| 0 <= j < next.len() implies member_valid(#[trigger] next[j]) by {
                if j < prev.len() {
                    assert(next[j] == prev[j]);
                }
            }
            i = i + 1;
        }
        assert(ms.take(members.len() as int) == ms);
        match (content, order) {
            (Some(c), Some(o)) => Ok(LinkDocument { content: c, order: o, entries }),
            _ => Err(Error::MalformedDocument),
        }
    }

    /// The entry under `key`, the last one where several share it.
    pub fn get(&self, key: &String) -> (r: Option<&LinkEntry>)
        ensures
            match r {
                Some(e) => self@.entries.contains_key(key@) && self@.entries[key@] == e.href@,
                None => !self@.entries.contains_key(key@),
            },
    {
        let mut i: usize = self.entries.len();
        assert(self.entries@.take(i as int) == self.entries@);
        while i > 0
            invariant
                i <= self.entries.len(),
                entry_map(self.entries@).contains_key(key@) == entry_map(self.entries@.take(i as int)).contains_key(key@),
                entry_map(self.entries@.take(i as int)).contains_key(key@) ==> entry_map(self.entries@)[key@]
                    == entry_map(self.entries@.take(i as int))[key@],
            decreases i,
        {
            let ghost t = self.entries@.take(i as int);
            assert(t.drop_last() == self.entries@.take(i - 1));
            assert(t.last() == self.entries@[i - 1]);
            if self.entries[i - 1].0 == *key {
                return Some(&self.entries[i - 1].1);
            }
            i = i - 1;
        }
        assert(self.entries@.take(0) =~= Seq::<(String, LinkEntry)>::empty());
        None
    }
}

} // verus!
