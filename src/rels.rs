//! The relationship registry: the identifiers that tie hyperlinks in a document
//! to their targets.

use vstd::prelude::*;
use crate::text::{decimal, format_u32, lemma_parse_decimal, owned, parse_unsigned, parse_unsigned_str, push_str, str_eq};
use vstd::string::StrSliceExecFns;

verus! {

/// The target of the last pair with key `k`, if any.
pub open spec fn find_link(s: Seq<(Seq<char>, Seq<char>)>, k: Seq<char>) -> Option<Seq<char>>
    decreases s.len(),
{
    if s.len() == 0 {
        None
    } else if s.last().0 == k {
        Some(s.last().1)
    } else {
        find_link(s.drop_last(), k)
    }
}

/// No two pairs share a key.
pub open spec fn keys_unique(s: Seq<(Seq<char>, Seq<char>)>) -> bool {
    forall|i: int, j: int| 0 <= i < j < s.len() ==> #[trigger] s[i].0 != #[trigger] s[j].0
}

/// The number of a sequential identifier: `rId` followed by a number that fits
/// in `u32`.
pub open spec fn rid_number(k: Seq<char>) -> Option<int> {
    if k.len() >= 3 && k.subrange(0, 3) == "rId"@ {
        parse_unsigned(k.subrange(3, k.len() as int), 0xffff_ffff)
    } else {
        None
    }
}

/// The key of `e`, if sequential, has a number of at most `c`.
pub open spec fn rid_at_most(e: (Seq<char>, Seq<char>), c: int) -> bool {
    match rid_number(e.0) {
        Some(n) => n <= c,
        None => true,
    }
}

/// The sequential identifier with number `n`.
pub open spec fn rid(n: nat) -> Seq<char> {
    "rId"@ + decimal(n)
}

/// The identifier-to-target pairs of a registry, in the order they were added.
#[derive(Debug, Clone, PartialEq)]
pub struct Links {
    entries: Vec<(String, String)>,
}

impl View for Links {
    type V = Seq<(Seq<char>, Seq<char>)>;

    closed spec fn view(&self) -> Seq<(Seq<char>, Seq<char>)> {
        self.entries@.map_values(|e: (String, String)| (e.0@, e.1@))
    }
}

impl Links {
    /// The number of identifiers.
    pub fn len(&self) -> (r: usize)
        ensures
            r == self@.len(),
    {
        self.entries.len()
    }

    /// The target recorded for `id`.
    pub fn get(&self, id: &str) -> (r: Option<&String>)
        ensures
            r is Some <==> find_link(self@, id@) is Some,
            r matches Some(t) ==> find_link(self@, id@) == Some(t@),
    {
        match self.position(id) {
            Some(i) => Some(&self.entries[i].1),
            None => None,
        }
    }

    /// The index of the last pair with key `id`.
    fn position(&self, id: &str) -> (r: Option<usize>)
        ensures
            r is None ==> find_link(self@, id@) is None,
            r is None ==> forall|j: int| 0 <= j < self@.len() ==> self@[j].0 != id@,
            r matches Some(i) ==> i < self@.len() && self@[i as int].0 == id@ && find_link(
                self@,
                id@,
            ) == Some(self@[i as int].1),
    {
        let ghost s = self@;
        let mut i: usize = self.entries.len();
        assert(s.subrange(0, i as int) =~= s);
        while i > 0
            invariant
                i <= self.entries.len(),
                s == self@,
                s.len() == self.entries.len(),
                find_link(s, id@) == find_link(s.subrange(0, i as int), id@),
                forall|j: int| i <= j < s.len() ==> s[j].0 != id@,
            decreases i,
        {
            let k = i - 1;
            assert(s.subrange(0, i as int).drop_last() =~= s.subrange(0, k as int));
            if str_eq(self.entries[k].0.as_str(), id) {
                return Some(k);
            }
            i = k;
        }
        None
    }
}

/// Hands out sequential relationship identifiers and records the target of each.
/// Each document session owns its own registry.
#[derive(Debug, Clone, PartialEq)]
pub struct RelationshipManager {
    counter: u32,
    links: Links,
}

/// What a registry holds: its counter and its pairs.
pub ghost struct RelationshipManagerView {
    pub counter: nat,
    pub links: Seq<(Seq<char>, Seq<char>)>,
}

impl View for RelationshipManager {
    type V = RelationshipManagerView;

    closed spec fn view(&self) -> RelationshipManagerView {
        RelationshipManagerView { counter: self.counter as nat, links: self.links@ }
    }
}

impl RelationshipManager {
    /// Keys are unique, and no sequential identifier has a number above the
    /// counter. Every registry that this module hands out is well formed.
    pub closed spec fn wf(self) -> bool {
        &&& keys_unique(self.links@)
        &&& forall|i: int|
            0 <= i < self.links@.len() ==> rid_at_most(#[trigger] self.links@[i], self.counter as int)
    }

    pub fn new() -> (r: RelationshipManager)
        ensures
            r.wf(),
            r@.counter == 0,
            r@.links.len() == 0,
    {
        RelationshipManager { counter: 0, links: Links { entries: Vec::new() } }
    }

    /// The number of the last identifier handed out or seeded.
    pub fn counter(&self) -> (r: u32)
        ensures
            r == self@.counter,
    {
        self.counter
    }

    /// Hands out the next identifier, `rId` and the counter plus one, and records
    /// `target` under it. The identifier is new to the registry.
    pub fn generate_rid(&mut self, target: &str) -> (r: String)
        requires
            old(self).wf(),
            old(self)@.counter < 0xffff_ffff,
        ensures
            final(self).wf(),
            r@ == rid(old(self)@.counter + 1),
            find_link(old(self)@.links, r@) is None,
            final(self)@.counter == old(self)@.counter + 1,
            final(self)@.links == old(self)@.links.push((r@, target@)),
    {
        let n = self.counter + 1;
        let mut id = owned("rId");
        let digits = format_u32(n);
        push_str(&mut id, digits.as_str());
        proof {
            reveal_strlit("rId");
            lemma_parse_decimal(n as nat, 0xffff_ffff);
            assert(id@.subrange(0, 3) =~= "rId"@);
            assert(id@.subrange(3, id@.len() as int) =~= decimal(n as nat));
            assert(rid_number(id@) == Some(n as int));
        }
        let ghost old_links = self.links@;
        let found = self.links.position(id.as_str());
        if let Some(i) = found {
            assert(rid_number(old_links[i as int].0) == Some(n as int));
            assert(false);
        }
        self.counter = n;
        self.links.entries.push((id.clone(), owned(target)));
        assert(self.links@ =~= old_links.push((id@, target@)));
        id
    }

    /// The recorded pairs.
    pub fn get_links(&self) -> (r: &Links)
        ensures
            r@ == self@.links,
    {
        &self.links
    }

    /// Forgets every pair and starts counting from zero again.
    pub fn clear(&mut self)
        ensures
            final(self).wf(),
            final(self)@.counter == 0,
            final(self)@.links.len() == 0,
    {
        self.counter = 0;
        self.links.entries.clear();
        assert(self.links@ =~= Seq::<(Seq<char>, Seq<char>)>::empty());
    }

    /// Records `target` under `id`, replacing what `id` held. A sequential `id`
    /// raises the counter to its number, so that later identifiers do not
    /// collide with it; any other `id` leaves the counter as it is.
    pub fn add_relationship(&mut self, id: String, target: String)
        requires
            old(self).wf(),
        ensures
            final(self).wf(),
            final(self)@.counter == (match rid_number(id@) {
                Some(n) => if n > old(self)@.counter {
                    n as nat
                } else {
                    old(self)@.counter
                },
                None => old(self)@.counter,
            }),
            find_link(final(self)@.links, id@) == Some(target@),
            forall|k: Seq<char>| k != id@ ==> find_link(final(self)@.links, k) == find_link(
                old(self)@.links,
                k,
            ),
            final(self)@.links.len() == old(self)@.links.len() + (if find_link(
                old(self)@.links,
                id@,
            ) is Some {
                0int
            } else {
                1int
            }),
    {
        let ghost old_links = self.links@;
        let n = id.unicode_len();
        if n >= 3 && str_eq(id.as_str().substring_char(0, 3), "rId") {
            let digits = id.as_str().substring_char(3, n);
            match parse_unsigned_str(digits, 0xffff_ffff) {
                Some(num) => {
                    if num > self.counter {
                        self.counter = num;
                    }
                },
                None => {},
            }
        }
        let ghost key = id@;
        let ghost value = target@;
        match self.links.position(id.as_str()) {
            Some(i) => {
                self.links.entries[i] = (id, target);
                proof {
                    assert(self.links@ =~= old_links.update(i as int, (key, value)));
                    lemma_find_update_other(old_links, i as int, key, value);
                    lemma_find_unique(self.links@, i as int);
                }
            },
            None => {
                self.links.entries.push((id, target));
                proof {
                    assert(self.links@ =~= old_links.push((key, value)));
                    assert forall|k: Seq<char>| k != key implies find_link(self.links@, k)
                        == find_link(old_links, k) by {
                        assert(self.links@.drop_last() =~= old_links);
                    }
                }
            },
        }
    }
}

impl Default for RelationshipManager {
    fn default() -> (r: RelationshipManager)
        ensures
            r.wf(),
            r@.counter == 0,
            r@.links.len() == 0,
    {
        RelationshipManager::new()
    }
}

/// With unique keys, the pair at `i` is the one found for its key.
pub proof fn lemma_find_unique(s: Seq<(Seq<char>, Seq<char>)>, i: int)
    requires
        keys_unique(s),
        0 <= i < s.len(),
    ensures
        find_link(s, s[i].0) == Some(s[i].1),
    decreases s.len(),
{
    if i < s.len() - 1 {
        assert(s[i].0 != s[s.len() - 1].0);
        let t = s.drop_last();
        assert(keys_unique(t)) by {
            assert forall|a: int, b: int| 0 <= a < b < t.len() implies #[trigger] t[a].0
                != #[trigger] t[b].0 by {
                assert(t[a] == s[a] && t[b] == s[b]);
            }
        }
        assert(t[i] == s[i]);
        lemma_find_unique(t, i);
    }
}

/// Replacing the target of the pair at `i`, keeping its key, changes nothing
/// that is found for another key.
pub proof fn lemma_find_update_other(
    s: Seq<(Seq<char>, Seq<char>)>,
    i: int,
    key: Seq<char>,
    value: Seq<char>,
)
    requires
        0 <= i < s.len(),
        s[i].0 == key,
    ensures
        forall|k: Seq<char>| k != key ==> find_link(s.update(i, (key, value)), k) == find_link(s, k),
    decreases s.len(),
{
    let u = s.update(i, (key, value));
    if i == s.len() - 1 {
        assert(u.drop_last() =~= s.drop_last());
        assert forall|k: Seq<char>| k != key implies find_link(u, k) == find_link(s, k) by {
            assert(u.last().0 == key && s.last().0 == key);
        }
    } else {
        assert(u.drop_last() =~= s.drop_last().update(i, (key, value)));
        lemma_find_update_other(s.drop_last(), i, key, value);
        assert forall|k: Seq<char>| k != key implies find_link(u, k) == find_link(s, k) by {
            assert(u.last() == s.last());
            assert(find_link(s.drop_last().update(i, (key, value)), k) == find_link(
                s.drop_last(),
                k,
            ));
            assert(find_link(u.drop_last(), k) == find_link(s.drop_last(), k));
        }
    }
}

/// The opening of a relationships part.
pub open spec fn rels_header() -> Seq<char> {
    "<?xml version=\"1.0\" encoding=\"UTF-8\" standalone=\"yes\"?>\n<Relationships xmlns=\"http://schemas.openxmlformats.org/package/2006/relationships\">"@
}

/// The element that records one hyperlink target.
pub open spec fn rel_entry(id: Seq<char>, target: Seq<char>) -> Seq<char> {
    "<Relationship Id=\""@ + id
        + "\" Type=\"http://schemas.openxmlformats.org/officeDocument/2006/relationships/hyperlink\" Target=\""@
        + target + "\" TargetMode=\"External\"/>"@
}

pub open spec fn rel_entries(s: Seq<(Seq<char>, Seq<char>)>) -> Seq<char>
    decreases s.len(),
{
    if s.len() == 0 {
        Seq::empty()
    } else {
        rel_entries(s.drop_last()) + rel_entry(s.last().0, s.last().1)
    }
}

/// The relationships part of a document: one external hyperlink relationship per
/// recorded pair, in the order they were added.
pub open spec fn rels_xml(s: Seq<(Seq<char>, Seq<char>)>) -> Seq<char> {
    rels_header() + rel_entries(s) + "</Relationships>"@
}

/// Writes the relationships part of a document into `xml`, replacing what it
/// held, and returns it.
pub fn generate_doc_rels(xml: &mut String, relationship_manager: &RelationshipManager) -> (r: String)
    ensures
        final(xml)@ == rels_xml(relationship_manager@.links),
        r@ == final(xml)@,
{
    let mut out = owned(
        "<?xml version=\"1.0\" encoding=\"UTF-8\" standalone=\"yes\"?>\n<Relationships xmlns=\"http://schemas.openxmlformats.org/package/2006/relationships\">",
    );
    let entries = &relationship_manager.links.entries;
    let ghost s = relationship_manager@.links;
    let mut i: usize = 0;
    assert(s.subrange(0, 0) =~= Seq::<(Seq<char>, Seq<char>)>::empty());
    assert(out@ =~= rels_header() + rel_entries(s.subrange(0, 0)));
    while i < entries.len()
        invariant
            i <= entries.len(),
            s == relationship_manager@.links,
            s.len() == entries.len(),
            entries == &relationship_manager.links.entries,
            out@ == rels_header() + rel_entries(s.subrange(0, i as int)),
        decreases entries.len() - i,
    {
        let ghost before = out@;
        push_str(&mut out, "<Relationship Id=\"");
        push_str(&mut out, entries[i].0.as_str());
        push_str(
            &mut out,
            "\" Type=\"http://schemas.openxmlformats.org/officeDocument/2006/relationships/hyperlink\" Target=\"",
        );
        push_str(&mut out, entries[i].1.as_str());
        push_str(&mut out, "\" TargetMode=\"External\"/>");
        proof {
            let next = s.subrange(0, i + 1);
            assert(next.drop_last() =~= s.subrange(0, i as int));
            assert(next.last() == s[i as int]);
            assert(out@ =~= before + rel_entry(s[i as int].0, s[i as int].1));
        }
        i += 1;
    }
    assert(s.subrange(0, entries.len() as int) =~= s);
    push_str(&mut out, "</Relationships>");
    *xml = out.clone();
    out
}

} // verus!
