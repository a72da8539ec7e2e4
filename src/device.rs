//! Which protocol generation an advertised peripheral speaks, and whether it
//! is one of the requested targets.
use vstd::prelude::*;

use crate::ident::{normalize, normalized};
use crate::text::{
    chars_of, contains, has_prefix, last_n, occurs_in, starts_with, string_of, trim, trimmed,
};

verus! {

/// The two hardware generations of base station, each with its own command format.
#[derive(Clone, Copy, Debug, PartialEq, Eq, Structural)]
pub enum Generation {
    V1,
    V2,
}

impl Generation {
    /// Whether this generation has a standby state; only the second has.
    pub fn supports_standby(self) -> (r: bool)
        ensures
            r == (self == Generation::V2),
    {
        match self {
            Generation::V1 => false,
            Generation::V2 => true,
        }
    }
}

/// A peripheral as a scan reports it: its platform identifier and, when it
/// advertised one, its local name.
#[derive(Debug)]
pub struct DiscoveredDevice {
    pub id: String,
    pub name: Option<String>,
}

/// What a match carries over to the encoder: for a first-generation station,
/// the identifier entry (white space trimmed) that selected it.
#[derive(Debug)]
pub struct MatchContext {
    pub bsid: Option<String>,
}

/// Name prefix of second-generation stations.
pub open spec fn v2_prefix() -> Seq<char> {
    seq!['L', 'H', 'B', '-']
}

/// Name prefix of first-generation stations.
pub open spec fn v1_prefix() -> Seq<char> {
    seq!['H', 'T', 'C', ' ', 'B', 'S']
}

/// The generation that an advertised name announces, if any.
pub open spec fn generation_of(name: Seq<char>) -> Option<Generation> {
    if has_prefix(name, v2_prefix()) {
        Some(Generation::V2)
    } else if has_prefix(name, v1_prefix()) && name.len() >= 4 {
        Some(Generation::V1)
    } else {
        None
    }
}

/// The character views of a list of strings.
pub open spec fn views(ts: Seq<String>) -> Seq<Seq<char>> {
    ts.map_values(|t: String| t@)
}

/// A second-generation station is selected by an empty target list, or when
/// its normalised identifier contains some normalised target.
pub open spec fn v2_selected(id: Seq<char>, targets: Seq<Seq<char>>) -> bool {
    targets.len() == 0 || exists|j: int|
        0 <= j < targets.len() && occurs_in(normalized(#[trigger] targets[j]), normalized(id))
}

/// A target entry selects a first-generation station when, trimmed, it is
/// eight characters long and its last four equal the name's last four.
pub open spec fn v1_accepts(name: Seq<char>, target: Seq<char>) -> bool {
    let t = trimmed(target);
    t.len() == 8 && name.len() >= 4 && last_n(name, 4) == last_n(t, 4)
}

/// The trimmed first entry of `targets` that selects the first-generation
/// station called `name`.
pub open spec fn first_v1(name: Seq<char>, targets: Seq<Seq<char>>) -> Option<Seq<char>>
    decreases targets.len(),
{
    if targets.len() == 0 {
        None
    } else if v1_accepts(name, targets[0]) {
        Some(trimmed(targets[0]))
    } else {
        first_v1(name, targets.drop_first())
    }
}

/// The decision on one device: its generation, and for the first generation
/// the identifier it was selected by.
pub open spec fn selection(name: Option<Seq<char>>, id: Seq<char>, targets: Seq<Seq<char>>) -> Option<
    (Generation, Option<Seq<char>>),
> {
    match name {
        None => None,
        Some(n) => match generation_of(n) {
            None => None,
            Some(Generation::V2) => if v2_selected(id, targets) {
                Some((Generation::V2, None))
            } else {
                None
            },
            Some(Generation::V1) => match first_v1(n, targets) {
                None => None,
                Some(b) => Some((Generation::V1, Some(b))),
            },
        },
    }
}

/// The view of an optional string.
pub open spec fn opt_view(s: Option<String>) -> Option<Seq<char>> {
    match s {
        None => None,
        Some(x) => Some(x@),
    }
}

/// The view of a classification result.
pub open spec fn match_view(r: Option<(Generation, MatchContext)>) -> Option<
    (Generation, Option<Seq<char>>),
> {
    match r {
        None => None,
        Some((g, ctx)) => Some((g, opt_view(ctx.bsid))),
    }
}

/// The generation that the advertised name announces: the second for names
/// starting `LHB-`, the first for names starting `HTC BS`, none otherwise.
pub fn classify(name: &str) -> (r: Option<Generation>)
    ensures
        r == generation_of(name@),
{
    let n = chars_of(name);
    let p2: Vec<char> = vec!['L', 'H', 'B', '-'];
    assert(p2@ == v2_prefix());
    if starts_with(&n, &p2) {
        return Some(Generation::V2);
    }
    let p1: Vec<char> = vec!['H', 'T', 'C', ' ', 'B', 'S'];
    assert(p1@ == v1_prefix());
    if starts_with(&n, &p1) && n.len() >= 4 {
        Some(Generation::V1)
    } else {
        None
    }
}

/// Whether a second-generation station with identifier `id` is among the
/// targets: every station when there are none, else one whose normalised
/// identifier contains a normalised target.
pub fn matches_v2(id: &str, targets: &Vec<String>) -> (r: bool)
    ensures
        r == v2_selected(id@, views(targets@)),
{
    if targets.len() == 0 {
        return true;
    }
    let nid = normalize(id);
    let hay = chars_of(nid.as_str());
    let ghost ts = views(targets@);
    let mut j: usize = 0;
    while j < targets.len()
        invariant
            ts == views(targets@),
            j <= targets@.len(),
            hay@ == normalized(id@),
            forall|k: int| 0 <= k < j ==> !occurs_in(normalized(#[trigger] ts[k]), normalized(id@)),
        decreases targets.len() - j,
    {
        let nt = normalize(targets[j].as_str());
        let needle = chars_of(nt.as_str());
        if contains(&hay, &needle) {
            assert(ts[j as int] == targets@[j as int]@);
            return true;
        }
        j = j + 1;
    }
    false
}

/// Whether the entry `target` selects the first-generation station `name`;
/// the trimmed entry when it does.
fn v1_entry(name: &Vec<char>, target: &str) -> (r: Option<Vec<char>>)
    ensures
        r is Some <==> v1_accepts(name@, target@),
        r matches Some(t) ==> t@ == trimmed(target@),
{
    let t = trim(&chars_of(target));
    if t.len() != 8 || name.len() < 4 {
        return None;
    }
    assert(last_n(name@, 4) =~= name@.subrange(name@.len() - 4, name@.len() as int));
    assert(last_n(t@, 4) =~= t@.subrange(4, 8));
    let mut i: usize = 0;
    while i < 4
        invariant
            t@.len() == 8,
            t@ == trimmed(target@),
            name@.len() >= 4,
            last_n(name@, 4) == name@.subrange(name@.len() - 4, name@.len() as int),
            last_n(t@, 4) == t@.subrange(4, 8),
            i <= 4,
            forall|k: int| 0 <= k < i ==> name@[name@.len() - 4 + k] == #[trigger] t@[4 + k],
        decreases 4 - i,
    {
        if name[name.len() - 4 + i] != t[4 + i] {
            assert(last_n(name@, 4)[i as int] != last_n(t@, 4)[i as int]);
            return None;
        }
        i = i + 1;
    }
    assert forall|k: int| 0 <= k < 4 implies last_n(name@, 4)[k] == last_n(t@, 4)[k] by {
        assert(name@[name@.len() - 4 + k] == t@[4 + k]);
    }
    assert(last_n(name@, 4) =~= last_n(t@, 4));
    Some(t)
}

/// The first target entry that selects the first-generation station `name`,
/// trimmed: its last four characters equal the name's last four. No entry
/// is selected from an empty list.
pub fn matches_v1(name: &str, targets: &Vec<String>) -> (r: Option<String>)
    ensures
        opt_view(r) == first_v1(name@, views(targets@)),
{
    let n = chars_of(name);
    let ghost ts = views(targets@);
    assert(ts.subrange(0, ts.len() as int) == ts);
    let mut j: usize = 0;
    while j < targets.len()
        invariant
            ts == views(targets@),
            n@ == name@,
            j <= targets@.len(),
            first_v1(name@, ts) == first_v1(name@, ts.subrange(j as int, ts.len() as int)),
        decreases targets.len() - j,
    {
        let ghost rest = ts.subrange(j as int, ts.len() as int);
        assert(rest[0] == targets@[j as int]@);
        match v1_entry(&n, targets[j].as_str()) {
            Some(b) => {
                return Some(string_of(&b));
            },
            None => {
                assert(rest.drop_first() == ts.subrange(j + 1, ts.len() as int));
            },
        }
        j = j + 1;
    }
    None
}

/// The decision on one discovered device: its generation when it is one of
/// the targets, with the identifier a first-generation station was selected
/// by. A device without a name, of neither generation, or not among the
/// targets gives `None`.
pub fn classify_and_match(device: &DiscoveredDevice, targets: &Vec<String>) -> (r: Option<
    (Generation, MatchContext),
>)
    ensures
        match_view(r) == selection(opt_view(device.name), device.id@, views(targets@)),
{
    let name = match &device.name {
        None => return None,
        Some(n) => n,
    };
    match classify(name.as_str()) {
        None => None,
        Some(Generation::V2) => {
            if matches_v2(device.id.as_str(), targets) {
                Some((Generation::V2, MatchContext { bsid: None }))
            } else {
                None
            }
        },
        Some(Generation::V1) => match matches_v1(name.as_str(), targets) {
            None => None,
            Some(b) => Some((Generation::V1, MatchContext { bsid: Some(b) })),
        },
    }
}

/// With no targets, every device whose name starts `LHB-` is selected as a
/// second-generation station.
pub proof fn lemma_v2_selected_without_targets(name: Seq<char>, id: Seq<char>)
    requires
        has_prefix(name, v2_prefix()),
    ensures
        selection(Some(name), id, Seq::empty()) == Some((Generation::V2, None::<Seq<char>>)),
{
}

/// With no targets, no first-generation station is ever selected.
pub proof fn lemma_v1_needs_targets(name: Option<Seq<char>>, id: Seq<char>)
    requires
        name matches Some(n) && generation_of(n) == Some(Generation::V1),
    ensures
        selection(name, id, Seq::empty()) is None,
{
}

/// A first-generation station is selected by an eight-character entry
/// whose last four characters equal the last four of its name, whatever the
/// entry's first four are.
pub proof fn lemma_v1_selected_by_suffix(name: Seq<char>, id: Seq<char>, target: Seq<char>)
    requires
        generation_of(name) == Some(Generation::V1),
        trimmed(target).len() == 8,
        last_n(name, 4) == last_n(trimmed(target), 4),
    ensures
        selection(Some(name), id, seq![target]) == Some((Generation::V1, Some(trimmed(target)))),
{
    assert(seq![target][0] == target);
}

} // verus!
