//! Topology entries and the immutable snapshot that is built from them.

use crate::address::Ipv4Address;
use vstd::prelude::*;

verus! {

/// Where an entry comes from. An ingress entry takes precedence over a
/// service entry of the same name.
#[derive(Clone, Copy, Debug, PartialEq, Eq, Structural)]
pub enum SourceKind {
    Ingress,
    Service,
}

/// One hostname that the cluster exposes, with the address that serves it.
/// The name is fully qualified and ends in a dot.
#[derive(Clone, Debug)]
pub struct TopologyEntry {
    pub name: String,
    pub address: Ipv4Address,
    pub source_kind: SourceKind,
}

impl TopologyEntry {
    /// An entry for `name`.
    pub fn new(name: &str, address: Ipv4Address, source_kind: SourceKind) -> (entry: TopologyEntry)
        ensures
            entry.name@ == name@,
            entry.address == address,
            entry.source_kind == source_kind,
    {
        TopologyEntry { name: name.to_owned(), address, source_kind }
    }
}

/// What an entry stands for.
pub ghost struct TopologyEntryView {
    pub name: Seq<char>,
    pub address: Ipv4Address,
    pub source_kind: SourceKind,
}

impl View for TopologyEntry {
    type V = TopologyEntryView;

    open spec fn view(&self) -> TopologyEntryView {
        TopologyEntryView {
            name: self.name@,
            address: self.address,
            source_kind: self.source_kind,
        }
    }
}

/// What a list of entries stands for.
pub open spec fn spec_entry_views(entries: Seq<TopologyEntry>) -> Seq<TopologyEntryView> {
    entries.map_values(|entry: TopologyEntry| entry@)
}

/// Whether `entry` is an entry of kind `kind` for `name`. Names are compared
/// character by character, trailing dot and letter case included.
pub open spec fn spec_entry_matches(
    entry: TopologyEntryView,
    name: Seq<char>,
    kind: SourceKind,
) -> bool {
    entry.name == name && entry.source_kind == kind
}

/// The address of the first entry of kind `kind` for `name`, if there is one.
pub open spec fn spec_first_of_kind(
    entries: Seq<TopologyEntryView>,
    name: Seq<char>,
    kind: SourceKind,
) -> Option<Ipv4Address>
    decreases entries.len(),
{
    if entries.len() == 0 {
        None
    } else if spec_entry_matches(entries[0], name, kind) {
        Some(entries[0].address)
    } else {
        spec_first_of_kind(entries.drop_first(), name, kind)
    }
}

/// The address that a list of entries gives to `name`: that of its first
/// ingress entry, else that of its first service entry.
pub open spec fn spec_resolve(entries: Seq<TopologyEntryView>, name: Seq<char>) -> Option<Ipv4Address> {
    match spec_first_of_kind(entries, name, SourceKind::Ingress) {
        Some(address) => Some(address),
        None => spec_first_of_kind(entries, name, SourceKind::Service),
    }
}

/// The mapping from names to addresses that a list of entries stands for.
pub open spec fn spec_topology(entries: Seq<TopologyEntryView>) -> Map<Seq<char>, Ipv4Address> {
    Map::new(
        |name: Seq<char>| spec_resolve(entries, name) is Some,
        |name: Seq<char>| spec_resolve(entries, name)->Some_0,
    )
}

/// The first entry of a kind for a name is an entry of the list, and no
/// entry before it matches; where there is none, no entry matches.
pub proof fn lemma_first_of_kind_is_first(
    entries: Seq<TopologyEntryView>,
    name: Seq<char>,
    kind: SourceKind,
)
    ensures
        match spec_first_of_kind(entries, name, kind) {
            Some(address) => exists|i: int|
                0 <= i < entries.len() && spec_entry_matches(#[trigger] entries[i], name, kind)
                    && entries[i].address == address && forall|j: int|
                    0 <= j < i ==> !spec_entry_matches(#[trigger] entries[j], name, kind),
            None => forall|i: int|
                0 <= i < entries.len() ==> !spec_entry_matches(#[trigger] entries[i], name, kind),
        },
    decreases entries.len(),
{
    if entries.len() == 0 {
    } else if spec_entry_matches(entries[0], name, kind) {
        assert(spec_entry_matches(entries[0], name, kind) && entries[0].address
            == spec_first_of_kind(entries, name, kind)->Some_0);
    } else {
        let rest = entries.drop_first();
        lemma_first_of_kind_is_first(rest, name, kind);
        match spec_first_of_kind(rest, name, kind) {
            Some(address) => {
                let i = choose|i: int|
                    0 <= i < rest.len() && spec_entry_matches(#[trigger] rest[i], name, kind)
                        && rest[i].address == address && forall|j: int|
                        0 <= j < i ==> !spec_entry_matches(#[trigger] rest[j], name, kind);
                assert forall|j: int| 0 <= j < i + 1 implies !spec_entry_matches(
                    #[trigger] entries[j],
                    name,
                    kind,
                ) by {
                    if j > 0 {
                        assert(entries[j] == rest[j - 1]);
                    }
                }
                assert(entries[i + 1] == rest[i]);
                assert(spec_entry_matches(entries[i + 1], name, kind));
            },
            None => {
                assert forall|i: int| 0 <= i < entries.len() implies !spec_entry_matches(
                    #[trigger] entries[i],
                    name,
                    kind,
                ) by {
                    if i > 0 {
                        assert(entries[i] == rest[i - 1]);
                    }
                }
            },
        }
    }
}

/// Entries that come later never displace an earlier entry of the same kind:
/// in two lists joined, the first list answers wherever it has an entry of
/// that kind, and the second answers only where the first has none.
pub proof fn lemma_first_of_kind_joined(
    earlier: Seq<TopologyEntryView>,
    later: Seq<TopologyEntryView>,
    name: Seq<char>,
    kind: SourceKind,
)
    ensures
        spec_first_of_kind(earlier + later, name, kind) == match spec_first_of_kind(
            earlier,
            name,
            kind,
        ) {
            Some(address) => Some(address),
            None => spec_first_of_kind(later, name, kind),
        },
    decreases earlier.len(),
{
    if earlier.len() == 0 {
        assert(earlier + later =~= later);
    } else {
        assert((earlier + later)[0] == earlier[0]);
        assert((earlier + later).drop_first() =~= earlier.drop_first() + later);
        lemma_first_of_kind_joined(earlier.drop_first(), later, name, kind);
    }
}

/// In two lists joined, a name keeps the address that the first list gives
/// it, unless the first list has it from a service and the second from an
/// ingress; a name that the first list does not hold gets the address that
/// the second list gives it.
pub proof fn lemma_resolve_joined(
    earlier: Seq<TopologyEntryView>,
    later: Seq<TopologyEntryView>,
    name: Seq<char>,
)
    ensures
        spec_first_of_kind(earlier, name, SourceKind::Ingress) is Some ==> spec_resolve(
            earlier + later,
            name,
        ) == spec_resolve(earlier, name),
        spec_first_of_kind(later, name, SourceKind::Ingress) is None ==> spec_resolve(
            earlier + later,
            name,
        ) == (match spec_resolve(earlier, name) {
            Some(address) => Some(address),
            None => spec_resolve(later, name),
        }),
        spec_first_of_kind(earlier, name, SourceKind::Ingress) is None && spec_first_of_kind(
            later,
            name,
            SourceKind::Ingress,
        ) is Some ==> spec_resolve(earlier + later, name) == spec_first_of_kind(
            later,
            name,
            SourceKind::Ingress,
        ),
{
    lemma_first_of_kind_joined(earlier, later, name, SourceKind::Ingress);
    lemma_first_of_kind_joined(earlier, later, name, SourceKind::Service);
}

/// An ingress entry wins over service entries of the same name, wherever in
/// the list they stand.
pub proof fn lemma_ingress_wins(entries: Seq<TopologyEntryView>, name: Seq<char>, i: int)
    requires
        0 <= i < entries.len(),
        spec_entry_matches(entries[i], name, SourceKind::Ingress),
        forall|j: int|
            0 <= j < i ==> !spec_entry_matches(#[trigger] entries[j], name, SourceKind::Ingress),
    ensures
        spec_resolve(entries, name) == Some(entries[i].address),
        spec_topology(entries).contains_key(name),
        spec_topology(entries)[name] == entries[i].address,
{
    lemma_first_of_kind_is_first(entries, name, SourceKind::Ingress);
    match spec_first_of_kind(entries, name, SourceKind::Ingress) {
        Some(address) => {
            let k = choose|k: int|
                0 <= k < entries.len() && spec_entry_matches(
                    #[trigger] entries[k],
                    name,
                    SourceKind::Ingress,
                ) && entries[k].address == address && forall|j: int|
                    0 <= j < k ==> !spec_entry_matches(
                        #[trigger] entries[j],
                        name,
                        SourceKind::Ingress,
                    );
            assert(k == i) by {
                if k < i {
                    assert(!spec_entry_matches(entries[k], name, SourceKind::Ingress));
                }
                if i < k {
                    assert(!spec_entry_matches(entries[i], name, SourceKind::Ingress));
                }
            }
        },
        None => {
            assert(!spec_entry_matches(entries[i], name, SourceKind::Ingress));
        },
    }
}

/// A name that no entry carries has no address.
pub proof fn lemma_absent_name_unresolved(entries: Seq<TopologyEntryView>, name: Seq<char>)
    requires
        forall|i: int| 0 <= i < entries.len() ==> (#[trigger] entries[i]).name != name,
    ensures
        spec_resolve(entries, name) is None,
        !spec_topology(entries).contains_key(name),
{
    lemma_first_of_kind_is_first(entries, name, SourceKind::Ingress);
    lemma_first_of_kind_is_first(entries, name, SourceKind::Service);
}

/// The address of the first entry of kind `kind` for `name`.
fn first_of_kind(entries: &Vec<TopologyEntry>, name: &String, kind: SourceKind) -> (found: Option<
    Ipv4Address,
>)
    ensures
        found == spec_first_of_kind(spec_entry_views(entries@), name@, kind),
{
    let ghost views = spec_entry_views(entries@);
    let mut i: usize = 0;
    assert(views.skip(0) =~= views);
    while i < entries.len()
        invariant
            i <= entries.len(),
            views == spec_entry_views(entries@),
            spec_first_of_kind(views, name@, kind) == spec_first_of_kind(
                views.skip(i as int),
                name@,
                kind,
            ),
        decreases entries.len() - i,
    {
        let entry = &entries[i];
        proof {
            let rest = views.skip(i as int);
            assert(rest[0] == entries@[i as int]@);
            assert(rest.drop_first() =~= views.skip(i as int + 1));
        }
        if entry.source_kind == kind && entry.name == *name {
            return Some(entry.address);
        }
        i += 1;
    }
    assert(views.skip(i as int).len() == 0);
    None
}

/// What a snapshot stands for: a mapping from names to addresses, and the
/// instant, in milliseconds since the Unix epoch, at which it was taken.
pub ghost struct SnapshotView {
    pub entries: Map<Seq<char>, Ipv4Address>,
    pub created_at: int,
}

impl SnapshotView {
    /// The address of `name` in this mapping.
    pub open spec fn spec_lookup(self, name: Seq<char>) -> Option<Ipv4Address> {
        if self.entries.contains_key(name) {
            Some(self.entries[name])
        } else {
            None
        }
    }
}

/// The point-in-time mapping of names to addresses. A snapshot is never
/// changed once built: a refresh replaces it whole.
#[derive(Clone, Debug)]
pub struct TopologySnapshot {
    entries: Vec<TopologyEntry>,
    created_at: i64,
}

impl View for TopologySnapshot {
    type V = SnapshotView;

    closed spec fn view(&self) -> SnapshotView {
        SnapshotView {
            entries: spec_topology(spec_entry_views(self.entries@)),
            created_at: self.created_at as int,
        }
    }
}

impl TopologySnapshot {
    /// The snapshot of `entries`, taken at `created_at`.
    pub fn new(entries: Vec<TopologyEntry>, created_at: i64) -> (snapshot: TopologySnapshot)
        ensures
            snapshot@ == (SnapshotView {
                entries: spec_topology(spec_entry_views(entries@)),
                created_at: created_at as int,
            }),
    {
        TopologySnapshot { entries, created_at }
    }

    /// The snapshot that holds no name.
    pub fn empty(created_at: i64) -> (snapshot: TopologySnapshot)
        ensures
            snapshot@ == (SnapshotView {
                entries: Map::<Seq<char>, Ipv4Address>::empty(),
                created_at: created_at as int,
            }),
    {
        let snapshot = TopologySnapshot { entries: Vec::new(), created_at };
        assert(snapshot@.entries =~= Map::<Seq<char>, Ipv4Address>::empty());
        snapshot
    }

    /// The instant at which this snapshot was taken.
    pub fn created_at(&self) -> (created_at: i64)
        ensures
            created_at == self@.created_at,
    {
        self.created_at
    }

    /// The address of `name`, if the snapshot holds it. Reads the snapshot
    /// and nothing else.
    pub fn lookup(&self, name: &str) -> (found: Option<Ipv4Address>)
        ensures
            found == self@.spec_lookup(name@),
    {
        let wanted: String = name.to_owned();
        match first_of_kind(&self.entries, &wanted, SourceKind::Ingress) {
            Some(address) => Some(address),
            None => first_of_kind(&self.entries, &wanted, SourceKind::Service),
        }
    }
}

} // verus!
