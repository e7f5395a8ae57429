//! Choosing, among the entries of the firmware's configuration table, the one that each
//! family of platform tables is read from.

use vstd::prelude::*;
use crate::guid::Guid;
use crate::known_tables::{
    acpi2_bytes, acpi2_guid, acpi_bytes, acpi_guid, smbios3_bytes, smbios3_guid, smbios_bytes,
    smbios_guid,
};

verus! {

/// One entry of the configuration table: which table it is, and where it lies.
///
/// The address is an opaque physical address. Nothing here reads what it points to.
#[derive(Clone, Copy, Debug)]
pub struct ConfigTableEntry {
    pub guid: Guid,
    pub address: usize,
}

/// The families of tables for which an anchor is kept.
#[derive(Clone, Copy, Debug, PartialEq, Eq, Structural)]
pub enum TableFamily {
    Acpi,
    Smbios,
}

/// Where a family's root table lies, and which version of the family it belongs to.
/// Version 0 with address 0 means that no table was found.
#[derive(Clone, Copy, Debug, PartialEq, Eq, Structural)]
pub struct Anchor {
    pub address: usize,
    pub version: u8,
}

/// The version that an identifier stands for within a family, 0 if it is not one of the
/// family's identifiers.
pub open spec fn family_version(family: TableFamily, guid: Seq<u8>) -> u8 {
    match family {
        TableFamily::Acpi => if guid == acpi2_bytes() {
            2
        } else if guid == acpi_bytes() {
            1
        } else {
            0
        },
        TableFamily::Smbios => if guid == smbios3_bytes() {
            3
        } else if guid == smbios_bytes() {
            1
        } else {
            0
        },
    }
}

/// The versions that the entries stand for, entry by entry.
pub open spec fn versions(family: TableFamily, entries: Seq<ConfigTableEntry>) -> Seq<u8> {
    entries.map_values(|entry: ConfigTableEntry| family_version(family, entry.guid@))
}

/// The highest version that any of the entries stands for, 0 if none belongs to the family.
pub open spec fn best_version(family: TableFamily, entries: Seq<ConfigTableEntry>) -> u8 {
    let offered = versions(family, entries);
    if offered.contains(3) {
        3
    } else if offered.contains(2) {
        2
    } else if offered.contains(1) {
        1
    } else {
        0
    }
}

/// The anchor after the entries were looked through, when it was `start` before.
///
/// It changes only if some entry stands for a higher version than `start` has. It then
/// takes the highest version on offer, from the first entry that offers it.
pub open spec fn resolve(
    family: TableFamily,
    start: Anchor,
    entries: Seq<ConfigTableEntry>,
) -> Anchor {
    let best = best_version(family, entries);
    match versions(family, entries).index_of_first(best) {
        Some(first) if best > start.version => Anchor {
            address: entries[first].address,
            version: best,
        },
        _ => start,
    }
}

impl TableFamily {
    /// The version that `guid` stands for in this family, 0 if it is none of its identifiers.
    pub fn version_of(self, guid: &Guid) -> (version: u8)
        ensures
            version == family_version(self, guid@),
    {
        match self {
            TableFamily::Acpi => {
                if *guid == acpi2_guid() {
                    2
                } else if *guid == acpi_guid() {
                    1
                } else {
                    0
                }
            },
            TableFamily::Smbios => {
                if *guid == smbios3_guid() {
                    3
                } else if *guid == smbios_guid() {
                    1
                } else {
                    0
                }
            },
        }
    }
}

impl Anchor {
    /// The anchor of a family of which nothing was found.
    pub open spec fn unset() -> Anchor {
        Anchor { address: 0, version: 0 }
    }

    /// Whether the anchor points at a table.
    pub open spec fn is_set(self) -> bool {
        self.version != 0 && self.address != 0
    }

    /// The anchor after one more entry was looked at: the entry's, if it stands for a
    /// strictly higher version, and this one otherwise.
    pub open spec fn offered(self, family: TableFamily, entry: ConfigTableEntry) -> Anchor {
        let version = family_version(family, entry.guid@);
        if version > self.version {
            Anchor { address: entry.address, version }
        } else {
            self
        }
    }

    /// Looks at one entry and keeps the better of the two.
    pub fn offer(self, family: TableFamily, entry: &ConfigTableEntry) -> (kept: Anchor)
        ensures
            kept == self.offered(family, *entry),
    {
        let version = family.version_of(&entry.guid);
        if version > self.version {
            Anchor { address: entry.address, version }
        } else {
            self
        }
    }

    /// Looks through the entries in order and keeps the best.
    pub fn resolve_from(self, family: TableFamily, entries: &[ConfigTableEntry]) -> (kept: Anchor)
        ensures
            kept == resolve(family, self, entries@),
    {
        let mut kept = self;
        let mut i: usize = 0;
        proof {
            assert(entries@.take(0) =~= Seq::<ConfigTableEntry>::empty());
            lemma_resolve_empty(family, self);
        }
        while i < entries.len()
            invariant
                i <= entries.len(),
                kept == resolve(family, self, entries@.take(i as int)),
            decreases entries.len() - i,
        {
            proof {
                assert(entries@.take(i + 1) =~= entries@.take(i as int).push(entries@[i as int]));
                lemma_resolve_push(family, self, entries@.take(i as int), entries@[i as int]);
            }
            kept = kept.offer(family, &entries[i]);
            i += 1;
        }
        assert(entries@.take(i as int) =~= entries@);
        kept
    }
}

/// Every entry stands for a version from 0 to 3, and none for more than the best.
pub proof fn lemma_best_version_bounds(family: TableFamily, entries: Seq<ConfigTableEntry>)
    ensures
        best_version(family, entries) <= 3,
        best_version(family, entries) != 0 ==> versions(family, entries).contains(
            best_version(family, entries),
        ),
        forall|i: int|
            0 <= i < entries.len() ==> #[trigger] family_version(family, entries[i].guid@)
                <= best_version(family, entries),
{
    let offered = versions(family, entries);
    assert forall|i: int| 0 <= i < entries.len() implies #[trigger] family_version(
        family,
        entries[i].guid@,
    ) <= best_version(family, entries) by {
        assert(offered[i] == family_version(family, entries[i].guid@));
        assert(offered.contains(offered[i]));
    }
}

/// With no entries to look through, the anchor stays as it was.
pub proof fn lemma_resolve_empty(family: TableFamily, start: Anchor)
    ensures
        resolve(family, start, Seq::<ConfigTableEntry>::empty()) == start,
{
    let offered = versions(family, Seq::<ConfigTableEntry>::empty());
    assert(offered.len() == 0);
    assert(best_version(family, Seq::<ConfigTableEntry>::empty()) == 0);
}

/// Looking through the entries and then at one more is looking through all of them.
pub proof fn lemma_resolve_push(
    family: TableFamily,
    start: Anchor,
    entries: Seq<ConfigTableEntry>,
    entry: ConfigTableEntry,
)
    ensures
        resolve(family, start, entries.push(entry)) == resolve(family, start, entries).offered(
            family,
            entry,
        ),
{
    let longer = entries.push(entry);
    let before = versions(family, entries);
    let after = versions(family, longer);
    let version = family_version(family, entry.guid@);
    let best = best_version(family, entries);
    let best_after = best_version(family, longer);
    assert(after =~= before.push(version));
    lemma_best_version_bounds(family, entries);
    lemma_best_version_bounds(family, longer);
    assert(after[entries.len() as int] == version);
    assert forall|v: u8| before.contains(v) implies after.contains(v) by {
        let i = choose|i: int| 0 <= i < before.len() && before[i] == v;
        assert(after[i] == v);
    }
    assert forall|v: u8| after.contains(v) && v != version implies before.contains(v) by {
        let i = choose|i: int| 0 <= i < after.len() && after[i] == v;
        assert(before[i] == v);
    }
    assert(after.contains(version));
    assert(best_after == if version > best {
        version
    } else {
        best
    });
    before.index_of_first_ensures(best);
    after.index_of_first_ensures(best_after);
    if version > best {
        assert(!before.contains(version)) by {
            if before.contains(version) {
                let i = choose|i: int| 0 <= i < before.len() && before[i] == version;
                assert(family_version(family, entries[i].guid@) == version);
            }
        }
        let first = after.index_of_first(best_after).unwrap();
        if first < entries.len() {
            assert(before[first] == version);
            assert(before.contains(version));
        }
        assert(first == entries.len());
    } else if best != 0 {
        let first = before.index_of_first(best).unwrap();
        let first_after = after.index_of_first(best_after).unwrap();
        assert(after[first] == best);
        if first_after < first {
            assert(before[first_after] == best);
        }
        assert(first_after == first);
    }
}

/// Looking through entries never lowers an anchor's version: it ends at the higher of the
/// version it had and the best on offer.
pub proof fn lemma_resolve_never_lowers(
    family: TableFamily,
    start: Anchor,
    entries: Seq<ConfigTableEntry>,
)
    ensures
        resolve(family, start, entries).version >= start.version,
        resolve(family, start, entries).version == if best_version(family, entries)
            > start.version {
            best_version(family, entries)
        } else {
            start.version
        },
{
    lemma_best_version_bounds(family, entries);
    versions(family, entries).index_of_first_ensures(best_version(family, entries));
}

/// Entries that offer nothing higher than the anchor has leave it as it was.
pub proof fn lemma_resolve_keeps_start(
    family: TableFamily,
    start: Anchor,
    entries: Seq<ConfigTableEntry>,
)
    requires
        forall|i: int|
            0 <= i < entries.len() ==> #[trigger] family_version(family, entries[i].guid@)
                <= start.version,
    ensures
        resolve(family, start, entries) == start,
{
    let offered = versions(family, entries);
    let best = best_version(family, entries);
    lemma_best_version_bounds(family, entries);
    if best != 0 {
        let i = choose|i: int| 0 <= i < offered.len() && offered[i] == best;
        assert(family_version(family, entries[i].guid@) == best);
    }
}

/// The anchor is taken from the first entry that offers the highest version, provided that
/// version is higher than the one the anchor had.
pub proof fn lemma_resolve_takes_first_best(
    family: TableFamily,
    start: Anchor,
    entries: Seq<ConfigTableEntry>,
    at: int,
)
    requires
        0 <= at < entries.len(),
        family_version(family, entries[at].guid@) > start.version,
        forall|i: int|
            0 <= i < entries.len() ==> #[trigger] family_version(family, entries[i].guid@)
                <= family_version(family, entries[at].guid@),
        forall|i: int|
            0 <= i < at ==> #[trigger] family_version(family, entries[i].guid@) < family_version(
                family,
                entries[at].guid@,
            ),
    ensures
        resolve(family, start, entries) == (Anchor {
            address: entries[at].address,
            version: family_version(family, entries[at].guid@),
        }),
{
    let offered = versions(family, entries);
    let best = best_version(family, entries);
    let version = family_version(family, entries[at].guid@);
    lemma_best_version_bounds(family, entries);
    assert(offered[at] == version);
    assert(offered.contains(version));
    if best != version {
        let i = choose|i: int| 0 <= i < offered.len() && offered[i] == best;
        assert(family_version(family, entries[i].guid@) == best);
    }
    offered.index_of_first_ensures(best);
    let first = offered.index_of_first(best).unwrap();
    if first < at {
        assert(family_version(family, entries[first].guid@) == offered[first]);
    }
}

/// Whether the entries that offer the highest version all give the same address, so that
/// it does not matter which of them is met first.
pub open spec fn best_offer_at_one_address(
    family: TableFamily,
    entries: Seq<ConfigTableEntry>,
) -> bool {
    forall|i: int, j: int|
        0 <= i < entries.len() && 0 <= j < entries.len() && #[trigger] family_version(
            family,
            entries[i].guid@,
        ) == best_version(family, entries) && #[trigger] family_version(family, entries[j].guid@)
            == best_version(family, entries) ==> entries[i].address == entries[j].address
}

/// The order of the entries does not matter: two listings of the same entries give the
/// same anchor, unless the highest version is offered at two different addresses and
/// replaces the one that the anchor had.
pub proof fn lemma_resolve_order_independent(
    family: TableFamily,
    start: Anchor,
    entries: Seq<ConfigTableEntry>,
    reordered: Seq<ConfigTableEntry>,
)
    requires
        entries.to_multiset() == reordered.to_multiset(),
        best_version(family, entries) > start.version ==> best_offer_at_one_address(
            family,
            entries,
        ),
    ensures
        resolve(family, start, entries) == resolve(family, start, reordered),
{
    let offered = versions(family, entries);
    let offered_too = versions(family, reordered);
    entries.to_multiset_ensures();
    reordered.to_multiset_ensures();
    assert forall|v: u8| offered.contains(v) implies offered_too.contains(v) by {
        let i = choose|i: int| 0 <= i < offered.len() && offered[i] == v;
        assert(entries.contains(entries[i]));
        assert(reordered.to_multiset().count(entries[i]) > 0);
        let k = choose|k: int| 0 <= k < reordered.len() && reordered[k] == entries[i];
        assert(offered_too[k] == v);
    }
    assert forall|v: u8| offered_too.contains(v) implies offered.contains(v) by {
        let i = choose|i: int| 0 <= i < offered_too.len() && offered_too[i] == v;
        assert(reordered.contains(reordered[i]));
        assert(entries.to_multiset().count(reordered[i]) > 0);
        let k = choose|k: int| 0 <= k < entries.len() && entries[k] == reordered[i];
        assert(offered[k] == v);
    }
    let best = best_version(family, entries);
    assert(best == best_version(family, reordered));
    lemma_best_version_bounds(family, entries);
    offered.index_of_first_ensures(best);
    offered_too.index_of_first_ensures(best);
    if best > start.version {
        let first = offered.index_of_first(best).unwrap();
        let first_too = offered_too.index_of_first(best).unwrap();
        assert(family_version(family, entries[first].guid@) == best);
        assert(family_version(family, reordered[first_too].guid@) == best);
        assert(reordered.contains(reordered[first_too]));
        assert(entries.to_multiset().count(reordered[first_too]) > 0);
        let k = choose|k: int| 0 <= k < entries.len() && entries[k] == reordered[first_too];
        assert(family_version(family, entries[k].guid@) == best);
    }
}

/// Wherever the ACPI 2.0 entry stands among the others, an anchor that was unset ends at
/// version 2 and at the address that the ACPI 2.0 entry gives.
pub proof fn lemma_acpi2_wins_in_any_order(entries: Seq<ConfigTableEntry>, at: int)
    requires
        0 <= at < entries.len(),
        entries[at].guid@ == acpi2_bytes(),
        forall|i: int|
            0 <= i < entries.len() && entries[i].guid@ == acpi2_bytes() ==> entries[i].address
                == entries[at].address,
    ensures
        resolve(TableFamily::Acpi, Anchor::unset(), entries) == (Anchor {
            address: entries[at].address,
            version: 2,
        }),
{
    let family = TableFamily::Acpi;
    let offered = versions(family, entries);
    assert(offered[at] == 2);
    assert(offered.contains(2));
    if offered.contains(3) {
        let i = choose|i: int| 0 <= i < offered.len() && offered[i] == 3;
        assert(family_version(family, entries[i].guid@) == 3);
    }
    offered.index_of_first_ensures(2);
    let first = offered.index_of_first(2).unwrap();
    assert(family_version(family, entries[first].guid@) == 2);
}

/// With an ACPI 1.0 entry and no ACPI 2.0 entry, an anchor that was unset ends at version 1
/// and at the address of the first ACPI 1.0 entry.
pub proof fn lemma_acpi1_alone(entries: Seq<ConfigTableEntry>, at: int)
    requires
        0 <= at < entries.len(),
        entries[at].guid@ == acpi_bytes(),
        forall|i: int| 0 <= i < entries.len() ==> entries[i].guid@ != acpi2_bytes(),
        forall|i: int| 0 <= i < at ==> entries[i].guid@ != acpi_bytes(),
    ensures
        resolve(TableFamily::Acpi, Anchor::unset(), entries) == (Anchor {
            address: entries[at].address,
            version: 1,
        }),
{
    assert(acpi_bytes()[0] != acpi2_bytes()[0]);
    lemma_resolve_takes_first_best(TableFamily::Acpi, Anchor::unset(), entries, at);
}

} // verus!
