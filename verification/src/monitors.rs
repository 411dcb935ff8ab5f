//! Reconciles the monitors that are attached right now with the stored
//! per-monitor preferences into one table keyed by device identity.

use vstd::prelude::*;

use crate::device_map::DeviceMap;
use crate::geometry::MonitorRect;

verus! {

/// One attached monitor, as the topology reader reports it.
#[derive(Debug)]
pub struct LiveMonitor {
    /// Stable identity of the physical display.
    pub device_id: String,
    pub friendly_name: String,
    pub rect: MonitorRect,
}

/// One row of the merged monitor table.
#[derive(Debug)]
pub struct MonitorEntry {
    pub device_id: String,
    pub friendly_name: String,
    pub enabled: bool,
    pub connected: bool,
}

/// A row of the merged table as plain mathematical values.
pub ghost struct MonitorEntryView {
    pub device_id: Seq<char>,
    pub friendly_name: Seq<char>,
    pub enabled: bool,
    pub connected: bool,
}

impl View for MonitorEntry {
    type V = MonitorEntryView;

    open spec fn view(&self) -> MonitorEntryView {
        MonitorEntryView {
            device_id: self.device_id@,
            friendly_name: self.friendly_name@,
            enabled: self.enabled,
            connected: self.connected,
        }
    }
}

/// The name shown for a monitor that is known but not attached.
pub open spec fn offline_name() -> Seq<char> {
    "(Offline)"@
}

/// Identity to friendly name, reading the attached monitors in order; a
/// later report of an identity replaces an earlier one.
pub open spec fn connected_names(live: Seq<LiveMonitor>) -> Map<Seq<char>, Seq<char>>
    decreases live.len(),
{
    if live.len() == 0 {
        Map::empty()
    } else {
        connected_names(live.drop_last()).insert(
            live.last().device_id@,
            live.last().friendly_name@,
        )
    }
}

/// The identities of the attached monitors, in the order reported.
pub open spec fn live_ids(live: Seq<LiveMonitor>) -> Seq<Seq<char>> {
    Seq::new(live.len(), |i: int| live[i].device_id@)
}

/// The identities of `ids` in the order in which each is first seen.
pub open spec fn first_seen(ids: Seq<Seq<char>>) -> Seq<Seq<char>>
    decreases ids.len(),
{
    if ids.len() == 0 {
        Seq::empty()
    } else {
        let before = first_seen(ids.drop_last());
        if before.contains(ids.last()) {
            before
        } else {
            before.push(ids.last())
        }
    }
}

/// The identities of `ids` that are not among `known`, in order.
pub open spec fn without(ids: Seq<Seq<char>>, known: Seq<Seq<char>>) -> Seq<Seq<char>>
    decreases ids.len(),
{
    if ids.len() == 0 {
        Seq::empty()
    } else {
        let before = without(ids.drop_last(), known);
        if known.contains(ids.last()) {
            before
        } else {
            before.push(ids.last())
        }
    }
}

/// The order of the merged table: the attached monitors first, then the
/// stored ones that are not attached.
pub open spec fn merged_order(connected: Seq<Seq<char>>, stored: Seq<Seq<char>>) -> Seq<
    Seq<char>,
> {
    connected + without(stored, connected)
}

/// The friendly names that a map of attached monitors holds.
pub open spec fn names_of(connected: DeviceMap<String>) -> Map<Seq<char>, Seq<char>> {
    Map::new(|k: Seq<char>| connected@.dom().contains(k), |k: Seq<char>| connected@[k]@)
}

/// The rows that a monitor table holds, as plain values.
pub open spec fn rows_of(table: DeviceMap<MonitorEntry>) -> Map<Seq<char>, MonitorEntryView> {
    Map::new(|k: Seq<char>| table@.dom().contains(k), |k: Seq<char>| table@[k]@)
}

/// The merged row for identity `id`. An attached monitor is connected, and
/// enabled unless the preferences say otherwise. A monitor known only from
/// the preferences is offline and keeps its stored flag.
pub open spec fn merged_entry(
    names: Map<Seq<char>, Seq<char>>,
    prefs: Map<Seq<char>, bool>,
    id: Seq<char>,
) -> MonitorEntryView {
    if names.dom().contains(id) {
        MonitorEntryView {
            device_id: id,
            friendly_name: names[id],
            enabled: if prefs.dom().contains(id) {
                prefs[id]
            } else {
                true
            },
            connected: true,
        }
    } else {
        MonitorEntryView {
            device_id: id,
            friendly_name: offline_name(),
            enabled: prefs[id],
            connected: false,
        }
    }
}

/// The merged table: one row for every identity that is attached or stored.
pub open spec fn merge_spec(names: Map<Seq<char>, Seq<char>>, prefs: Map<Seq<char>, bool>) -> Map<
    Seq<char>,
    MonitorEntryView,
> {
    Map::new(
        |k: Seq<char>| names.dom().contains(k) || prefs.dom().contains(k),
        |k: Seq<char>| merged_entry(names, prefs, k),
    )
}

/// Collects the attached monitors into a map from identity to friendly
/// name. Should an identity be reported twice, the later report stands.
pub fn collect_connected(live: &Vec<LiveMonitor>) -> (connected: DeviceMap<String>)
    ensures
        connected.wf(),
        names_of(connected) == connected_names(live@),
        connected.ids() == first_seen(live_ids(live@)),
{
    let mut connected: DeviceMap<String> = DeviceMap::new();
    let mut i: usize = 0;
    assert(live@.take(0) =~= Seq::<LiveMonitor>::empty());
    assert(names_of(connected) =~= connected_names(live@.take(0)));
    assert(live_ids(live@).take(0) =~= Seq::<Seq<char>>::empty());
    assert(connected.ids() =~= first_seen(live_ids(live@).take(0)));
    while i < live.len()
        invariant
            i <= live@.len(),
            connected.wf(),
            names_of(connected) == connected_names(live@.take(i as int)),
            connected.ids() == first_seen(live_ids(live@).take(i as int)),
        decreases live@.len() - i,
    {
        let ghost before = connected;
        let id = live[i].device_id.clone();
        let name = live[i].friendly_name.clone();
        connected.insert(id, name);
        proof {
            let next = live@.take(i as int + 1);
            assert(next.drop_last() =~= live@.take(i as int));
            assert(next.last() == live@[i as int]);
            assert(names_of(connected) =~= names_of(before).insert(
                live@[i as int].device_id@,
                live@[i as int].friendly_name@,
            ));
            let seen = live_ids(live@).take(i as int + 1);
            assert(seen.drop_last() =~= live_ids(live@).take(i as int));
            assert(seen.last() == live@[i as int].device_id@);
        }
        i += 1;
    }
    assert(live@.take(live@.len() as int) =~= live@);
    assert(live_ids(live@).take(live@.len() as int) =~= live_ids(live@));
    connected
}

/// Merges the attached monitors with the stored preferences. The result
/// depends on nothing but the two arguments, and neither is changed.
pub fn merge_monitors(connected: &DeviceMap<String>, prefs: &DeviceMap<bool>) -> (table: DeviceMap<
    MonitorEntry,
>)
    ensures
        table.wf(),
        rows_of(table) == merge_spec(names_of(*connected), prefs@),
        table.ids() == merged_order(connected.ids(), prefs.ids()),
        table.ids().len() == merge_spec(names_of(*connected), prefs@).dom().len(),
{
    let ghost names = names_of(*connected);
    let mut table: DeviceMap<MonitorEntry> = DeviceMap::new();
    let n = connected.len();
    let mut i: usize = 0;
    while i < n
        invariant
            n == connected.ids().len(),
            connected.wf(),
            names == names_of(*connected),
            i <= n,
            table.wf(),
            table.ids() == connected.ids().take(i as int),
            forall|k: Seq<char>| #[trigger]
                table@.dom().contains(k) ==> table@[k]@ == merged_entry(names, prefs@, k),
        decreases n - i,
    {
        let ghost before = table;
        let id = connected.id_at(i).clone();
        let name = connected.value_at(i).clone();
        let enabled = match prefs.get(id.as_str()) {
            Some(flag) => *flag,
            None => true,
        };
        proof {
            connected.lemma_entry(i as int);
            before.lemma_dom();
            if before.ids().contains(id@) {
                let j = before.ids().index_of(id@);
                assert(connected.ids()[j] == connected.ids()[i as int]);
            }
            assert(!before@.dom().contains(id@));
        }
        let entry = MonitorEntry {
            device_id: id.clone(),
            friendly_name: name,
            enabled,
            connected: true,
        };
        table.insert(id, entry);
        proof {
            assert(table.ids() =~= connected.ids().take(i as int + 1));
            assert(entry@ == merged_entry(names, prefs@, id@));
        }
        i += 1;
    }
    proof {
        assert(connected.ids().take(n as int) =~= connected.ids());
        table.lemma_dom();
        connected.lemma_dom();
        assert(table@.dom() =~= connected@.dom());
    }
    let m = prefs.len();
    let mut j: usize = 0;
    proof {
        assert(prefs.ids().take(0) =~= Seq::<Seq<char>>::empty());
        assert(table.ids() =~= connected.ids() + without(prefs.ids().take(0), connected.ids()));
    }
    while j < m
        invariant
            m == prefs.ids().len(),
            prefs.wf(),
            names == names_of(*connected),
            j <= m,
            table.wf(),
            connected.wf(),
            table.ids() == connected.ids() + without(prefs.ids().take(j as int), connected.ids()),
            forall|k: Seq<char>| #[trigger]
                table@.dom().contains(k) <==> (names.dom().contains(k) || prefs.ids().take(
                    j as int,
                ).contains(k)),
            forall|k: Seq<char>| #[trigger]
                table@.dom().contains(k) ==> table@[k]@ == merged_entry(names, prefs@, k),
        decreases m - j,
    {
        let ghost before = table;
        let id = prefs.id_at(j);
        proof {
            prefs.lemma_entry(j as int);
            let shorter = prefs.ids().take(j as int);
            let longer = prefs.ids().take(j as int + 1);
            assert(longer =~= shorter.push(id@));
            assert(longer.drop_last() =~= shorter);
            assert(longer.last() == id@);
            if shorter.contains(id@) {
                let a = shorter.index_of(id@);
                assert(prefs.ids()[a] == prefs.ids()[j as int]);
            }
            assert(!shorter.contains(id@));
            assert(table@.dom().contains(id@) == connected.ids().contains(id@));
            assert forall|k: Seq<char>| longer.contains(k) <==> (shorter.contains(k) || k
                == id@) by {
                if shorter.contains(k) {
                    let a = shorter.index_of(k);
                    assert(longer[a] == k);
                }
                if k == id@ {
                    assert(longer[j as int] == k);
                }
                if longer.contains(k) {
                    let a = longer.index_of(k);
                    if a < j {
                        assert(shorter[a] == k);
                    }
                }
            }
        }
        if !table.contains_key(id.as_str()) {
            let flag = *prefs.value_at(j);
            let entry = MonitorEntry {
                device_id: id.clone(),
                friendly_name: "(Offline)".to_owned(),
                enabled: flag,
                connected: false,
            };
            table.insert(id.clone(), entry);
            proof {
                assert(!names.dom().contains(id@));
                assert(entry@ == merged_entry(names, prefs@, id@));
                assert(table.ids() =~= connected.ids() + without(
                    prefs.ids().take(j as int + 1),
                    connected.ids(),
                ));
            }
        }
        j += 1;
    }
    proof {
        assert(prefs.ids().take(m as int) =~= prefs.ids());
        prefs.lemma_dom();
        assert(rows_of(table) =~= merge_spec(names, prefs@));
        table.lemma_dom();
        assert(table@.dom() =~= merge_spec(names, prefs@).dom());
    }
    table
}

/// The merge is a total function of its two arguments: it has exactly one
/// row for every identity that is attached or stored, no other row, and
/// each row carries the identity it is filed under.
pub proof fn lemma_merge_one_row_per_identity(
    names: Map<Seq<char>, Seq<char>>,
    prefs: Map<Seq<char>, bool>,
)
    ensures
        merge_spec(names, prefs).dom() == names.dom().union(prefs.dom()),
        forall|k: Seq<char>| #[trigger]
            merge_spec(names, prefs).dom().contains(k) ==> merge_spec(names, prefs)[k].device_id
                == k,
        forall|k: Seq<char>| #[trigger]
            names.dom().contains(k) ==> merge_spec(names, prefs)[k].connected,
        forall|k: Seq<char>|
            !names.dom().contains(k) && #[trigger] prefs.dom().contains(k) ==> !merge_spec(
                names,
                prefs,
            )[k].connected && merge_spec(names, prefs)[k].friendly_name == offline_name()
                && merge_spec(names, prefs)[k].enabled == prefs[k],
{
    assert(merge_spec(names, prefs).dom() =~= names.dom().union(prefs.dom()));
}

/// Merging the same inputs again gives the same table: two results for one
/// pair of inputs hold the same rows and the same number of them.
pub proof fn lemma_merge_repeatable(
    connected: DeviceMap<String>,
    prefs: DeviceMap<bool>,
    first: DeviceMap<MonitorEntry>,
    second: DeviceMap<MonitorEntry>,
)
    requires
        first.wf(),
        second.wf(),
        rows_of(first) == merge_spec(names_of(connected), prefs@),
        rows_of(second) == merge_spec(names_of(connected), prefs@),
        first.ids() == merged_order(connected.ids(), prefs.ids()),
        second.ids() == merged_order(connected.ids(), prefs.ids()),
    ensures
        rows_of(first) == rows_of(second),
        first@.dom() == second@.dom(),
        first.ids() == second.ids(),
        forall|i: int|
            0 <= i < first.ids().len() ==> (#[trigger] first.values()[i])@ == second.values()[i]@,
{
    first.lemma_dom();
    second.lemma_dom();
    assert(first@.dom() =~= rows_of(first).dom());
    assert(second@.dom() =~= rows_of(second).dom());
    assert forall|i: int| 0 <= i < first.ids().len() implies (#[trigger] first.values()[i])@
        == second.values()[i]@ by {
        first.lemma_entry(i);
        second.lemma_entry(i);
        let k = first.ids()[i];
        assert(rows_of(first)[k] == first@[k]@);
        assert(rows_of(second)[k] == second@[k]@);
    }
}

} // verus!
