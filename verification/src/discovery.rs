use vstd::prelude::*;
use vstd::utf8::*;
use crate::text::{same_bytes, spells, text_of};
use crate::wifi::{get_network_info, network_of, AccessPoint, AccessPointView, Network, NetworkView};

verus! {

/// An SSID that can be shown: it is text, and not the empty name of a hidden
/// network.
pub open spec fn is_visible(ssid: Seq<u8>) -> bool {
    valid_utf8(ssid) && ssid.len() > 0
}

/// Whether one of `aps` carries `ssid`.
pub open spec fn lists_ssid(aps: Seq<AccessPointView>, ssid: Seq<u8>) -> bool {
    exists|i: int| 0 <= i < aps.len() && (#[trigger] aps[i]).ssid == ssid
}

/// What a scan result is reduced to: the access points with a visible SSID,
/// one per SSID, in the order of the scan.
pub open spec fn discovered(raw: Seq<AccessPointView>) -> Seq<AccessPointView>
    decreases raw.len(),
{
    if raw.len() == 0 {
        Seq::empty()
    } else {
        let earlier = discovered(raw.drop_last());
        let ap = raw.last();
        if is_visible(ap.ssid) && !lists_ssid(earlier, ap.ssid) {
            earlier.push(ap)
        } else {
            earlier
        }
    }
}

/// Entry `i` of a scan result is kept: its SSID is visible and no entry
/// before it carries the same SSID.
pub open spec fn is_kept(raw: Seq<AccessPointView>, i: int) -> bool {
    &&& 0 <= i < raw.len()
    &&& is_visible(raw[i].ssid)
    &&& forall|j: int| 0 <= j < i ==> (#[trigger] raw[j]).ssid != raw[i].ssid
}

/// Every access point of a discovered list has an SSID that is text.
pub open spec fn all_visible(aps: Seq<AccessPointView>) -> bool {
    forall|i: int| 0 <= i < aps.len() ==> is_visible((#[trigger] aps[i]).ssid)
}

/// No two access points of the list share an SSID.
pub open spec fn distinct_ssids(aps: Seq<AccessPointView>) -> bool {
    forall|i: int, j: int|
        0 <= i < j < aps.len() ==> (#[trigger] aps[i]).ssid != (#[trigger] aps[j]).ssid
}

/// The places in the scan result from which the discovered list was taken,
/// one for each of its entries.
pub open spec fn origins(raw: Seq<AccessPointView>) -> Seq<int>
    decreases raw.len(),
{
    if raw.len() == 0 {
        Seq::empty()
    } else {
        let earlier = origins(raw.drop_last());
        let ap = raw.last();
        if is_visible(ap.ssid) && !lists_ssid(discovered(raw.drop_last()), ap.ssid) {
            earlier.push(raw.len() - 1)
        } else {
            earlier
        }
    }
}

/// The discovered list is the scan result's kept entries, each once, in the
/// order of the scan: entry `k` of the list is the scan's entry at
/// `origins(raw)[k]`, these places ascend, each is a kept one, and every kept
/// place is among them.
pub proof fn lemma_discovered_is_kept_entries(raw: Seq<AccessPointView>)
    ensures
        origins(raw).len() == discovered(raw).len(),
        forall|k: int|
            0 <= k < discovered(raw).len() ==> is_kept(raw, #[trigger] origins(raw)[k])
                && discovered(raw)[k] == raw[origins(raw)[k]],
        forall|k: int, l: int|
            0 <= k < l < origins(raw).len() ==> origins(raw)[k] < origins(raw)[l],
        forall|i: int| is_kept(raw, i) ==> #[trigger] origins(raw).contains(i),
    decreases raw.len(),
{
    if raw.len() > 0 {
        let front = raw.drop_last();
        let ap = raw.last();
        let n = raw.len() - 1;
        lemma_discovered_is_kept_entries(front);
        let found = discovered(front);
        let from = origins(front);
        assert forall|i: int| 0 <= i < n implies is_kept(front, i) == is_kept(raw, i) by {
            assert(front[i] == raw[i]);
            assert forall|j: int| 0 <= j < i implies front[j] == raw[j] by {}
            if is_kept(front, i) {
                assert forall|j: int| 0 <= j < i implies (#[trigger] raw[j]).ssid
                    != raw[i].ssid by {
                    assert(front[j].ssid != front[i].ssid);
                }
            }
            if is_kept(raw, i) {
                assert forall|j: int| 0 <= j < i implies (#[trigger] front[j]).ssid
                    != front[i].ssid by {
                    assert(raw[j].ssid != raw[i].ssid);
                }
            }
        }
        // The last entry is kept exactly when its SSID is visible and new.
        assert(is_visible(ap.ssid) ==> (lists_ssid(found, ap.ssid) <==> !is_kept(raw, n))) by {
            if is_visible(ap.ssid) {
                if lists_ssid(found, ap.ssid) {
                    let k = choose|k: int| 0 <= k < found.len() && (#[trigger] found[k]).ssid
                        == ap.ssid;
                    assert(is_kept(front, from[k]));
                    assert(raw[from[k]].ssid == raw[n].ssid);
                }
                if !is_kept(raw, n) {
                    let j = choose|j: int| 0 <= j < n && (#[trigger] raw[j]).ssid == raw[n].ssid;
                    lemma_first_with_ssid(front, j);
                    let f = first_with_ssid(front, j);
                    assert(is_kept(front, f));
                    assert(from.contains(f));
                    let k = choose|k: int| 0 <= k < from.len() && from[k] == f;
                    assert(found[k].ssid == ap.ssid);
                }
            }
        }
        assert forall|k: int| 0 <= k < discovered(raw).len() implies is_kept(
            raw,
            #[trigger] origins(raw)[k],
        ) && discovered(raw)[k] == raw[origins(raw)[k]] by {
            if k < found.len() {
                assert(is_kept(front, from[k]));
                assert(front[from[k]] == raw[from[k]]);
            }
        }
        assert forall|i: int| is_kept(raw, i) implies #[trigger] origins(raw).contains(i) by {
            if i < n {
                assert(is_kept(front, i));
                assert(from.contains(i));
                let k = choose|k: int| 0 <= k < from.len() && from[k] == i;
                assert(origins(raw)[k] == i);
            } else {
                assert(origins(raw)[origins(raw).len() - 1] == n);
            }
        }
    }
}

/// The first place at or before `j` whose entry carries the SSID of entry `j`.
pub open spec fn first_with_ssid(raw: Seq<AccessPointView>, j: int) -> int
    decreases j,
{
    if j <= 0 {
        0
    } else if exists|i: int| 0 <= i < j && (#[trigger] raw[i]).ssid == raw[j].ssid {
        first_with_ssid(raw, choose|i: int| 0 <= i < j && (#[trigger] raw[i]).ssid == raw[j].ssid)
    } else {
        j
    }
}

proof fn lemma_first_with_ssid(raw: Seq<AccessPointView>, j: int)
    requires
        0 <= j < raw.len(),
    ensures
        0 <= first_with_ssid(raw, j) <= j,
        raw[first_with_ssid(raw, j)].ssid == raw[j].ssid,
        forall|i: int|
            0 <= i < first_with_ssid(raw, j) ==> (#[trigger] raw[i]).ssid != raw[j].ssid,
    decreases j,
{
    if j > 0 && exists|i: int| 0 <= i < j && (#[trigger] raw[i]).ssid == raw[j].ssid {
        let i = choose|i: int| 0 <= i < j && (#[trigger] raw[i]).ssid == raw[j].ssid;
        lemma_first_with_ssid(raw, i);
    }
}

/// A discovered list holds at most one entry per SSID, and none whose SSID is
/// empty or is not text.
pub proof fn lemma_discovered_entries(raw: Seq<AccessPointView>)
    ensures
        distinct_ssids(discovered(raw)),
        all_visible(discovered(raw)),
        discovered(raw).len() <= raw.len(),
        forall|k: int|
            0 <= k < discovered(raw).len() ==> raw.contains(#[trigger] discovered(raw)[k]),
    decreases raw.len(),
{
    if raw.len() > 0 {
        lemma_discovered_entries(raw.drop_last());
        let earlier = discovered(raw.drop_last());
        assert forall|k: int| 0 <= k < discovered(raw).len() implies raw.contains(
            #[trigger] discovered(raw)[k],
        ) by {
            if k < earlier.len() {
                let e = earlier[k];
                assert(raw.drop_last().contains(e));
                let i = choose|i: int| 0 <= i < raw.drop_last().len() && raw.drop_last()[i] == e;
                assert(raw[i] == e);
            } else {
                assert(raw[raw.len() - 1] == discovered(raw)[k]);
            }
        }
    }
}

/// An SSID is found in the discovered list exactly when it is visible and some
/// entry of the scan carries it.
pub proof fn lemma_discovered_covers(raw: Seq<AccessPointView>, ssid: Seq<u8>)
    ensures
        lists_ssid(discovered(raw), ssid) <==> is_visible(ssid) && lists_ssid(raw, ssid),
    decreases raw.len(),
{
    if raw.len() > 0 {
        let front = raw.drop_last();
        let ap = raw.last();
        lemma_discovered_covers(front, ssid);
        lemma_discovered_entries(raw);
        let earlier = discovered(front);
        let found = discovered(raw);
        if lists_ssid(found, ssid) {
            let k = choose|k: int| 0 <= k < found.len() && (#[trigger] found[k]).ssid == ssid;
            assert(is_visible(found[k].ssid));
            if k < earlier.len() {
                assert(earlier[k].ssid == ssid);
                let i = choose|i: int| 0 <= i < front.len() && (#[trigger] front[i]).ssid == ssid;
                assert(raw[i].ssid == ssid);
            } else {
                assert(raw[raw.len() - 1].ssid == ssid);
            }
        }
        if is_visible(ssid) && lists_ssid(raw, ssid) {
            let i = choose|i: int| 0 <= i < raw.len() && (#[trigger] raw[i]).ssid == ssid;
            if i < front.len() {
                assert(front[i].ssid == ssid);
                let k = choose|k: int| 0 <= k < earlier.len() && (#[trigger] earlier[k]).ssid
                    == ssid;
                assert(found[k].ssid == ssid);
            } else if lists_ssid(earlier, ssid) {
                let k = choose|k: int| 0 <= k < earlier.len() && (#[trigger] earlier[k]).ssid
                    == ssid;
                assert(found[k].ssid == ssid);
            } else {
                assert(found[found.len() - 1].ssid == ssid);
            }
        }
    }
}

/// Discovering again changes nothing: a discovered list is its own discovery.
pub proof fn lemma_discovered_is_stable(raw: Seq<AccessPointView>)
    ensures
        discovered(discovered(raw)) == discovered(raw),
{
    lemma_discovered_entries(raw);
    lemma_clean_list_is_kept(discovered(raw));
}

/// A list without hidden, undecodable or repeated SSIDs is discovered as it is.
pub proof fn lemma_clean_list_is_kept(aps: Seq<AccessPointView>)
    requires
        all_visible(aps),
        distinct_ssids(aps),
    ensures
        discovered(aps) == aps,
    decreases aps.len(),
{
    if aps.len() > 0 {
        let front = aps.drop_last();
        assert(all_visible(front)) by {
            assert forall|i: int| 0 <= i < front.len() implies is_visible(
                (#[trigger] front[i]).ssid,
            ) by {
                assert(front[i] == aps[i]);
            }
        }
        assert(distinct_ssids(front)) by {
            assert forall|i: int, j: int| 0 <= i < j < front.len() implies (#[trigger] front[i]).ssid
                != (#[trigger] front[j]).ssid by {
                assert(front[i] == aps[i] && front[j] == aps[j]);
            }
        }
        lemma_clean_list_is_kept(front);
        if lists_ssid(front, aps.last().ssid) {
            let i = choose|i: int| 0 <= i < front.len() && (#[trigger] front[i]).ssid
                == aps.last().ssid;
            assert(aps[i].ssid != aps[aps.len() - 1].ssid);
        }
        assert(aps[aps.len() - 1] == aps.last());
        assert(is_visible(aps[aps.len() - 1].ssid));
        assert(front.push(aps.last()) =~= aps);
    }
}

/// Whether one of `aps` carries the SSID `ssid`.
pub fn carries_ssid(aps: &Vec<AccessPoint>, ssid: &[u8]) -> (yes: bool)
    ensures
        yes == lists_ssid(aps.deep_view(), ssid@),
{
    let mut i: usize = 0;
    while i < aps.len()
        invariant
            i <= aps.len(),
            forall|k: int| 0 <= k < i ==> (#[trigger] aps.deep_view()[k]).ssid != ssid@,
        decreases aps.len() - i,
    {
        if same_bytes(aps[i].ssid.as_slice(), ssid) {
            assert(aps.deep_view()[i as int].ssid == ssid@);
            return true;
        }
        i += 1;
    }
    false
}

/// Reduces a scan result to the list that is offered to the user: entries
/// whose SSID is not text are discarded, of several entries with one SSID the
/// first stays, and hidden networks (empty SSID) are dropped. The order of the
/// scan is kept.
pub fn discover(raw: &Vec<AccessPoint>) -> (found: Vec<AccessPoint>)
    ensures
        found.deep_view() == discovered(raw.deep_view()),
        distinct_ssids(found.deep_view()),
        all_visible(found.deep_view()),
        found.len() <= raw.len(),
{
    let mut found: Vec<AccessPoint> = Vec::new();
    let mut i: usize = 0;
    assert(raw.deep_view().take(0) =~= Seq::empty());
    assert(found.deep_view() =~= Seq::empty());
    while i < raw.len()
        invariant
            i <= raw.len(),
            found.deep_view() == discovered(raw.deep_view().take(i as int)),
        decreases raw.len() - i,
    {
        let ap = &raw[i];
        let ghost before = found.deep_view();
        let ghost front = raw.deep_view().take(i as int);
        let ghost upto = raw.deep_view().take(i + 1);
        proof {
            assert(upto.drop_last() =~= front);
            assert(upto.last() == ap@);
        }
        let shown = ap.ssid.len() > 0 && core::str::from_utf8(ap.ssid.as_slice()).is_ok();
        if shown && !carries_ssid(&found, ap.ssid.as_slice()) {
            found.push(ap.duplicate());
            assert(found.deep_view() =~= before.push(ap@));
        }
        i += 1;
    }
    proof {
        assert(raw.deep_view().take(raw.len() as int) =~= raw.deep_view());
        lemma_discovered_entries(raw.deep_view());
    }
    found
}

/// The SSIDs of a discovered list, as text, in its order.
pub fn get_access_points_ssids(access_points: &Vec<AccessPoint>) -> (ssids: Vec<String>)
    requires
        all_visible(access_points.deep_view()),
    ensures
        ssids.len() == access_points.len(),
        forall|i: int|
            0 <= i < ssids.len() ==> (#[trigger] ssids[i])@ == decode_utf8(access_points[i].ssid@),
{
    let mut ssids: Vec<String> = Vec::new();
    let mut i: usize = 0;
    while i < access_points.len()
        invariant
            i <= access_points.len(),
            all_visible(access_points.deep_view()),
            ssids.len() == i,
            forall|k: int|
                0 <= k < i ==> (#[trigger] ssids[k])@ == decode_utf8(access_points[k].ssid@),
        decreases access_points.len() - i,
    {
        assert(is_visible(access_points.deep_view()[i as int].ssid));
        ssids.push(access_points[i].ssid_string());
        i += 1;
    }
    ssids
}

/// The listing of every access point, in order.
pub open spec fn networks_of(aps: Seq<AccessPointView>) -> Seq<NetworkView> {
    aps.map_values(|ap: AccessPointView| network_of(ap))
}

/// The network list that is sent to the configuration page.
pub fn get_networks(access_points: &Vec<AccessPoint>) -> (networks: Vec<Network>)
    requires
        all_visible(access_points.deep_view()),
    ensures
        networks.deep_view() == networks_of(access_points.deep_view()),
{
    let mut networks: Vec<Network> = Vec::new();
    let mut i: usize = 0;
    while i < access_points.len()
        invariant
            i <= access_points.len(),
            all_visible(access_points.deep_view()),
            networks.len() == i,
            forall|k: int|
                0 <= k < i ==> (#[trigger] networks[k])@ == network_of(access_points[k]@),
        decreases access_points.len() - i,
    {
        assert(is_visible(access_points.deep_view()[i as int].ssid));
        networks.push(get_network_info(&access_points[i]));
        i += 1;
    }
    assert(networks.deep_view() =~= networks_of(access_points.deep_view()));
    networks
}

/// Where the first access point whose SSID reads `ssid` stands, if there is
/// one.
pub open spec fn position_of(aps: Seq<AccessPointView>, ssid: Seq<char>) -> Option<int>
    decreases aps.len(),
{
    if aps.len() == 0 {
        None
    } else if text_of(aps[0].ssid) == Some(ssid) {
        Some(0)
    } else {
        match position_of(aps.drop_first(), ssid) {
            Some(i) => Some(i + 1),
            None => None,
        }
    }
}

/// `position_of` finds the first match, and nothing where there is none.
pub proof fn lemma_position_of(aps: Seq<AccessPointView>, ssid: Seq<char>)
    ensures
        match position_of(aps, ssid) {
            Some(i) => {
                &&& 0 <= i < aps.len()
                &&& text_of(aps[i].ssid) == Some(ssid)
                &&& forall|j: int| 0 <= j < i ==> text_of((#[trigger] aps[j]).ssid) != Some(ssid)
            },
            None => forall|j: int|
                0 <= j < aps.len() ==> text_of((#[trigger] aps[j]).ssid) != Some(ssid),
        },
    decreases aps.len(),
{
    if aps.len() > 0 && text_of(aps[0].ssid) != Some(ssid) {
        let rest = aps.drop_first();
        lemma_position_of(rest, ssid);
        match position_of(rest, ssid) {
            Some(i) => {
                assert(rest[i] == aps[i + 1]);
                assert forall|j: int| 0 <= j < i + 1 implies text_of((#[trigger] aps[j]).ssid)
                    != Some(ssid) by {
                    if j > 0 {
                        assert(rest[j - 1] == aps[j]);
                    }
                }
            },
            None => {
                assert forall|j: int| 0 <= j < aps.len() implies text_of(
                    (#[trigger] aps[j]).ssid,
                ) != Some(ssid) by {
                    if j > 0 {
                        assert(rest[j - 1] == aps[j]);
                    }
                }
            },
        }
    }
}

/// Looks for the access point whose SSID, read as text, is exactly `ssid`,
/// and gives the place of the first such one.
pub fn find_access_point(access_points: &Vec<AccessPoint>, ssid: &str) -> (found: Option<usize>)
    ensures
        found is Some <==> position_of(access_points.deep_view(), ssid@) is Some,
        found matches Some(i) ==> position_of(access_points.deep_view(), ssid@) == Some(i as int)
            && i < access_points.len(),
{
    let mut i: usize = 0;
    proof {
        lemma_position_of(access_points.deep_view(), ssid@);
    }
    while i < access_points.len()
        invariant
            i <= access_points.len(),
            forall|j: int|
                0 <= j < i ==> text_of((#[trigger] access_points.deep_view()[j]).ssid) != Some(
                    ssid@,
                ),
        decreases access_points.len() - i,
    {
        if spells(access_points[i].ssid.as_slice(), ssid) {
            proof {
                let aps = access_points.deep_view();
                lemma_position_of(aps, ssid@);
                assert(text_of(aps[i as int].ssid) == Some(ssid@));
            }
            return Some(i);
        }
        i += 1;
    }
    proof {
        let aps = access_points.deep_view();
        lemma_position_of(aps, ssid@);
        if position_of(aps, ssid@) is Some {
            let p = position_of(aps, ssid@)->0;
            assert(text_of(aps[p].ssid) == Some(ssid@));
        }
    }
    None
}

} // verus!
