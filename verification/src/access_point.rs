//! Scanned access points and the filtering pipeline applied to every scan.
//!
//! A raw scan result may hold entries whose SSID is not text, several
//! entries for one SSID, and hidden (empty-SSID) entries.  The pipeline
//! drops undecodable SSIDs, drops duplicate SSIDs keeping the first
//! occurrence (scan order, typically strongest first), and drops hidden
//! entries.  The surviving list always has unique, non-empty, decodable
//! SSIDs — the invariant the command handler relies on.

use vstd::prelude::*;
use vstd::utf8::valid_utf8;

use crate::security::SecurityFlags;
use crate::text::{clone_bytes, slice_eq_bytes, string_from_utf8};

verus! {

/// One visible wireless network, as reported by a scan.  The SSID is raw
/// bytes: it may be empty (hidden network) or not valid UTF-8.
#[derive(Clone, Debug, PartialEq)]
pub struct AccessPoint {
    /// Raw SSID bytes.
    pub ssid: Vec<u8>,
    /// Signal strength indication.
    pub strength: u32,
    /// Raw security capability flags.
    pub flags: SecurityFlags,
}

/// Ghost mirror of [`AccessPoint`].
#[verifier::ext_equal]
pub struct ApView {
    pub ssid: Seq<u8>,
    pub strength: u32,
    pub flags: SecurityFlags,
}

impl View for AccessPoint {
    type V = ApView;

    open spec fn view(&self) -> ApView {
        ApView { ssid: self.ssid@, strength: self.strength, flags: self.flags }
    }
}

impl DeepView for AccessPoint {
    type V = ApView;

    open spec fn deep_view(&self) -> ApView {
        self.view()
    }
}

/// An SSID that survives the pipeline: decodable text and not hidden.
pub open spec fn ap_usable(ssid: Seq<u8>) -> bool {
    valid_utf8(ssid) && ssid.len() > 0
}

/// Whether some entry of `aps` carries exactly this SSID.
pub open spec fn ssid_listed(aps: Seq<ApView>, ssid: Seq<u8>) -> bool {
    exists|i: int| 0 <= i < aps.len() && aps[i].ssid == ssid
}

/// The filtering pipeline over a whole scan result: keep an entry when its
/// SSID is usable and no earlier kept entry already carries it.
pub open spec fn spec_filter(aps: Seq<ApView>) -> Seq<ApView>
    decreases aps.len(),
{
    if aps.len() == 0 {
        Seq::empty()
    } else {
        let pre = spec_filter(aps.drop_last());
        let ap = aps.last();
        if ap_usable(ap.ssid) && !ssid_listed(pre, ap.ssid) {
            pre.push(ap)
        } else {
            pre
        }
    }
}

/// All SSIDs in the list are usable.
pub open spec fn all_usable(aps: Seq<ApView>) -> bool {
    forall|i: int| 0 <= i < aps.len() ==> ap_usable(#[trigger] aps[i].ssid)
}

/// No SSID occurs twice in the list.
pub open spec fn ssids_distinct(aps: Seq<ApView>) -> bool {
    forall|i: int, j: int|
        0 <= i < j < aps.len() ==> #[trigger] aps[i].ssid != #[trigger] aps[j].ssid
}

/// Copy of one access point.
pub fn clone_access_point(ap: &AccessPoint) -> (r: AccessPoint)
    ensures
        r@ == ap@,
{
    AccessPoint { ssid: clone_bytes(&ap.ssid), strength: ap.strength, flags: ap.flags }
}

/// Whether `list` already holds an entry with this SSID.
fn ssid_in(list: &Vec<AccessPoint>, ssid: &Vec<u8>) -> (r: bool)
    ensures
        r == ssid_listed(list.deep_view(), ssid@),
{
    let n = list.len();
    let mut i: usize = 0;
    while i < n
        invariant
            n == list.deep_view().len(),
            i <= n,
            forall|j: int| 0 <= j < i ==> #[trigger] list.deep_view()[j].ssid != ssid@,
        decreases n - i,
    {
        if slice_eq_bytes(list[i].ssid.as_slice(), ssid.as_slice()) {
            assert(list.deep_view()[i as int].ssid == ssid@);
            return true;
        }
        i += 1;
    }
    false
}

/// Whether this SSID survives the pipeline's per-entry tests: decodable as
/// text and non-empty.
fn ssid_usable(ssid: &Vec<u8>) -> (r: bool)
    ensures
        r == ap_usable(ssid@),
{
    string_from_utf8(ssid).is_some() && ssid.len() > 0
}

/// Apply the filtering pipeline to a raw scan result: drop entries whose
/// SSID is not text, drop duplicate SSIDs keeping the first occurrence,
/// and drop hidden (empty) SSIDs.
pub fn filter_access_points(aps: &Vec<AccessPoint>) -> (r: Vec<AccessPoint>)
    ensures
        r.deep_view() == spec_filter(aps.deep_view()),
{
    let n = aps.len();
    let mut r: Vec<AccessPoint> = Vec::new();
    assert(aps.deep_view().take(0) =~= Seq::<ApView>::empty());
    for i in 0..n
        invariant
            n == aps.deep_view().len(),
            r.deep_view() == spec_filter(aps.deep_view().take(i as int)),
    {
        let ap = &aps[i];
        if ssid_usable(&ap.ssid) && !ssid_in(&r, &ap.ssid) {
            r.push(clone_access_point(ap));
        }
        proof {
            let s = aps.deep_view();
            assert(s.take(i + 1).drop_last() =~= s.take(i as int));
            assert(s.take(i + 1).last() == s[i as int]);
            assert(r.deep_view() =~= spec_filter(s.take(i + 1)));
        }
    }
    proof {
        assert(aps.deep_view().take(n as int) =~= aps.deep_view());
    }
    r
}

/// First entry carrying exactly the UTF-8 encoding of `ssid`, if any.
pub fn find_access_point(aps: &Vec<AccessPoint>, ssid: &str) -> (r: Option<usize>)
    ensures
        match r {
            Some(i) => {
                &&& i < aps.deep_view().len()
                &&& aps.deep_view()[i as int].ssid == vstd::utf8::encode_utf8(ssid@)
                &&& forall|j: int|
                    0 <= j < i ==> #[trigger] aps.deep_view()[j].ssid != vstd::utf8::encode_utf8(
                        ssid@,
                    )
            },
            None => forall|j: int|
                0 <= j < aps.deep_view().len() ==> #[trigger] aps.deep_view()[j].ssid
                    != vstd::utf8::encode_utf8(ssid@),
        },
{
    let target = ssid.as_bytes();
    let n = aps.len();
    let mut i: usize = 0;
    while i < n
        invariant
            n == aps.deep_view().len(),
            i <= n,
            target@ == vstd::utf8::encode_utf8(ssid@),
            forall|j: int|
                0 <= j < i ==> #[trigger] aps.deep_view()[j].ssid != vstd::utf8::encode_utf8(
                    ssid@,
                ),
        decreases n - i,
    {
        if slice_eq_bytes(aps[i].ssid.as_slice(), target) {
            return Some(i);
        }
        i += 1;
    }
    None
}

/// The pipeline only keeps usable SSIDs and never keeps one twice.
pub proof fn lemma_filter_wf(aps: Seq<ApView>)
    ensures
        all_usable(spec_filter(aps)),
        ssids_distinct(spec_filter(aps)),
    decreases aps.len(),
{
    if aps.len() == 0 {
    } else {
        lemma_filter_wf(aps.drop_last());
        let pre = spec_filter(aps.drop_last());
        let ap = aps.last();
        if ap_usable(ap.ssid) && !ssid_listed(pre, ap.ssid) {
            let f = pre.push(ap);
            assert forall|i: int, j: int| 0 <= i < j < f.len() implies #[trigger] f[i].ssid
                != #[trigger] f[j].ssid by {
                if j == f.len() - 1 {
                    assert(f[i] == pre[i]);
                    if f[i].ssid == ap.ssid {
                        assert(ssid_listed(pre, ap.ssid));
                    }
                }
            }
        }
    }
}

/// Filtering an already-filtered list changes nothing.
pub proof fn lemma_filter_fixed(aps: Seq<ApView>)
    requires
        all_usable(aps),
        ssids_distinct(aps),
    ensures
        spec_filter(aps) == aps,
    decreases aps.len(),
{
    if aps.len() == 0 {
        assert(spec_filter(aps) =~= aps);
    } else {
        let head = aps.drop_last();
        assert(all_usable(head)) by {
            assert forall|i: int| 0 <= i < head.len() implies ap_usable(
                #[trigger] head[i].ssid,
            ) by {
                assert(head[i] == aps[i]);
            }
        }
        assert(ssids_distinct(head)) by {
            assert forall|i: int, j: int| 0 <= i < j < head.len() implies #[trigger] head[i].ssid
                != #[trigger] head[j].ssid by {
                assert(head[i] == aps[i] && head[j] == aps[j]);
            }
        }
        lemma_filter_fixed(head);
        let ap = aps.last();
        assert(ap_usable(ap.ssid));
        if ssid_listed(head, ap.ssid) {
            let i = choose|i: int| 0 <= i < head.len() && head[i].ssid == ap.ssid;
            assert(aps[i].ssid == aps[aps.len() - 1].ssid);
            assert(false);
        }
        assert(spec_filter(aps) =~= aps);
    }
}

/// Deduplication by SSID is idempotent: filtering the same raw results
/// twice yields the same list as filtering them once.
pub proof fn lemma_filter_idempotent(aps: Seq<ApView>)
    ensures
        spec_filter(spec_filter(aps)) == spec_filter(aps),
{
    lemma_filter_wf(aps);
    lemma_filter_fixed(spec_filter(aps));
}

/// A scan in which no entry is usable filters to the empty list.
pub proof fn lemma_filter_unusable(aps: Seq<ApView>)
    requires
        forall|i: int| 0 <= i < aps.len() ==> !ap_usable(#[trigger] aps[i].ssid),
    ensures
        spec_filter(aps) == Seq::<ApView>::empty(),
    decreases aps.len(),
{
    if aps.len() == 0 {
        assert(spec_filter(aps) =~= Seq::<ApView>::empty());
    } else {
        let head = aps.drop_last();
        assert forall|i: int| 0 <= i < head.len() implies !ap_usable(
            #[trigger] head[i].ssid,
        ) by {
            assert(head[i] == aps[i]);
        }
        lemma_filter_unusable(head);
        assert(!ap_usable(aps.last().ssid));
    }
}

} // verus!
