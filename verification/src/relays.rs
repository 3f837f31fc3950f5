//! The relays: the fixed set of candidates, what probing has found out about
//! each, which one is selected, and the rule by which a probe result moves
//! the selection.

use vstd::prelude::*;
use crate::servers::opt_view;
use crate::text::{
    concat2, concat3, decimal, first_equal, lemma_first_equal, lemma_first_equal_is,
    lemma_first_equal_none, str_eq, u64_to_decimal,
};

verus! {

/// The port on which a relay answers probes.
pub const PING_PORT: u16 = 4000;

/// How many echo messages one probe sends.
pub const PING_COUNT: u32 = 10;

/// Milliseconds within which a relay must accept the connection.
pub const PING_TIMEOUT_MS: u64 = 5000;

/// Milliseconds within which a relay must echo a message.
pub const ECHO_TIMEOUT_MS: u64 = 2000;

/// A relay: its identity, its display name and its network host.
#[derive(Debug, Clone)]
pub struct Relay {
    pub id: String,
    pub name: String,
    pub host: String,
}

/// A relay with what probing has found out about it: the latency in
/// milliseconds, if it was reached, and whether the probe is still running.
#[derive(Debug, Clone)]
pub struct RelayWithPing {
    pub relay: Relay,
    pub ping: Option<u32>,
    pub checking: bool,
}

/// A relay as mathematical values.
pub struct RelayView {
    pub id: Seq<char>,
    pub name: Seq<char>,
    pub host: Seq<char>,
}

/// A relay with its probe result as mathematical values.
pub struct RelayWithPingView {
    pub relay: RelayView,
    pub ping: Option<u32>,
    pub checking: bool,
}

impl View for Relay {
    type V = RelayView;

    open spec fn view(&self) -> RelayView {
        RelayView { id: self.id@, name: self.name@, host: self.host@ }
    }
}

impl View for RelayWithPing {
    type V = RelayWithPingView;

    open spec fn view(&self) -> RelayWithPingView {
        RelayWithPingView { relay: self.relay@, ping: self.ping, checking: self.checking }
    }
}

/// The views of a list of relays.
pub open spec fn relay_views(relays: Seq<Relay>) -> Seq<RelayView> {
    relays.map_values(|r: Relay| r@)
}

/// The views of a list of relays with their probe results.
pub open spec fn probed_views(relays: Seq<RelayWithPing>) -> Seq<RelayWithPingView> {
    relays.map_values(|r: RelayWithPing| r@)
}

/// The domain under which every default relay has its host.
pub open spec fn relay_domain() -> Seq<char> {
    ".cm-ss13.com"@
}

/// The default relay with the given identity and display name: its host is
/// the identity followed by the relay domain.
pub open spec fn default_relay(id: Seq<char>, name: Seq<char>) -> RelayView {
    RelayView { id, name, host: id + relay_domain() }
}

/// The candidate set that the launcher is configured with.
pub open spec fn default_relays() -> Seq<RelayView> {
    seq![
        default_relay("direct"@, "Direct"@),
        default_relay("nyc"@, "NYC"@),
        default_relay("uk"@, "UK"@),
        default_relay("eu-e"@, "EU East"@),
        default_relay("eu-w"@, "EU West"@),
        default_relay("aus"@, "Australia"@),
        default_relay("us-e"@, "US East"@),
        default_relay("us-w"@, "US West"@),
        default_relay("asia-se"@, "SE Asia"@),
    ]
}

fn make_default_relay(id: &str, name: &str) -> (r: Relay)
    ensures
        r@ == default_relay(id@, name@),
{
    Relay { id: id.to_owned(), name: name.to_owned(), host: concat2(id, ".cm-ss13.com") }
}

/// The candidate set that the launcher is configured with.
pub fn get_default_relays() -> (relays: Vec<Relay>)
    ensures
        relay_views(relays@) == default_relays(),
{
    let relays = vec![
        make_default_relay("direct", "Direct"),
        make_default_relay("nyc", "NYC"),
        make_default_relay("uk", "UK"),
        make_default_relay("eu-e", "EU East"),
        make_default_relay("eu-w", "EU West"),
        make_default_relay("aus", "Australia"),
        make_default_relay("us-e", "US East"),
        make_default_relay("us-w", "US West"),
        make_default_relay("asia-se", "SE Asia"),
    ];
    assert(relay_views(relays@) =~= default_relays());
    relays
}

/// The identities of a list of relays, in order.
pub open spec fn ids_of(relays: Seq<RelayWithPingView>) -> Seq<Seq<char>> {
    relays.map_values(|r: RelayWithPingView| r.relay.id)
}

/// No two of the default relays have the same identity.
pub proof fn lemma_default_ids_distinct()
    ensures
        default_relays().map_values(|r: RelayView| r.id).no_duplicates(),
{
    reveal_strlit("direct");
    reveal_strlit("nyc");
    reveal_strlit("uk");
    reveal_strlit("eu-e");
    reveal_strlit("eu-w");
    reveal_strlit("aus");
    reveal_strlit("us-e");
    reveal_strlit("us-w");
    reveal_strlit("asia-se");
    let ids = default_relays().map_values(|r: RelayView| r.id);
    assert(ids[0] == "direct"@);
    assert(ids[1] == "nyc"@);
    assert(ids[2] == "uk"@);
    assert(ids[3] == "eu-e"@);
    assert(ids[4] == "eu-w"@);
    assert(ids[5] == "aus"@);
    assert(ids[6] == "us-e"@);
    assert(ids[7] == "us-w"@);
    assert(ids[8] == "asia-se"@);
    assert(ids[1][0] != ids[5][0]);
    assert(ids[3][3] != ids[4][3]);
    assert(ids[3][1] != ids[6][1]);
    assert(ids[3][1] != ids[7][1]);
    assert(ids[4][1] != ids[6][1]);
    assert(ids[4][1] != ids[7][1]);
    assert(ids[6][3] != ids[7][3]);
}

/// What is known of the relays: each candidate with its probe result, and
/// the identity of the selected relay (empty while none is selected).
#[derive(Debug)]
pub struct RelayState {
    pub relays: Vec<RelayWithPing>,
    pub selected: String,
}

/// The state of the relays as mathematical values.
pub struct RelayStateView {
    pub relays: Seq<RelayWithPingView>,
    pub selected: Seq<char>,
}

impl View for RelayState {
    type V = RelayStateView;

    open spec fn view(&self) -> RelayStateView {
        RelayStateView { relays: probed_views(self.relays@), selected: self.selected@ }
    }
}

/// A relay that has not been probed yet.
pub open spec fn unprobed(relay: RelayView) -> RelayWithPingView {
    RelayWithPingView { relay, ping: None, checking: true }
}

/// The state before any probe: every relay is being checked, none has a
/// latency, none is selected.
pub open spec fn initial_state(relays: Seq<RelayView>) -> RelayStateView {
    RelayStateView {
        relays: relays.map_values(|r: RelayView| unprobed(r)),
        selected: Seq::<char>::empty(),
    }
}

/// Whether a state is well formed: no two relays have the same identity.
pub open spec fn well_formed(s: RelayStateView) -> bool {
    ids_of(s.relays).no_duplicates()
}

/// Position of the relay with the given identity, if there is one.
pub open spec fn relay_position(relays: Seq<RelayWithPingView>, id: Seq<char>) -> Option<int> {
    first_equal(ids_of(relays), id)
}

/// The latency measured for the relay with the given identity; none where
/// there is no such relay or it was not reached.
pub open spec fn latency_of(relays: Seq<RelayWithPingView>, id: Seq<char>) -> Option<u32> {
    match relay_position(relays, id) {
        Some(i) => relays[i].ping,
        None => None,
    }
}

/// The host of the relay with the given identity, if there is such a relay.
pub open spec fn host_of(relays: Seq<RelayWithPingView>, id: Seq<char>) -> Option<Seq<char>> {
    match relay_position(relays, id) {
        Some(i) => Some(relays[i].relay.host),
        None => None,
    }
}

/// Whether every relay has been probed.
pub open spec fn all_probed(relays: Seq<RelayWithPingView>) -> bool {
    forall|i: int| 0 <= i < relays.len() ==> !(#[trigger] relays[i]).checking
}

/// The relays after the probe of one has completed: that relay has the
/// latency found and is no longer being checked; the others are as before.
/// An identity that no relay has changes nothing.
pub open spec fn with_probe(relays: Seq<RelayWithPingView>, id: Seq<char>, ping: Option<u32>) -> Seq<
    RelayWithPingView,
> {
    match relay_position(relays, id) {
        Some(i) => relays.update(
            i,
            RelayWithPingView { relay: relays[i].relay, ping, checking: false },
        ),
        None => relays,
    }
}

/// The rule of automatic selection: a relay that was reached with latency
/// `ping` takes the selection where none is selected, where the selected
/// relay is unknown or has no latency, or where `ping` is strictly below the
/// latency of the selected relay.
pub open spec fn should_select(s: RelayStateView, ping: u32) -> bool {
    ||| s.selected.len() == 0
    ||| latency_of(s.relays, s.selected) is None
    ||| ping < latency_of(s.relays, s.selected)->0
}

/// The state after the probe of one relay has completed: the result is
/// recorded, and the relay takes the selection where it was reached and the
/// rule of automatic selection says so. A result for an identity that no
/// relay has changes nothing.
pub open spec fn after_probe(s: RelayStateView, id: Seq<char>, ping: Option<u32>) -> RelayStateView {
    let recorded = RelayStateView { relays: with_probe(s.relays, id, ping), selected: s.selected };
    if relay_position(s.relays, id) is None {
        s
    } else {
        match ping {
            Some(p) => if should_select(recorded, p) {
                RelayStateView { relays: recorded.relays, selected: id }
            } else {
                recorded
            },
            None => recorded,
        }
    }
}

/// A copy of a relay with its probe result.
pub fn copy_probed(r: &RelayWithPing) -> (c: RelayWithPing)
    ensures
        c@ == r@,
{
    RelayWithPing {
        relay: Relay {
            id: r.relay.id.clone(),
            name: r.relay.name.clone(),
            host: r.relay.host.clone(),
        },
        ping: r.ping,
        checking: r.checking,
    }
}

impl RelayState {
    /// The well-formedness of the state: no two relays have the same identity.
    pub open spec fn wf(&self) -> bool {
        well_formed(self@)
    }

    /// The state before any probe, for a given set of candidates with
    /// distinct identities.
    pub fn with_relays(candidates: Vec<Relay>) -> (s: RelayState)
        requires
            relay_views(candidates@).map_values(|r: RelayView| r.id).no_duplicates(),
        ensures
            s@ == initial_state(relay_views(candidates@)),
            s.wf(),
    {
        let ghost wanted = initial_state(relay_views(candidates@)).relays;
        let mut relays: Vec<RelayWithPing> = Vec::new();
        let mut i: usize = 0;
        while i < candidates.len()
            invariant
                i <= candidates.len(),
                wanted == initial_state(relay_views(candidates@)).relays,
                probed_views(relays@) == wanted.take(i as int),
            decreases candidates.len() - i,
        {
            let c = &candidates[i];
            let probed = RelayWithPing {
                relay: Relay { id: c.id.clone(), name: c.name.clone(), host: c.host.clone() },
                ping: None,
                checking: true,
            };
            let ghost before = probed_views(relays@);
            relays.push(probed);
            proof {
                assert(probed_views(relays@) == before.push(probed@));
                assert(wanted.take(i + 1) == wanted.take(i as int).push(wanted[i as int]));
            }
            i += 1;
        }
        proof {
            assert(wanted.take(candidates.len() as int) == wanted);
            assert(ids_of(wanted) =~= relay_views(candidates@).map_values(|r: RelayView| r.id));
        }
        RelayState { relays, selected: String::new() }
    }

    /// The state before any probe, for the default candidates.
    pub fn new() -> (s: RelayState)
        ensures
            s@ == initial_state(default_relays()),
            s.wf(),
    {
        let candidates = get_default_relays();
        proof {
            lemma_default_ids_distinct();
        }
        RelayState::with_relays(candidates)
    }

    /// A snapshot of the relays with their probe results.
    pub fn get_relays(&self) -> (snapshot: Vec<RelayWithPing>)
        ensures
            probed_views(snapshot@) == self@.relays,
    {
        let mut snapshot: Vec<RelayWithPing> = Vec::new();
        let mut i: usize = 0;
        while i < self.relays.len()
            invariant
                i <= self.relays.len(),
                probed_views(snapshot@) == self@.relays.take(i as int),
            decreases self.relays.len() - i,
        {
            let ghost before = probed_views(snapshot@);
            let c = copy_probed(&self.relays[i]);
            snapshot.push(c);
            proof {
                assert(probed_views(snapshot@) == before.push(c@));
                assert(self@.relays.take(i + 1) == self@.relays.take(i as int).push(
                    self@.relays[i as int],
                ));
            }
            i += 1;
        }
        assert(self@.relays.take(self.relays.len() as int) == self@.relays);
        snapshot
    }

    /// The identity of the selected relay; empty while none is selected.
    pub fn get_selected(&self) -> (id: String)
        ensures
            id@ == self@.selected,
    {
        self.selected.clone()
    }

    /// Selects a relay by hand. Any identity is taken, also one that no
    /// relay has.
    pub fn set_selected(&mut self, id: String)
        ensures
            final(self)@.selected == id@,
            final(self)@.relays == old(self)@.relays,
            old(self).wf() ==> final(self).wf(),
    {
        self.selected = id;
    }

    fn position(&self, id: &str) -> (r: Option<usize>)
        ensures
            match r {
                Some(i) => relay_position(self@.relays, id@) == Some(i as int) && i
                    < self.relays.len() && self.relays@[i as int].relay.id@ == id@,
                None => relay_position(self@.relays, id@) is None,
            },
    {
        let ghost ids = ids_of(self@.relays);
        let mut i: usize = 0;
        while i < self.relays.len()
            invariant
                i <= self.relays.len(),
                ids == ids_of(self@.relays),
                forall|j: int| 0 <= j < i ==> ids[j] != id@,
            decreases self.relays.len() - i,
        {
            if str_eq(self.relays[i].relay.id.as_str(), id) {
                proof {
                    assert(ids[i as int] == id@);
                    lemma_first_equal_is(ids, id@, i as int);
                }
                return Some(i);
            }
            i += 1;
        }
        proof {
            lemma_first_equal_none(ids, id@);
        }
        None
    }

    /// The host of the selected relay; none while no relay is selected, and
    /// where the selected identity is one that no relay has.
    pub fn get_selected_host(&self) -> (host: Option<String>)
        ensures
            opt_view(host) == host_of(self@.relays, self@.selected),
    {
        match self.position(self.selected.as_str()) {
            Some(i) => Some(self.relays[i].relay.host.clone()),
            None => None,
        }
    }

    /// Whether every relay has been probed.
    pub fn all_relays_pinged(&self) -> (done: bool)
        ensures
            done == all_probed(self@.relays),
    {
        let mut i: usize = 0;
        while i < self.relays.len()
            invariant
                i <= self.relays.len(),
                forall|j: int| 0 <= j < i ==> !(#[trigger] self@.relays[j]).checking,
            decreases self.relays.len() - i,
        {
            if self.relays[i].checking {
                assert(self@.relays[i as int].checking);
                return false;
            }
            i += 1;
        }
        true
    }

    /// Records the result of the probe of one relay.
    pub fn update_relay_ping(&mut self, id: &str, ping: Option<u32>)
        ensures
            final(self)@.relays == with_probe(old(self)@.relays, id@, ping),
            final(self)@.selected == old(self)@.selected,
            old(self).wf() ==> final(self).wf(),
    {
        match self.position(id) {
            Some(i) => {
                let ghost before = self@.relays;
                let mut updated = copy_probed(&self.relays[i]);
                updated.ping = ping;
                updated.checking = false;
                self.relays.set(i, updated);
                assert(self@.relays =~= before.update(i as int, updated@));
                assert(ids_of(self@.relays) =~= ids_of(before));
            },
            None => {},
        }
    }

    /// Takes in the result of the probe of one relay: records it and, where
    /// the relay was reached and the rule of automatic selection says so,
    /// selects the relay. Gives the identity of the relay where it was
    /// selected by this call.
    pub fn record_probe(&mut self, id: &str, ping: Option<u32>) -> (selected: Option<String>)
        ensures
            final(self)@ == after_probe(old(self)@, id@, ping),
            match selected {
                Some(chosen) => chosen@ == id@ && final(self)@.selected == id@ && ping is Some
                    && relay_position(old(self)@.relays, id@) is Some && should_select(
                    RelayStateView {
                        relays: with_probe(old(self)@.relays, id@, ping),
                        selected: old(self)@.selected,
                    },
                    ping->0,
                ),
                None => final(self)@.selected == old(self)@.selected,
            },
            selected is Some == selects(old(self)@, id@, ping),
            old(self).wf() ==> final(self).wf(),
    {
        if self.position(id).is_none() {
            return None;
        }
        self.update_relay_ping(id, ping);
        match ping {
            Some(p) => {
                let current = match self.position(self.selected.as_str()) {
                    Some(i) => self.relays[i].ping,
                    None => None,
                };
                let take = self.selected.as_str().unicode_len() == 0 || match current {
                    None => true,
                    Some(c) => p < c,
                };
                if take {
                    self.selected = id.to_owned();
                    Some(id.to_owned())
                } else {
                    None
                }
            },
            None => None,
        }
    }
}

/// What the front end is told when the probe of a relay has completed.
#[derive(Debug)]
pub enum RelayNotice {
    /// The relay with this identity has been selected.
    Selected(String),
    /// The relays, with their probe results, are now these.
    Updated(Vec<RelayWithPing>),
}

/// A notice as mathematical values.
pub enum RelayNoticeView {
    Selected(Seq<char>),
    Updated(Seq<RelayWithPingView>),
}

impl View for RelayNotice {
    type V = RelayNoticeView;

    open spec fn view(&self) -> RelayNoticeView {
        match self {
            RelayNotice::Selected(id) => RelayNoticeView::Selected(id@),
            RelayNotice::Updated(relays) => RelayNoticeView::Updated(probed_views(relays@)),
        }
    }
}

/// The views of a list of notices.
pub open spec fn notice_views(notices: Seq<RelayNotice>) -> Seq<RelayNoticeView> {
    notices.map_values(|n: RelayNotice| n@)
}

/// Whether the result of a probe makes the probed relay the selected one.
pub open spec fn selects(s: RelayStateView, id: Seq<char>, ping: Option<u32>) -> bool {
    &&& relay_position(s.relays, id) is Some
    &&& ping is Some
    &&& should_select(
        RelayStateView { relays: with_probe(s.relays, id, ping), selected: s.selected },
        ping->0,
    )
}

/// What the front end is told when the probe of a relay has completed:
/// that the relay was selected, where it was; then, in every case, the full
/// list of relays as it is now.
pub open spec fn notices_for(s: RelayStateView, id: Seq<char>, ping: Option<u32>) -> Seq<
    RelayNoticeView,
> {
    let updated = RelayNoticeView::Updated(after_probe(s, id, ping).relays);
    if selects(s, id, ping) {
        seq![RelayNoticeView::Selected(id), updated]
    } else {
        seq![updated]
    }
}

impl RelayState {
    /// Takes in the result of the probe of one relay, as `record_probe`
    /// does, and gives what the front end is to be told, in order.
    pub fn probe_completed(&mut self, id: &str, ping: Option<u32>) -> (notices: Vec<RelayNotice>)
        ensures
            final(self)@ == after_probe(old(self)@, id@, ping),
            notice_views(notices@) == notices_for(old(self)@, id@, ping),
            old(self).wf() ==> final(self).wf(),
    {
        let selected = self.record_probe(id, ping);
        let updated = RelayNotice::Updated(self.get_relays());
        match selected {
            Some(chosen) => {
                let first = RelayNotice::Selected(chosen);
                let notices = vec![first, updated];
                assert(notice_views(notices@) =~= seq![first@, updated@]);
                notices
            },
            None => {
                let notices = vec![updated];
                assert(notice_views(notices@) =~= seq![updated@]);
                notices
            },
        }
    }
}

/// Recording a probe result keeps every relay in its place, with its
/// identity, name and host, and never sets a relay back to being checked.
pub proof fn law_probe_keeps_relays(s: RelayStateView, id: Seq<char>, ping: Option<u32>)
    ensures
        after_probe(s, id, ping).relays.len() == s.relays.len(),
        ids_of(after_probe(s, id, ping).relays) == ids_of(s.relays),
        forall|i: int|
            0 <= i < s.relays.len() ==> {
                let before = #[trigger] s.relays[i];
                let after = after_probe(s, id, ping).relays[i];
                &&& after.relay == before.relay
                &&& (after.checking ==> before.checking)
                &&& (before.relay.id == id && well_formed(s) ==> !after.checking && after.ping
                    == ping)
            },
{
    let t = after_probe(s, id, ping);
    lemma_first_equal(ids_of(s.relays), id);
    assert(ids_of(t.relays) =~= ids_of(s.relays));
    assert forall|i: int| 0 <= i < s.relays.len() implies {
        let before = #[trigger] s.relays[i];
        let after = t.relays[i];
        &&& after.relay == before.relay
        &&& (after.checking ==> before.checking)
        &&& (before.relay.id == id && well_formed(s) ==> !after.checking && after.ping == ping)
    } by {
        if s.relays[i].relay.id == id && well_formed(s) {
            let k = relay_position(s.relays, id)->0;
            assert(ids_of(s.relays)[k] == ids_of(s.relays)[i]);
        }
    }
}

/// The state after a series of probe results, taken in one after the other.
pub open spec fn after_probes(s: RelayStateView, results: Seq<(Seq<char>, Option<u32>)>)
    -> RelayStateView
    decreases results.len(),
{
    if results.len() == 0 {
        s
    } else {
        after_probe(after_probes(s, results.drop_last()), results.last().0, results.last().1)
    }
}

proof fn lemma_probes_keep_relays(s: RelayStateView, results: Seq<(Seq<char>, Option<u32>)>)
    ensures
        ids_of(after_probes(s, results).relays) == ids_of(s.relays),
        after_probes(s, results).relays.len() == s.relays.len(),
        forall|i: int|
            0 <= i < s.relays.len() ==> (#[trigger] after_probes(s, results).relays[i]).relay
                == s.relays[i].relay,
    decreases results.len(),
{
    if results.len() > 0 {
        let mid = after_probes(s, results.drop_last());
        lemma_probes_keep_relays(s, results.drop_last());
        law_probe_keeps_relays(mid, results.last().0, results.last().1);
        assert forall|i: int| 0 <= i < s.relays.len() implies (#[trigger] after_probes(
            s,
            results,
        ).relays[i]).relay == s.relays[i].relay by {
            assert(mid.relays[i].relay == s.relays[i].relay);
        }
    }
}

proof fn lemma_probed_stays_probed(
    s: RelayStateView,
    results: Seq<(Seq<char>, Option<u32>)>,
    i: int,
    k: int,
)
    requires
        well_formed(s),
        0 <= i < s.relays.len(),
        0 <= k < results.len(),
        results[k].0 == s.relays[i].relay.id,
    ensures
        !after_probes(s, results).relays[i].checking,
    decreases results.len(),
{
    let mid = after_probes(s, results.drop_last());
    lemma_probes_keep_relays(s, results.drop_last());
    law_probe_keeps_relays(mid, results.last().0, results.last().1);
    assert(mid.relays[i].relay == s.relays[i].relay);
    if k < results.len() - 1 {
        lemma_probed_stays_probed(s, results.drop_last(), i, k);
    }
}

/// A round of probes completes: once a result has come in for every relay,
/// in whatever order and whatever each result is, every relay has been
/// probed, and every relay is still there with its result.
pub proof fn law_probe_round_completes(s: RelayStateView, results: Seq<(Seq<char>, Option<u32>)>)
    requires
        well_formed(s),
        forall|i: int|
            0 <= i < s.relays.len() ==> exists|k: int|
                0 <= k < results.len() && (#[trigger] results[k]).0 == (
                #[trigger] s.relays[i]).relay.id,
    ensures
        all_probed(after_probes(s, results).relays),
        after_probes(s, results).relays.len() == s.relays.len(),
        ids_of(after_probes(s, results).relays) == ids_of(s.relays),
{
    lemma_probes_keep_relays(s, results);
    let t = after_probes(s, results);
    assert forall|i: int| 0 <= i < t.relays.len() implies !(#[trigger] t.relays[i]).checking by {
        let id = s.relays[i].relay.id;
        let k = choose|k: int| 0 <= k < results.len() && (#[trigger] results[k]).0 == id;
        lemma_probed_stays_probed(s, results, i, k);
    }
}

/// Automatic selection never downgrades. While the selected relay has a
/// latency, a probe result moves the selection only to a relay that was
/// reached with a strictly lower latency: a result that is not lower, or
/// that reached nothing, leaves the selection where it is.
pub proof fn law_selection_never_downgrades(s: RelayStateView, id: Seq<char>, ping: Option<u32>)
    requires
        s.selected.len() > 0,
        latency_of(with_probe(s.relays, id, ping), s.selected) is Some,
        ping matches Some(p) ==> p >= latency_of(with_probe(s.relays, id, ping), s.selected)->0,
    ensures
        after_probe(s, id, ping).selected == s.selected,
{
}

/// The other side of the rule: where a probe result moves the selection, the
/// relay it moves to is the one probed, that relay was reached, and its
/// latency is what the probe found; and either nothing was selected, or the
/// selected relay had no latency, or the new latency is strictly lower.
pub proof fn law_selection_moves_to_better(s: RelayStateView, id: Seq<char>, ping: Option<u32>)
    requires
        well_formed(s),
        after_probe(s, id, ping).selected != s.selected,
    ensures
        ping is Some,
        after_probe(s, id, ping).selected == id,
        latency_of(after_probe(s, id, ping).relays, id) == ping,
        s.selected.len() == 0 || latency_of(after_probe(s, id, ping).relays, s.selected) is None
            || ping->0 < latency_of(after_probe(s, id, ping).relays, s.selected)->0,
{
    lemma_first_equal(ids_of(s.relays), id);
    let t = after_probe(s, id, ping);
    assert(ids_of(t.relays) =~= ids_of(s.relays));
}

/// Automatic selection keeps the selection valid: where the selection was
/// empty or named one of the relays, it still is or does afterwards.
pub proof fn law_selection_stays_valid(s: RelayStateView, id: Seq<char>, ping: Option<u32>)
    requires
        s.selected.len() == 0 || relay_position(s.relays, s.selected) is Some,
    ensures
        ({
            let t = after_probe(s, id, ping);
            t.selected.len() == 0 || relay_position(t.relays, t.selected) is Some
        }),
{
    lemma_first_equal(ids_of(s.relays), id);
    let t = after_probe(s, id, ping);
    assert(ids_of(t.relays) =~= ids_of(s.relays));
}

/// The sum of a sequence of latencies.
pub open spec fn latency_sum(samples: Seq<u32>) -> nat
    decreases samples.len(),
{
    if samples.len() == 0 {
        0
    } else {
        latency_sum(samples.drop_last()) + samples.last() as nat
    }
}

/// The latency that a probe reports for the round trips it has measured:
/// their arithmetic mean, rounded down; nothing where it has measured none.
pub open spec fn mean_latency(samples: Seq<u32>) -> Option<u32> {
    if samples.len() == 0 {
        None
    } else {
        Some((latency_sum(samples) / samples.len()) as u32)
    }
}

proof fn lemma_sum_bound(samples: Seq<u32>)
    ensures
        latency_sum(samples) <= samples.len() * 0xffff_ffff,
    decreases samples.len(),
{
    if samples.len() > 0 {
        lemma_sum_bound(samples.drop_last());
        assert((samples.len() - 1) * 0xffff_ffff + 0xffff_ffff == samples.len() * 0xffff_ffff)
            by (nonlinear_arith);
    }
}

/// The mean of the measured round trips, rounded down.
pub fn compute_mean(samples: &Vec<u32>) -> (r: Option<u32>)
    ensures
        r == mean_latency(samples@),
{
    if samples.len() == 0 {
        return None;
    }
    let mut sum: u128 = 0;
    let mut i: usize = 0;
    while i < samples.len()
        invariant
            i <= samples.len(),
            sum == latency_sum(samples@.take(i as int)),
            sum <= i * 0xffff_ffff,
        decreases samples.len() - i,
    {
        proof {
            assert(samples@.take(i + 1).drop_last() == samples@.take(i as int));
            assert(i * 0xffff_ffff + 0xffff_ffff == (i + 1) * 0xffff_ffff) by (nonlinear_arith);
            assert(i * 0xffff_ffff <= 0xffff_ffff_ffff_ffff * 0xffff_ffff) by (nonlinear_arith)
                requires
                    i <= 0xffff_ffff_ffff_ffff,
            ;
        }
        sum = sum + samples[i] as u128;
        i += 1;
    }
    proof {
        assert(samples@.take(samples.len() as int) == samples@);
        let n = samples.len() as int;
        let total = sum as int;
        assert(total / n <= 0xffff_ffff) by (nonlinear_arith)
            requires
                0 <= total <= n * 0xffff_ffff,
                n > 0,
        ;
    }
    let mean = sum / (samples.len() as u128);
    Some(mean as u32)
}

/// The address at which a relay answers probes.
pub open spec fn probe_url(host: Seq<char>) -> Seq<char> {
    "wss://"@ + host + ":4000"@
}

/// The `n`-th echo message of a probe: the number `n` in base ten.
pub open spec fn echo_message(n: nat) -> Seq<char> {
    decimal(n)
}

/// What the driver of a probe is to do next.
#[derive(Debug)]
pub enum ProbeCommand {
    /// Connect to this address, waiting no longer than so many milliseconds.
    Connect { url: String, timeout_ms: u64 },
    /// Send this text, then wait for a reply no longer than so many
    /// milliseconds, measuring the time from sending to the reply.
    Send { text: String, timeout_ms: u64 },
    /// Close the connection if one was opened; the probe has ended with this
    /// latency, or without one.
    Finish { close: bool, latency: Option<u32> },
}

/// What the driver of a probe reports back.
#[derive(Debug)]
pub enum ProbeInput {
    /// Whether the connection was established in time.
    Connected(bool),
    /// The message could not be sent.
    SendFailed,
    /// What came back in time as a text message, if anything did, and the
    /// milliseconds it took.
    Reply { text: Option<String>, elapsed_ms: u32 },
}

/// The state of the probe of one relay.
#[derive(Debug)]
pub struct ProbeSession {
    /// Whether the probe has begun, is connected, or has ended.
    pub stage: ProbeStage,
    /// The number of the message that was sent last.
    pub sent: u32,
    /// The round trips measured so far, in milliseconds.
    pub samples: Vec<u32>,
}

/// How far a probe has come.
#[derive(Debug, Clone, Copy, PartialEq, Eq, Structural)]
pub enum ProbeStage {
    Connecting,
    Echoing,
    Finished,
}

/// A probe command as mathematical values.
pub enum ProbeCommandView {
    Connect { url: Seq<char>, timeout_ms: nat },
    Send { text: Seq<char>, timeout_ms: nat },
    Finish { close: bool, latency: Option<u32> },
}

impl View for ProbeCommand {
    type V = ProbeCommandView;

    open spec fn view(&self) -> ProbeCommandView {
        match self {
            ProbeCommand::Connect { url, timeout_ms } => ProbeCommandView::Connect {
                url: url@,
                timeout_ms: *timeout_ms as nat,
            },
            ProbeCommand::Send { text, timeout_ms } => ProbeCommandView::Send {
                text: text@,
                timeout_ms: *timeout_ms as nat,
            },
            ProbeCommand::Finish { close, latency } => ProbeCommandView::Finish {
                close: *close,
                latency: *latency,
            },
        }
    }
}

/// A report of the driver of a probe as mathematical values.
pub enum ProbeInputView {
    Connected(bool),
    SendFailed,
    Reply { text: Option<Seq<char>>, elapsed_ms: u32 },
}

impl View for ProbeInput {
    type V = ProbeInputView;

    open spec fn view(&self) -> ProbeInputView {
        match self {
            ProbeInput::Connected(ok) => ProbeInputView::Connected(*ok),
            ProbeInput::SendFailed => ProbeInputView::SendFailed,
            ProbeInput::Reply { text, elapsed_ms } => ProbeInputView::Reply {
                text: opt_view(*text),
                elapsed_ms: *elapsed_ms,
            },
        }
    }
}

/// The state of a probe as mathematical values.
pub struct ProbeSessionView {
    pub stage: ProbeStage,
    pub sent: nat,
    pub samples: Seq<u32>,
}

impl View for ProbeSession {
    type V = ProbeSessionView;

    open spec fn view(&self) -> ProbeSessionView {
        ProbeSessionView { stage: self.stage, sent: self.sent as nat, samples: self.samples@ }
    }
}

/// The step that ends a probe over an open connection: the connection is
/// closed, and the latency is the mean of what was measured.
pub open spec fn probe_end(m: ProbeSessionView, samples: Seq<u32>) -> (
    ProbeSessionView,
    ProbeCommandView,
) {
    (
        ProbeSessionView { stage: ProbeStage::Finished, sent: m.sent, samples },
        ProbeCommandView::Finish { close: true, latency: mean_latency(samples) },
    )
}

/// The transition function of a probe. A relay that does not accept the
/// connection in time is unreachable. Over an open connection the messages
/// `1` to `10` are sent one at a time, each after the echo of the one
/// before; a round trip counts where the echo is the message itself. The
/// first message that cannot be sent, or whose echo is missing or wrong, ends
/// the probe, as does the echo of the last message. A report that does not
/// fit the stage ends the probe too.
pub open spec fn probe_step_spec(m: ProbeSessionView, input: ProbeInputView) -> (
    ProbeSessionView,
    ProbeCommandView,
) {
    match (m.stage, input) {
        (ProbeStage::Connecting, ProbeInputView::Connected(ok)) => if ok {
            (
                ProbeSessionView { stage: ProbeStage::Echoing, sent: 1, samples: m.samples },
                ProbeCommandView::Send { text: echo_message(1), timeout_ms: ECHO_TIMEOUT_MS as nat },
            )
        } else {
            (
                ProbeSessionView { stage: ProbeStage::Finished, ..m },
                ProbeCommandView::Finish { close: false, latency: None },
            )
        },
        (ProbeStage::Echoing, ProbeInputView::Reply { text, elapsed_ms }) => if text == Some(
            echo_message(m.sent),
        ) {
            let samples = m.samples.push(elapsed_ms);
            if m.sent >= PING_COUNT {
                probe_end(m, samples)
            } else {
                (
                    ProbeSessionView {
                        stage: ProbeStage::Echoing,
                        sent: m.sent + 1,
                        samples,
                    },
                    ProbeCommandView::Send {
                        text: echo_message(m.sent + 1),
                        timeout_ms: ECHO_TIMEOUT_MS as nat,
                    },
                )
            }
        } else {
            probe_end(m, m.samples)
        },
        (ProbeStage::Echoing, _) => probe_end(m, m.samples),
        (ProbeStage::Connecting, _) => (
            ProbeSessionView { stage: ProbeStage::Finished, ..m },
            ProbeCommandView::Finish { close: false, latency: None },
        ),
        (ProbeStage::Finished, _) => (
            m,
            ProbeCommandView::Finish { close: false, latency: mean_latency(m.samples) },
        ),
    }
}

impl ProbeSession {
    /// Begins the probe of the relay at `host`: gives the state of the probe
    /// and the command to connect.
    pub fn begin(host: &str) -> (r: (ProbeSession, ProbeCommand))
        ensures
            r.0@ == (ProbeSessionView {
                stage: ProbeStage::Connecting,
                sent: 0,
                samples: Seq::<u32>::empty(),
            }),
            r.1@ == (ProbeCommandView::Connect {
                url: probe_url(host@),
                timeout_ms: PING_TIMEOUT_MS as nat,
            }),
    {
        let url = concat3("wss://", host, ":4000");
        (
            ProbeSession { stage: ProbeStage::Connecting, sent: 0, samples: Vec::new() },
            ProbeCommand::Connect { url, timeout_ms: PING_TIMEOUT_MS },
        )
    }

    fn end(self) -> (r: (ProbeSession, ProbeCommand))
        ensures
            (r.0@, r.1@) == probe_end(self@, self@.samples),
    {
        let latency = compute_mean(&self.samples);
        let mut session = self;
        session.stage = ProbeStage::Finished;
        (session, ProbeCommand::Finish { close: true, latency })
    }

    /// One step of a probe: takes what the driver reports and gives the
    /// state after it and the next command.
    pub fn step(self, input: ProbeInput) -> (r: (ProbeSession, ProbeCommand))
        ensures
            (r.0@, r.1@) == probe_step_spec(self@, input@),
    {
        match self.stage {
            ProbeStage::Connecting => {
                match input {
                    ProbeInput::Connected(true) => {
                        let mut session = self;
                        session.stage = ProbeStage::Echoing;
                        session.sent = 1;
                        (
                            session,
                            ProbeCommand::Send {
                                text: u64_to_decimal(1),
                                timeout_ms: ECHO_TIMEOUT_MS,
                            },
                        )
                    },
                    _ => {
                        let mut session = self;
                        session.stage = ProbeStage::Finished;
                        (session, ProbeCommand::Finish { close: false, latency: None })
                    },
                }
            },
            ProbeStage::Echoing => {
                match input {
                    ProbeInput::Reply { text: Some(text), elapsed_ms } => {
                        let expected = u64_to_decimal(self.sent as u64);
                        if str_eq(text.as_str(), expected.as_str()) {
                            let mut session = self;
                            session.samples.push(elapsed_ms);
                            if session.sent >= PING_COUNT {
                                session.end()
                            } else {
                                session.sent = session.sent + 1;
                                let text = u64_to_decimal(session.sent as u64);
                                (session, ProbeCommand::Send { text, timeout_ms: ECHO_TIMEOUT_MS })
                            }
                        } else {
                            self.end()
                        }
                    },
                    _ => self.end(),
                }
            },
            ProbeStage::Finished => {
                let latency = compute_mean(&self.samples);
                (self, ProbeCommand::Finish { close: false, latency })
            },
        }
    }
}

} // verus!
