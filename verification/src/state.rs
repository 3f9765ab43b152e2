//! The sequencer's and indexer's view of zone state: the messages that were
//! published by us and are still pending, and the messages that were
//! finalized on the chain, each list in order of arrival.

use vstd::prelude::*;

verus! {

/// The identifier of a zone message: a 32-byte digest.
#[derive(Clone, Copy, Debug)]
pub struct MsgId(pub [u8; 32]);

impl View for MsgId {
    type V = Seq<u8>;

    open spec fn view(&self) -> Seq<u8> {
        self.0@
    }
}

impl MsgId {
    /// Compares two identifiers byte by byte.
    pub fn same_as(&self, other: &MsgId) -> (r: bool)
        ensures
            r == (self@ == other@),
    {
        let mut i: usize = 0;
        while i < 32
            invariant
                i <= 32,
                self@.len() == 32,
                other@.len() == 32,
                forall|j: int| 0 <= j < i ==> self@[j] == other@[j],
            decreases 32 - i,
        {
            if self.0[i] != other.0[i] {
                return false;
            }
            i = i + 1;
        }
        assert(self@ =~= other@);
        true
    }
}

/// The abstract value of a message: its identifier and its payload bytes.
pub type MsgView = (Seq<u8>, Seq<u8>);

/// A zone message as the state keeps it.
#[derive(Debug)]
pub struct Msg {
    pub msg_id: MsgId,
    pub payload: Vec<u8>,
}

impl View for Msg {
    type V = MsgView;

    open spec fn view(&self) -> MsgView {
        (self.msg_id@, self.payload@)
    }
}

impl Msg {
    /// Builds a message from an identifier and a copy of its payload.
    pub fn from_payload(msg_id: MsgId, payload: &[u8]) -> (r: Msg)
        ensures
            r@ == (msg_id@, payload@),
    {
        Msg { msg_id, payload: vstd::slice::slice_to_vec(payload) }
    }
}

/// What the chain reports of one inscription: the message identifier and the
/// inscribed payload.
#[derive(Debug)]
pub struct InscriptionInfo {
    pub this_msg: MsgId,
    pub payload: Vec<u8>,
}

impl View for InscriptionInfo {
    type V = MsgView;

    open spec fn view(&self) -> MsgView {
        (self.this_msg@, self.payload@)
    }
}

impl InscriptionInfo {
    /// A copy of this inscription.
    pub fn duplicate(&self) -> (r: InscriptionInfo)
        ensures
            r@ == self@,
    {
        InscriptionInfo { this_msg: self.this_msg, payload: vstd::slice::slice_to_vec(self.payload.as_slice()) }
    }
}

/// The abstract values of a sequence of messages.
pub open spec fn msgs_view(s: Seq<Msg>) -> Seq<MsgView> {
    s.map_values(|m: Msg| m@)
}

/// The abstract values of a sequence of inscriptions.
pub open spec fn infos_view(s: Seq<InscriptionInfo>) -> Seq<MsgView> {
    s.map_values(|i: InscriptionInfo| i@)
}

/// Some message of `s` carries the identifier `id`.
pub open spec fn has_id(s: Seq<MsgView>, id: Seq<u8>) -> bool {
    exists|i: int| 0 <= i < s.len() && s[i].0 == id
}

/// `i` is the first position of `s` that carries `id`.
pub open spec fn is_first_with_id(s: Seq<MsgView>, id: Seq<u8>, i: int) -> bool {
    &&& 0 <= i < s.len()
    &&& s[i].0 == id
    &&& forall|j: int| 0 <= j < i ==> s[j].0 != id
}

/// `s` with the first message that carries `id` taken out (unchanged if none does).
pub open spec fn without_first_id(s: Seq<MsgView>, id: Seq<u8>) -> Seq<MsgView>
    decreases s.len(),
{
    if s.len() == 0 {
        s
    } else if s[0].0 == id {
        s.drop_first()
    } else {
        seq![s[0]] + without_first_id(s.drop_first(), id)
    }
}

/// The two lists of a zone state: pending published messages, then finalized ones.
pub type ZoneView = (Seq<MsgView>, Seq<MsgView>);

/// The effect of one finalized inscription: the first pending message with its
/// identifier leaves the published list, and the inscription joins the
/// finalized list unless a message with its identifier is already there.
pub open spec fn finalize_one(v: ZoneView, info: MsgView) -> ZoneView {
    (
        without_first_id(v.0, info.0),
        if has_id(v.1, info.0) {
            v.1
        } else {
            v.1.push(info)
        },
    )
}

/// The effect of a batch of finalized inscriptions, taken in order.
pub open spec fn finalize_all(v: ZoneView, infos: Seq<MsgView>) -> ZoneView
    decreases infos.len(),
{
    if infos.len() == 0 {
        v
    } else {
        finalize_one(finalize_all(v, infos.drop_last()), infos.last())
    }
}

/// No two messages of `s` share an identifier.
pub open spec fn ids_unique(s: Seq<MsgView>) -> bool {
    forall|i: int, j: int| 0 <= i < s.len() && 0 <= j < s.len() && i != j ==> s[i].0 != s[j].0
}

/// Removing the first message with an identifier is removing it at its first position.
proof fn lemma_without_first_id_at(s: Seq<MsgView>, id: Seq<u8>, i: int)
    requires
        is_first_with_id(s, id, i),
    ensures
        without_first_id(s, id) == s.remove(i),
    decreases s.len(),
{
    if i == 0 {
        assert(s.drop_first() =~= s.remove(0));
    } else {
        let t = s.drop_first();
        assert(is_first_with_id(t, id, i - 1)) by {
            assert forall|j: int| 0 <= j < i - 1 implies t[j].0 != id by {
                assert(t[j] == s[j + 1]);
            }
        }
        lemma_without_first_id_at(t, id, i - 1);
        assert(seq![s[0]] + t.remove(i - 1) =~= s.remove(i));
    }
}

/// Removing an identifier that does not occur changes nothing.
proof fn lemma_without_absent_id(s: Seq<MsgView>, id: Seq<u8>)
    requires
        !has_id(s, id),
    ensures
        without_first_id(s, id) == s,
    decreases s.len(),
{
    if s.len() > 0 {
        let t = s.drop_first();
        assert(!has_id(t, id)) by {
            if has_id(t, id) {
                let k = choose|k: int| 0 <= k < t.len() && t[k].0 == id;
                assert(s[k + 1].0 == id);
            }
        }
        assert(s[0].0 != id);
        lemma_without_absent_id(t, id);
        assert(seq![s[0]] + t =~= s);
    }
}

/// The first position that carries an identifier that occurs.
proof fn lemma_first_index(s: Seq<MsgView>, id: Seq<u8>) -> (i: int)
    requires
        has_id(s, id),
    ensures
        is_first_with_id(s, id, i),
    decreases s.len(),
{
    if s[0].0 == id {
        0
    } else {
        let t = s.drop_first();
        assert(has_id(t, id)) by {
            let k = choose|k: int| 0 <= k < s.len() && s[k].0 == id;
            assert(k != 0);
            assert(t[k - 1] == s[k]);
        }
        let j = lemma_first_index(t, id);
        assert forall|m: int| 0 <= m < j + 1 implies s[m].0 != id by {
            if m > 0 {
                assert(s[m] == t[m - 1]);
            }
        }
        j + 1
    }
}

/// Taking out the first message with `id` keeps unique identifiers unique,
/// leaves no message with `id` behind when identifiers were unique, and makes
/// no identifier appear that was absent.
proof fn lemma_without_first_id_keeps(s: Seq<MsgView>, id: Seq<u8>)
    ensures
        forall|other: Seq<u8>| !has_id(s, other) ==> !has_id(#[trigger] without_first_id(s, id), other),
        ids_unique(s) ==> ids_unique(without_first_id(s, id)),
        ids_unique(s) ==> !has_id(without_first_id(s, id), id),
{
    if has_id(s, id) {
        let i = lemma_first_index(s, id);
        lemma_without_first_id_at(s, id, i);
        let r = s.remove(i);
        assert forall|other: Seq<u8>| !has_id(s, other) implies !has_id(without_first_id(s, id), other) by {
            if has_id(r, other) {
                let k = choose|k: int| 0 <= k < r.len() && r[k].0 == other;
                if k < i {
                    assert(r[k] == s[k]);
                } else {
                    assert(r[k] == s[k + 1]);
                }
            }
        }
        if ids_unique(s) {
            assert forall|a: int, b: int| 0 <= a < r.len() && 0 <= b < r.len() && a != b implies r[a].0 != r[b].0 by {
                let sa = if a < i { a } else { a + 1 };
                let sb = if b < i { b } else { b + 1 };
                assert(r[a] == s[sa]);
                assert(r[b] == s[sb]);
            }
            if has_id(r, id) {
                let k = choose|k: int| 0 <= k < r.len() && r[k].0 == id;
                let sk = if k < i { k } else { k + 1 };
                assert(r[k] == s[sk]);
            }
        }
    } else {
        lemma_without_absent_id(s, id);
    }
}

/// Finalizing a concatenation of batches is finalizing one batch after the other.
pub proof fn lemma_finalize_all_concat(v: ZoneView, a: Seq<MsgView>, b: Seq<MsgView>)
    ensures
        finalize_all(v, a + b) == finalize_all(finalize_all(v, a), b),
    decreases b.len(),
{
    if b.len() == 0 {
        assert(a + b =~= a);
    } else {
        assert((a + b).drop_last() =~= a + b.drop_last());
        assert((a + b).last() == b.last());
        lemma_finalize_all_concat(v, a, b.drop_last());
    }
}

/// After a batch is finalized, every identifier of the batch is among the
/// finalized messages, and the finalized messages from before keep their
/// places at the front.
pub proof fn lemma_finalize_all_records(v: ZoneView, infos: Seq<MsgView>)
    ensures
        forall|k: int| 0 <= k < infos.len() ==> has_id(finalize_all(v, infos).1, #[trigger] infos[k].0),
        v.1.len() <= finalize_all(v, infos).1.len(),
        finalize_all(v, infos).1.subrange(0, v.1.len() as int) == v.1,
    decreases infos.len(),
{
    if infos.len() > 0 {
        let prev = infos.drop_last();
        lemma_finalize_all_records(v, prev);
        let f0 = finalize_all(v, prev).1;
        let f1 = finalize_all(v, infos).1;
        let x = infos.last();
        assert forall|k: int| 0 <= k < infos.len() implies has_id(f1, #[trigger] infos[k].0) by {
            if k < infos.len() - 1 {
                assert(infos[k] == prev[k]);
                assert(has_id(f0, prev[k].0));
                if !has_id(f0, x.0) {
                    let j = choose|j: int| 0 <= j < f0.len() && f0[j].0 == prev[k].0;
                    assert(f1[j] == f0[j]);
                }
            } else {
                if !has_id(f0, x.0) {
                    assert(f1[f0.len() as int] == x);
                }
            }
        }
        assert(f1.subrange(0, v.1.len() as int) =~= v.1) by {
            assert(f0.subrange(0, v.1.len() as int) =~= v.1);
            if !has_id(f0, x.0) {
                assert forall|j: int| 0 <= j < v.1.len() implies f1[j] == f0[j] by {}
            }
        }
    } else {
        assert(v.1.subrange(0, v.1.len() as int) =~= v.1);
    }
}

/// Finalized identifiers stay unique whatever batch arrives.
pub proof fn lemma_finalize_all_keeps_finalized_unique(v: ZoneView, infos: Seq<MsgView>)
    requires
        ids_unique(v.1),
    ensures
        ids_unique(finalize_all(v, infos).1),
    decreases infos.len(),
{
    if infos.len() > 0 {
        lemma_finalize_all_keeps_finalized_unique(v, infos.drop_last());
        let f0 = finalize_all(v, infos.drop_last()).1;
        let x = infos.last();
        if !has_id(f0, x.0) {
            let f1 = f0.push(x);
            assert forall|a: int, b: int| 0 <= a < f1.len() && 0 <= b < f1.len() && a != b implies f1[a].0 != f1[b].0 by {
                if a == f0.len() {
                    assert(f0[b].0 != x.0);
                } else if b == f0.len() {
                    assert(f0[a].0 != x.0);
                }
            }
        }
    }
}

/// Pending identifiers stay unique whatever batch arrives, and none of the
/// batch's identifiers is left pending.
pub proof fn lemma_finalize_all_clears_published(v: ZoneView, infos: Seq<MsgView>)
    requires
        ids_unique(v.0),
    ensures
        ids_unique(finalize_all(v, infos).0),
        forall|k: int| 0 <= k < infos.len() ==> !has_id(finalize_all(v, infos).0, #[trigger] infos[k].0),
    decreases infos.len(),
{
    if infos.len() > 0 {
        let prev = infos.drop_last();
        lemma_finalize_all_clears_published(v, prev);
        let p0 = finalize_all(v, prev).0;
        let x = infos.last();
        lemma_without_first_id_keeps(p0, x.0);
        assert forall|k: int| 0 <= k < infos.len() implies !has_id(finalize_all(v, infos).0, #[trigger] infos[k].0) by {
            if k < infos.len() - 1 {
                assert(infos[k] == prev[k]);
                assert(!has_id(p0, prev[k].0));
            }
        }
    }
}

/// A batch whose identifiers are all finalized and none pending changes nothing.
pub proof fn lemma_finalize_all_settled(w: ZoneView, infos: Seq<MsgView>)
    requires
        forall|k: int| 0 <= k < infos.len() ==> has_id(w.1, #[trigger] infos[k].0),
        forall|k: int| 0 <= k < infos.len() ==> !has_id(w.0, #[trigger] infos[k].0),
    ensures
        finalize_all(w, infos) == w,
    decreases infos.len(),
{
    if infos.len() > 0 {
        let prev = infos.drop_last();
        assert forall|k: int| 0 <= k < prev.len() implies has_id(w.1, #[trigger] prev[k].0) && !has_id(w.0, prev[k].0) by {
            assert(prev[k] == infos[k]);
        }
        lemma_finalize_all_settled(w, prev);
        let x = infos.last();
        assert(x == infos[infos.len() - 1]);
        lemma_without_absent_id(w.0, x.0);
    }
}

/// Replaying a batch leaves the finalized messages as the first delivery left them.
pub proof fn lemma_replay_keeps_finalized(v: ZoneView, infos: Seq<MsgView>)
    ensures
        finalize_all(finalize_all(v, infos), infos).1 == finalize_all(v, infos).1,
        finalize_all(v, infos + infos).1 == finalize_all(v, infos).1,
    decreases infos.len(),
{
    let w = finalize_all(v, infos);
    lemma_finalize_all_records(v, infos);
    lemma_finalize_all_concat(v, infos, infos);
    lemma_replay_finalized_only(w, infos);
}

/// A batch whose identifiers are all finalized leaves the finalized list as it is.
pub proof fn lemma_replay_finalized_only(w: ZoneView, infos: Seq<MsgView>)
    requires
        forall|k: int| 0 <= k < infos.len() ==> has_id(w.1, #[trigger] infos[k].0),
    ensures
        finalize_all(w, infos).1 == w.1,
    decreases infos.len(),
{
    if infos.len() > 0 {
        let prev = infos.drop_last();
        assert forall|k: int| 0 <= k < prev.len() implies has_id(w.1, #[trigger] prev[k].0) by {
            assert(prev[k] == infos[k]);
        }
        lemma_replay_finalized_only(w, prev);
        assert(infos.last() == infos[infos.len() - 1]);
    }
}

/// When pending identifiers are unique, replaying a batch changes nothing at all.
pub proof fn lemma_replay_is_harmless(v: ZoneView, infos: Seq<MsgView>)
    requires
        ids_unique(v.0),
    ensures
        finalize_all(finalize_all(v, infos), infos) == finalize_all(v, infos),
        finalize_all(v, infos + infos) == finalize_all(v, infos),
{
    let w = finalize_all(v, infos);
    lemma_finalize_all_records(v, infos);
    lemma_finalize_all_clears_published(v, infos);
    lemma_finalize_all_settled(w, infos);
    lemma_finalize_all_concat(v, infos, infos);
}

/// The first position of `msgs` whose identifier is `id`, if any.
fn position_of_id(msgs: &Vec<Msg>, id: &MsgId) -> (r: Option<usize>)
    ensures
        r matches Some(i) ==> is_first_with_id(msgs_view(msgs@), id@, i as int),
        r is None ==> !has_id(msgs_view(msgs@), id@),
{
    let ghost v = msgs_view(msgs@);
    let mut i: usize = 0;
    while i < msgs.len()
        invariant
            i <= msgs.len(),
            v == msgs_view(msgs@),
            v.len() == msgs@.len(),
            forall|j: int| 0 <= j < i ==> v[j].0 != id@,
        decreases msgs.len() - i,
    {
        if msgs[i].msg_id.same_as(id) {
            assert(v[i as int] == msgs@[i as int]@);
            return Some(i);
        }
        assert(v[i as int] == msgs@[i as int]@);
        i = i + 1;
    }
    assert(!has_id(v, id@)) by {
        if has_id(v, id@) {
            let k = choose|k: int| 0 <= k < v.len() && v[k].0 == id@;
            assert(v[k].0 != id@);
        }
    }
    None
}

/// The behaviour that the sequencer and the indexer expect of a zone state.
///
/// The sequencer and indexer feed chain events into it; it owns persistence.
/// [`InMemoryZoneState`] keeps the lists in memory; an implementation over a
/// database would keep them across restarts.
///
/// Two lists, each ordered by arrival:
/// - published: our submissions, in submit order, until they finalize;
/// - finalized: all finalized inscriptions, in canonical order.
///
/// Finalizing is replay-idempotent: it deduplicates by message identifier, so
/// resuming from a persisted state and receiving the backfill again is harmless.
pub trait ZoneState {
    /// The pending published messages.
    spec fn published_view(&self) -> Seq<MsgView>;

    /// The finalized messages.
    spec fn finalized_view(&self) -> Seq<MsgView>;

    /// Records a message that we published.
    fn on_published(&mut self, info: &InscriptionInfo)
        ensures
            final(self).published_view() == old(self).published_view().push(info@),
            final(self).finalized_view() == old(self).finalized_view(),
    ;

    /// Records a batch of finalized inscriptions, in order.
    fn on_finalized(&mut self, inscriptions: &[InscriptionInfo])
        ensures
            (final(self).published_view(), final(self).finalized_view()) == finalize_all(
                (old(self).published_view(), old(self).finalized_view()),
                infos_view(inscriptions@),
            ),
    ;

    /// The pending published messages.
    fn published(&self) -> (r: &[Msg])
        ensures
            msgs_view(r@) == self.published_view(),
    ;

    /// The finalized messages.
    fn finalized(&self) -> (r: &[Msg])
        ensures
            msgs_view(r@) == self.finalized_view(),
    ;
}

/// A zone state that keeps both lists in memory.
#[derive(Debug)]
pub struct InMemoryZoneState {
    published: Vec<Msg>,
    finalized: Vec<Msg>,
}

impl InMemoryZoneState {
    /// An empty state.
    pub fn new() -> (r: InMemoryZoneState)
        ensures
            r.published_view() == Seq::<MsgView>::empty(),
            r.finalized_view() == Seq::<MsgView>::empty(),
    {
        let r = InMemoryZoneState { published: Vec::new(), finalized: Vec::new() };
        assert(msgs_view(r.published@) =~= Seq::<MsgView>::empty());
        assert(msgs_view(r.finalized@) =~= Seq::<MsgView>::empty());
        r
    }
}

impl Default for InMemoryZoneState {
    /// An empty state.
    fn default() -> (r: InMemoryZoneState)
        ensures
            r.published_view() == Seq::<MsgView>::empty(),
            r.finalized_view() == Seq::<MsgView>::empty(),
    {
        InMemoryZoneState::new()
    }
}

impl ZoneState for InMemoryZoneState {
    closed spec fn published_view(&self) -> Seq<MsgView> {
        msgs_view(self.published@)
    }

    closed spec fn finalized_view(&self) -> Seq<MsgView> {
        msgs_view(self.finalized@)
    }

    fn on_published(&mut self, info: &InscriptionInfo) {
        let m = Msg::from_payload(info.this_msg, info.payload.as_slice());
        self.published.push(m);
        assert(msgs_view(self.published@) =~= msgs_view(old(self).published@).push(info@));
    }

    fn on_finalized(&mut self, inscriptions: &[InscriptionInfo]) {
        let ghost v0: ZoneView = (msgs_view(self.published@), msgs_view(self.finalized@));
        let ghost infos = infos_view(inscriptions@);
        let mut k: usize = 0;
        while k < inscriptions.len()
            invariant
                k <= inscriptions@.len(),
                infos == infos_view(inscriptions@),
                infos.len() == inscriptions@.len(),
                (msgs_view(self.published@), msgs_view(self.finalized@)) == finalize_all(
                    v0,
                    infos.take(k as int),
                ),
            decreases inscriptions.len() - k,
        {
            let info = &inscriptions[k];
            let ghost before: ZoneView = (msgs_view(self.published@), msgs_view(self.finalized@));
            assert(infos[k as int] == info@);
            assert(infos.take(k + 1).drop_last() =~= infos.take(k as int));
            assert(infos.take(k + 1).last() == info@);
            match position_of_id(&self.published, &info.this_msg) {
                Some(i) => {
                    proof {
                        lemma_without_first_id_at(before.0, info@.0, i as int);
                    }
                    self.published.remove(i);
                    assert(msgs_view(self.published@) =~= before.0.remove(i as int));
                },
                None => {
                    proof {
                        lemma_without_absent_id(before.0, info@.0);
                    }
                },
            }
            match position_of_id(&self.finalized, &info.this_msg) {
                Some(_) => {},
                None => {
                    let m = Msg::from_payload(info.this_msg, info.payload.as_slice());
                    self.finalized.push(m);
                    assert(msgs_view(self.finalized@) =~= before.1.push(info@));
                },
            }
            k = k + 1;
        }
        assert(infos.take(k as int) =~= infos);
    }

    fn published(&self) -> (r: &[Msg]) {
        self.published.as_slice()
    }

    fn finalized(&self) -> (r: &[Msg]) {
        self.finalized.as_slice()
    }
}

} // verus!
