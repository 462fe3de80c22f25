//! The channel directory: channel records grouped by case-normalized call
//! sign, in API-arrival order.
use vstd::prelude::*;

use crate::strutil::to_upper;
use crate::strutil::upper_of;

verus! {

/// One channel record: broadcast number, display name, call sign, HD flag.
#[derive(Debug)]
pub struct Channel {
    name: String,
    number: u16,
    call_sign: String,
    hd: bool,
}

/// The mathematical content of a [`Channel`].
pub struct ChannelView {
    pub name: Seq<char>,
    pub number: u16,
    pub call_sign: Seq<char>,
    pub hd: bool,
}

impl View for Channel {
    type V = ChannelView;

    closed spec fn view(&self) -> ChannelView {
        ChannelView {
            name: self.name@,
            number: self.number,
            call_sign: self.call_sign@,
            hd: self.hd,
        }
    }
}

impl Clone for Channel {
    fn clone(&self) -> (r: Self)
        ensures
            r@ == self@,
    {
        Channel {
            name: self.name.clone(),
            number: self.number,
            call_sign: self.call_sign.clone(),
            hd: self.hd,
        }
    }
}

impl Channel {
    pub fn new(name: String, number: u16, call_sign: String, hd: bool) -> (c: Channel)
        ensures
            c@ == (ChannelView { name: name@, number, call_sign: call_sign@, hd }),
    {
        Channel { name, number, call_sign, hd }
    }

    pub fn number(&self) -> (n: u16)
        ensures
            n == self@.number,
    {
        self.number
    }

    pub fn name(&self) -> (n: &String)
        ensures
            n@ == self@.name,
    {
        &self.name
    }

    pub fn call_sign(&self) -> (c: &String)
        ensures
            c@ == self@.call_sign,
    {
        &self.call_sign
    }

    pub fn hd(&self) -> (h: bool)
        ensures
            h == self@.hd,
    {
        self.hd
    }
}

/// The views of a sequence of channels.
pub open spec fn channels_view(s: Seq<Channel>) -> Seq<ChannelView> {
    s.map_values(|c: Channel| c@)
}

/// No two entries share a key.
pub open spec fn unique_keys(s: Seq<(String, Vec<Channel>)>) -> bool {
    forall|i: int, j: int| 0 <= i < j < s.len() ==> s[i].0@ != s[j].0@
}

/// The finite map an entry list denotes.
pub open spec fn entries_map(s: Seq<(String, Vec<Channel>)>) -> Map<Seq<char>, Seq<ChannelView>>
    decreases s.len(),
{
    if s.len() == 0 {
        Map::empty()
    } else {
        entries_map(s.drop_last()).insert(s.last().0@, channels_view(s.last().1@))
    }
}

proof fn lemma_entries_map_contains(s: Seq<(String, Vec<Channel>)>, k: Seq<char>)
    ensures
        entries_map(s).contains_key(k) <==> exists|i: int| 0 <= i < s.len() && s[i].0@ == k,
    decreases s.len(),
{
    if s.len() > 0 {
        lemma_entries_map_contains(s.drop_last(), k);
        if s.last().0@ == k {
            assert(s[s.len() - 1].0@ == k);
        } else if entries_map(s).contains_key(k) {
            let i = choose|i: int| 0 <= i < s.drop_last().len() && s.drop_last()[i].0@ == k;
            assert(s[i].0@ == k);
        } else if exists|i: int| 0 <= i < s.len() && s[i].0@ == k {
            let i = choose|i: int| 0 <= i < s.len() && s[i].0@ == k;
            assert(s.drop_last()[i].0@ == k);
        }
    }
}

proof fn lemma_entries_map_index(s: Seq<(String, Vec<Channel>)>, i: int)
    requires
        unique_keys(s),
        0 <= i < s.len(),
    ensures
        entries_map(s).contains_key(s[i].0@),
        entries_map(s)[s[i].0@] == channels_view(s[i].1@),
    decreases s.len(),
{
    if i < s.len() - 1 {
        assert(unique_keys(s.drop_last()));
        lemma_entries_map_index(s.drop_last(), i);
        assert(s.drop_last()[i] == s[i]);
        assert(s[i].0@ != s.last().0@);
    }
}

proof fn lemma_entries_map_update(s: Seq<(String, Vec<Channel>)>, i: int, e: (String, Vec<Channel>))
    requires
        unique_keys(s),
        0 <= i < s.len(),
        e.0@ == s[i].0@,
    ensures
        entries_map(s.update(i, e)) == entries_map(s).insert(e.0@, channels_view(e.1@)),
    decreases s.len(),
{
    let t = s.update(i, e);
    if i == s.len() - 1 {
        assert(t.drop_last() =~= s.drop_last());
        assert(t.last() == e);
        assert(entries_map(t) =~= entries_map(s).insert(e.0@, channels_view(e.1@)));
    } else {
        assert(unique_keys(s.drop_last()));
        assert(s.drop_last()[i] == s[i]);
        lemma_entries_map_update(s.drop_last(), i, e);
        assert(t.drop_last() =~= s.drop_last().update(i, e));
        assert(t.last() == s.last());
        assert(e.0@ != s.last().0@);
        assert(entries_map(t) =~= entries_map(s).insert(e.0@, channels_view(e.1@)));
    }
}

proof fn lemma_unique_keys_update(s: Seq<(String, Vec<Channel>)>, i: int, e: (String, Vec<Channel>))
    requires
        unique_keys(s),
        0 <= i < s.len(),
        e.0@ == s[i].0@,
    ensures
        unique_keys(s.update(i, e)),
{
    let t = s.update(i, e);
    assert forall|x: int, y: int| 0 <= x < y < t.len() implies t[x].0@ != t[y].0@ by {
        if x == i {
            assert(t[y] == s[y]);
        } else if y == i {
            assert(t[x] == s[x]);
        } else {
            assert(t[x] == s[x]);
            assert(t[y] == s[y]);
        }
    }
}

/// The channel directory: call sign, normalized to uppercase, to the list
/// of channel records carrying it, in arrival order.
#[derive(Debug)]
pub struct ChannelMap {
    entries: Vec<(String, Vec<Channel>)>,
}

impl View for ChannelMap {
    type V = Map<Seq<char>, Seq<ChannelView>>;

    closed spec fn view(&self) -> Map<Seq<char>, Seq<ChannelView>> {
        entries_map(self.entries@)
    }
}

impl ChannelMap {
    /// The directory's invariant: entry keys are unique.
    pub closed spec fn wf(&self) -> bool {
        unique_keys(self.entries@)
    }

    /// An empty directory.
    pub fn new() -> (m: ChannelMap)
        ensures
            m@ == Map::<Seq<char>, Seq<ChannelView>>::empty(),
            m.wf(),
    {
        ChannelMap { entries: Vec::new() }
    }

    /// The list of channels filed under a call sign, if any.
    pub fn get(&self, k: &String) -> (r: Option<&Vec<Channel>>)
        requires
            self.wf(),
        ensures
            match r {
                None => !self@.contains_key(k@),
                Some(v) => self@.contains_key(k@) && channels_view(v@) == self@[k@],
            },
    {
        let n = self.entries.len();
        let mut i: usize = 0;
        while i < n
            invariant
                self.wf(),
                n == self.entries@.len(),
                i <= n,
                forall|j: int| 0 <= j < i ==> self.entries@[j].0@ != k@,
            decreases n - i,
        {
            if self.entries[i].0 == *k {
                proof {
                    lemma_entries_map_index(self.entries@, i as int);
                }
                return Some(&self.entries[i].1);
            }
            i += 1;
        }
        proof {
            lemma_entries_map_contains(self.entries@, k@);
        }
        None
    }

    /// A mutable borrow of the list filed under a call sign the directory
    /// holds.
    #[verifier::loop_isolation(false)]
    pub fn get_mut(&mut self, k: &String) -> (r: &mut Vec<Channel>)
        requires
            old(self).wf(),
            old(self)@.contains_key(k@),
        ensures
            channels_view((*r)@) == old(self)@[k@],
            final(self)@ == old(self)@.insert(k@, channels_view((*final(r))@)),
            final(self).wf(),
    {
        let ghost s0 = self.entries@;
        proof {
            lemma_entries_map_contains(s0, k@);
        }
        let n = self.entries.len();
        let mut i: usize = 0;
        while i < n
            invariant
                unique_keys(s0),
                s0 == self.entries@,
                n == s0.len(),
                i <= n,
                entries_map(s0).contains_key(k@),
                exists|j: int| 0 <= j < s0.len() && s0[j].0@ == k@,
                forall|j: int| 0 <= j < i ==> s0[j].0@ != k@,
            decreases n - i,
        {
            if self.entries[i].0 == *k {
                proof {
                    lemma_entries_map_index(s0, i as int);
                    assert forall|t: (String, Vec<Channel>)| t.0@ == k@ implies #[trigger] entries_map(
                        s0.update(i as int, t),
                    ) == entries_map(s0).insert(k@, channels_view(t.1@)) by {
                        lemma_entries_map_update(s0, i as int, t);
                    }
                    assert forall|t: (String, Vec<Channel>)| t.0@ == k@ implies unique_keys(
                        #[trigger] s0.update(i as int, t),
                    ) by {
                        lemma_unique_keys_update(s0, i as int, t);
                    }
                }
                return &mut self.entries[i].1;
            }
            i += 1;
        }
        proof {
            assert(false);
        }
        unreached()
    }

    /// Files a list under a call sign, returning the list it replaces, if
    /// any.
    #[verifier::loop_isolation(false)]
    pub fn insert(&mut self, k: String, v: Vec<Channel>) -> (r: Option<Vec<Channel>>)
        requires
            old(self).wf(),
        ensures
            final(self)@ == old(self)@.insert(k@, channels_view(v@)),
            final(self).wf(),
            match r {
                None => !old(self)@.contains_key(k@),
                Some(o) => old(self)@.contains_key(k@) && channels_view(o@) == old(self)@[k@],
            },
    {
        let ghost s0 = self.entries@;
        let n = self.entries.len();
        let mut i: usize = 0;
        while i < n
            invariant
                unique_keys(s0),
                s0 == self.entries@,
                n == s0.len(),
                i <= n,
                forall|j: int| 0 <= j < i ==> s0[j].0@ != k@,
            decreases n - i,
        {
            if self.entries[i].0 == k {
                proof {
                    lemma_entries_map_index(s0, i as int);
                    lemma_entries_map_contains(s0, k@);
                }
                let old_entry = self.entries.remove(i);
                self.entries.insert(i, (k, v));
                proof {
                    let e = self.entries@[i as int];
                    assert(self.entries@ =~= s0.update(i as int, e));
                    lemma_entries_map_update(s0, i as int, e);
                    lemma_unique_keys_update(s0, i as int, e);
                }
                return Some(old_entry.1);
            }
            i += 1;
        }
        proof {
            lemma_entries_map_contains(s0, k@);
        }
        self.entries.push((k, v));
        proof {
            assert(self.entries@.drop_last() =~= s0);
            assert forall|x: int, y: int|
                0 <= x < y < self.entries@.len() implies self.entries@[x].0@
                != self.entries@[y].0@ by {
                if y < self.entries@.len() - 1 {
                    assert(self.entries@[x] == s0[x]);
                    assert(self.entries@[y] == s0[y]);
                } else {
                    assert(self.entries@[x] == s0[x]);
                }
            }
        }
        None
    }

    /// The directory's call signs, each exactly once, in no promised
    /// order.
    pub fn keys(&self) -> (r: Vec<String>)
        requires
            self.wf(),
        ensures
            forall|i: int| 0 <= i < r@.len() ==> self@.contains_key(#[trigger] r@[i]@),
            forall|k: Seq<char>|
                self@.contains_key(k) ==> exists|i: int| 0 <= i < r@.len() && r@[i]@ == k,
            forall|i: int, j: int| 0 <= i < j < r@.len() ==> r@[i]@ != r@[j]@,
    {
        let n = self.entries.len();
        let mut r: Vec<String> = Vec::new();
        let mut i: usize = 0;
        while i < n
            invariant
                self.wf(),
                n == self.entries@.len(),
                i <= n,
                r@.len() == i as int,
                forall|j: int| 0 <= j < i ==> r@[j]@ == self.entries@[j].0@,
            decreases n - i,
        {
            r.push(self.entries[i].0.clone());
            i += 1;
        }
        proof {
            assert forall|i: int| 0 <= i < r@.len() implies self@.contains_key(
                #[trigger] r@[i]@,
            ) by {
                lemma_entries_map_index(self.entries@, i);
            }
            assert forall|k: Seq<char>| self@.contains_key(k) implies exists|i: int|
                0 <= i < r@.len() && r@[i]@ == k by {
                lemma_entries_map_contains(self.entries@, k);
                let i = choose|i: int| 0 <= i < self.entries@.len() && self.entries@[i].0@ == k;
                assert(r@[i]@ == k);
            }
        }
        r
    }
}

/// A channel record with its call sign normalized to uppercase, which is
/// how the directory files and looks it up.
pub open spec fn normalize_channel(c: ChannelView) -> ChannelView {
    ChannelView { name: c.name, number: c.number, call_sign: upper_of(c.call_sign), hd: c.hd }
}

/// Grouping in arrival order: each record, normalized, is appended to the
/// list filed under its normalized call sign.
pub open spec fn spec_grouped(cs: Seq<ChannelView>) -> Map<Seq<char>, Seq<ChannelView>>
    decreases cs.len(),
{
    if cs.len() == 0 {
        Map::empty()
    } else {
        let m = spec_grouped(cs.drop_last());
        let c = normalize_channel(cs.last());
        let k = c.call_sign;
        m.insert(
            k,
            if m.contains_key(k) {
                m[k].push(c)
            } else {
                seq![c]
            },
        )
    }
}

/// The normalized records whose normalized call sign is `k`, oldest
/// first.
pub open spec fn matching_channels(cs: Seq<ChannelView>, k: Seq<char>) -> Seq<ChannelView>
    decreases cs.len(),
{
    if cs.len() == 0 {
        Seq::empty()
    } else {
        let rest = matching_channels(cs.drop_last(), k);
        if upper_of(cs.last().call_sign) == k {
            rest.push(normalize_channel(cs.last()))
        } else {
            rest
        }
    }
}

/// Every list a grouping files is non-empty.
pub open spec fn all_groups_nonempty(m: Map<Seq<char>, Seq<ChannelView>>) -> bool {
    forall|k: Seq<char>| m.contains_key(k) ==> #[trigger] m[k].len() > 0
}

proof fn lemma_grouped_nonempty(cs: Seq<ChannelView>)
    ensures
        all_groups_nonempty(spec_grouped(cs)),
    decreases cs.len(),
{
    if cs.len() > 0 {
        lemma_grouped_nonempty(cs.drop_last());
    }
}

impl ChannelMap {
    #[verifier::loop_isolation(false)]
    fn push_channel(&mut self, k: String, c: Channel)
        requires
            old(self).wf(),
        ensures
            final(self).wf(),
            final(self)@ == old(self)@.insert(
                k@,
                if old(self)@.contains_key(k@) {
                    old(self)@[k@].push(c@)
                } else {
                    seq![c@]
                },
            ),
    {
        let ghost s0 = self.entries@;
        let ghost cv = c@;
        let n = self.entries.len();
        let mut i: usize = 0;
        while i < n
            invariant
                unique_keys(s0),
                s0 == self.entries@,
                n == s0.len(),
                i <= n,
                forall|j: int| 0 <= j < i ==> s0[j].0@ != k@,
            decreases n - i,
        {
            if self.entries[i].0 == k {
                proof {
                    lemma_entries_map_index(s0, i as int);
                    lemma_entries_map_contains(s0, k@);
                }
                self.entries[i].1.push(c);
                proof {
                    let e = self.entries@[i as int];
                    assert(self.entries@ =~= s0.update(i as int, e));
                    assert(e.0 == s0[i as int].0);
                    assert(e.1@ == s0[i as int].1@.push(c));
                    assert(channels_view(e.1@) =~= channels_view(s0[i as int].1@).push(cv));
                    lemma_entries_map_update(s0, i as int, e);
                    lemma_unique_keys_update(s0, i as int, e);
                }
                return ;
            }
            i += 1;
        }
        proof {
            lemma_entries_map_contains(s0, k@);
        }
        let mut list: Vec<Channel> = Vec::new();
        list.push(c);
        self.entries.push((k, list));
        proof {
            assert(self.entries@.drop_last() =~= s0);
            assert(channels_view(self.entries@.last().1@) =~= seq![cv]);
            assert forall|x: int, y: int|
                0 <= x < y < self.entries@.len() implies self.entries@[x].0@
                != self.entries@[y].0@ by {
                if y < self.entries@.len() - 1 {
                    assert(self.entries@[x] == s0[x]);
                    assert(self.entries@[y] == s0[y]);
                } else {
                    assert(self.entries@[x] == s0[x]);
                }
            }
        }
    }
}

/// Builds the channel directory out of the records as the API listed
/// them: each record's call sign is normalized to uppercase, and records
/// sharing a normalized call sign are grouped into one list in arrival
/// order.
pub fn group_channels(list: Vec<Channel>) -> (m: ChannelMap)
    ensures
        m.wf(),
        m@ == spec_grouped(channels_view(list@)),
        all_groups_nonempty(m@),
{
    let n = list.len();
    let mut m = ChannelMap::new();
    let mut i: usize = 0;
    while i < n
        invariant
            n == list@.len(),
            i <= n,
            m.wf(),
            m@ == spec_grouped(channels_view(list@.take(i as int))),
        decreases n - i,
    {
        let c = &list[i];
        let key = to_upper(c.call_sign.as_str());
        let normalized = Channel {
            name: c.name.clone(),
            number: c.number,
            call_sign: key.clone(),
            hd: c.hd,
        };
        proof {
            assert(channels_view(list@.take(i + 1)).drop_last() =~= channels_view(
                list@.take(i as int),
            ));
            assert(channels_view(list@.take(i + 1)).last() == list@[i as int]@);
            assert(normalized@ == normalize_channel(list@[i as int]@));
        }
        m.push_channel(key, normalized);
        i += 1;
    }
    proof {
        assert(list@.take(n as int) =~= list@);
        lemma_grouped_nonempty(channels_view(list@));
    }
    m
}

/// Channel grouping preserves arrival order: the grouping files a key
/// exactly when some record's normalized call sign matches it, and the
/// filed list is exactly those records, normalized, oldest first.
pub proof fn lemma_grouping_preserves_arrival_order(cs: Seq<ChannelView>, k: Seq<char>)
    ensures
        spec_grouped(cs).contains_key(k) <==> matching_channels(cs, k).len() > 0,
        spec_grouped(cs).contains_key(k) ==> spec_grouped(cs)[k] == matching_channels(cs, k),
    decreases cs.len(),
{
    if cs.len() > 0 {
        lemma_grouping_preserves_arrival_order(cs.drop_last(), k);
    }
}

} // verus!
