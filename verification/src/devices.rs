//! The device directory: device records keyed by their display name, as
//! the API returned it (no normalization).
use vstd::prelude::*;

use crate::errors::ErrorKind;
use crate::errors::XTVError;

verus! {

/// One device record: API identifier and display name.
#[derive(Debug)]
pub struct Device {
    id: String,
    name: String,
}

/// The mathematical content of a [`Device`].
pub struct DeviceView {
    pub id: Seq<char>,
    pub name: Seq<char>,
}

impl View for Device {
    type V = DeviceView;

    closed spec fn view(&self) -> DeviceView {
        DeviceView { id: self.id@, name: self.name@ }
    }
}

impl Clone for Device {
    fn clone(&self) -> (r: Self)
        ensures
            r@ == self@,
    {
        Device { id: self.id.clone(), name: self.name.clone() }
    }
}

impl Device {
    pub fn new(id: String, name: String) -> (d: Device)
        ensures
            d@ == (DeviceView { id: id@, name: name@ }),
    {
        Device { id, name }
    }

    pub fn id(&self) -> (r: &String)
        ensures
            r@ == self@.id,
    {
        &self.id
    }

    pub fn name(&self) -> (r: &String)
        ensures
            r@ == self@.name,
    {
        &self.name
    }
}

/// No two entries share a key.
pub open spec fn unique_device_keys(s: Seq<(String, Device)>) -> bool {
    forall|i: int, j: int| 0 <= i < j < s.len() ==> s[i].0@ != s[j].0@
}

/// The finite map an entry list denotes.
pub open spec fn device_entries_map(s: Seq<(String, Device)>) -> Map<Seq<char>, DeviceView>
    decreases s.len(),
{
    if s.len() == 0 {
        Map::empty()
    } else {
        device_entries_map(s.drop_last()).insert(s.last().0@, s.last().1@)
    }
}

proof fn lemma_device_map_contains(s: Seq<(String, Device)>, k: Seq<char>)
    ensures
        device_entries_map(s).contains_key(k) <==> exists|i: int| 0 <= i < s.len() && s[i].0@ == k,
    decreases s.len(),
{
    if s.len() > 0 {
        lemma_device_map_contains(s.drop_last(), k);
        if s.last().0@ == k {
            assert(s[s.len() - 1].0@ == k);
        } else if device_entries_map(s).contains_key(k) {
            let i = choose|i: int| 0 <= i < s.drop_last().len() && s.drop_last()[i].0@ == k;
            assert(s[i].0@ == k);
        } else if exists|i: int| 0 <= i < s.len() && s[i].0@ == k {
            let i = choose|i: int| 0 <= i < s.len() && s[i].0@ == k;
            assert(s.drop_last()[i].0@ == k);
        }
    }
}

proof fn lemma_device_map_index(s: Seq<(String, Device)>, i: int)
    requires
        unique_device_keys(s),
        0 <= i < s.len(),
    ensures
        device_entries_map(s).contains_key(s[i].0@),
        device_entries_map(s)[s[i].0@] == s[i].1@,
    decreases s.len(),
{
    if i < s.len() - 1 {
        assert(unique_device_keys(s.drop_last()));
        lemma_device_map_index(s.drop_last(), i);
        assert(s.drop_last()[i] == s[i]);
        assert(s[i].0@ != s.last().0@);
    }
}

proof fn lemma_device_map_update(s: Seq<(String, Device)>, i: int, e: (String, Device))
    requires
        unique_device_keys(s),
        0 <= i < s.len(),
        e.0@ == s[i].0@,
    ensures
        device_entries_map(s.update(i, e)) == device_entries_map(s).insert(e.0@, e.1@),
        unique_device_keys(s.update(i, e)),
    decreases s.len(),
{
    let t = s.update(i, e);
    assert forall|x: int, y: int| 0 <= x < y < t.len() implies t[x].0@ != t[y].0@ by {
        if x != i {
            assert(t[x] == s[x]);
        }
        if y != i {
            assert(t[y] == s[y]);
        }
    }
    if i == s.len() - 1 {
        assert(t.drop_last() =~= s.drop_last());
        assert(t.last() == e);
        assert(device_entries_map(t) =~= device_entries_map(s).insert(e.0@, e.1@));
    } else {
        assert(unique_device_keys(s.drop_last()));
        assert(s.drop_last()[i] == s[i]);
        lemma_device_map_update(s.drop_last(), i, e);
        assert(t.drop_last() =~= s.drop_last().update(i, e));
        assert(t.last() == s.last());
        assert(e.0@ != s.last().0@);
        assert(device_entries_map(t) =~= device_entries_map(s).insert(e.0@, e.1@));
    }
}

/// Whether some key of the directory files exactly this device.
pub open spec fn appears(m: Map<Seq<char>, DeviceView>, d: DeviceView) -> bool {
    exists|k: Seq<char>| m.contains_key(k) && m[k] == d
}

/// The device directory: display name to device record.
#[derive(Debug)]
pub struct DeviceMap {
    entries: Vec<(String, Device)>,
}

impl View for DeviceMap {
    type V = Map<Seq<char>, DeviceView>;

    closed spec fn view(&self) -> Map<Seq<char>, DeviceView> {
        device_entries_map(self.entries@)
    }
}

impl DeviceMap {
    /// The directory's invariant: entry keys are unique.
    pub closed spec fn wf(&self) -> bool {
        unique_device_keys(self.entries@)
    }

    /// An empty directory.
    pub fn new() -> (m: DeviceMap)
        ensures
            m@ == Map::<Seq<char>, DeviceView>::empty(),
            m.wf(),
    {
        DeviceMap { entries: Vec::new() }
    }

    /// The device filed under a display name, if any.
    pub fn get(&self, k: &String) -> (r: Option<&Device>)
        requires
            self.wf(),
        ensures
            match r {
                None => !self@.contains_key(k@),
                Some(d) => self@.contains_key(k@) && d@ == self@[k@],
            },
    {
        let n = self.entries.len();
        let mut i: usize = 0;
        while i < n
            invariant
                self.wf(),
                n == self.entries@.len(),
                i <= n,
                forall|j: int| 0 <= j < i ==> self.entries@[j].0@ != k@,
            decreases n - i,
        {
            if self.entries[i].0 == *k {
                proof {
                    lemma_device_map_index(self.entries@, i as int);
                }
                return Some(&self.entries[i].1);
            }
            i += 1;
        }
        proof {
            lemma_device_map_contains(self.entries@, k@);
        }
        None
    }

    /// Files a device under a display name, returning the record it
    /// replaces, if any.
    #[verifier::loop_isolation(false)]
    pub fn insert(&mut self, k: String, v: Device) -> (r: Option<Device>)
        requires
            old(self).wf(),
        ensures
            final(self)@ == old(self)@.insert(k@, v@),
            final(self).wf(),
            match r {
                None => !old(self)@.contains_key(k@),
                Some(o) => old(self)@.contains_key(k@) && o@ == old(self)@[k@],
            },
    {
        let ghost s0 = self.entries@;
        let n = self.entries.len();
        let mut i: usize = 0;
        while i < n
            invariant
                unique_device_keys(s0),
                s0 == self.entries@,
                n == s0.len(),
                i <= n,
                forall|j: int| 0 <= j < i ==> s0[j].0@ != k@,
            decreases n - i,
        {
            if self.entries[i].0 == k {
                proof {
                    lemma_device_map_index(s0, i as int);
                    lemma_device_map_contains(s0, k@);
                }
                let old_entry = self.entries.remove(i);
                self.entries.insert(i, (k, v));
                proof {
                    let e = self.entries@[i as int];
                    assert(self.entries@ =~= s0.update(i as int, e));
                    lemma_device_map_update(s0, i as int, e);
                }
                return Some(old_entry.1);
            }
            i += 1;
        }
        proof {
            lemma_device_map_contains(s0, k@);
        }
        self.entries.push((k, v));
        proof {
            assert(self.entries@.drop_last() =~= s0);
            assert forall|x: int, y: int|
                0 <= x < y < self.entries@.len() implies self.entries@[x].0@
                != self.entries@[y].0@ by {
                if y < self.entries@.len() - 1 {
                    assert(self.entries@[x] == s0[x]);
                    assert(self.entries@[y] == s0[y]);
                } else {
                    assert(self.entries@[x] == s0[x]);
                }
            }
        }
        None
    }

    /// The directory's devices, one per display name, in no promised
    /// order.
    pub fn values(&self) -> (r: Vec<Device>)
        requires
            self.wf(),
        ensures
            forall|i: int| 0 <= i < r@.len() ==> appears(self@, #[trigger] r@[i]@),
            forall|k: Seq<char>|
                self@.contains_key(k) ==> exists|i: int| 0 <= i < r@.len() && r@[i]@ == self@[k],
    {
        let n = self.entries.len();
        let mut r: Vec<Device> = Vec::new();
        let mut i: usize = 0;
        while i < n
            invariant
                self.wf(),
                n == self.entries@.len(),
                i <= n,
                r@.len() == i as int,
                forall|j: int| 0 <= j < i ==> r@[j]@ == self.entries@[j].1@,
            decreases n - i,
        {
            r.push(self.entries[i].1.clone());
            i += 1;
        }
        proof {
            assert forall|i: int| 0 <= i < r@.len() implies appears(self@, #[trigger] r@[i]@) by {
                lemma_device_map_index(self.entries@, i);
                let k0 = self.entries@[i].0@;
                assert(self@.contains_key(k0) && self@[k0] == r@[i]@);
            }
            assert forall|k: Seq<char>| self@.contains_key(k) implies exists|i: int|
                0 <= i < r@.len() && r@[i]@ == self@[k] by {
                lemma_device_map_contains(self.entries@, k);
                let i = choose|i: int| 0 <= i < self.entries@.len() && self.entries@[i].0@ == k;
                lemma_device_map_index(self.entries@, i);
                assert(r@[i]@ == self@[k]);
            }
        }
        r
    }

    /// Resolves a display name to its device, answering `NotFound` for a
    /// name the directory does not hold.
    pub fn lookup_device(&self, name: &String) -> (r: Result<Device, XTVError>)
        requires
            self.wf(),
        ensures
            match r {
                Ok(d) => self@.contains_key(name@) && d@ == self@[name@],
                Err(e) => !self@.contains_key(name@) && e@.kind == ErrorKind::NotFound,
            },
    {
        match self.get(name) {
            Some(d) => Ok(d.clone()),
            None => Err(
                XTVError::new(ErrorKind::NotFound, String::from_str("device not found")),
            ),
        }
    }
}

/// The device directory keyed by display name, built in arrival order: a
/// later record with the same display name replaces the earlier one.
pub open spec fn spec_keyed_devices(ds: Seq<DeviceView>) -> Map<Seq<char>, DeviceView>
    decreases ds.len(),
{
    if ds.len() == 0 {
        Map::empty()
    } else {
        spec_keyed_devices(ds.drop_last()).insert(ds.last().name, ds.last())
    }
}

/// The views of a sequence of devices.
pub open spec fn devices_view(s: Seq<Device>) -> Seq<DeviceView> {
    s.map_values(|d: Device| d@)
}

/// Builds the device directory out of the records as the API listed them,
/// keyed by display name.
pub fn key_devices(list: Vec<Device>) -> (m: DeviceMap)
    ensures
        m.wf(),
        m@ == spec_keyed_devices(devices_view(list@)),
{
    let n = list.len();
    let mut m = DeviceMap::new();
    let mut i: usize = 0;
    while i < n
        invariant
            n == list@.len(),
            i <= n,
            m.wf(),
            m@ == spec_keyed_devices(devices_view(list@.take(i as int))),
        decreases n - i,
    {
        let d = list[i].clone();
        proof {
            assert(devices_view(list@.take(i + 1)).drop_last() =~= devices_view(
                list@.take(i as int),
            ));
            assert(devices_view(list@.take(i + 1)).last() == list@[i as int]@);
        }
        let name = d.name().clone();
        m.insert(name, d);
        i += 1;
    }
    proof {
        assert(list@.take(n as int) =~= list@);
    }
    m
}

} // verus!
