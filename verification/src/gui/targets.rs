//! The targets that were seen, and those picked out of them.

use crate::address::MacAddress;
use crate::clock::wall_clock_millis;
use std::collections::HashMap;
use vstd::prelude::*;
use vstd::std_specs::iter::IteratorSpec;

verus! {

broadcast use vstd::std_specs::hash::group_hash_axioms;

/// How a network is secured.
#[derive(Debug, Clone, Copy, PartialEq, Eq, Structural)]
pub enum EncryptionType {
    /// Not at all.
    Open,
    /// WEP.
    WEP,
    /// WPA.
    WPA,
    /// WPA2.
    WPA2,
    /// WPA3.
    WPA3,
    /// Not known.
    Unknown,
}

/// A station or access point that was seen.
#[derive(Debug, Clone)]
pub struct Target {
    /// Its address.
    pub mac_address: MacAddress,
    /// The network's name.
    pub ssid: String,
    /// The channel it was seen on.
    pub channel: u8,
    /// The signal strength in dBm.
    pub signal_strength: i8,
    /// How the network is secured.
    pub encryption: EncryptionType,
    /// The maker of the device, if known.
    pub vendor: Option<String>,
    /// When it was last seen, in milliseconds since the Unix epoch.
    pub last_seen: i64,
}

impl Target {
    /// The target after it was seen with the given signal strength at the
    /// given time.
    pub open spec fn seen(self, signal: i8, wall_millis: i64) -> Target {
        Target { signal_strength: signal, last_seen: wall_millis, ..self }
    }
}

/// The keys without `key`, in the order they have.
pub open spec fn without(keys: Seq<u64>, key: u64) -> Seq<u64> {
    keys.filter(other_than(key))
}

/// The test that a key is not `key`.
pub open spec fn other_than(key: u64) -> spec_fn(u64) -> bool {
    |k: u64| k != key
}

/// The targets that were seen, by address, and the addresses picked out of
/// them, in the order they were picked.
pub struct TargetManager {
    targets: HashMap<u64, Target>,
    selected_targets: Vec<u64>,
}

impl TargetManager {
    /// The targets, by the key of their address.
    pub closed spec fn targets(&self) -> Map<u64, Target> {
        self.targets@
    }

    /// The keys of the addresses picked, in the order they were picked.
    pub closed spec fn selected(&self) -> Seq<u64> {
        self.selected_targets@
    }

    /// Every target is filed under its own address; what is picked is a
    /// target, and is picked once.
    pub open spec fn wf(&self) -> bool {
        &&& self.targets().dom().finite()
        &&& forall|k: u64| #[trigger]
            self.targets().contains_key(k) ==> self.targets()[k].mac_address.spec_key() == k
        &&& forall|i: int|
            0 <= i < self.selected().len() ==> self.targets().contains_key(
                #[trigger] self.selected()[i],
            )
        &&& self.selected().no_duplicates()
    }

    /// A manager without targets.
    pub fn new() -> (manager: TargetManager)
        ensures
            manager.wf(),
            manager.targets() == Map::<u64, Target>::empty(),
            manager.selected() == Seq::<u64>::empty(),
    {
        TargetManager { targets: HashMap::new(), selected_targets: Vec::new() }
    }

    /// Adds a target, in place of what was known under its address.
    pub fn add_target(&mut self, target: Target)
        requires
            old(self).wf(),
        ensures
            final(self).wf(),
            final(self).targets() == old(self).targets().insert(
                target.mac_address.spec_key() as u64,
                target,
            ),
            final(self).selected() == old(self).selected(),
    {
        let key = target.mac_address.key();
        self.targets.insert(key, target);
    }

    /// The place of `key` among the keys picked, if it is there.
    fn selected_position(&self, key: u64) -> (position: Option<usize>)
        ensures
            position matches Some(i) ==> i < self.selected().len() && self.selected()[i as int]
                == key,
            position is None ==> !self.selected().contains(key),
    {
        let mut i: usize = 0;
        while i < self.selected_targets.len()
            invariant
                i <= self.selected_targets@.len(),
                forall|j: int| 0 <= j < i ==> self.selected_targets@[j] != key,
            decreases self.selected_targets@.len() - i,
        {
            if self.selected_targets[i] == key {
                return Some(i);
            }
            i = i + 1;
        }
        None
    }

    /// Takes `key` out of the keys picked.
    fn unselect(&mut self, key: u64)
        requires
            old(self).wf(),
        ensures
            final(self).wf(),
            final(self).targets() == old(self).targets(),
            final(self).selected() == without(old(self).selected(), key),
            !final(self).selected().contains(key),
    {
        let ghost keep = other_than(key);
        let ghost before = self.selected_targets@;
        let mut kept: Vec<u64> = Vec::new();
        let mut i: usize = 0;
        assert(before.take(0).filter(keep) =~= Seq::<u64>::empty()) by {
            reveal(Seq::filter);
        }
        while i < self.selected_targets.len()
            invariant
                i <= before.len(),
                self.selected_targets@ == before,
                keep == other_than(key),
                kept@ == before.take(i as int).filter(keep),
            decreases before.len() - i,
        {
            let k = self.selected_targets[i];
            proof {
                assert(before.take(i + 1) =~= before.take(i as int).push(k));
                before.take(i as int).lemma_filter_push(k, keep);
            }
            if k != key {
                kept.push(k);
            }
            i = i + 1;
        }
        proof {
            assert(before.take(i as int) =~= before);
            before.lemma_filter_len(keep);
            assert forall|j: int| 0 <= j < kept@.len() implies before.contains(
                #[trigger] kept@[j],
            ) && kept@[j] != key by {
                before.lemma_filter_pred(keep, j);
                before.lemma_filter_contains_rev(keep, kept@[j]);
            }
            lemma_filter_no_duplicates(before, key);
        }
        self.selected_targets = kept;
    }

    /// Removes the target with the given address, and with it the pick of
    /// it; returns what was known of it.
    pub fn remove_target(&mut self, mac: &MacAddress) -> (removed: Option<Target>)
        requires
            old(self).wf(),
        ensures
            final(self).wf(),
            final(self).targets() == old(self).targets().remove(mac.spec_key() as u64),
            final(self).selected() == without(old(self).selected(), mac.spec_key() as u64),
            removed == if old(self).targets().contains_key(mac.spec_key() as u64) {
                Some(old(self).targets()[mac.spec_key() as u64])
            } else {
                None
            },
    {
        let key = mac.key();
        self.unselect(key);
        self.targets.remove(&key)
    }

    /// Every target, in no particular order.
    pub fn get_targets(&self) -> (all: Vec<&Target>)
        requires
            self.wf(),
        ensures
            all@.unref().to_set() == self.targets().values(),
            all@.len() == self.targets().dom().len(),
    {
        let mut all: Vec<&Target> = Vec::new();
        let ghost whole = self.targets.values().remaining();
        for target in it: self.targets.values()
            invariant
                it.seq() == whole,
                all@ == whole.take(it.index()),
        {
            all.push(target);
            assert(all@ =~= whole.take(it.index() + 1));
        }
        assert(all@ =~= whole);
        all
    }

    /// The target with the given address, if there is one.
    pub fn get_target(&self, mac: &MacAddress) -> (target: Option<&Target>)
        ensures
            target is Some <==> self.targets().contains_key(mac.spec_key() as u64),
            target matches Some(t) ==> *t == self.targets()[mac.spec_key() as u64],
    {
        let key = mac.key();
        self.targets.get(&key)
    }

    /// Picks the target with the given address. A target that is picked
    /// already stays where it is; an address that is no target's is refused.
    pub fn select_target(&mut self, mac: MacAddress) -> (r: Result<(), String>)
        requires
            old(self).wf(),
        ensures
            final(self).wf(),
            final(self).targets() == old(self).targets(),
            r is Ok <==> old(self).targets().contains_key(mac.spec_key() as u64),
            r matches Err(reason) ==> reason@ == "Target not found"@ && final(self).selected()
                == old(self).selected(),
            r is Ok ==> final(self).selected() == if old(self).selected().contains(
                mac.spec_key() as u64,
            ) {
                old(self).selected()
            } else {
                old(self).selected().push(mac.spec_key() as u64)
            },
    {
        let key = mac.key();
        if !self.targets.contains_key(&key) {
            return Err("Target not found".to_string());
        }
        if self.selected_position(key).is_none() {
            self.selected_targets.push(key);
            proof {
                let before = old(self).selected();
                assert forall|i: int, j: int|
                    0 <= i < before.push(key).len() && 0 <= j < before.push(key).len() && i
                        != j implies before.push(key)[i] != before.push(key)[j] by {
                    if i < before.len() {
                        assert(before.contains(before[i]));
                    }
                    if j < before.len() {
                        assert(before.contains(before[j]));
                    }
                }
            }
        }
        Ok(())
    }

    /// Withdraws the pick of the target with the given address.
    pub fn deselect_target(&mut self, mac: &MacAddress)
        requires
            old(self).wf(),
        ensures
            final(self).wf(),
            final(self).targets() == old(self).targets(),
            final(self).selected() == without(old(self).selected(), mac.spec_key() as u64),
    {
        self.unselect(mac.key());
    }

    /// The targets picked, in the order they were picked.
    pub fn get_selected_targets(&self) -> (picked: Vec<&Target>)
        requires
            self.wf(),
        ensures
            picked@.len() == self.selected().len(),
            forall|i: int|
                0 <= i < picked@.len() ==> *picked@[i] == self.targets()[self.selected()[i]],
    {
        let mut picked: Vec<&Target> = Vec::new();
        let mut i: usize = 0;
        while i < self.selected_targets.len()
            invariant
                self.wf(),
                i <= self.selected_targets@.len(),
                picked@.len() == i,
                forall|j: int|
                    0 <= j < i ==> *picked@[j] == self.targets@[self.selected_targets@[j]],
            decreases self.selected_targets@.len() - i,
        {
            let key = self.selected_targets[i];
            assert(self.targets().contains_key(self.selected()[i as int]));
            match self.targets.get(&key) {
                Some(target) => {
                    picked.push(target);
                },
                None => {},
            }
            i = i + 1;
        }
        picked
    }

    /// Forgets every target and every pick.
    pub fn clear_targets(&mut self)
        ensures
            final(self).wf(),
            final(self).targets() == Map::<u64, Target>::empty(),
            final(self).selected() == Seq::<u64>::empty(),
    {
        self.targets.clear();
        self.selected_targets.clear();
    }

    /// Notes the signal strength of the target with the given address, seen
    /// at `wall_millis` on the wall clock. An address that is no target's
    /// changes nothing.
    pub fn update_signal_at(&mut self, mac: MacAddress, signal: i8, wall_millis: i64)
        requires
            old(self).wf(),
        ensures
            final(self).wf(),
            final(self).selected() == old(self).selected(),
            !old(self).targets().contains_key(mac.spec_key() as u64) ==> final(self).targets()
                == old(self).targets(),
            old(self).targets().contains_key(mac.spec_key() as u64) ==> final(self).targets()
                == old(self).targets().insert(
                mac.spec_key() as u64,
                old(self).targets()[mac.spec_key() as u64].seen(signal, wall_millis),
            ),
    {
        let key = mac.key();
        match self.targets.remove(&key) {
            Some(known) => {
                let mut target = known;
                target.signal_strength = signal;
                target.last_seen = wall_millis;
                self.targets.insert(key, target);
                assert(self.targets@ =~= old(self).targets@.insert(key, target));
            },
            None => {
                assert(self.targets@ =~= old(self).targets@);
            },
        }
    }

    /// Notes the signal strength of the target with the given address, seen
    /// now. Whatever the clock reads, this is `update_signal_at` on that
    /// reading.
    pub fn update_signal(&mut self, mac: MacAddress, signal: i8)
        requires
            old(self).wf(),
        ensures
            final(self).wf(),
            final(self).selected() == old(self).selected(),
            !old(self).targets().contains_key(mac.spec_key() as u64) ==> final(self).targets()
                == old(self).targets(),
            old(self).targets().contains_key(mac.spec_key() as u64) ==> exists|wall_millis: i64|
                final(self).targets() == old(self).targets().insert(
                    mac.spec_key() as u64,
                    #[trigger] old(self).targets()[mac.spec_key() as u64].seen(signal, wall_millis),
                ),
    {
        let wall_millis = wall_clock_millis();
        self.update_signal_at(mac, signal, wall_millis);
    }
}

impl Default for TargetManager {
    /// A manager without targets.
    fn default() -> (manager: TargetManager)
        ensures
            manager.wf(),
            manager.targets() == Map::<u64, Target>::empty(),
            manager.selected() == Seq::<u64>::empty(),
    {
        TargetManager::new()
    }
}

/// Taking a key out of keys that hold nothing twice leaves keys that hold
/// nothing twice, and not that key.
proof fn lemma_filter_no_duplicates(keys: Seq<u64>, key: u64)
    requires
        keys.no_duplicates(),
    ensures
        without(keys, key).no_duplicates(),
        !without(keys, key).contains(key),
    decreases keys.len(),
{
    let keep = other_than(key);
    if keys.len() == 0 {
        assert(keys.filter(keep) =~= Seq::<u64>::empty()) by {
            reveal(Seq::filter);
        }
    } else {
        let front = keys.drop_last();
        let last = keys.last();
        assert(front.push(last) =~= keys);
        front.lemma_filter_push(last, keep);
        lemma_filter_no_duplicates(front, key);
        let kept = front.filter(keep);
        if keep(last) {
            let all = kept.push(last);
            assert forall|i: int| 0 <= i < kept.len() implies kept[i] != last by {
                front.lemma_filter_contains_rev(keep, kept[i]);
                let j = choose|j: int| 0 <= j < front.len() && front[j] == kept[i];
                assert(keys[j] == kept[i] && keys[keys.len() - 1] == last);
            }
            assert forall|i: int, j: int| 0 <= i < all.len() && 0 <= j < all.len() && i
                != j implies all[i] != all[j] by {
                if i < kept.len() && j < kept.len() {
                    assert(kept[i] != kept[j]);
                }
            }
            assert forall|i: int| 0 <= i < all.len() implies all[i] != key by {
                if i < kept.len() {
                    assert(kept.contains(kept[i]));
                }
            }
        }
    }
}

} // verus!
