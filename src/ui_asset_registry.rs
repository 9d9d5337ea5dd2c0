use vstd::prelude::*;

verus! {

/// One published release of the UI assets.
#[derive(Debug, Clone)]
pub struct UiRelease {
    /// Position in the registry, counted from 1.
    pub id: u64,
    pub cid_or_hash: String,
    /// Seconds since the Unix epoch at publication.
    pub timestamp: u64,
}

/// Append-only registry of UI releases.
#[derive(Debug)]
pub struct UiAssetRegistry {
    releases: Vec<UiRelease>,
}

/// A point in time of the system clock, carried opaquely.
#[verifier::external_type_specification]
#[verifier::external_body]
pub struct ExSystemTime(std::time::SystemTime);

/// Relies on `SystemTime::now`: the system clock's current reading. Nothing is promised
/// of it.
#[verifier::external_body]
fn clock_now() -> (r: std::time::SystemTime) {
    std::time::SystemTime::now()
}

/// Relies on `SystemTime::duration_since(UNIX_EPOCH)`: whole seconds from the epoch to
/// `t`, or `None` when `t` is earlier than the epoch. Nothing is promised of the value.
#[verifier::external_body]
fn seconds_since_epoch(t: &std::time::SystemTime) -> (r: Option<u64>) {
    t.duration_since(std::time::UNIX_EPOCH).ok().as_ref().map(std::time::Duration::as_secs)
}

impl View for UiAssetRegistry {
    type V = Seq<UiRelease>;

    closed spec fn view(&self) -> Seq<UiRelease> {
        self.releases@
    }
}

impl UiAssetRegistry {
    /// Each release's id is its position counted from 1.
    pub open spec fn wf(&self) -> bool {
        forall|i: int| 0 <= i < self@.len() ==> (#[trigger] self@[i]).id == i + 1
    }

    pub fn new() -> (r: Self)
        ensures
            r.wf(),
            r@ == Seq::<UiRelease>::empty(),
    {
        UiAssetRegistry { releases: Vec::new() }
    }

    /// Appends a release stamped `timestamp`, with the next id, and returns it.
    pub fn publish_release_at(&mut self, cid_or_hash: String, timestamp: u64) -> (r: &UiRelease)
        requires
            old(self).wf(),
            old(self)@.len() < u64::MAX,
        ensures
            final(self).wf(),
            final(self)@ == old(self)@.push(
                UiRelease { id: (old(self)@.len() + 1) as u64, cid_or_hash, timestamp },
            ),
            *r == final(self)@.last(),
    {
        let id = self.releases.len() as u64 + 1;
        self.releases.push(UiRelease { id, cid_or_hash, timestamp });
        let last = self.releases.len() - 1;
        &self.releases[last]
    }

    /// Appends a release stamped with the current time (0 when the clock reads before
    /// the epoch), with the next id, and returns it.
    pub fn publish_release(&mut self, cid_or_hash: String) -> (r: &UiRelease)
        requires
            old(self).wf(),
            old(self)@.len() < u64::MAX,
        ensures
            final(self).wf(),
            final(self)@.len() == old(self)@.len() + 1,
            final(self)@.drop_last() == old(self)@,
            final(self)@.last().id == old(self)@.len() + 1,
            final(self)@.last().cid_or_hash == cid_or_hash,
            *r == final(self)@.last(),
    {
        let now = clock_now();
        let timestamp: u64 = match seconds_since_epoch(&now) {
            Some(t) => t,
            None => 0,
        };
        self.publish_release_at(cid_or_hash, timestamp)
    }

    /// The most recent release, if any.
    pub fn latest_release(&self) -> (r: Option<&UiRelease>)
        ensures
            match r {
                Some(x) => self@.len() > 0 && *x == self@.last(),
                None => self@.len() == 0,
            },
    {
        self.releases.last()
    }

    /// Every release, oldest first.
    pub fn all_releases(&self) -> (r: &[UiRelease])
        ensures
            r@ == self@,
    {
        self.releases.as_slice()
    }
}

impl Default for UiAssetRegistry {
    fn default() -> (r: Self)
        ensures
            r.wf(),
            r@ == Seq::<UiRelease>::empty(),
    {
        UiAssetRegistry::new()
    }
}

} // verus!
