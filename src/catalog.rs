use vstd::prelude::*;
use crate::data_types::DeviceInfo;

verus! {

/// Why discovery found nothing.
#[derive(Clone, Copy, Debug, PartialEq, Eq, Structural)]
pub enum CatalogError {
    /// The first lookup failed: no radio, or no device in range.
    DeviceNotFound,
}

/// Which devices an inquiry asks the system for.
#[derive(Clone, Copy, Debug, PartialEq, Eq, Structural)]
pub struct SearchParams {
    pub return_authenticated: bool,
    pub return_remembered: bool,
    pub return_unknown: bool,
    pub return_connected: bool,
    pub issue_inquiry: bool,
    /// Length of the inquiry, in units of 1.28 seconds.
    pub timeout_multiplier: u8,
}

/// Paired, unknown and connected devices, without remembered ones that are
/// out of range, found by a fresh inquiry of two units.
pub open spec fn search_params_spec() -> SearchParams {
    SearchParams {
        return_authenticated: true,
        return_remembered: false,
        return_unknown: true,
        return_connected: true,
        issue_inquiry: true,
        timeout_multiplier: 2,
    }
}

/// The devices that the lookups after the first return, up to the first that
/// reports no more.
pub open spec fn found_until_end(nexts: Seq<Option<DeviceInfo>>) -> Seq<DeviceInfo>
    decreases nexts.len(),
{
    if nexts.len() == 0 {
        Seq::empty()
    } else {
        match nexts[0] {
            None => Seq::empty(),
            Some(d) => seq![d] + found_until_end(nexts.drop_first()),
        }
    }
}

/// A discovery pass under way: the devices found so far, in the order found.
pub struct Discovery {
    devices: Vec<DeviceInfo>,
    finished: bool,
}

/// The devices and the finished flag after one more lookup came back with
/// `next`.
pub open spec fn after_next(
    devices: Seq<DeviceInfo>,
    finished: bool,
    next: Option<DeviceInfo>,
) -> (Seq<DeviceInfo>, bool) {
    if finished {
        (devices, true)
    } else {
        match next {
            None => (devices, true),
            Some(d) => (devices.push(d), false),
        }
    }
}

/// The devices and the finished flag after the lookups came back with
/// `nexts` in turn.
pub open spec fn after_all(
    devices: Seq<DeviceInfo>,
    finished: bool,
    nexts: Seq<Option<DeviceInfo>>,
) -> (Seq<DeviceInfo>, bool)
    decreases nexts.len(),
{
    if nexts.len() == 0 {
        (devices, finished)
    } else {
        let step = after_next(devices, finished, nexts[0]);
        after_all(step.0, step.1, nexts.drop_first())
    }
}

impl Discovery {
    pub closed spec fn devices_spec(&self) -> Seq<DeviceInfo> {
        self.devices@
    }

    pub closed spec fn is_finished(&self) -> bool {
        self.finished
    }

    /// Begins a pass with the result of the first lookup. Without a first
    /// device the pass fails and holds no list at all.
    pub fn start(first: Option<DeviceInfo>) -> (r: Result<Discovery, CatalogError>)
        ensures
            first is None ==> r == Err::<Discovery, CatalogError>(CatalogError::DeviceNotFound),
            first is Some ==> r is Ok && r->Ok_0.devices_spec() == seq![first->Some_0]
                && !r->Ok_0.is_finished(),
    {
        match first {
            None => Err(CatalogError::DeviceNotFound),
            Some(d) => {
                let mut devices: Vec<DeviceInfo> = Vec::new();
                devices.push(d);
                Ok(Discovery { devices, finished: false })
            },
        }
    }

    /// Records the result of the next lookup; `None` means that no device is
    /// left. Returns whether another lookup is wanted.
    pub fn on_next(&mut self, next: Option<DeviceInfo>) -> (more: bool)
        ensures
            (final(self).devices_spec(), final(self).is_finished()) == after_next(
                old(self).devices_spec(),
                old(self).is_finished(),
                next,
            ),
            more == !final(self).is_finished(),
    {
        if !self.finished {
            match next {
                None => {
                    self.finished = true;
                },
                Some(d) => {
                    self.devices.push(d);
                },
            }
        }
        !self.finished
    }

    /// Whether a lookup has reported that no device is left.
    pub fn is_done(&self) -> (r: bool)
        ensures
            r == self.is_finished(),
    {
        self.finished
    }

    /// How many devices were found so far.
    pub fn len(&self) -> (r: usize)
        ensures
            r == self.devices_spec().len(),
    {
        self.devices.len()
    }

    /// The devices found, in the order found.
    pub fn into_devices(self) -> (r: Vec<DeviceInfo>)
        ensures
            r@ == self.devices_spec(),
    {
        self.devices
    }
}

/// A pass that began with device `first` holds, after any further lookups,
/// `first` and then the devices those lookups returned in the order returned,
/// up to the first that reported no more; it is finished exactly when such a
/// lookup came.
pub proof fn lemma_discovery_order(first: DeviceInfo, nexts: Seq<Option<DeviceInfo>>)
    ensures
        after_all(seq![first], false, nexts).0 == seq![first] + found_until_end(nexts),
        after_all(seq![first], false, nexts).1 == (exists|i: int|
            0 <= i < nexts.len() && nexts[i] is None),
{
    lemma_after_all(seq![first], nexts);
}

proof fn lemma_after_all_finished(devices: Seq<DeviceInfo>, nexts: Seq<Option<DeviceInfo>>)
    ensures
        after_all(devices, true, nexts) == (devices, true),
    decreases nexts.len(),
{
    if nexts.len() > 0 {
        lemma_after_all_finished(devices, nexts.drop_first());
    }
}

proof fn lemma_after_all(devices: Seq<DeviceInfo>, nexts: Seq<Option<DeviceInfo>>)
    ensures
        after_all(devices, false, nexts).0 == devices + found_until_end(nexts),
        after_all(devices, false, nexts).1 == (exists|i: int|
            0 <= i < nexts.len() && nexts[i] is None),
    decreases nexts.len(),
{
    if nexts.len() > 0 {
        let rest = nexts.drop_first();
        match nexts[0] {
            None => {
                lemma_after_all_finished(devices, rest);
                assert(devices + Seq::<DeviceInfo>::empty() =~= devices);
            },
            Some(d) => {
                lemma_after_all(devices.push(d), rest);
                assert(devices.push(d) + found_until_end(rest) =~= devices + (seq![d]
                    + found_until_end(rest)));
                if exists|i: int| 0 <= i < nexts.len() && nexts[i] is None {
                    let i = choose|i: int| 0 <= i < nexts.len() && nexts[i] is None;
                    assert(rest[i - 1] is None);
                }
                if exists|i: int| 0 <= i < rest.len() && rest[i] is None {
                    let i = choose|i: int| 0 <= i < rest.len() && rest[i] is None;
                    assert(nexts[i + 1] is None);
                }
            },
        }
    } else {
        assert(devices + Seq::<DeviceInfo>::empty() =~= devices);
    }
}

} // verus!
