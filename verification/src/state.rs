//! Application state: a persisted label, a fixed-point numeric value, and
//! the list of host toggles shown in the side panel.
use vstd::prelude::*;

verus! {

/// One entry in the side panel's host list: a numeric identifier and a
/// toggle the user can flip.
#[derive(Clone, Copy, Debug, PartialEq, Eq, Structural)]
pub struct HostToggle {
    pub id: u64,
    pub enabled: bool,
}

/// Number of host entries in the side panel (identifiers 1 through 59).
pub const HOST_COUNT: usize = 59;

/// Default numeric value, in milli-units (2.7 units).
pub const VALUE_DEFAULT_MILLI: i64 = 2700;

/// The host list the application starts with: entries 1..=59, where entry
/// `n` starts enabled exactly when `n` is even.
pub open spec fn spec_default_toggles() -> Seq<HostToggle> {
    Seq::new(
        HOST_COUNT as nat,
        |i: int| HostToggle { id: (i + 1) as u64, enabled: (i + 1) % 2 == 0 },
    )
}

/// The whole mutable application state. `value_milli` holds the numeric
/// value in thousandths of a unit, so that the state stays in exact
/// integer arithmetic.
pub struct TemplateApp {
    pub label: String,
    pub value_milli: i64,
    pub host_toggles: Vec<HostToggle>,
}

/// The state the application starts with when nothing was persisted.
pub open spec fn is_default_app(app: TemplateApp) -> bool {
    &&& app.label@ == "Hello World!"@
    &&& app.value_milli == VALUE_DEFAULT_MILLI
    &&& app.host_toggles@ == spec_default_toggles()
}

/// Builds the initial host list.
pub fn default_host_toggles() -> (r: Vec<HostToggle>)
    ensures
        r@ == spec_default_toggles(),
{
    let mut v: Vec<HostToggle> = Vec::new();
    let mut n: u64 = 1;
    while n <= 59
        invariant
            1 <= n <= 60,
            v@.len() + 1 == n,
            forall|i: int| 0 <= i < v@.len() ==> #[trigger] v@[i] == spec_default_toggles()[i],
        decreases 60 - n,
    {
        v.push(HostToggle { id: n, enabled: n % 2 == 0 });
        n = n + 1;
    }
    proof {
        assert(v@ =~= spec_default_toggles());
    }
    v
}

impl Default for TemplateApp {
    /// The fallback state: label "Hello World!", value 2.7 units, and the
    /// alternating host list.
    fn default() -> (r: Self)
        ensures
            is_default_app(r),
    {
        TemplateApp {
            label: "Hello World!".to_owned(),
            value_milli: VALUE_DEFAULT_MILLI,
            host_toggles: default_host_toggles(),
        }
    }
}

/// The host list after the toggle at position `i` is flipped once; every
/// other entry is unchanged.
pub open spec fn spec_toggle(ts: Seq<HostToggle>, i: int) -> Seq<HostToggle> {
    ts.update(i, HostToggle { id: ts[i].id, enabled: !ts[i].enabled })
}

impl TemplateApp {
    /// The state's internal invariant: the host list always holds its 59
    /// entries, numbered 1 through 59 in order. No operation adds or
    /// removes entries or renumbers them.
    pub open spec fn wf(self) -> bool {
        &&& self.host_toggles@.len() == HOST_COUNT
        &&& forall|i: int|
            0 <= i < self.host_toggles@.len() ==> (#[trigger] self.host_toggles@[i]).id == i + 1
    }

    /// Flips the toggle at position `i`, leaving everything else as it was.
    pub fn toggle_host(&mut self, i: usize)
        requires
            i < old(self).host_toggles@.len(),
        ensures
            final(self).host_toggles@ == spec_toggle(old(self).host_toggles@, i as int),
            final(self).label == old(self).label,
            final(self).value_milli == old(self).value_milli,
            old(self).wf() ==> final(self).wf(),
    {
        let id = self.host_toggles[i].id;
        let enabled = self.host_toggles[i].enabled;
        self.host_toggles.set(i, HostToggle { id, enabled: !enabled });
        proof {
            assert(self.host_toggles@ =~= spec_toggle(old(self).host_toggles@, i as int));
        }
    }
}

/// In the initial host list, the entry with identifier `n` starts enabled
/// exactly when `n` is even.
pub proof fn lemma_initial_enabled_iff_even(i: int)
    requires
        0 <= i < spec_default_toggles().len(),
    ensures
        spec_default_toggles()[i].id == i + 1,
        spec_default_toggles()[i].enabled <==> spec_default_toggles()[i].id % 2 == 0,
{
}

/// Toggling an entry once flips exactly its `enabled` value; every other
/// entry is untouched.
pub proof fn lemma_toggle_flips(ts: Seq<HostToggle>, i: int)
    requires
        0 <= i < ts.len(),
    ensures
        spec_toggle(ts, i)[i].enabled == !ts[i].enabled,
        forall|a: int| 0 <= a < ts.len() && a != i ==> spec_toggle(ts, i)[a] == ts[a],
{
}

/// A freshly constructed state is well formed: the default host list has
/// entry `i + 1` at position `i`.
pub proof fn lemma_default_app_wf(app: TemplateApp)
    requires
        app.host_toggles@ == spec_default_toggles(),
    ensures
        app.wf(),
{
}

/// A toggle changes neither the list's length nor any identifier: the
/// host list's shape is stable for the process lifetime.
pub proof fn lemma_toggle_preserves_ids(ts: Seq<HostToggle>, i: int)
    requires
        0 <= i < ts.len(),
    ensures
        spec_toggle(ts, i).len() == ts.len(),
        forall|a: int| 0 <= a < ts.len() ==> (#[trigger] spec_toggle(ts, i)[a]).id == ts[a].id,
{
}

/// Toggling the same entry twice restores the host list exactly.
pub proof fn lemma_toggle_twice(ts: Seq<HostToggle>, i: int)
    requires
        0 <= i < ts.len(),
    ensures
        spec_toggle(spec_toggle(ts, i), i) == ts,
{
    assert(spec_toggle(spec_toggle(ts, i), i) =~= ts);
}

} // verus!
