//! E-ink rendering, and the cadence of partial and full refreshes.
use vstd::prelude::*;

use super::sys::{command, Command, CommandView};
use super::Device;

verus! {

/// How a frame is put on the panel.
#[derive(Debug, Clone, Copy, PartialEq, Eq, Structural)]
pub enum RefreshKind {
    /// Full, flashing refresh, which clears e-ink ghosting.
    Full,
    /// Fast partial refresh, which accumulates ghosting over time.
    Partial,
}

/// Seconds for which the panel settles after a static screen.
pub const STATIC_SETTLE_SECS: u64 = 2;

/// Tracks the refresh cadence: after `full_every` partial refreshes, the next one is full.
#[derive(Debug, Clone, Copy, PartialEq, Eq, Structural)]
pub struct RefreshCycle {
    full_every: u32,
    count: u32,
}

/// A refresh cadence: `count` partial refreshes were made since the last full one.
pub struct Cadence {
    pub full_every: nat,
    pub count: nat,
}

impl Cadence {
    /// The kind of the next refresh.
    pub open spec fn due(self) -> RefreshKind {
        if self.count >= self.full_every {
            RefreshKind::Full
        } else {
            RefreshKind::Partial
        }
    }

    /// The cadence once the next refresh was made.
    pub open spec fn advanced(self) -> Cadence {
        match self.due() {
            RefreshKind::Full => Cadence { count: 0, ..self },
            RefreshKind::Partial => Cadence { count: self.count + 1, ..self },
        }
    }

    /// The cadence with a full refresh due.
    pub open spec fn forced(self) -> Cadence {
        Cadence { count: self.full_every, ..self }
    }

    /// A cadence at its beginning.
    pub open spec fn fresh(full_every: nat) -> Cadence {
        Cadence { full_every, count: 0 }
    }

    /// The cadence after `n` refreshes.
    pub open spec fn after(self, n: nat) -> Cadence
        decreases n,
    {
        if n == 0 {
            self
        } else {
            self.after((n - 1) as nat).advanced()
        }
    }
}

impl View for RefreshCycle {
    type V = Cadence;

    closed spec fn view(&self) -> Cadence {
        Cadence { full_every: self.full_every as nat, count: self.count as nat }
    }
}

impl RefreshCycle {
    /// A cycle at its beginning.
    pub fn new(full_every: u32) -> (cycle: Self)
        ensures
            cycle@ == Cadence::fresh(full_every as nat),
    {
        RefreshCycle { full_every, count: 0 }
    }

    /// The kind of the next refresh, which advances the cycle: `full_every` partial refreshes,
    /// then a full one.
    pub fn next_kind(&mut self) -> (kind: RefreshKind)
        ensures
            kind == old(self)@.due(),
            final(self)@ == old(self)@.advanced(),
    {
        if self.count >= self.full_every {
            self.count = 0;
            RefreshKind::Full
        } else {
            self.count += 1;
            RefreshKind::Partial
        }
    }

    /// Makes the next refresh a full one.
    pub fn force_full_next(&mut self)
        ensures
            final(self)@ == old(self)@.forced(),
    {
        self.count = self.full_every;
    }
}

proof fn lemma_count_is_position(full_every: nat, n: nat)
    ensures
        Cadence::fresh(full_every).after(n).full_every == full_every,
        Cadence::fresh(full_every).after(n).count == n as int % (full_every as int + 1),
    decreases n,
{
    let period = full_every as int + 1;
    if n == 0 {
        vstd::arithmetic::div_mod::lemma_small_mod(0, period as nat);
    } else {
        lemma_count_is_position(full_every, (n - 1) as nat);
        let before = (n - 1) % period;
        vstd::arithmetic::div_mod::lemma_add_mod_noop(n - 1, 1, period);
        vstd::arithmetic::div_mod::lemma_mod_bound(n - 1, period);
        if before == full_every {
            if period > 1 {
                vstd::arithmetic::div_mod::lemma_small_mod(1, period as nat);
            }
            vstd::arithmetic::div_mod::lemma_mod_self_0(period);
            vstd::arithmetic::div_mod::lemma_mod_adds(before, 1, period);
        } else {
            vstd::arithmetic::div_mod::lemma_small_mod(1, period as nat);
            vstd::arithmetic::div_mod::lemma_small_mod((before + 1) as nat, period as nat);
        }
    }
}

/// A new cycle makes exactly `full_every` partial refreshes between two full ones: counted from
/// zero, refresh `n` is full exactly where `n + 1` is a multiple of `full_every + 1`.
pub proof fn law_exact_number_of_partials(full_every: nat, n: nat)
    ensures
        Cadence::fresh(full_every).after(n).due() == RefreshKind::Full <==> (n as int + 1) % (
        full_every as int + 1) == 0,
{
    let period = full_every as int + 1;
    lemma_count_is_position(full_every, n);
    lemma_count_is_position(full_every, n + 1);
    vstd::arithmetic::div_mod::lemma_mod_bound(n as int, period);
}

/// With a rate of zero every refresh is full.
pub proof fn law_zero_rate_is_always_full(n: nat)
    ensures
        Cadence::fresh(0).after(n).due() == RefreshKind::Full,
{
    lemma_count_is_position(0, n);
}

/// Forcing a full refresh makes the next one full, and the regular cadence follows it.
pub proof fn law_forced_refresh_restarts_the_cadence(cadence: Cadence, n: nat)
    ensures
        cadence.forced().due() == RefreshKind::Full,
        cadence.forced().after(n + 1) == Cadence::fresh(cadence.full_every).after(n),
    decreases n,
{
    if n == 0 {
        assert(cadence.forced().after(0) == cadence.forced());
        assert(cadence.forced().after(1) == cadence.forced().advanced());
    } else {
        law_forced_refresh_restarts_the_cadence(cadence, (n - 1) as nat);
    }
}

/// Shows an image: the full form flashes the panel.
pub open spec fn eips(full: bool, path: Seq<char>) -> CommandView {
    CommandView {
        program: "/usr/sbin/eips"@,
        args: if full {
            seq!["-f"@, "-g"@, path]
        } else {
            seq!["-g"@, path]
        },
    }
}

impl Device {
    /// Shows an image with the device's own tool, which lives at an absolute path.
    pub fn eips_show(self, path: &str, full: bool) -> (c: Command)
        ensures
            c@ == eips(full, path@),
    {
        let eips_path: &str = match self {
            Device::Voyage => "/usr/sbin/eips",
        };
        if full {
            let c = command(eips_path, vec!["-f", "-g", path]);
            assert(c@.args =~= eips(full, path@).args);
            c
        } else {
            let c = command(eips_path, vec!["-g", path]);
            assert(c@.args =~= eips(full, path@).args);
            c
        }
    }

    /// Renders the dashboard image, with a full refresh or a partial one.
    pub fn render_dashboard(self, path: &str, kind: RefreshKind) -> (c: Command)
        ensures
            c@ == eips(kind == RefreshKind::Full, path@),
    {
        self.eips_show(path, kind == RefreshKind::Full)
    }

    /// Renders the sleep screen, always with a full refresh, and tells how long the panel then
    /// settles.
    pub fn render_sleeping(self, path: &str) -> (r: (Command, u64))
        ensures
            r.0@ == eips(true, path@),
            r.1 == STATIC_SETTLE_SECS,
    {
        self.render_static(path)
    }

    /// Renders the low-battery screen, always with a full refresh, and tells how long the panel
    /// then settles.
    pub fn render_low_battery(self, path: &str) -> (r: (Command, u64))
        ensures
            r.0@ == eips(true, path@),
            r.1 == STATIC_SETTLE_SECS,
    {
        self.render_static(path)
    }

    fn render_static(self, path: &str) -> (r: (Command, u64))
        ensures
            r.0@ == eips(true, path@),
            r.1 == STATIC_SETTLE_SECS,
    {
        (self.eips_show(path, true), STATIC_SETTLE_SECS)
    }
}

} // verus!
