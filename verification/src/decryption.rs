//! A throttled, coalesced cache of the handle chain resolved out of the
//! target process.
//!
//! The cache owns three optional opaque handles and the clock reading of the
//! last resolution attempt. Resolution itself (decrypting addresses out of
//! the target's memory) is the host's job: the per-frame driver asks the
//! throttle and skip predicates here whether a refresh is due, performs the
//! raw calls, and feeds each raw result back in through `apply_info`,
//! `apply_base` and `apply_bone`. A zero address is the resolver's failure
//! sentinel; it never enters the cache as a handle.

use vstd::prelude::*;

verus! {

/// Minimum spacing, in milliseconds, between two resolution attempts.
pub const REFRESH_INTERVAL_MS: u64 = 1000;

/// The cached handle chain.
///
/// `client_info` is the root handle. `client_base` is derived from
/// `client_info` and is meaningful only while a root is present; the two are
/// cleared together, never inferred invalid separately. `bone_base` is
/// resolved independently of the other two. `last_update` is the reading of
/// a monotonic millisecond clock at the last resolution attempt — the last
/// attempt, not the last success.
pub struct Decryption {
    pub client_info: Option<u64>,
    pub client_base: Option<u64>,
    pub bone_base: Option<u64>,
    pub last_update: u64,
}

impl Decryption {
    /// Chain invariant: a derived base handle is only ever present together
    /// with the root handle it was resolved from.
    pub open spec fn wf(self) -> bool {
        self.client_base is Some ==> self.client_info is Some
    }

    /// Both the root and the derived base handle are present.
    pub open spec fn valid_spec(self) -> bool {
        self.client_info is Some && self.client_base is Some
    }

    /// The whole chain, the independent bone handle as well, is present.
    pub open spec fn valid_bone_spec(self) -> bool {
        self.valid_spec() && self.bone_base is Some
    }

    /// Milliseconds since the last resolution attempt as seen from the
    /// monotonic clock reading `now`; a reading older than the stamp counts
    /// as no time passed.
    pub open spec fn elapsed_ms(self, now: u64) -> int {
        if now >= self.last_update {
            now - self.last_update
        } else {
            0
        }
    }

    /// A resolution attempt is due at `now`: the throttle window has
    /// passed, and the skip-if-stable check (already valid, and the
    /// liveness probe succeeded) does not apply.
    pub open spec fn refreshes(self, now: u64, camera_live: bool) -> bool {
        self.elapsed_ms(now) >= REFRESH_INTERVAL_MS && !(self.valid_spec() && camera_live)
    }

    /// The cache with the throttle stamp moved to `now`.
    pub open spec fn stamped(self, now: u64) -> Decryption {
        Decryption { last_update: now, ..self }
    }

    /// The cache after the root resolution attempt came back with `info`.
    /// Zero means the target's state is unavailable and drops the whole
    /// chain; anything else is kept as an opaque root handle.
    pub open spec fn after_info(self, info: u64) -> Decryption {
        if info == 0 {
            Decryption { client_info: None, client_base: None, bone_base: None, ..self }
        } else {
            Decryption { client_info: Some(info), ..self }
        }
    }

    /// The cache after the derived base resolution came back with `base`.
    /// Zero clears only the base handle: the root was independently
    /// confirmed this cycle and stays.
    pub open spec fn after_base(self, base: u64) -> Decryption {
        if base == 0 {
            Decryption { client_base: None, ..self }
        } else {
            Decryption { client_base: Some(base), ..self }
        }
    }

    /// The cache after the independent bone resolution came back with
    /// `bone`; zero is the failure sentinel here as well.
    pub open spec fn after_bone(self, bone: u64) -> Decryption {
        if bone == 0 {
            Decryption { bone_base: None, ..self }
        } else {
            Decryption { bone_base: Some(bone), ..self }
        }
    }

    /// One full refresh pass as a function of the clock reading, the
    /// liveness probe, and what the resolver would return this cycle:
    /// first the throttle, then the skip-if-stable check, then root
    /// resolution, then — only when the root resolved — base resolution.
    pub open spec fn update_spec(self, now: u64, camera_live: bool, info: u64, base: u64) -> Decryption {
        if !self.refreshes(now, camera_live) {
            self
        } else if info == 0 {
            self.stamped(now).after_info(info)
        } else {
            self.stamped(now).after_info(info).after_base(base)
        }
    }

    /// True iff both the root and the derived base handle are present.
    pub fn valid(&self) -> (r: bool)
        ensures
            r == self.valid_spec(),
    {
        self.client_info.is_some() && self.client_base.is_some()
    }

    /// True iff the chain is valid and the bone handle is present too.
    pub fn valid_bone(&self) -> (r: bool)
        ensures
            r == self.valid_bone_spec(),
    {
        self.valid() && self.bone_base.is_some()
    }

    /// True while the throttle window since the last resolution attempt is
    /// still open. The driver returns immediately in that case, which
    /// bounds how often the resolver is invoked regardless of frame rate.
    pub fn throttled(&self, now: u64) -> (r: bool)
        ensures
            r == (self.elapsed_ms(now) < REFRESH_INTERVAL_MS),
    {
        let elapsed: u64 = if now >= self.last_update {
            now - self.last_update
        } else {
            0
        };
        elapsed < REFRESH_INTERVAL_MS
    }

    /// True when re-resolution should be skipped even past the throttle
    /// window: the chain is already fully valid and the liveness probe
    /// (`camera_live`: can a view position currently be read) succeeded.
    /// Avoids churn while the target process is in a normal, resolved
    /// state.
    pub fn skip_refresh(&self, camera_live: bool) -> (r: bool)
        ensures
            r == (self.valid_spec() && camera_live),
    {
        self.valid() && camera_live
    }

    /// Stamps the start of a resolution attempt. The stamp records the
    /// attempt, not its outcome: a pass whose resolution fails is
    /// throttled afterwards like a successful one.
    pub fn begin_refresh(&mut self, now: u64)
        ensures
            *final(self) == old(self).stamped(now),
    {
        self.last_update = now;
    }

    /// Records the result of resolving the root handle. Zero means the
    /// target's state is unavailable (not in-game, handle table moved):
    /// the whole chain is dropped. Any other value is kept as an opaque
    /// root handle and the rest of the cache is untouched. Returns whether
    /// the root resolved, i.e. whether resolving the derived base handle
    /// is worth attempting this cycle.
    pub fn apply_info(&mut self, info: u64) -> (resolved: bool)
        ensures
            *final(self) == old(self).after_info(info),
            resolved == (info != 0),
    {
        if info == 0 {
            self.reset();
            false
        } else {
            self.client_info = Some(info);
            true
        }
    }

    /// Records the result of resolving the derived base handle. Zero
    /// clears only the base handle, leaving the root set: it was
    /// independently confirmed valid this cycle. Callable only while a
    /// root is present — the base handle is meaningless without one.
    pub fn apply_base(&mut self, base: u64)
        requires
            old(self).client_info is Some,
        ensures
            *final(self) == old(self).after_base(base),
    {
        if base == 0 {
            self.client_base = None;
        } else {
            self.client_base = Some(base);
        }
    }

    /// Records the result of the independent bone-chain resolution; zero
    /// is the failure sentinel here as well.
    pub fn apply_bone(&mut self, bone: u64)
        ensures
            *final(self) == old(self).after_bone(bone),
    {
        if bone == 0 {
            self.bone_base = None;
        } else {
            self.bone_base = Some(bone);
        }
    }

    /// Drops the whole chain at once, so a derived base handle can never be
    /// observed without the root it came from. The throttle stamp stays: a
    /// failed attempt counts against the refresh interval like any other.
    pub fn reset(&mut self)
        ensures
            final(self).client_info is None,
            final(self).client_base is None,
            final(self).bone_base is None,
            final(self).last_update == old(self).last_update,
    {
        self.client_info = None;
        self.client_base = None;
        self.bone_base = None;
    }
}

impl Default for Decryption {
    /// The attach-time state: nothing resolved, and the throttle stamp at
    /// the clock's origin, so any reading at least one interval past the
    /// origin lets the first refresh pass run.
    fn default() -> (d: Self)
        ensures
            d.client_info is None,
            d.client_base is None,
            d.bone_base is None,
            d.last_update == 0,
    {
        Decryption {
            client_info: None,
            client_base: None,
            bone_base: None,
            last_update: 0,
        }
    }
}

/// Coalescing law: of two refresh passes less than the refresh interval
/// apart, at most one gets past the throttle and the skip check — so two
/// `update` passes within a second invoke the resolver at most once,
/// whatever the probe and the resolver return on either pass.
pub proof fn lemma_refresh_coalesced(
    s: Decryption,
    t1: u64,
    t2: u64,
    c1: bool,
    c2: bool,
    info: u64,
    base: u64,
)
    requires
        t1 <= t2 < t1 + REFRESH_INTERVAL_MS,
    ensures
        !(s.refreshes(t1, c1) && s.update_spec(t1, c1, info, base).refreshes(t2, c2)),
{
}

/// Invalidation law: on a pass that reaches the resolver, a failed root
/// resolution invalidates the whole chain — `valid` flips to false, and
/// the base and bone handles become absent even if they were present
/// before.
pub proof fn lemma_failed_root_invalidates(
    s: Decryption,
    now: u64,
    camera_live: bool,
    base: u64,
)
    requires
        s.refreshes(now, camera_live),
    ensures
        !s.update_spec(now, camera_live, 0, base).valid_spec(),
        s.update_spec(now, camera_live, 0, base).client_info is None,
        s.update_spec(now, camera_live, 0, base).client_base is None,
        s.update_spec(now, camera_live, 0, base).bone_base is None,
{
}

/// Invariant law: every refresh pass preserves — on a pass that resolves,
/// establishes outright — the chain invariant that a base handle is only
/// present together with a root.
pub proof fn lemma_update_preserves_wf(
    s: Decryption,
    now: u64,
    camera_live: bool,
    info: u64,
    base: u64,
)
    requires
        s.wf(),
    ensures
        s.update_spec(now, camera_live, info, base).wf(),
{
}

/// Decomposition law: the per-frame driver's sequence — throttle test,
/// skip test, stamp, root resolution, then base resolution only when the
/// root resolved — lands on exactly the state `update_spec` describes, so
/// the step functions `begin_refresh`, `apply_info` and `apply_base`
/// together implement one refresh pass.
pub proof fn lemma_update_decomposition(
    s: Decryption,
    now: u64,
    camera_live: bool,
    info: u64,
    base: u64,
)
    ensures
        !s.refreshes(now, camera_live) ==> s.update_spec(now, camera_live, info, base) == s,
        s.refreshes(now, camera_live) && info == 0 ==> s.update_spec(now, camera_live, info, base)
            == s.stamped(now).after_info(info),
        s.refreshes(now, camera_live) && info != 0 ==> s.update_spec(now, camera_live, info, base)
            == s.stamped(now).after_info(info).after_base(base),
{
}

} // verus!
