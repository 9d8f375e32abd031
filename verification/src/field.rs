use vstd::prelude::*;
use crate::ripple::{Ripple, earns_ring, INITIAL_RADIUS_T, MAX_RADIUS_T, RADIUS_INCREMENT_T};
use vstd::arithmetic::div_mod::{lemma_div_is_ordered, lemma_div_by_multiple};

verus! {

/// Default minimum interval between two spawns while the pointer is held,
/// in milliseconds (0.1 time units).
pub const DEFAULT_MIN_SPAWN_INTERVAL_MS: u64 = 100;

/// The kinematic part of a ripple's state: everything its per-tick
/// transition determines exactly. Ring colors are left out, since a fresh
/// ring's color is drawn at random.
pub ghost struct RippleKin {
    pub cx: int,
    pub cy: int,
    pub radius: int,
    pub copies: int,
}

impl Ripple {
    /// The kinematic view of this ripple.
    pub open spec fn kin(&self) -> RippleKin {
        RippleKin {
            cx: self.center_x as int,
            cy: self.center_y as int,
            radius: self.radius as int,
            copies: self.copies as int,
        }
    }
}

/// Kinematic view of a whole sequence of ripples.
pub open spec fn kin_seq(s: Seq<Ripple>) -> Seq<RippleKin> {
    s.map_values(|r: Ripple| r.kin())
}

/// The kinematics of a freshly spawned ripple at a given center.
pub open spec fn spawn_kin(cx: int, cy: int) -> RippleKin {
    RippleKin { cx, cy, radius: INITIAL_RADIUS_T as int, copies: 1 }
}

/// One tick of a ripple's transition, on the kinematic view: the radius
/// grows by the increment, and the ring count steps up exactly when the
/// grown radius has earned a new ring.
pub open spec fn step_kin(k: RippleKin) -> RippleKin {
    let radius = k.radius + RADIUS_INCREMENT_T;
    RippleKin {
        cx: k.cx,
        cy: k.cy,
        radius,
        copies: if earns_ring(radius, k.copies) {
            k.copies + 1
        } else {
            k.copies
        },
    }
}

/// Whether a ripple with these kinematics stays in the field: it expires
/// the moment its radius reaches the maximum.
pub open spec fn live_kin(k: RippleKin) -> bool {
    k.radius < MAX_RADIUS_T
}

/// What one tick leaves of a sequence of ripples, kinematically: every
/// ripple stepped once, and exactly those whose stepped radius is still
/// below the maximum kept, with their order preserved.
pub open spec fn stepped_survivors(s: Seq<RippleKin>) -> Seq<RippleKin>
    decreases s.len(),
{
    if s.len() == 0 {
        Seq::empty()
    } else {
        let rest = stepped_survivors(s.drop_last());
        let stepped = step_kin(s.last());
        if live_kin(stepped) {
            rest.push(stepped)
        } else {
            rest
        }
    }
}

proof fn lemma_kin_seq_push(s: Seq<Ripple>, r: Ripple)
    ensures
        kin_seq(s.push(r)) == kin_seq(s).push(r.kin()),
{
    assert(kin_seq(s.push(r)) =~= kin_seq(s).push(r.kin()));
}

proof fn lemma_survivors_push(s: Seq<RippleKin>, k: RippleKin)
    ensures
        live_kin(step_kin(k)) ==> stepped_survivors(s.push(k)) == stepped_survivors(s).push(
            step_kin(k),
        ),
        !live_kin(step_kin(k)) ==> stepped_survivors(s.push(k)) == stepped_survivors(s),
{
    assert(s.push(k).drop_last() =~= s);
    assert(s.push(k).last() == k);
}

/// The collection of live ripples, with the pointer state that drives
/// continuous spawning. Ripples are kept in creation order; they never
/// interact with one another.
pub struct RippleField {
    /// The live ripples, oldest first.
    pub ripples: Vec<Ripple>,
    /// Whether the pointer is currently held down.
    pub mouse_down: bool,
    /// When the last ripple was spawned, in milliseconds.
    pub last_ripple_time_ms: u64,
    /// Debounce parameter: a held pointer spawns a new ripple only once
    /// the time since the last spawn exceeds this many milliseconds.
    pub min_spawn_interval_ms: u64,
}

impl RippleField {
    /// Structural invariant: every ripple in the field is well formed and
    /// still short of the maximum radius.
    pub open spec fn well_formed(&self) -> bool {
        forall|i: int|
            0 <= i < self.ripples@.len() ==> (#[trigger] self.ripples@[i]).well_formed()
                && self.ripples@[i].radius < MAX_RADIUS_T
    }

    /// An empty field with the given debounce interval.
    pub fn new(min_spawn_interval_ms: u64) -> (f: RippleField)
        ensures
            f.well_formed(),
            f.ripples@.len() == 0,
            !f.mouse_down,
            f.last_ripple_time_ms == 0,
            f.min_spawn_interval_ms == min_spawn_interval_ms,
    {
        RippleField {
            ripples: Vec::new(),
            mouse_down: false,
            last_ripple_time_ms: 0,
            min_spawn_interval_ms,
        }
    }

    /// Append a freshly spawned ripple at the given position (tenths of a
    /// canvas unit). All existing ripples are untouched.
    pub fn spawn(&mut self, x_t: i32, y_t: i32)
        requires
            old(self).well_formed(),
        ensures
            final(self).well_formed(),
            final(self).ripples@.len() == old(self).ripples@.len() + 1,
            forall|i: int|
                0 <= i < old(self).ripples@.len() ==> final(self).ripples@[i] == old(self).ripples@[i],
            final(self).ripples@.last().kin() == spawn_kin(x_t as int, y_t as int),
            final(self).ripples@.last().well_formed(),
            final(self).mouse_down == old(self).mouse_down,
            final(self).last_ripple_time_ms == old(self).last_ripple_time_ms,
            final(self).min_spawn_interval_ms == old(self).min_spawn_interval_ms,
    {
        let r = Ripple::new(x_t, y_t);
        self.ripples.push(r);
    }

    /// A pointer press outside the menu: start the held state, spawn one
    /// ripple at the pointer right away, and remember the spawn time.
    pub fn press(&mut self, now_ms: u64, x_t: i32, y_t: i32)
        requires
            old(self).well_formed(),
        ensures
            final(self).well_formed(),
            final(self).ripples@.len() == old(self).ripples@.len() + 1,
            forall|i: int|
                0 <= i < old(self).ripples@.len() ==> final(self).ripples@[i] == old(self).ripples@[i],
            final(self).ripples@.last().kin() == spawn_kin(x_t as int, y_t as int),
            final(self).mouse_down,
            final(self).last_ripple_time_ms == now_ms,
            final(self).min_spawn_interval_ms == old(self).min_spawn_interval_ms,
    {
        self.mouse_down = true;
        self.spawn(x_t, y_t);
        self.last_ripple_time_ms = now_ms;
    }

    /// A pointer release: stop spawning. Nothing else changes.
    pub fn release(&mut self)
        ensures
            *final(self) == (RippleField { mouse_down: false, ..*old(self) }),
    {
        self.mouse_down = false;
    }

    /// The continuous-spawn policy while the pointer is held: once per
    /// frame the loop offers the pointer position; a ripple is spawned
    /// exactly when the pointer is down, not over the menu, and more than
    /// `min_spawn_interval_ms` has passed since the last spawn.
    pub fn held_tick(&mut self, now_ms: u64, x_t: i32, y_t: i32, pointer_blocked: bool) -> (spawned:
        bool)
        requires
            old(self).well_formed(),
            now_ms >= old(self).last_ripple_time_ms,
        ensures
            final(self).well_formed(),
            spawned == (old(self).mouse_down && !pointer_blocked && now_ms - old(self).last_ripple_time_ms > old(self).min_spawn_interval_ms),
            spawned ==> {
                &&& final(self).ripples@.len() == old(self).ripples@.len() + 1
                &&& final(self).ripples@.last().kin() == spawn_kin(x_t as int, y_t as int)
                &&& final(self).last_ripple_time_ms == now_ms
            },
            !spawned ==> *final(self) == *old(self),
            forall|i: int|
                0 <= i < old(self).ripples@.len() ==> final(self).ripples@[i] == old(self).ripples@[i],
            final(self).mouse_down == old(self).mouse_down,
            final(self).min_spawn_interval_ms == old(self).min_spawn_interval_ms,
    {
        if self.mouse_down && !pointer_blocked && now_ms - self.last_ripple_time_ms
            > self.min_spawn_interval_ms {
            self.spawn(x_t, y_t);
            self.last_ripple_time_ms = now_ms;
            true
        } else {
            false
        }
    }

    /// One tick of the whole field: every live ripple takes its per-tick
    /// transition, and exactly those that reached the maximum radius are
    /// removed, the same tick, with the order of the rest preserved.
    pub fn advance(&mut self)
        requires
            old(self).well_formed(),
        ensures
            final(self).well_formed(),
            kin_seq(final(self).ripples@) == stepped_survivors(kin_seq(old(self).ripples@)),
            forall|i: int|
                0 <= i < final(self).ripples@.len() ==> (#[trigger] final(self).ripples@[i]).radius < MAX_RADIUS_T,
            final(self).mouse_down == old(self).mouse_down,
            final(self).last_ripple_time_ms == old(self).last_ripple_time_ms,
            final(self).min_spawn_interval_ms == old(self).min_spawn_interval_ms,
    {
        let ghost orig = self.ripples@;
        let ghost pointer_state = (self.mouse_down, self.last_ripple_time_ms, self.min_spawn_interval_ms);
        let ghost mut taken: int = 0;
        let mut kept: Vec<Ripple> = Vec::new();
        while self.ripples.len() > 0
            invariant
                (self.mouse_down, self.last_ripple_time_ms, self.min_spawn_interval_ms)
                    == pointer_state,
                0 <= taken <= orig.len(),
                self.ripples@ == orig.skip(taken),
                kin_seq(kept@) == stepped_survivors(kin_seq(orig.take(taken))),
                forall|j: int|
                    0 <= j < orig.len() ==> (#[trigger] orig[j]).well_formed() && orig[j].radius
                        < MAX_RADIUS_T,
                forall|j: int|
                    0 <= j < kept@.len() ==> (#[trigger] kept@[j]).well_formed()
                        && kept@[j].radius < MAX_RADIUS_T,
            decreases self.ripples@.len(),
        {
            proof {
                assert(self.ripples@[0] == orig[taken]);
            }
            let mut r = self.ripples.remove(0);
            let ghost before = r;
            r.update();
            proof {
                assert(r.kin() == step_kin(before.kin()));
            }
            let expired = r.is_expired();
            if !expired {
                kept.push(r);
            }
            proof {
                let prefix = kin_seq(orig.take(taken));
                lemma_survivors_push(prefix, before.kin());
                assert(orig.take(taken + 1) =~= orig.take(taken).push(before));
                lemma_kin_seq_push(orig.take(taken), before);
                if !expired {
                    lemma_kin_seq_push(kept@.drop_last(), r);
                    assert(kept@.drop_last().push(r) =~= kept@);
                }
                assert(self.ripples@ =~= orig.skip(taken + 1));
                taken = taken + 1;
            }
        }
        proof {
            assert(orig.take(taken) =~= orig);
        }
        self.ripples = kept;
    }
}

impl RippleField {
    /// One whole frame of the animation model, as the frame loop drives
    /// it: every ripple takes its tick and the expired ones leave, then,
    /// if the pointer is held outside the menu and the debounce interval
    /// has passed, one ripple is spawned at the pointer.
    pub fn frame(&mut self, now_ms: u64, x_t: i32, y_t: i32, pointer_blocked: bool) -> (spawned:
        bool)
        requires
            old(self).well_formed(),
            now_ms >= old(self).last_ripple_time_ms,
        ensures
            final(self).well_formed(),
            spawned == (old(self).mouse_down && !pointer_blocked && now_ms - old(
                self,
            ).last_ripple_time_ms > old(self).min_spawn_interval_ms),
            spawned ==> kin_seq(final(self).ripples@) == stepped_survivors(
                kin_seq(old(self).ripples@),
            ).push(spawn_kin(x_t as int, y_t as int)),
            spawned ==> final(self).last_ripple_time_ms == now_ms,
            !spawned ==> kin_seq(final(self).ripples@) == stepped_survivors(
                kin_seq(old(self).ripples@),
            ),
            !spawned ==> final(self).last_ripple_time_ms == old(self).last_ripple_time_ms,
            final(self).mouse_down == old(self).mouse_down,
            final(self).min_spawn_interval_ms == old(self).min_spawn_interval_ms,
    {
        self.advance();
        let ghost mid = self.ripples@;
        let spawned = self.held_tick(now_ms, x_t, y_t, pointer_blocked);
        proof {
            if spawned {
                assert(self.ripples@ =~= mid.push(self.ripples@.last()));
                lemma_kin_seq_push(mid, self.ripples@.last());
            }
        }
        spawned
    }
}

/// Ripple growth: each tick strictly increases a ripple's radius, by
/// exactly the growth increment.
pub proof fn lemma_radius_grows(k: RippleKin)
    ensures
        step_kin(k).radius > k.radius,
        step_kin(k).radius == k.radius + RADIUS_INCREMENT_T,
{
}

/// Expired ripples leave immediately: whatever one tick leaves of a field
/// holds only ripples short of the maximum radius, and every one of them
/// is the stepped image of a ripple that was in the field, with a strictly
/// larger radius than its source.
pub proof fn lemma_expired_absent(s: Seq<RippleKin>)
    ensures
        forall|i: int|
            0 <= i < stepped_survivors(s).len() ==> (#[trigger] stepped_survivors(s)[i]).radius
                < MAX_RADIUS_T,
        forall|i: int|
            0 <= i < stepped_survivors(s).len() ==> exists|j: int|
                0 <= j < s.len() && #[trigger] stepped_survivors(s)[i] == step_kin(s[j])
                    && stepped_survivors(s)[i].radius > s[j].radius,
    decreases s.len(),
{
    if s.len() > 0 {
        lemma_expired_absent(s.drop_last());
        let rest = stepped_survivors(s.drop_last());
        let stepped = step_kin(s.last());
        assert forall|i: int| 0 <= i < stepped_survivors(s).len() implies exists|j: int|
            0 <= j < s.len() && #[trigger] stepped_survivors(s)[i] == step_kin(s[j])
                && stepped_survivors(s)[i].radius > s[j].radius by {
            if i < rest.len() {
                let j = choose|j: int|
                    0 <= j < s.drop_last().len() && #[trigger] rest[i] == step_kin(
                        s.drop_last()[j],
                    ) && rest[i].radius > s.drop_last()[j].radius;
                assert(s.drop_last()[j] == s[j]);
                assert(stepped_survivors(s)[i] == step_kin(s[j]));
            } else {
                assert(stepped_survivors(s)[i] == stepped);
                assert(s.last() == s[s.len() - 1]);
                assert(stepped_survivors(s)[i] == step_kin(s[s.len() - 1]));
            }
        }
    }
}

/// How many spawns a run of held-pointer frames produces: starting from a
/// last-spawn time `last`, each frame time in `ts` spawns exactly when it
/// exceeds `last` by more than `gap`, and a spawn resets `last` to that
/// frame's time. This is the debounce policy of `RippleField::held_tick`,
/// folded over a whole trace of frame times.
pub open spec fn held_spawn_count(last: int, ts: Seq<int>, gap: int) -> nat
    decreases ts.len(),
{
    if ts.len() == 0 {
        0
    } else if ts[0] - last > gap {
        1 + held_spawn_count(ts[0], ts.skip(1), gap)
    } else {
        held_spawn_count(last, ts.skip(1), gap)
    }
}

proof fn lemma_debounce_gap_bound(last: int, ts: Seq<int>, gap: int, hi: int)
    requires
        gap >= 0,
        last <= hi,
        forall|i: int| 0 <= i < ts.len() ==> ts[i] <= hi,
    ensures
        held_spawn_count(last, ts, gap) * (gap + 1) <= hi - last,
    decreases ts.len(),
{
    if ts.len() == 0 {
        assert(held_spawn_count(last, ts, gap) == 0);
    } else {
        let rest = ts.skip(1);
        assert forall|i: int| 0 <= i < rest.len() implies rest[i] <= hi by {
            assert(rest[i] == ts[i + 1]);
        }
        if ts[0] - last > gap {
            lemma_debounce_gap_bound(ts[0], rest, gap, hi);
            let c = held_spawn_count(ts[0], rest, gap) as int;
            assert(held_spawn_count(last, ts, gap) == 1 + c);
            assert((1 + c) * (gap + 1) == (gap + 1) + c * (gap + 1)) by (nonlinear_arith);
            assert((gap + 1) + c * (gap + 1) <= (gap + 1) + (hi - ts[0]));
            assert(held_spawn_count(last, ts, gap) * (gap + 1) <= hi - last);
        } else {
            lemma_debounce_gap_bound(last, rest, gap, hi);
            assert(held_spawn_count(last, ts, gap) == held_spawn_count(last, rest, gap));
        }
    }
}

/// Spawn debounce: holding the pointer from `t0` for `dur` milliseconds —
/// one spawn at the press itself, then any number of held frames at times
/// up to `t0 + dur` — produces at most `dur / gap + 1` ripples, where
/// `gap` is the minimum spawn interval.
pub proof fn lemma_spawn_debounce(t0: int, ts: Seq<int>, gap: int, dur: int)
    requires
        gap >= 1,
        dur >= 0,
        forall|i: int| 0 <= i < ts.len() ==> ts[i] <= t0 + dur,
    ensures
        1 + held_spawn_count(t0, ts, gap) <= dur / gap + 1,
{
    lemma_debounce_gap_bound(t0, ts, gap, t0 + dur);
    let c = held_spawn_count(t0, ts, gap) as int;
    assert(c * gap <= c * (gap + 1)) by (nonlinear_arith)
        requires
            c >= 0,
            gap >= 1,
    ;
    lemma_div_is_ordered(c * gap, dur, gap);
    lemma_div_by_multiple(c, gap);
}

} // verus!
