//! Amplitude envelope generator: a state machine that produces a control-rate
//! gain trajectory.
//!
//! Levels are fixed-point: `EG_UNITY` stands for a gain of 1.0.
use vstd::prelude::*;
use crate::frame::CtrlFrame;

verus! {

/// The level that stands for a gain of 1.0.
pub const EG_UNITY: i32 = 65536;

/// A level this close to its target is snapped onto it.
pub const EG_EPSILON: i32 = 16;

#[derive(PartialEq, Eq, Structural, Clone, Copy, Debug)]
pub enum EgState {
    NotYet,
    Attack,
    Decay,
    KeyOnSteady,
    Release,
    KeyOffSteady,
    Damp,
}

/// Durations of the envelope's segments, in control samples.
#[derive(Clone, Copy, Debug)]
pub struct AegParameter {
    pub attack_time: u32,
    pub release_time: u32,
}

/// Level on the way from `src` to `tgt` after `c` of `t` control samples.
pub open spec fn level_at(src: int, tgt: int, c: int, t: int) -> int {
    if tgt >= src {
        src + (tgt - src) * c / t
    } else {
        src - (src - tgt) * c / t
    }
}

/// Whether the level is close enough to the target to be snapped onto it.
pub open spec fn near(lvl: int, tgt: int) -> bool {
    -(EG_EPSILON as int) <= tgt - lvl <= EG_EPSILON as int
}

pub struct Aeg {
    state: EgState,
    tgt: i32,
    src: i32,
    crnt: i32,
    time: u32,
    count: u32,
    prm: AegParameter,
}

proof fn lemma_level_at_monotone(src: int, tgt: int, c: int, t: int)
    requires
        0 < t,
        0 <= c < t,
    ensures
        tgt >= src ==> src <= level_at(src, tgt, c, t) <= level_at(src, tgt, c + 1, t) <= tgt,
        tgt < src ==> tgt <= level_at(src, tgt, c + 1, t) <= level_at(src, tgt, c, t) <= src,
        level_at(src, tgt, t, t) == tgt,
        level_at(src, tgt, 0, t) == src,
{
    let d = if tgt >= src { tgt - src } else { src - tgt };
    assert(d * c <= d * (c + 1)) by (nonlinear_arith)
        requires d >= 0, c >= 0;
    assert(d * c / t <= d * (c + 1) / t) by (nonlinear_arith)
        requires d * c <= d * (c + 1), t > 0, d >= 0, c >= 0;
    assert(d * (c + 1) <= d * t) by (nonlinear_arith)
        requires d >= 0, c + 1 <= t;
    assert(d * (c + 1) / t <= d) by (nonlinear_arith)
        requires d * (c + 1) <= d * t, t > 0, d >= 0, c >= 0;
    assert(d * c / t >= 0) by (nonlinear_arith)
        requires d >= 0, c >= 0, t > 0;
    assert(d * t / t == d) by (nonlinear_arith)
        requires t > 0;
    assert(d * 0 / t == 0) by (nonlinear_arith)
        requires t > 0;
}

/// Whether the segment from `src` to `tgt` over `t` samples has snapped onto
/// its target by elapsed count `c`: its end is reached, or its line is near
/// the target.
pub open spec fn snapped(src: int, tgt: int, c: int, t: int) -> bool {
    c >= t || near(level_at(src, tgt, c, t), tgt)
}

/// The envelope's level at elapsed count `c` of the segment from `src` to
/// `tgt` over `t` samples: on its line until it snaps, then the target.
pub open spec fn eg_value(src: int, tgt: int, c: int, t: int) -> int {
    if snapped(src, tgt, c, t) {
        tgt
    } else {
        level_at(src, tgt, c, t)
    }
}

proof fn lemma_level_at_between(src: int, tgt: int, c1: int, c2: int, t: int)
    requires
        0 < t,
        0 <= c1 <= c2 <= t,
    ensures
        tgt >= src ==> level_at(src, tgt, c1, t) <= level_at(src, tgt, c2, t) <= tgt,
        tgt < src ==> tgt <= level_at(src, tgt, c2, t) <= level_at(src, tgt, c1, t),
{
    let d = if tgt >= src { tgt - src } else { src - tgt };
    assert(d * c1 <= d * c2 <= d * t) by (nonlinear_arith)
        requires d >= 0, 0 <= c1 <= c2 <= t;
    assert(d * c1 / t <= d * c2 / t) by (nonlinear_arith)
        requires d * c1 <= d * c2, t > 0;
    assert(d * c2 / t <= d * t / t) by (nonlinear_arith)
        requires d * c2 <= d * t, t > 0;
    assert(d * t / t == d) by (nonlinear_arith)
        requires t > 0;
}

/// Once snapped, a segment stays snapped.
proof fn lemma_snapped_next(src: int, tgt: int, c: int, t: int)
    requires
        0 < t,
        0 <= c,
        snapped(src, tgt, c, t),
    ensures
        snapped(src, tgt, c + 1, t),
{
    if c + 1 < t {
        lemma_level_at_between(src, tgt, c, c + 1, t);
    }
}

/// Envelope monotonicity: along a segment the level never moves away from
/// its target (it never falls during an attack, never rises during a
/// release), and from the segment's end on it is exactly the target.
pub proof fn lemma_eg_value_monotone(src: int, tgt: int, c1: int, c2: int, t: int)
    requires
        0 < t,
        0 <= c1 <= c2,
    ensures
        tgt >= src ==> eg_value(src, tgt, c1, t) <= eg_value(src, tgt, c2, t) <= tgt,
        tgt < src ==> eg_value(src, tgt, c1, t) >= eg_value(src, tgt, c2, t) >= tgt,
        c2 >= t ==> eg_value(src, tgt, c2, t) == tgt,
{
    if c1 <= t {
        lemma_level_at_between(src, tgt, c1, t, t);
    }
    if c2 <= t {
        lemma_level_at_between(src, tgt, c1, c2, t);
        lemma_level_at_between(src, tgt, c2, t, t);
    }
}

impl Aeg {
    pub closed spec fn state_spec(&self) -> EgState {
        self.state
    }

    /// Current level.
    pub closed spec fn level_spec(&self) -> int {
        self.crnt as int
    }

    /// Level the running segment started from.
    pub closed spec fn source_spec(&self) -> int {
        self.src as int
    }

    /// Level the running segment heads for.
    pub closed spec fn target_spec(&self) -> int {
        self.tgt as int
    }

    /// Control samples elapsed in the running segment.
    pub closed spec fn elapsed_spec(&self) -> int {
        self.count as int
    }

    /// Length of the running segment, in control samples.
    pub closed spec fn duration_spec(&self) -> int {
        self.time as int
    }

    pub closed spec fn prm_spec(&self) -> AegParameter {
        self.prm
    }

    /// The envelope after one control sample.
    pub closed spec fn step_spec(self) -> Aeg {
        if self.state == EgState::Attack || self.state == EgState::Release {
            let c = self.count + 1;
            let lvl = level_at(self.src as int, self.tgt as int, c, self.time as int);
            if c == self.time || near(lvl, self.tgt as int) {
                Aeg {
                    count: c as u32,
                    crnt: self.tgt,
                    state: if self.state == EgState::Attack {
                        EgState::KeyOnSteady
                    } else {
                        EgState::KeyOffSteady
                    },
                    ..self
                }
            } else {
                Aeg { count: c as u32, crnt: lvl as i32, ..self }
            }
        } else {
            self
        }
    }

    /// The envelope after `k` control samples.
    pub open spec fn after(self, k: nat) -> Aeg
        decreases k,
    {
        if k == 0 {
            self
        } else {
            self.after((k - 1) as nat).step_spec()
        }
    }

    /// The level sits on the running segment's line at its elapsed count.
    pub open spec fn on_curve(&self) -> bool {
        self.level_spec() == level_at(
            self.source_spec(),
            self.target_spec(),
            self.elapsed_spec(),
            self.duration_spec(),
        )
    }

    /// Well-formedness: the level stays within `[0, EG_UNITY]`, steady states
    /// hold their target exactly, and a running segment is short of its end.
    /// An attack heads from 0 to `EG_UNITY`, and its level is on its line
    /// after its first sample; a release heads from its source to 0 and is on
    /// its line throughout.
    pub open spec fn wf(&self) -> bool {
        &&& 0 <= self.level_spec() <= EG_UNITY
        &&& 0 <= self.source_spec() <= EG_UNITY
        &&& self.prm_spec().attack_time > 0
        &&& self.prm_spec().release_time > 0
        &&& self.state_spec() == EgState::Attack ==> {
            &&& self.source_spec() == 0
            &&& self.target_spec() == EG_UNITY
            &&& 0 <= self.elapsed_spec() < self.duration_spec()
            &&& self.elapsed_spec() > 0 ==> self.on_curve() && !near(self.level_spec(), self.target_spec())
        }
        &&& self.state_spec() == EgState::Release ==> {
            &&& self.target_spec() == 0
            &&& 0 <= self.elapsed_spec() < self.duration_spec()
            &&& self.on_curve()
            &&& self.elapsed_spec() > 0 ==> !near(self.level_spec(), self.target_spec())
        }
        &&& self.state_spec() == EgState::KeyOnSteady ==> self.level_spec() == EG_UNITY
        &&& self.state_spec() == EgState::KeyOffSteady ==> self.level_spec() == 0
        &&& self.state_spec() == EgState::NotYet ==> self.level_spec() == 0
        &&& self.state_spec() != EgState::Decay
        &&& self.state_spec() != EgState::Damp
    }

    /// A silent envelope that has not started.
    pub fn new(prm: AegParameter) -> (r: Aeg)
        requires
            prm.attack_time > 0,
            prm.release_time > 0,
        ensures
            r.wf(),
            r.state_spec() == EgState::NotYet,
            r.level_spec() == 0,
            r.source_spec() == 0,
            r.target_spec() == 0,
            r.elapsed_spec() == 0,
            r.duration_spec() == 0,
            r.prm_spec() == prm,
    {
        Aeg { state: EgState::NotYet, tgt: 0, src: 0, crnt: 0, time: 0, count: 0, prm }
    }

    pub fn state(&self) -> (r: EgState)
        ensures
            r == self.state_spec(),
    {
        self.state
    }

    pub fn level(&self) -> (r: i32)
        ensures
            r == self.level_spec(),
    {
        self.crnt
    }

    /// Starts the attack segment: from 0 up to `EG_UNITY`. The level is kept
    /// until the first control sample, which falls on the segment's line.
    pub fn move_to_attack(&mut self)
        requires
            old(self).wf(),
        ensures
            final(self).wf(),
            final(self).state_spec() == EgState::Attack,
            final(self).target_spec() == EG_UNITY,
            final(self).source_spec() == 0,
            final(self).level_spec() == old(self).level_spec(),
            final(self).elapsed_spec() == 0,
            final(self).duration_spec() == old(self).prm_spec().attack_time,
            final(self).prm_spec() == old(self).prm_spec(),
    {
        self.tgt = EG_UNITY;
        self.src = 0;
        self.count = 0;
        self.time = self.prm.attack_time;
        self.state = EgState::Attack;
    }

    /// Starts the release segment: from the current level down to 0.
    pub fn move_to_release(&mut self)
        requires
            old(self).wf(),
        ensures
            final(self).wf(),
            final(self).state_spec() == EgState::Release,
            final(self).target_spec() == 0,
            final(self).level_spec() == old(self).level_spec(),
            final(self).elapsed_spec() == 0,
            final(self).duration_spec() == old(self).prm_spec().release_time,
            final(self).source_spec() == old(self).level_spec(),
            final(self).prm_spec() == old(self).prm_spec(),
    {
        self.tgt = 0;
        self.src = self.crnt;
        self.count = 0;
        self.time = self.prm.release_time;
        self.state = EgState::Release;
        proof {
            lemma_level_at_monotone(self.src as int, self.tgt as int, 0, self.time as int);
        }
    }

    /// One control sample keeps the envelope well formed.
    pub proof fn lemma_step_wf(a: Aeg)
        requires
            a.wf(),
        ensures
            a.step_spec().wf(),
    {
        if a.state == EgState::Attack || a.state == EgState::Release {
            lemma_level_at_monotone(a.src as int, a.tgt as int, a.count as int, a.time as int);
        }
    }

    /// Advances the envelope by one control sample.
    fn step(&mut self)
        requires
            old(self).wf(),
        ensures
            final(self).wf(),
            final(self).prm_spec() == old(self).prm_spec(),
            *final(self) == old(self).step_spec(),
            old(self).state_spec() == EgState::Attack || old(self).state_spec() == EgState::Release ==> {
                &&& final(self).source_spec() == old(self).source_spec()
                &&& final(self).target_spec() == old(self).target_spec()
                &&& final(self).duration_spec() == old(self).duration_spec()
                &&& final(self).level_spec() == eg_value(
                    old(self).source_spec(),
                    old(self).target_spec(),
                    old(self).elapsed_spec() + 1,
                    old(self).duration_spec(),
                )
                &&& final(self).state_spec() == old(self).state_spec()
                    ==> final(self).elapsed_spec() == old(self).elapsed_spec() + 1
                &&& final(self).state_spec() != old(self).state_spec() ==> snapped(
                    old(self).source_spec(),
                    old(self).target_spec(),
                    old(self).elapsed_spec() + 1,
                    old(self).duration_spec(),
                )
            },
            old(self).state_spec() == EgState::Attack ==> {
                &&& old(self).on_curve() ==> old(self).level_spec() <= final(self).level_spec()
                &&& final(self).state_spec() == EgState::Attack
                    || final(self).state_spec() == EgState::KeyOnSteady
            },
            old(self).state_spec() == EgState::Release ==> {
                &&& final(self).level_spec() <= old(self).level_spec()
                &&& final(self).state_spec() == EgState::Release
                    || final(self).state_spec() == EgState::KeyOffSteady
            },
            old(self).state_spec() != EgState::Attack && old(self).state_spec() != EgState::Release
                ==> *final(self) == *old(self),
    {
        if self.state == EgState::Attack || self.state == EgState::Release {
            proof {
                lemma_level_at_monotone(self.src as int, self.tgt as int, self.count as int, self.time as int);
            }
            self.count = self.count + 1;
            let d: i64 = if self.tgt >= self.src { (self.tgt - self.src) as i64 } else { (self.src - self.tgt) as i64 };
            let c: i64 = self.count as i64;
            assert(0 <= d * c <= 0x1_0000 * 0x1_0000_0000) by (nonlinear_arith)
                requires 0 <= d <= 0x1_0000, 0 <= c <= 0x1_0000_0000;
            let lvl: i64 = if self.tgt >= self.src {
                self.src as i64 + (d * c) / self.time as i64
            } else {
                self.src as i64 - (d * c) / self.time as i64
            };
            self.crnt = lvl as i32;
            let diff: i32 = self.tgt - self.crnt;
            if self.count == self.time || (-EG_EPSILON <= diff && diff <= EG_EPSILON) {
                self.crnt = self.tgt;
                if self.state == EgState::Attack {
                    self.state = EgState::KeyOnSteady;
                } else {
                    self.state = EgState::KeyOffSteady;
                }
            }
        }
    }

    /// Fills every sample of `cbuf` with the envelope's level, advancing one
    /// control sample per entry.
    ///
    /// In a running segment each sample is `eg_value` of the segment at the
    /// elapsed count it reaches. During an attack the samples never fall (nor
    /// below the current level once the attack is under way); during a release
    /// they never rise; a segment that reaches its end within the block leaves
    /// the envelope in the matching steady state, exactly at its target.
    pub fn process(&mut self, cbuf: &mut CtrlFrame)
        requires
            old(self).wf(),
        ensures
            final(self).wf(),
            final(self).prm_spec() == old(self).prm_spec(),
            final(cbuf)@.len() == old(cbuf)@.len(),
            *final(self) == old(self).after(old(cbuf)@.len()),
            forall|j: int| 0 <= j < final(cbuf)@.len()
                ==> #[trigger] final(cbuf)@[j] == old(self).after((j + 1) as nat).level_spec(),
            forall|j: int| 0 <= j < final(cbuf)@.len() ==> 0 <= #[trigger] final(cbuf)@[j] <= EG_UNITY,
            old(self).state_spec() == EgState::Attack || old(self).state_spec() == EgState::Release ==> {
                &&& forall|j: int| 0 <= j < final(cbuf)@.len() ==> #[trigger] final(cbuf)@[j] == eg_value(
                    old(self).source_spec(),
                    old(self).target_spec(),
                    old(self).elapsed_spec() + j + 1,
                    old(self).duration_spec(),
                )
                &&& final(self).level_spec() == if old(cbuf)@.len() == 0 {
                    old(self).level_spec()
                } else {
                    eg_value(
                        old(self).source_spec(),
                        old(self).target_spec(),
                        old(self).elapsed_spec() + old(cbuf)@.len(),
                        old(self).duration_spec(),
                    )
                }
            },
            old(self).state_spec() == EgState::Attack ==> {
                &&& forall|j: int, k: int| 0 <= j <= k < final(cbuf)@.len()
                    ==> #[trigger] final(cbuf)@[j] <= #[trigger] final(cbuf)@[k] <= final(self).level_spec()
                &&& old(self).on_curve() ==> {
                    &&& old(self).level_spec() <= final(self).level_spec()
                    &&& forall|j: int| 0 <= j < final(cbuf)@.len()
                        ==> old(self).level_spec() <= #[trigger] final(cbuf)@[j]
                }
                &&& final(self).state_spec() == EgState::Attack
                    || final(self).state_spec() == EgState::KeyOnSteady
                &&& old(cbuf)@.len() >= old(self).duration_spec() - old(self).elapsed_spec()
                    ==> final(self).state_spec() == EgState::KeyOnSteady
            },
            old(self).state_spec() == EgState::Release ==> {
                &&& forall|j: int, k: int| 0 <= j <= k < final(cbuf)@.len()
                    ==> old(self).level_spec() >= #[trigger] final(cbuf)@[j] >= #[trigger] final(cbuf)@[k]
                    >= final(self).level_spec()
                &&& final(self).level_spec() <= old(self).level_spec()
                &&& final(self).state_spec() == EgState::Release
                    || final(self).state_spec() == EgState::KeyOffSteady
                &&& old(cbuf)@.len() >= old(self).duration_spec() - old(self).elapsed_spec()
                    ==> final(self).state_spec() == EgState::KeyOffSteady
            },
            old(self).state_spec() != EgState::Attack && old(self).state_spec() != EgState::Release
                ==> {
                &&& *final(self) == *old(self)
                &&& forall|j: int| 0 <= j < final(cbuf)@.len()
                    ==> #[trigger] final(cbuf)@[j] == old(self).level_spec()
            },
    {
        let n = cbuf.sample_number();
        let ghost s0 = *self;
        let ghost seg = s0.state_spec() == EgState::Attack || s0.state_spec() == EgState::Release;
        let ghost src0 = s0.source_spec();
        let ghost tgt0 = s0.target_spec();
        let ghost e0 = s0.elapsed_spec();
        let ghost t0 = s0.duration_spec();
        let mut i: usize = 0;
        while i < n
            invariant
                self.wf(),
                s0.wf(),
                n == cbuf@.len(),
                i <= n,
                self.prm_spec() == s0.prm_spec(),
                *self == s0.after(i as nat),
                seg == (s0.state_spec() == EgState::Attack || s0.state_spec() == EgState::Release),
                src0 == s0.source_spec(),
                tgt0 == s0.target_spec(),
                e0 == s0.elapsed_spec(),
                t0 == s0.duration_spec(),
                forall|j: int| 0 <= j < i ==> #[trigger] cbuf@[j] == s0.after((j + 1) as nat).level_spec(),
                forall|j: int| 0 <= j < i ==> 0 <= #[trigger] cbuf@[j] <= EG_UNITY,
                seg ==> {
                    &&& self.source_spec() == src0
                    &&& self.target_spec() == tgt0
                    &&& self.duration_spec() == t0
                    &&& forall|j: int| 0 <= j < i ==> #[trigger] cbuf@[j] == eg_value(src0, tgt0, e0 + j + 1, t0)
                    &&& i > 0 ==> self.level_spec() == eg_value(src0, tgt0, e0 + i, t0)
                    &&& self.state_spec() == s0.state_spec() ==> self.elapsed_spec() == e0 + i
                    &&& self.state_spec() != s0.state_spec() ==> {
                        &&& snapped(src0, tgt0, e0 + i, t0)
                        &&& self.level_spec() == tgt0
                    }
                },
                s0.state_spec() == EgState::Attack ==> {
                    &&& forall|j: int, k: int| 0 <= j <= k < i
                        ==> #[trigger] cbuf@[j] <= #[trigger] cbuf@[k] <= self.level_spec()
                    &&& s0.on_curve() ==> {
                        &&& s0.level_spec() <= self.level_spec()
                        &&& forall|j: int| 0 <= j < i ==> s0.level_spec() <= #[trigger] cbuf@[j]
                    }
                    &&& self.state_spec() == EgState::Attack || self.state_spec() == EgState::KeyOnSteady
                },
                s0.state_spec() == EgState::Release ==> {
                    &&& forall|j: int, k: int| 0 <= j <= k < i
                        ==> s0.level_spec() >= #[trigger] cbuf@[j] >= #[trigger] cbuf@[k] >= self.level_spec()
                    &&& s0.level_spec() >= self.level_spec()
                    &&& self.state_spec() == EgState::Release || self.state_spec() == EgState::KeyOffSteady
                },
                !seg ==> {
                    &&& *self == s0
                    &&& forall|j: int| 0 <= j < i ==> #[trigger] cbuf@[j] == s0.level_spec()
                },
            decreases n - i,
        {
            let ghost before = *self;
            proof {
                if seg && before.state_spec() != s0.state_spec() {
                    lemma_snapped_next(src0, tgt0, e0 + i, t0);
                }
            }
            self.step();
            cbuf.set_cbuf(i, self.crnt);
            i += 1;
        }
    }
}

} // verus!
