//! The digging progression account: scoops collected, buckets, total depth,
//! and the derived progression thresholds, together with the per-tick systems
//! that advance the automatic activities (drill auto-scoop, robot auto-drain)
//! and fire progression unlocks.
//!
//! All durations are integer milliseconds.

use vstd::prelude::*;

verus! {

use crate::SCOOPS_PER_BLOCK;
use crate::SCOOPS_PER_METER;

/// Depth threshold index (in progression checks) at which the drill unlocks.
pub const DRILL_METER: u32 = 1;

/// Depth threshold index (in progression checks) at which the robot unlocks.
pub const ROBOT_METER: u32 = 2;

/// How long one drill run lasts, in milliseconds.
pub const DRILL_TIME_MILLIS: u32 = 10000;

/// Milliseconds of drill running time that yield one scoop (four scoops per second).
pub const DRILL_SCOOP_MILLIS: u32 = 250;

/// How long one robot run lasts, in milliseconds.
pub const ROBOT_TIME_MILLIS: u32 = 10000;

/// Milliseconds of robot running time that drain one bucket (half a bucket per second).
pub const ROBOT_BUCKET_MILLIS: u32 = 2000;

/// State of the timed auto-digging drill. While running, `partial_scoops`
/// holds the milliseconds accumulated toward the next automatic scoop.
#[derive(Clone, Copy, Debug, PartialEq, Eq, Structural)]
pub enum DrillStatus {
    Locked,
    Idling,
    Running { time_left: u32, partial_scoops: u32 },
}

/// State of the bucket-draining robot. While running, `partial_buckets`
/// holds the milliseconds accumulated toward the next automatic drain.
#[derive(Clone, Copy, Debug, PartialEq, Eq, Structural)]
pub enum RobotStatus {
    Locked,
    Idling,
    Running { time_left: u32, partial_buckets: u32 },
}

/// Mathematical model of a [`DiggingStatus`]: the same fields over
/// unbounded integers.
pub ghost struct DiggingModel {
    pub scoops: int,
    pub scoops_per_bucket: int,
    pub time_since_shovel: int,
    pub buckets: int,
    pub depth: int,
    pub progression: int,
    pub progress_checks: int,
    pub drill_status: DrillStatus,
    pub robot_status: RobotStatus,
}

impl DiggingModel {
    /// Total scoops the account can hold before every bucket is full.
    pub open spec fn capacity(self) -> int {
        self.buckets * self.scoops_per_bucket
    }

    /// Well-formedness: capacity constants are positive and fit in a `u32`,
    /// the scoops never exceed capacity, and the last crossed progression
    /// threshold never lies beyond the current depth.
    pub open spec fn inv(self) -> bool {
        &&& 0 <= self.scoops
        &&& self.scoops <= self.capacity()
        &&& 1 <= self.scoops_per_bucket
        &&& 1 <= self.buckets
        &&& self.capacity() <= u32::MAX
        &&& 0 <= self.time_since_shovel <= u32::MAX
        &&& 0 <= self.depth <= u32::MAX
        &&& 1 <= self.progress_checks <= u32::MAX
        &&& 0 <= self.progression <= u32::MAX
        &&& self.progression * self.progress_checks <= self.depth
    }

    pub open spec fn can_scoop(self) -> bool {
        self.scoops < self.capacity()
    }

    pub open spec fn no_buckets(self) -> bool {
        self.scoops < self.scoops_per_bucket
    }

    /// One call of `scoop`: the depth always advances; the scoops advance,
    /// and the shovel timer resets, only for a shovel scoop with capacity
    /// to spare.
    pub open spec fn scoop_step(self, shovel: bool) -> DiggingModel {
        if shovel && self.can_scoop() {
            DiggingModel {
                depth: self.depth + 1,
                scoops: self.scoops + 1,
                time_since_shovel: 0,
                ..self
            }
        } else {
            DiggingModel { depth: self.depth + 1, ..self }
        }
    }

    /// One successful bucket emptying: a full bucket's worth of scoops leaves.
    pub open spec fn empty_step(self) -> DiggingModel {
        DiggingModel { scoops: self.scoops - self.scoops_per_bucket, ..self }
    }

    /// Scoops shown in the topmost bucket: the remainder modulo one bucket,
    /// except that a full account shows a full bucket and an exact multiple
    /// below capacity shows a freshly empty one.
    pub open spec fn top_bucket(self) -> int {
        if self.scoops % self.scoops_per_bucket == 0 {
            if self.scoops == self.capacity() {
                self.scoops_per_bucket
            } else {
                0
            }
        } else {
            self.scoops % self.scoops_per_bucket
        }
    }

    pub open spec fn level(self) -> int {
        self.depth / (SCOOPS_PER_METER as int)
    }

    pub open spec fn block_index(self) -> int {
        self.depth / (SCOOPS_PER_BLOCK as int)
    }

    pub open spec fn current_block(self) -> int {
        (self.depth % (SCOOPS_PER_METER as int)) / (SCOOPS_PER_BLOCK as int)
    }

    pub open spec fn current_block_height(self) -> int {
        (self.depth % (SCOOPS_PER_METER as int)) % (SCOOPS_PER_BLOCK as int)
    }

    /// One call of `progress`: when the depth has passed the next multiple of
    /// `progress_checks`, the progression advances to the threshold index just
    /// crossed and that index is reported; otherwise zero is reported.
    pub open spec fn progress_step(self) -> (int, DiggingModel) {
        if self.depth >= (self.progression + 1) * self.progress_checks {
            let p = self.depth / self.progress_checks;
            (p, DiggingModel { progression: p, ..self })
        } else {
            (0, self)
        }
    }
}

/// Milliseconds accumulated toward the next automatic drill scoop, zero
/// when the drill is not running.
pub open spec fn drill_partial(m: DiggingModel) -> int {
    match m.drill_status {
        DrillStatus::Running { partial_scoops, .. } => partial_scoops as int,
        _ => 0,
    }
}

/// Milliseconds accumulated toward the next automatic robot drain, zero
/// when the robot is not running.
pub open spec fn robot_partial(m: DiggingModel) -> int {
    match m.robot_status {
        RobotStatus::Running { partial_buckets, .. } => partial_buckets as int,
        _ => 0,
    }
}

/// One tick of the running drill: the run timer counts down, the scoop
/// accumulator counts up, a full accumulation yields one automatic scoop,
/// and an exhausted timer sends the drill back to idle. Returns the new
/// model and whether a scoop was dug.
pub open spec fn drill_tick_step(m: DiggingModel, dt: int) -> (DiggingModel, bool) {
    match m.drill_status {
        DrillStatus::Running { time_left, partial_scoops } => {
            let partial = partial_scoops + dt;
            let scooped = partial >= DRILL_SCOOP_MILLIS;
            let partial2 = if scooped {
                partial - DRILL_SCOOP_MILLIS
            } else {
                partial
            };
            let status = if dt > time_left {
                DrillStatus::Idling
            } else {
                DrillStatus::Running {
                    time_left: (time_left - dt) as u32,
                    partial_scoops: partial2 as u32,
                }
            };
            let m2 = DiggingModel { drill_status: status, ..m };
            if scooped {
                (m2.scoop_step(false), true)
            } else {
                (m2, false)
            }
        },
        _ => (m, false),
    }
}

/// One tick of the running robot: the run timer counts down and the drain
/// accumulator accrues whatever the buckets hold. A full accumulation
/// drains one bucket when at least one is full, and is forfeited when none
/// is; an exhausted timer sends the robot back to idle regardless of what
/// remains. Returns the new model and whether the run just ended.
pub open spec fn robot_tick_step(m: DiggingModel, dt: int) -> (DiggingModel, bool) {
    match m.robot_status {
        RobotStatus::Running { time_left, partial_buckets } => {
            let partial = partial_buckets + dt;
            let accrued = partial >= ROBOT_BUCKET_MILLIS;
            let partial2 = if accrued {
                partial - ROBOT_BUCKET_MILLIS
            } else {
                partial
            };
            let expired = dt > time_left;
            let status = if expired {
                RobotStatus::Idling
            } else {
                RobotStatus::Running {
                    time_left: (time_left - dt) as u32,
                    partial_buckets: partial2 as u32,
                }
            };
            let m2 = DiggingModel { robot_status: status, ..m };
            if accrued && !m.no_buckets() {
                (m2.empty_step(), expired)
            } else {
                (m2, expired)
            }
        },
        _ => (m, false),
    }
}

/// The digging progression account. Scoops accumulate toward a fixed
/// capacity of `buckets * scoops_per_bucket`; the depth counts every scoop
/// ever dug and never decreases.
pub struct DiggingStatus {
    pub(crate) scoops: u32,
    pub(crate) scoops_per_bucket: u32,
    /// Milliseconds since the last manual shovel scoop; cosmetic only.
    pub time_since_shovel: u32,
    pub(crate) buckets: u32,
    pub(crate) depth: u32,
    pub(crate) progression: u32,
    pub(crate) progress_checks: u32,
    pub drill_status: DrillStatus,
    pub robot_status: RobotStatus,
}

impl View for DiggingStatus {
    type V = DiggingModel;

    closed spec fn view(&self) -> DiggingModel {
        DiggingModel {
            scoops: self.scoops as int,
            scoops_per_bucket: self.scoops_per_bucket as int,
            time_since_shovel: self.time_since_shovel as int,
            buckets: self.buckets as int,
            depth: self.depth as int,
            progression: self.progression as int,
            progress_checks: self.progress_checks as int,
            drill_status: self.drill_status,
            robot_status: self.robot_status,
        }
    }
}

/// The error of asking to empty a bucket when not even one bucket is full.
#[derive(Clone, Copy, Debug, PartialEq, Eq, Structural)]
pub enum DiggingError {
    NoFullBucket,
}

impl Default for DiggingStatus {
    /// A fresh session: no scoops, three buckets of eight scoops each, no
    /// depth, a progression check every half meter, drill and robot locked.
    fn default() -> (r: Self)
        ensures
            r@ == (DiggingModel {
                scoops: 0,
                scoops_per_bucket: 8,
                time_since_shovel: 1000,
                buckets: 3,
                depth: 0,
                progression: 0,
                progress_checks: SCOOPS_PER_METER as int / 2,
                drill_status: DrillStatus::Locked,
                robot_status: RobotStatus::Locked,
            }),
            r@.inv(),
    {
        DiggingStatus {
            scoops: 0,
            scoops_per_bucket: 8,
            time_since_shovel: 1000,
            buckets: 3,
            depth: 0,
            progression: 0,
            progress_checks: SCOOPS_PER_METER / 2,
            drill_status: DrillStatus::Locked,
            robot_status: RobotStatus::Locked,
        }
    }
}

impl DiggingStatus {
    /// Dig one scoop. The depth always advances; the collected scoops advance
    /// only when dug by shovel with capacity left, so the account itself
    /// refuses the call path that would push `scoops` past capacity.
    pub fn scoop(&mut self, shovel: bool)
        requires
            old(self)@.inv(),
            old(self)@.depth < u32::MAX,
        ensures
            final(self)@ == old(self)@.scoop_step(shovel),
            final(self)@.inv(),
    {
        self.depth = self.depth + 1;
        if shovel && self.scoops < self.buckets * self.scoops_per_bucket {
            self.time_since_shovel = 0;
            self.scoops = self.scoops + 1;
        }
    }

    /// Start a timed drill run.
    pub fn drill(&mut self)
        requires
            old(self)@.inv(),
        ensures
            final(self)@ == (DiggingModel {
                drill_status: DrillStatus::Running {
                    time_left: DRILL_TIME_MILLIS,
                    partial_scoops: 0,
                },
                ..old(self)@
            }),
            final(self)@.inv(),
    {
        self.drill_status = DrillStatus::Running {
            time_left: DRILL_TIME_MILLIS,
            partial_scoops: 0,
        };
    }

    /// Start a timed robot run; called once a captcha has been answered
    /// correctly.
    pub fn solve_captcha(&mut self)
        requires
            old(self)@.inv(),
        ensures
            final(self)@ == (DiggingModel {
                robot_status: RobotStatus::Running {
                    time_left: ROBOT_TIME_MILLIS,
                    partial_buckets: 0,
                },
                ..old(self)@
            }),
            final(self)@.inv(),
    {
        self.robot_status = RobotStatus::Running {
            time_left: ROBOT_TIME_MILLIS,
            partial_buckets: 0,
        };
    }

    /// Empty one full bucket. Fails, leaving the account unchanged, when not
    /// even one bucket is full.
    pub fn empty_bucket(&mut self) -> (r: Result<(), DiggingError>)
        requires
            old(self)@.inv(),
        ensures
            final(self)@.inv(),
            old(self)@.no_buckets() ==> r == Result::<(), DiggingError>::Err(
                DiggingError::NoFullBucket,
            ) && final(self)@ == old(self)@,
            !old(self)@.no_buckets() ==> r == Result::<(), DiggingError>::Ok(())
                && final(self)@ == old(self)@.empty_step(),
    {
        if self.scoops < self.scoops_per_bucket {
            Err(DiggingError::NoFullBucket)
        } else {
            self.scoops = self.scoops - self.scoops_per_bucket;
            Ok(())
        }
    }

    /// Scoops shown in the topmost bucket, with the three-way tie-break at
    /// exact multiples of a bucket.
    pub fn scoops_in_top_bucket(&self) -> (r: u32)
        requires
            self@.inv(),
        ensures
            r == self@.top_bucket(),
    {
        if self.scoops % self.scoops_per_bucket == 0 {
            if self.scoops == self.buckets * self.scoops_per_bucket {
                self.scoops_per_bucket
            } else {
                0
            }
        } else {
            self.scoops % self.scoops_per_bucket
        }
    }

    pub fn can_scoop(&self) -> (r: bool)
        requires
            self@.inv(),
        ensures
            r == self@.can_scoop(),
    {
        self.scoops < self.buckets * self.scoops_per_bucket
    }

    pub fn no_buckets(&self) -> (r: bool)
        requires
            self@.inv(),
        ensures
            r == self@.no_buckets(),
    {
        self.scoops < self.scoops_per_bucket
    }

    /// Whole meters dug so far.
    pub fn level(&self) -> (r: u32)
        ensures
            r == self@.level(),
    {
        self.depth / SCOOPS_PER_METER
    }

    /// Index of the block currently being dug, over the whole hole.
    pub fn block_index(&self) -> (r: u32)
        ensures
            r == self@.block_index(),
    {
        self.depth / SCOOPS_PER_BLOCK
    }

    /// Horizontal block index within the current meter.
    pub fn current_block(&self) -> (r: u32)
        ensures
            r == self@.current_block(),
    {
        (self.depth % SCOOPS_PER_METER) / SCOOPS_PER_BLOCK
    }

    /// Scoops dug out of the block currently being dug.
    pub fn current_block_height(&self) -> (r: u32)
        ensures
            r == self@.current_block_height(),
    {
        (self.depth % SCOOPS_PER_METER) % SCOOPS_PER_BLOCK
    }

    /// Report the progression threshold index newly crossed since the last
    /// call, or zero when none was crossed. A nonzero index is reported
    /// exactly once and indices strictly increase.
    pub fn progress(&mut self) -> (r: u32)
        requires
            old(self)@.inv(),
        ensures
            final(self)@.inv(),
            r == old(self)@.progress_step().0,
            final(self)@ == old(self)@.progress_step().1,
    {
        proof {
            assert((self@.progression + 1) * self@.progress_checks <= u64::MAX) by (nonlinear_arith)
                requires
                    0 <= self@.progression <= u32::MAX,
                    0 <= self@.progress_checks <= u32::MAX,
            ;
        }
        let threshold: u64 = (self.progression as u64 + 1) * (self.progress_checks as u64);
        if self.depth as u64 >= threshold {
            self.progression = self.depth / self.progress_checks;
            proof {
                assert(self@.progression * self@.progress_checks <= self@.depth) by (nonlinear_arith)
                    requires
                        self@.progression == self@.depth / self@.progress_checks,
                        self@.progress_checks >= 1,
                        self@.depth >= 0,
                ;
            }
            self.progression
        } else {
            0
        }
    }

    /// Scoops currently collected.
    pub fn scoops(&self) -> (r: u32)
        ensures
            r == self@.scoops,
    {
        self.scoops
    }

    /// Capacity of one bucket, in scoops.
    pub fn scoops_per_bucket(&self) -> (r: u32)
        ensures
            r == self@.scoops_per_bucket,
    {
        self.scoops_per_bucket
    }

    /// Number of buckets.
    pub fn buckets(&self) -> (r: u32)
        ensures
            r == self@.buckets,
    {
        self.buckets
    }

    /// Total scoops ever dug.
    pub fn depth(&self) -> (r: u32)
        ensures
            r == self@.depth,
    {
        self.depth
    }

    /// Last progression threshold index crossed.
    pub fn progression(&self) -> (r: u32)
        ensures
            r == self@.progression,
    {
        self.progression
    }

    /// Depth units per progression check.
    pub fn progress_checks(&self) -> (r: u32)
        ensures
            r == self@.progress_checks,
    {
        self.progress_checks
    }

    /// The depth in meters with three decimals, for the depth indicator.
    pub fn get_depth_string(&self) -> (r: String)
        requires
            self@.inv(),
        ensures
            r@ == spec_depth_string(self@.depth),
    {
        let meters = self.depth / SCOOPS_PER_METER;
        let frac = ((self.depth % SCOOPS_PER_METER) * 1000 + 14) / SCOOPS_PER_METER;
        let mut s = String::new();
        push_decimal(&mut s, meters);
        s.append(".");
        if frac < 10 {
            s.append("00");
        } else if frac < 100 {
            s.append("0");
        }
        push_decimal(&mut s, frac);
        proof {
            assert(s@ =~= spec_depth_string(self@.depth));
        }
        s
    }

    /// Current drill activity state.
    pub fn drill_status(&self) -> (r: DrillStatus)
        ensures
            r == self@.drill_status,
    {
        self.drill_status
    }

    /// Current robot activity state.
    pub fn robot_status(&self) -> (r: RobotStatus)
        ensures
            r == self@.robot_status,
    {
        self.robot_status
    }

    /// Milliseconds since the last manual shovel scoop.
    pub fn time_since_shovel(&self) -> (r: u32)
        ensures
            r == self@.time_since_shovel,
    {
        self.time_since_shovel
    }
}

/// The account left by a sequence of scoop calls applied in order, each
/// `true` a shovel scoop and each `false` a drill scoop.
pub open spec fn scoop_fold(m: DiggingModel, calls: Seq<bool>) -> DiggingModel
    decreases calls.len(),
{
    if calls.len() == 0 {
        m
    } else {
        scoop_fold(m.scoop_step(calls[0]), calls.drop_first())
    }
}

/// Law: under any sequence of scoop calls the account stays well-formed and
/// the collected scoops never exceed the capacity, which itself never
/// changes.
pub proof fn lemma_scoops_never_exceed_capacity(m: DiggingModel, calls: Seq<bool>)
    requires
        m.inv(),
        m.depth + calls.len() <= u32::MAX,
    ensures
        scoop_fold(m, calls).inv(),
        scoop_fold(m, calls).scoops <= m.capacity(),
        scoop_fold(m, calls).capacity() == m.capacity(),
    decreases calls.len(),
{
    if calls.len() != 0 {
        lemma_scoops_never_exceed_capacity(m.scoop_step(calls[0]), calls.drop_first());
    }
}

/// Law: once the account is at full capacity, a further shovel scoop leaves
/// the collected scoops unchanged.
pub proof fn lemma_scoop_at_capacity(m: DiggingModel, shovel: bool)
    requires
        m.inv(),
        m.scoops == m.capacity(),
    ensures
        m.scoop_step(shovel).scoops == m.scoops,
{
}

/// Law: the depth never decreases under any sequence of shovel or drill
/// scoops; it advances by exactly one for every scoop.
pub proof fn lemma_depth_monotone(m: DiggingModel, calls: Seq<bool>)
    requires
        m.inv(),
        m.depth + calls.len() <= u32::MAX,
    ensures
        scoop_fold(m, calls).depth == m.depth + calls.len(),
        scoop_fold(m, calls).depth >= m.depth,
    decreases calls.len(),
{
    if calls.len() != 0 {
        lemma_depth_monotone(m.scoop_step(calls[0]), calls.drop_first());
    }
}

/// Law: emptying a full bucket leaves the topmost bucket's display at the
/// remainder modulo one bucket: zero when the remaining scoops are an exact
/// multiple of a bucket (the freshly empty top bucket — emptying can never
/// leave the account full), and the plain remainder otherwise.
pub proof fn lemma_top_bucket_after_empty(m: DiggingModel)
    requires
        m.inv(),
        !m.no_buckets(),
    ensures
        m.empty_step().inv(),
        m.empty_step().top_bucket() == if m.scoops % m.scoops_per_bucket == 0 {
            0int
        } else {
            m.scoops % m.scoops_per_bucket
        },
{
    let b = m.scoops_per_bucket;
    assert((m.scoops - b) % b == m.scoops % b) by (nonlinear_arith)
        requires
            b >= 1,
            m.scoops >= b,
    ;
    assert(m.empty_step().scoops < m.capacity());
}

/// Law: a progression check reports a nonzero threshold index exactly once
/// per crossing: a fired check reports an index strictly above the previous
/// progression, a second check without further digging reports zero, and an
/// unfired check changes nothing.
pub proof fn lemma_progress_fires_once(m: DiggingModel)
    requires
        m.inv(),
    ensures
        m.progress_step().1.inv(),
        m.progress_step().0 != 0 ==> m.progress_step().0 > m.progression,
        m.progress_step().0 != 0 ==> m.progress_step().1.progress_step().0 == 0,
        m.progress_step().0 == 0 ==> m.progress_step().1 == m,
{
    if m.depth >= (m.progression + 1) * m.progress_checks {
        let p = m.depth / m.progress_checks;
        vstd::arithmetic::div_mod::lemma_div_is_ordered(
            (m.progression + 1) * m.progress_checks,
            m.depth,
            m.progress_checks,
        );
        vstd::arithmetic::div_mod::lemma_div_by_multiple(m.progression + 1, m.progress_checks);
        assert(p >= m.progression + 1);
        vstd::arithmetic::div_mod::lemma_fundamental_div_mod(m.depth, m.progress_checks);
        vstd::arithmetic::mul::lemma_mul_is_distributive_add_other_way(
            m.progress_checks,
            p,
            1,
        );
        assert(m.depth < (p + 1) * m.progress_checks);
        assert(p <= p * m.progress_checks) by (nonlinear_arith)
            requires
                m.progress_checks >= 1,
                p >= 0,
        ;
    }
}

proof fn lemma_scoop_fold_fixed_fields(m: DiggingModel, calls: Seq<bool>)
    ensures
        scoop_fold(m, calls).progression == m.progression,
        scoop_fold(m, calls).progress_checks == m.progress_checks,
    decreases calls.len(),
{
    if calls.len() != 0 {
        lemma_scoop_fold_fixed_fields(m.scoop_step(calls[0]), calls.drop_first());
    }
}

/// Law: threshold indices reported across a session strictly increase:
/// after a fired progression check, any further sequence of scoops, and a
/// second fired check, the second index is strictly above the first.
pub proof fn lemma_progress_indices_increase(m: DiggingModel, calls: Seq<bool>)
    requires
        m.inv(),
        m.progress_step().0 != 0,
        m.progress_step().1.depth + calls.len() <= u32::MAX,
    ensures
        ({
            let m2 = scoop_fold(m.progress_step().1, calls);
            m2.progress_step().0 != 0 ==> m2.progress_step().0 > m.progress_step().0
        }),
{
    let r1 = m.progress_step().0;
    let m1 = m.progress_step().1;
    lemma_progress_fires_once(m);
    lemma_scoops_never_exceed_capacity(m1, calls);
    lemma_scoop_fold_fixed_fields(m1, calls);
    let m2 = scoop_fold(m1, calls);
    lemma_progress_fires_once(m2);
}

/// The character of one decimal digit.
pub open spec fn spec_digit(d: int) -> Seq<char> {
    if d == 0 {
        "0"@
    } else if d == 1 {
        "1"@
    } else if d == 2 {
        "2"@
    } else if d == 3 {
        "3"@
    } else if d == 4 {
        "4"@
    } else if d == 5 {
        "5"@
    } else if d == 6 {
        "6"@
    } else if d == 7 {
        "7"@
    } else if d == 8 {
        "8"@
    } else {
        "9"@
    }
}

/// The decimal digits of a nonnegative number, most significant first.
pub open spec fn spec_decimal(n: int) -> Seq<char>
    decreases n,
{
    if n < 10 {
        spec_digit(n)
    } else {
        spec_decimal(n / 10) + spec_digit(n % 10)
    }
}

fn push_digit(s: &mut String, d: u32)
    requires
        d < 10,
    ensures
        final(s)@ == old(s)@ + spec_digit(d as int),
{
    match d {
        0 => s.append("0"),
        1 => s.append("1"),
        2 => s.append("2"),
        3 => s.append("3"),
        4 => s.append("4"),
        5 => s.append("5"),
        6 => s.append("6"),
        7 => s.append("7"),
        8 => s.append("8"),
        _ => s.append("9"),
    }
}

fn push_decimal(s: &mut String, n: u32)
    ensures
        final(s)@ == old(s)@ + spec_decimal(n as int),
    decreases n,
{
    if n < 10 {
        push_digit(s, n);
    } else {
        push_decimal(s, n / 10);
        push_digit(s, n % 10);
        proof {
            assert(old(s)@ + spec_decimal(n as int / 10) + spec_digit(n as int % 10) =~= old(s)@
                + spec_decimal(n as int));
        }
    }
}

/// The depth rendered as meters with three decimals, rounded to nearest:
/// the whole meters, a point, and the thousandths padded to three digits.
pub open spec fn spec_depth_string(depth: int) -> Seq<char> {
    let meters = depth / (SCOOPS_PER_METER as int);
    let frac = ((depth % (SCOOPS_PER_METER as int)) * 1000 + 14) / (SCOOPS_PER_METER as int);
    spec_decimal(meters) + "."@ + (if frac < 10 {
        "00"@
    } else if frac < 100 {
        "0"@
    } else {
        Seq::<char>::empty()
    }) + spec_decimal(frac)
}

/// An activity newly unlocked by a progression threshold.
#[derive(Clone, Copy, Debug, PartialEq, Eq, Structural)]
pub enum ActivityUnlock {
    Drill,
    Robot,
}

/// A progression check and its unlocks: the drill threshold readies the
/// drill and adds its alert, the robot threshold readies the robot and adds
/// its alert; any other result changes nothing beyond the account.
pub open spec fn progression_step(m: DiggingModel, alerts: Seq<crate::cards::Alertable>) -> (
    DiggingModel,
    Seq<crate::cards::Alertable>,
    Option<ActivityUnlock>,
) {
    let r = m.progress_step();
    if r.0 == DRILL_METER {
        (
            DiggingModel { drill_status: DrillStatus::Idling, ..r.1 },
            alerts.push(
                crate::cards::Alertable {
                    state: crate::cards::AlertState::Drill(crate::cards::DrillAlertState::Ready),
                    clicked: false,
                },
            ),
            Some(ActivityUnlock::Drill),
        )
    } else if r.0 == ROBOT_METER {
        (
            DiggingModel { robot_status: RobotStatus::Idling, ..r.1 },
            alerts.push(
                crate::cards::Alertable {
                    state: crate::cards::AlertState::Robot(
                        crate::cards::RobotAlertState::CaptchaNeeded,
                    ),
                    clicked: false,
                },
            ),
            Some(ActivityUnlock::Robot),
        )
    } else {
        (r.1, alerts, None)
    }
}

/// Runs one progression check: when the drill or robot threshold was just
/// crossed, readies that activity and appends its alert. Returns which
/// activity was unlocked, so the caller can spawn its widget and play its
/// unlock sound; the caller must register the new alert's UI entity.
pub struct ProgressionSystem;

impl ProgressionSystem {
    pub fn run(digging: &mut DiggingStatus, alerts: &mut Vec<crate::cards::Alertable>) -> (unlocked:
        Option<ActivityUnlock>)
        requires
            old(digging)@.inv(),
        ensures
            final(digging)@.inv(),
            final(digging)@ == progression_step(old(digging)@, old(alerts)@).0,
            final(alerts)@ == progression_step(old(digging)@, old(alerts)@).1,
            unlocked == progression_step(old(digging)@, old(alerts)@).2,
    {
        let p = digging.progress();
        if p == DRILL_METER {
            digging.drill_status = DrillStatus::Idling;
            alerts.push(
                crate::cards::Alertable {
                    state: crate::cards::AlertState::Drill(crate::cards::DrillAlertState::Ready),
                    clicked: false,
                },
            );
            Some(ActivityUnlock::Drill)
        } else if p == ROBOT_METER {
            digging.robot_status = RobotStatus::Idling;
            alerts.push(
                crate::cards::Alertable {
                    state: crate::cards::AlertState::Robot(
                        crate::cards::RobotAlertState::CaptchaNeeded,
                    ),
                    clicked: false,
                },
            );
            Some(ActivityUnlock::Robot)
        } else {
            None
        }
    }
}

/// One account-side frame in its fixed order: the drill timer, the robot
/// timer, the shovel timer, then the progression check. Returns the new
/// account and alerts, whether the robot's run just ended, and which
/// activity was unlocked.
pub open spec fn digging_frame(
    m: DiggingModel,
    alerts: Seq<crate::cards::Alertable>,
    dt: int,
) -> (DiggingModel, Seq<crate::cards::Alertable>, bool, Option<ActivityUnlock>) {
    let r1 = drill_tick_step(m, dt);
    let r2 = robot_tick_step(r1.0, dt);
    let t = if r2.0.time_since_shovel + dt <= u32::MAX {
        r2.0.time_since_shovel + dt
    } else {
        u32::MAX as int
    };
    let m3 = DiggingModel { time_since_shovel: t, ..r2.0 };
    let r4 = progression_step(m3, alerts);
    (r4.0, r4.1, r2.1, r4.2)
}

/// Runs the account-side systems of one frame in their fixed order.
pub struct DiggingBundle;

impl DiggingBundle {
    pub fn run(
        digging: &mut DiggingStatus,
        alerts: &mut Vec<crate::cards::Alertable>,
        delta_millis: u32,
    ) -> (r: (bool, Option<ActivityUnlock>))
        requires
            old(digging)@.inv(),
            old(digging)@.depth < u32::MAX,
            drill_partial(old(digging)@) + delta_millis <= u32::MAX,
            robot_partial(old(digging)@) + delta_millis <= u32::MAX,
        ensures
            final(digging)@.inv(),
            final(digging)@ == digging_frame(old(digging)@, old(alerts)@, delta_millis as int).0,
            final(alerts)@ == digging_frame(old(digging)@, old(alerts)@, delta_millis as int).1,
            r.0 == digging_frame(old(digging)@, old(alerts)@, delta_millis as int).2,
            r.1 == digging_frame(old(digging)@, old(alerts)@, delta_millis as int).3,
    {
        DrillDiggingSystem::run(digging, delta_millis);
        let robot_done = RobotRunningSystem::run(digging, delta_millis);
        ShovelTimingSystem::run(digging, delta_millis);
        let unlocked = ProgressionSystem::run(digging, alerts);
        (robot_done, unlocked)
    }
}

/// One of the bucket gauges shown beside the hole.
#[derive(Clone, Copy, Debug, PartialEq, Eq, Structural)]
pub struct Bucket {
    /// Which bucket this gauge is.
    pub index: u32,
}

/// The robot gauge shown beside the hole.
#[derive(Clone, Copy, Debug, PartialEq, Eq, Structural)]
pub struct Robot {
    /// Which gauge this is.
    pub index: u32,
}

/// Advances the cosmetic timer counting milliseconds since the last manual
/// shovel scoop, saturating at the largest representable value.
pub struct ShovelTimingSystem;

impl ShovelTimingSystem {
    pub fn run(digging: &mut DiggingStatus, delta_millis: u32)
        requires
            old(digging)@.inv(),
        ensures
            final(digging)@.inv(),
            final(digging)@ == (DiggingModel {
                time_since_shovel: if old(digging)@.time_since_shovel + delta_millis <= u32::MAX {
                    old(digging)@.time_since_shovel + delta_millis
                } else {
                    u32::MAX as int
                },
                ..old(digging)@
            }),
    {
        if delta_millis > u32::MAX - digging.time_since_shovel {
            digging.time_since_shovel = u32::MAX;
        } else {
            digging.time_since_shovel = digging.time_since_shovel + delta_millis;
        }
    }
}

/// Advances the timed auto-digging drill by one tick.
pub struct DrillDiggingSystem;

impl DrillDiggingSystem {
    pub fn run(digging: &mut DiggingStatus, delta_millis: u32) -> (scooped: bool)
        requires
            old(digging)@.inv(),
            old(digging)@.depth < u32::MAX,
            drill_partial(old(digging)@) + delta_millis <= u32::MAX,
        ensures
            final(digging)@.inv(),
            final(digging)@ == drill_tick_step(old(digging)@, delta_millis as int).0,
            scooped == drill_tick_step(old(digging)@, delta_millis as int).1,
    {
        let mut scooped = false;
        if let DrillStatus::Running { time_left, partial_scoops } = digging.drill_status {
            let mut partial = partial_scoops + delta_millis;
            if partial >= DRILL_SCOOP_MILLIS {
                partial = partial - DRILL_SCOOP_MILLIS;
                scooped = true;
            }
            if delta_millis > time_left {
                digging.drill_status = DrillStatus::Idling;
            } else {
                digging.drill_status = DrillStatus::Running {
                    time_left: time_left - delta_millis,
                    partial_scoops: partial,
                };
            }
            if scooped {
                digging.scoop(false);
            }
        }
        scooped
    }
}

/// Advances the timed bucket-draining robot by one tick. Returns whether the
/// run just ended, so the caller can play the matching sound cue.
pub struct RobotRunningSystem;

impl RobotRunningSystem {
    pub fn run(digging: &mut DiggingStatus, delta_millis: u32) -> (expired: bool)
        requires
            old(digging)@.inv(),
            robot_partial(old(digging)@) + delta_millis <= u32::MAX,
        ensures
            final(digging)@.inv(),
            final(digging)@ == robot_tick_step(old(digging)@, delta_millis as int).0,
            expired == robot_tick_step(old(digging)@, delta_millis as int).1,
    {
        let mut expired = false;
        if let RobotStatus::Running { time_left, partial_buckets } = digging.robot_status {
            let mut partial = partial_buckets + delta_millis;
            let mut accrued = false;
            if partial >= ROBOT_BUCKET_MILLIS {
                partial = partial - ROBOT_BUCKET_MILLIS;
                accrued = true;
            }
            if delta_millis > time_left {
                expired = true;
                digging.robot_status = RobotStatus::Idling;
            } else {
                digging.robot_status = RobotStatus::Running {
                    time_left: time_left - delta_millis,
                    partial_buckets: partial,
                };
            }
            if accrued {
                // An accrued unit with no full bucket to drain is forfeited.
                let _ = digging.empty_bucket();
            }
        }
        expired
    }
}

/// Renders the text of the depth indicator.
pub struct DepthRenderSystem;

impl DepthRenderSystem {
    pub fn run(digging: &DiggingStatus) -> (r: String)
        requires
            digging@.inv(),
        ensures
            r@ == "Current Depth: "@ + spec_depth_string(digging@.depth),
    {
        let mut s = String::from_str("Current Depth: ");
        let depth = digging.get_depth_string();
        s.append(depth.as_str());
        s
    }
}

/// Decides how one bucket gauge is displayed: whether it is shown at all,
/// and whether it is drawn as a filled bucket.
pub struct BucketRenderSystem;

impl BucketRenderSystem {
    pub fn run(digging: &DiggingStatus, bucket: &Bucket) -> (r: (bool, bool))
        requires
            digging@.inv(),
        ensures
            r.0 == (bucket.index < digging@.buckets),
            r.1 == (bucket.index < digging@.scoops / digging@.scoops_per_bucket),
    {
        let visible = bucket.index < digging.buckets;
        let filled = bucket.index < digging.scoops / digging.scoops_per_bucket;
        (visible, filled)
    }
}

/// Decides how the robot gauge is displayed: whether it is shown at all
/// (only while the robot runs), and whether the about-to-dump frame is drawn.
pub struct RobotRenderSystem;

impl RobotRenderSystem {
    pub fn run(digging: &DiggingStatus, _robot: &Robot) -> (r: (bool, bool))
        ensures
            r.0 == (digging@.robot_status matches RobotStatus::Running { .. }),
            r.1 == (robot_partial(digging@) > ROBOT_BUCKET_MILLIS / 2),
    {
        match digging.robot_status {
            RobotStatus::Running { partial_buckets, .. } => {
                (true, partial_buckets > ROBOT_BUCKET_MILLIS / 2)
            },
            _ => (false, false),
        }
    }
}

} // verus!
