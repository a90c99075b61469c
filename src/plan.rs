//! The parameters of a graduation and the calls it makes, in their order.
use vstd::prelude::*;

use crate::authority::Authority;

verus! {

/// The caller's parameters of one graduation.
#[derive(Clone, Copy, Debug, PartialEq, Eq, Structural)]
pub struct GraduateParams {
    /// Spacing of initializable ticks in the new pool.
    pub tick_spacing: u16,
    /// The pool's starting price, as a Q64.64 square root.
    pub initial_sqrt_price: u128,
    /// First tick of the lower tick array.
    pub start_tick_index_lower: i32,
    /// First tick of the upper tick array.
    pub start_tick_index_upper: i32,
    /// Lower bound of the position's tick range.
    pub tick_lower_index: i32,
    /// Upper bound of the position's tick range.
    pub tick_upper_index: i32,
    /// Whether the position token carries the metadata extension.
    pub with_token_metadata_extension: bool,
    /// Liquidity to add to the position.
    pub liquidity_amount: u128,
    /// The most of token A the caller accepts to pay for that liquidity.
    pub token_max_a: u64,
    /// The most of token B the caller accepts to pay for that liquidity.
    pub token_max_b: u64,
}

/// The steps of a graduation, in the order in which they run.
#[derive(Clone, Copy, Debug, PartialEq, Eq, Structural)]
pub enum Step {
    InitializePool,
    InitializeTickArrayLower,
    InitializeTickArrayUpper,
    OpenPosition,
    IncreaseLiquidity,
    LockPosition,
}

/// Which of the two tick arrays a call initializes.
#[derive(Clone, Copy, Debug, PartialEq, Eq, Structural)]
pub enum TickArraySide {
    Lower,
    Upper,
}

/// How a position is locked.
#[derive(Clone, Copy, Debug, PartialEq, Eq, Structural)]
pub enum LockKind {
    /// The liquidity can never be withdrawn.
    Permanent,
}

/// One call into the pool program, with its arguments. Only the two calls
/// made on the position owner's behalf carry its signer.
#[derive(Clone, Copy, Debug, PartialEq, Eq)]
pub enum Call {
    InitializePool { tick_spacing: u16, initial_sqrt_price: u128 },
    InitializeTickArray { side: TickArraySide, start_tick_index: i32 },
    OpenPosition {
        owner: [u8; 32],
        tick_lower_index: i32,
        tick_upper_index: i32,
        with_token_metadata_extension: bool,
    },
    IncreaseLiquidity {
        signer: Authority,
        liquidity_amount: u128,
        token_max_a: u64,
        token_max_b: u64,
    },
    LockPosition { signer: Authority, lock_type: LockKind },
}

impl Step {
    /// The position of the step in the run, from 0.
    pub open spec fn index(self) -> nat {
        match self {
            Step::InitializePool => 0,
            Step::InitializeTickArrayLower => 1,
            Step::InitializeTickArrayUpper => 2,
            Step::OpenPosition => 3,
            Step::IncreaseLiquidity => 4,
            Step::LockPosition => 5,
        }
    }

    /// The step's number as reported to the caller: the pool is step 1, the
    /// tick arrays steps 2 and 3, the position step 4, and the liquidity and
    /// the lock steps 5a and 5b.
    pub open spec fn spec_label(self) -> Seq<char> {
        match self {
            Step::InitializePool => "1"@,
            Step::InitializeTickArrayLower => "2"@,
            Step::InitializeTickArrayUpper => "3"@,
            Step::OpenPosition => "4"@,
            Step::IncreaseLiquidity => "5a"@,
            Step::LockPosition => "5b"@,
        }
    }

    /// The step's number as reported to the caller.
    pub fn label(&self) -> (r: &'static str)
        ensures
            r@ == self.spec_label(),
    {
        match self {
            Step::InitializePool => "1",
            Step::InitializeTickArrayLower => "2",
            Step::InitializeTickArrayUpper => "3",
            Step::OpenPosition => "4",
            Step::IncreaseLiquidity => "5a",
            Step::LockPosition => "5b",
        }
    }
}

/// The number of steps when the position is locked at the end.
pub const STEPS_WITH_LOCK: usize = 6;

/// The number of steps when the position is left unlocked.
pub const STEPS_WITHOUT_LOCK: usize = 5;

/// The number of steps of a run.
pub open spec fn step_count(lock: bool) -> nat {
    if lock {
        STEPS_WITH_LOCK as nat
    } else {
        STEPS_WITHOUT_LOCK as nat
    }
}

/// The step that runs at position `i`.
pub open spec fn step_at(i: int) -> Step {
    if i <= 0 {
        Step::InitializePool
    } else if i == 1 {
        Step::InitializeTickArrayLower
    } else if i == 2 {
        Step::InitializeTickArrayUpper
    } else if i == 3 {
        Step::OpenPosition
    } else if i == 4 {
        Step::IncreaseLiquidity
    } else {
        Step::LockPosition
    }
}

/// The call that performs `step`.
pub open spec fn call_for(p: GraduateParams, a: Authority, step: Step) -> Call {
    match step {
        Step::InitializePool => Call::InitializePool {
            tick_spacing: p.tick_spacing,
            initial_sqrt_price: p.initial_sqrt_price,
        },
        Step::InitializeTickArrayLower => Call::InitializeTickArray {
            side: TickArraySide::Lower,
            start_tick_index: p.start_tick_index_lower,
        },
        Step::InitializeTickArrayUpper => Call::InitializeTickArray {
            side: TickArraySide::Upper,
            start_tick_index: p.start_tick_index_upper,
        },
        Step::OpenPosition => Call::OpenPosition {
            owner: a.address,
            tick_lower_index: p.tick_lower_index,
            tick_upper_index: p.tick_upper_index,
            with_token_metadata_extension: p.with_token_metadata_extension,
        },
        Step::IncreaseLiquidity => Call::IncreaseLiquidity {
            signer: a,
            liquidity_amount: p.liquidity_amount,
            token_max_a: p.token_max_a,
            token_max_b: p.token_max_b,
        },
        Step::LockPosition => Call::LockPosition { signer: a, lock_type: LockKind::Permanent },
    }
}

/// The calls of a whole run, in order.
pub open spec fn plan(p: GraduateParams, a: Authority, lock: bool) -> Seq<Call> {
    Seq::new(step_count(lock), |i: int| call_for(p, a, step_at(i)))
}

impl Call {
    /// The step that a call performs.
    pub open spec fn step(self) -> Step {
        match self {
            Call::InitializePool { .. } => Step::InitializePool,
            Call::InitializeTickArray { side, .. } => match side {
                TickArraySide::Lower => Step::InitializeTickArrayLower,
                TickArraySide::Upper => Step::InitializeTickArrayUpper,
            },
            Call::OpenPosition { .. } => Step::OpenPosition,
            Call::IncreaseLiquidity { .. } => Step::IncreaseLiquidity,
            Call::LockPosition { .. } => Step::LockPosition,
        }
    }

    /// The signer that the call carries, if any.
    pub open spec fn spec_signer(self) -> Option<Authority> {
        match self {
            Call::IncreaseLiquidity { signer, .. } => Some(signer),
            Call::LockPosition { signer, .. } => Some(signer),
            _ => None,
        }
    }

    /// The step that this call performs.
    pub fn step_of(&self) -> (r: Step)
        ensures
            r == self.step(),
    {
        match self {
            Call::InitializePool { .. } => Step::InitializePool,
            Call::InitializeTickArray { side, .. } => match side {
                TickArraySide::Lower => Step::InitializeTickArrayLower,
                TickArraySide::Upper => Step::InitializeTickArrayUpper,
            },
            Call::OpenPosition { .. } => Step::OpenPosition,
            Call::IncreaseLiquidity { .. } => Step::IncreaseLiquidity,
            Call::LockPosition { .. } => Step::LockPosition,
        }
    }

    /// The signer to present with this call, if it needs one.
    pub fn signer(&self) -> (r: Option<Authority>)
        ensures
            r == self.spec_signer(),
    {
        match self {
            Call::IncreaseLiquidity { signer, .. } => Some(*signer),
            Call::LockPosition { signer, .. } => Some(*signer),
            _ => None,
        }
    }
}

/// The step that runs at position `i`.
pub fn step_at_index(i: usize) -> (r: Step)
    requires
        i < STEPS_WITH_LOCK,
    ensures
        r == step_at(i as int),
        r.index() == i,
{
    if i == 0 {
        Step::InitializePool
    } else if i == 1 {
        Step::InitializeTickArrayLower
    } else if i == 2 {
        Step::InitializeTickArrayUpper
    } else if i == 3 {
        Step::OpenPosition
    } else if i == 4 {
        Step::IncreaseLiquidity
    } else {
        Step::LockPosition
    }
}

/// The call that performs `step` for these parameters and this owner.
pub fn call_for_step(params: &GraduateParams, authority: &Authority, step: Step) -> (r: Call)
    ensures
        r == call_for(*params, *authority, step),
        r.step() == step,
{
    match step {
        Step::InitializePool => Call::InitializePool {
            tick_spacing: params.tick_spacing,
            initial_sqrt_price: params.initial_sqrt_price,
        },
        Step::InitializeTickArrayLower => Call::InitializeTickArray {
            side: TickArraySide::Lower,
            start_tick_index: params.start_tick_index_lower,
        },
        Step::InitializeTickArrayUpper => Call::InitializeTickArray {
            side: TickArraySide::Upper,
            start_tick_index: params.start_tick_index_upper,
        },
        Step::OpenPosition => Call::OpenPosition {
            owner: authority.address,
            tick_lower_index: params.tick_lower_index,
            tick_upper_index: params.tick_upper_index,
            with_token_metadata_extension: params.with_token_metadata_extension,
        },
        Step::IncreaseLiquidity => Call::IncreaseLiquidity {
            signer: *authority,
            liquidity_amount: params.liquidity_amount,
            token_max_a: params.token_max_a,
            token_max_b: params.token_max_b,
        },
        Step::LockPosition => Call::LockPosition {
            signer: *authority,
            lock_type: LockKind::Permanent,
        },
    }
}

/// All the calls of a run, in the order in which they are made.
pub fn graduation_plan(params: &GraduateParams, authority: &Authority, lock: bool) -> (r: Vec<Call>)
    ensures
        r@ == plan(*params, *authority, lock),
{
    let n: usize = if lock {
        STEPS_WITH_LOCK
    } else {
        STEPS_WITHOUT_LOCK
    };
    let mut r: Vec<Call> = Vec::new();
    let mut i: usize = 0;
    while i < n
        invariant
            n == step_count(lock),
            i <= n,
            r@ =~= plan(*params, *authority, lock).take(i as int),
        decreases n - i,
    {
        r.push(call_for_step(params, authority, step_at_index(i)));
        i = i + 1;
    }
    r
}

} // verus!
