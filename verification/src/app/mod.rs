//! The state machine of the calculator: how a request changes the register, and what is
//! answered. Given the same state and the same request, every replica ends in the same
//! state with the same answer.

pub mod messages;

use crate::arith::{
    lemma_trunc_div_bound, lemma_trunc_div_rem, trunc_div, trunc_rem, wrap, wrapping_add,
    wrapping_div, wrapping_mul, wrapping_pow, wrapping_rem, wrapping_sub,
};
use crate::state::CalculatorState;
use messages::{Operation, Reply, Request};
use vstd::arithmetic::power::pow;
use vstd::prelude::*;

verus! {

/// The calculator.
pub struct App;

/// Why a request is refused. A refused request changes nothing.
#[derive(Clone, Copy, Debug, PartialEq, Eq, Structural)]
pub enum DomainError {
    /// A division or a remainder by zero.
    DivisionByZero,
    /// A power with a negative exponent.
    NegativeExponent,
}

impl App {
    /// What `operation` with `operand` makes of a register that holds `value`: the
    /// exact result, wrapped into 32 bits; or the reason why there is none. Quotients
    /// are rounded towards zero, and a remainder has the sign of `value`.
    pub open spec fn evaluate(operation: Operation, value: int, operand: int) -> Result<
        int,
        DomainError,
    > {
        match operation {
            Operation::Add => Ok(wrap(value + operand)),
            Operation::Sub => Ok(wrap(value - operand)),
            Operation::Mult => Ok(wrap(value * operand)),
            Operation::Divide => if operand == 0 {
                Err(DomainError::DivisionByZero)
            } else {
                Ok(wrap(trunc_div(value, operand)))
            },
            Operation::Remainder => if operand == 0 {
                Err(DomainError::DivisionByZero)
            } else {
                Ok(wrap(trunc_rem(value, operand)))
            },
            Operation::Exponent => if operand < 0 {
                Err(DomainError::NegativeExponent)
            } else {
                Ok(wrap(pow(value, operand as nat)))
            },
        }
    }

    /// Whether `after` and `outcome` are what `apply` leaves in the register and
    /// returns, when it is called with `request` on a register that holds `before`.
    pub open spec fn applies(
        before: CalculatorState,
        request: Request,
        after: CalculatorState,
        outcome: Result<Reply, DomainError>,
    ) -> bool {
        match Self::evaluate(request@.operation, before@, request@.operand) {
            Ok(value) => {
                &&& after@ == value
                &&& outcome matches Ok(reply)
                &&& reply@ == value
            },
            Err(e) => after@ == before@ && outcome == Err::<Reply, DomainError>(e),
        }
    }

    /// The calculator. It holds nothing: the register is handed to each call.
    pub fn init() -> (app: Self)
        ensures
            app == App,
    {
        App
    }

    /// The state before any request: the register holds zero.
    pub fn initial_state() -> (state: CalculatorState)
        ensures
            state@ == 0,
    {
        CalculatorState { value: 0 }
    }

    /// Answers with the value of the register, which it leaves as it is. It needs no
    /// agreement among the replicas, and takes any request for the question.
    pub fn unordered_execution(&self, state: &CalculatorState, request: Request) -> (reply: Reply)
        ensures
            reply@ == state@,
    {
        Reply::new(state.value())
    }

    /// Computes what `operation` with `operand` makes of `value`.
    pub fn compute(operation: Operation, value: i32, operand: i32) -> (r: Result<i32, DomainError>)
        ensures
            match Self::evaluate(operation, value as int, operand as int) {
                Ok(result) => r matches Ok(found) && found == result,
                Err(e) => r == Err::<i32, DomainError>(e),
            },
    {
        match operation {
            Operation::Add => Ok(wrapping_add(value, operand)),
            Operation::Sub => Ok(wrapping_sub(value, operand)),
            Operation::Mult => Ok(wrapping_mul(value, operand)),
            Operation::Divide => {
                if operand == 0 {
                    Err(DomainError::DivisionByZero)
                } else {
                    Ok(wrapping_div(value, operand))
                }
            },
            Operation::Remainder => {
                if operand == 0 {
                    Err(DomainError::DivisionByZero)
                } else {
                    Ok(wrapping_rem(value, operand))
                }
            },
            Operation::Exponent => {
                if operand < 0 {
                    Err(DomainError::NegativeExponent)
                } else {
                    Ok(wrapping_pow(value, operand as u32))
                }
            },
        }
    }

    /// Applies one ordered request to the register. A request in the domain puts its
    /// result in the register and is answered with it; one outside the domain is
    /// refused with the reason, and the register stays as it was.
    pub fn apply(&self, state: &mut CalculatorState, request: Request) -> (outcome: Result<
        Reply,
        DomainError,
    >)
        ensures
            Self::applies(*old(state), request, *final(state), outcome),
    {
        let (operation, operand): (Operation, i32) = request.into();
        match Self::compute(operation, state.value(), operand) {
            Ok(value) => {
                state.set_value(value);
                Ok(Reply::new(value))
            },
            Err(e) => Err(e),
        }
    }

    /// Applies one ordered request and answers with the value that the register holds
    /// afterwards. A request outside the domain leaves the register as it was, so the
    /// answer to it is the value from before.
    pub fn update(&self, state: &mut CalculatorState, request: Request) -> (reply: Reply)
        ensures
            final(state)@ == match Self::evaluate(
                request@.operation,
                old(state)@,
                request@.operand,
            ) {
                Ok(value) => value,
                Err(_) => old(state)@,
            },
            reply@ == final(state)@,
    {
        match self.apply(state, request) {
            Ok(reply) => reply,
            Err(_) => Reply::new(state.value()),
        }
    }
}

/// A request is refused exactly when it divides by zero or raises to a negative power,
/// whatever the register holds; and a result always fits the register.
pub proof fn lemma_evaluate_domain(operation: Operation, value: int, operand: int)
    ensures
        App::evaluate(operation, value, operand) is Err <==> {
            ||| (operation == Operation::Divide && operand == 0)
            ||| (operation == Operation::Remainder && operand == 0)
            ||| (operation == Operation::Exponent && operand < 0)
        },
        App::evaluate(operation, value, operand) matches Ok(result) ==> i32::MIN <= result
            <= i32::MAX,
{
}

/// Where the exact result fits the register, it is the result: wrapping changes
/// nothing then.
pub proof fn lemma_evaluate_exact(operation: Operation, value: int, operand: int)
    requires
        i32::MIN <= value <= i32::MAX,
        i32::MIN <= operand <= i32::MAX,
    ensures
        operation == Operation::Add && i32::MIN <= value + operand <= i32::MAX
            ==> App::evaluate(operation, value, operand) == Ok::<int, DomainError>(
            value + operand,
        ),
        operation == Operation::Sub && i32::MIN <= value - operand <= i32::MAX
            ==> App::evaluate(operation, value, operand) == Ok::<int, DomainError>(
            value - operand,
        ),
        operation == Operation::Mult && i32::MIN <= value * operand <= i32::MAX
            ==> App::evaluate(operation, value, operand) == Ok::<int, DomainError>(
            value * operand,
        ),
        operation == Operation::Divide && operand != 0 && !(value == i32::MIN && operand == -1)
            ==> App::evaluate(operation, value, operand) == Ok::<int, DomainError>(
            trunc_div(value, operand),
        ),
        operation == Operation::Remainder && operand != 0 ==> App::evaluate(
            operation,
            value,
            operand,
        ) == Ok::<int, DomainError>(trunc_rem(value, operand)),
        operation == Operation::Exponent && operand >= 0 && i32::MIN <= pow(
            value,
            operand as nat,
        ) <= i32::MAX ==> App::evaluate(operation, value, operand) == Ok::<int, DomainError>(
            pow(value, operand as nat),
        ),
{
    if operand != 0 {
        lemma_trunc_div_rem(value, operand);
        lemma_trunc_div_bound(value, operand);
    }
}

/// `apply` is total: whatever the register holds and whatever is requested, there is a
/// state to end in and an outcome to return.
pub proof fn lemma_apply_total(before: CalculatorState, request: Request)
    ensures
        exists|after: CalculatorState, outcome: Result<Reply, DomainError>|
            App::applies(before, request, after, outcome),
{
    lemma_evaluate_domain(request@.operation, before@, request@.operand);
    match App::evaluate(request@.operation, before@, request@.operand) {
        Ok(value) => {
            let after = CalculatorState { value: value as i32 };
            let outcome = Ok::<Reply, DomainError>(Reply { value: value as i32 });
            assert(App::applies(before, request, after, outcome));
        },
        Err(e) => {
            assert(App::applies(before, request, before, Err::<Reply, DomainError>(e)));
        },
    }
}

/// `apply` is deterministic: two runs on equal states with equal requests end in equal
/// states and return the same, be it an answer or a refusal.
pub proof fn lemma_apply_deterministic(
    before: CalculatorState,
    request: Request,
    first_after: CalculatorState,
    first_outcome: Result<Reply, DomainError>,
    second_after: CalculatorState,
    second_outcome: Result<Reply, DomainError>,
)
    requires
        App::applies(before, request, first_after, first_outcome),
        App::applies(before, request, second_after, second_outcome),
    ensures
        first_after == second_after,
        first_outcome == second_outcome,
{
}

} // verus!
