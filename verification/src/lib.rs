//! A two-party conditional-swap escrow engine.
//!
//! A maker locks a quantity of asset A in a custodial vault and records how
//! much of asset B they want in return; a taker fulfills the trade atomically,
//! or the maker cancels and reclaims the deposit. The vault's authority is a
//! deterministically derived address with no private key, so control over it
//! is proven purely by re-deriving the same address from known inputs.
//!
//! This crate is the validation and state-transition core: account
//! authorization, the deterministic custody-address scheme, the escrow
//! record's binary layout, and the three transitions (make, take, refund).
//! Each handler checks its account list and payload and returns the exact
//! sequence of ledger operations to perform; carrying those operations out
//! (account creation, token transfers, account closing) is the surrounding
//! runtime's job.

pub mod errors;
pub mod ids;
pub mod account;
pub mod pda;
pub mod state;
pub mod helpers;
pub mod plan;
pub mod instructions;

use vstd::prelude::*;
use vstd::slice::slice_subrange;
use vstd::slice::slice_to_vec;
use crate::account::Account;
use crate::account::AccountV;
use crate::errors::ProgramError;
use crate::instructions::make::Make;
use crate::instructions::make::MakePlan;
use crate::instructions::make::MakePlanV;
use crate::instructions::make::make_spec;
use crate::instructions::refund::Refund;
use crate::instructions::refund::RefundPlan;
use crate::instructions::refund::RefundPlanV;
use crate::instructions::refund::refund_spec;
use crate::instructions::take::Take;
use crate::instructions::take::TakePlan;
use crate::instructions::take::TakePlanV;
use crate::instructions::take::take_spec;

verus! {

/// The plan of whichever transition the opcode selected.
pub enum InstructionPlanV {
    Make(MakePlanV),
    Take(TakePlanV),
    Refund(RefundPlanV),
}

/// Exec form of [`InstructionPlanV`].
pub enum InstructionPlan {
    Make(MakePlan),
    Take(TakePlan),
    Refund(RefundPlan),
}

impl View for InstructionPlan {
    type V = InstructionPlanV;

    open spec fn view(&self) -> InstructionPlanV {
        match self {
            InstructionPlan::Make(p) => InstructionPlanV::Make(p@),
            InstructionPlan::Take(p) => InstructionPlanV::Take(p@),
            InstructionPlan::Refund(p) => InstructionPlanV::Refund(p@),
        }
    }
}

/// What the dispatcher decides: the first payload byte selects the
/// transition, the rest of the payload goes to it; an empty payload or an
/// unknown opcode is rejected.
pub open spec fn dispatch_spec(accts: Seq<AccountV>, data: Seq<u8>) -> Result<
    InstructionPlanV,
    ProgramError,
> {
    if data.len() == 0 {
        Err(ProgramError::InvalidInstructionData)
    } else if data[0] == 0 {
        match make_spec(accts, data.subrange(1, data.len() as int)) {
            Ok(p) => Ok(InstructionPlanV::Make(p)),
            Err(e) => Err(e),
        }
    } else if data[0] == 1 {
        match take_spec(accts) {
            Ok(p) => Ok(InstructionPlanV::Take(p)),
            Err(e) => Err(e),
        }
    } else if data[0] == 2 {
        match refund_spec(accts) {
            Ok(p) => Ok(InstructionPlanV::Refund(p)),
            Err(e) => Err(e),
        }
    } else {
        Err(ProgramError::InvalidInstructionData)
    }
}

/// Read the opcode and route to the transition it names.
pub fn process_instruction(accounts: &Vec<Account>, instruction_data: &Vec<u8>) -> (r: Result<
    InstructionPlan,
    ProgramError,
>)
    requires
        forall|i: int| 0 <= i < accounts@.len() ==> (#[trigger] accounts@[i]).wf(),
    ensures
        (match r {
            Ok(p) => dispatch_spec(accounts.deep_view(), instruction_data@) == Ok::<
                _,
                ProgramError,
            >(p@),
            Err(e) => dispatch_spec(accounts.deep_view(), instruction_data@) == Err::<
                InstructionPlanV,
                _,
            >(e),
        }),
{
    if instruction_data.len() == 0 {
        return Err(ProgramError::InvalidInstructionData);
    }
    let opcode = instruction_data[0];
    if opcode == 0 {
        let payload = slice_to_vec(
            slice_subrange(instruction_data.as_slice(), 1, instruction_data.len()),
        );
        match Make::process(accounts, &payload) {
            Ok(p) => Ok(InstructionPlan::Make(p)),
            Err(e) => Err(e),
        }
    } else if opcode == 1 {
        match Take::process(accounts) {
            Ok(p) => Ok(InstructionPlan::Take(p)),
            Err(e) => Err(e),
        }
    } else if opcode == 2 {
        match Refund::process(accounts) {
            Ok(p) => Ok(InstructionPlan::Refund(p)),
            Err(e) => Err(e),
        }
    } else {
        Err(ProgramError::InvalidInstructionData)
    }
}

} // verus!
