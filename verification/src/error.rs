//! The failures the machine reports to its host.

use vstd::prelude::*;
use vstd::string::StringExecFns;

verus! {

/// A failure raised by the machine itself.
#[derive(Debug, Clone, Copy, PartialEq, Eq, Structural)]
pub enum VmError {
    /// The entry function, or the target of a call, is not in the function table.
    FunctionDoesNotExist(usize),
    /// A local was read before it was set in its frame.
    SymbolDoesNotExist { func: usize, sym: usize },
    /// Two label instructions of one body carry the same label.
    RedefinitionOfLabel { func: usize, label: usize },
    /// A jump or branch names a label its body does not define.
    LabelDoesNotExist { func: usize, label: usize },
    /// The return slot was read before any return wrote it.
    ReturnNotSet { func: usize, sym: usize },
    /// The value handed to a call is not a function handle.
    AttemptToCallNonFunction { current_func: usize },
    /// A parameter was popped while the parameter channel was empty.
    AttemptToPopEmptyParams { current_func: usize, sym: usize },
}

/// Why a run ended without a result.
#[derive(Debug, PartialEq, Eq)]
pub enum RunError<E> {
    /// The machine detected a fault in the program.
    Vm(VmError),
    /// A host callback failed; its failure is handed back untouched.
    Host(E),
    /// The step budget ran out before the entry function finished.
    OutOfSteps,
}

/// The character that stands for a single decimal digit.
pub open spec fn digit_char(d: nat) -> char
    recommends
        d < 10,
{
    if d == 0 {
        '0'
    } else if d == 1 {
        '1'
    } else if d == 2 {
        '2'
    } else if d == 3 {
        '3'
    } else if d == 4 {
        '4'
    } else if d == 5 {
        '5'
    } else if d == 6 {
        '6'
    } else if d == 7 {
        '7'
    } else if d == 8 {
        '8'
    } else {
        '9'
    }
}

/// The decimal numeral of `n`, most significant digit first, without leading zeros.
pub open spec fn decimal(n: nat) -> Seq<char>
    decreases n,
{
    if n < 10 {
        seq![digit_char(n)]
    } else {
        decimal(n / 10).push(digit_char(n % 10))
    }
}

/// Appends the decimal numeral of `n` to `out`.
fn push_decimal(out: &mut String, n: usize)
    ensures
        final(out)@ == old(out)@ + decimal(n as nat),
    decreases n,
{
    if n >= 10 {
        push_decimal(out, n / 10);
    }
    let d: usize = n % 10;
    let digit: &str = if d == 0 {
        "0"
    } else if d == 1 {
        "1"
    } else if d == 2 {
        "2"
    } else if d == 3 {
        "3"
    } else if d == 4 {
        "4"
    } else if d == 5 {
        "5"
    } else if d == 6 {
        "6"
    } else if d == 7 {
        "7"
    } else if d == 8 {
        "8"
    } else {
        "9"
    };
    proof {
        reveal_strlit("0");
        reveal_strlit("1");
        reveal_strlit("2");
        reveal_strlit("3");
        reveal_strlit("4");
        reveal_strlit("5");
        reveal_strlit("6");
        reveal_strlit("7");
        reveal_strlit("8");
        reveal_strlit("9");
    }
    out.append(digit);
}

impl VmError {
    /// The text that describes this failure to a reader.
    pub open spec fn text(self) -> Seq<char> {
        match self {
            VmError::FunctionDoesNotExist(func) => "symbol does not exist:  "@ + decimal(
                func as nat,
            ),
            VmError::SymbolDoesNotExist { func, sym } => "symbol "@ + decimal(sym as nat)
                + " does not exist for function "@ + decimal(func as nat),
            VmError::RedefinitionOfLabel { func, label } => "redefinition of label "@ + decimal(
                label as nat,
            ) + " in function "@ + decimal(func as nat),
            VmError::LabelDoesNotExist { func, label } => "label "@ + decimal(label as nat)
                + " does not exist in function "@ + decimal(func as nat),
            VmError::ReturnNotSet { func, sym } => "return not set in function "@ + decimal(
                func as nat,
            ) + " for set into symbol "@ + decimal(sym as nat),
            VmError::AttemptToCallNonFunction { current_func } =>
                "attempt to call non-function in function "@ + decimal(current_func as nat),
            VmError::AttemptToPopEmptyParams { current_func, sym } =>
                "attempt to pop empty params in function "@ + decimal(current_func as nat)
                    + " into symbol "@ + decimal(sym as nat),
        }
    }

    /// Renders this failure as text.
    pub fn message(&self) -> (out: String)
        ensures
            out@ == self.text(),
    {
        let mut out = String::new();
        match self {
            VmError::FunctionDoesNotExist(func) => {
                out.append("symbol does not exist:  ");
                push_decimal(&mut out, *func);
            },
            VmError::SymbolDoesNotExist { func, sym } => {
                out.append("symbol ");
                push_decimal(&mut out, *sym);
                out.append(" does not exist for function ");
                push_decimal(&mut out, *func);
            },
            VmError::RedefinitionOfLabel { func, label } => {
                out.append("redefinition of label ");
                push_decimal(&mut out, *label);
                out.append(" in function ");
                push_decimal(&mut out, *func);
            },
            VmError::LabelDoesNotExist { func, label } => {
                out.append("label ");
                push_decimal(&mut out, *label);
                out.append(" does not exist in function ");
                push_decimal(&mut out, *func);
            },
            VmError::ReturnNotSet { func, sym } => {
                out.append("return not set in function ");
                push_decimal(&mut out, *func);
                out.append(" for set into symbol ");
                push_decimal(&mut out, *sym);
            },
            VmError::AttemptToCallNonFunction { current_func } => {
                out.append("attempt to call non-function in function ");
                push_decimal(&mut out, *current_func);
            },
            VmError::AttemptToPopEmptyParams { current_func, sym } => {
                out.append("attempt to pop empty params in function ");
                push_decimal(&mut out, *current_func);
                out.append(" into symbol ");
                push_decimal(&mut out, *sym);
            },
        }
        out
    }
}

} // verus!
