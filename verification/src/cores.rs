//! How many build jobs to run at once.

use crate::error::{ErrorView, UpdateError};
use vstd::prelude::*;
use vstd::string::*;

verus! {

/// The number of jobs for a host that runs `total` threads at once when
/// `reserved` of them are to be kept free: what is left, or all of them where
/// nothing would be left.
pub open spec fn job_count_of(total: int, reserved: int) -> int {
    if total > reserved {
        total - reserved
    } else {
        total
    }
}

/// The decimal digit of value `d`.
pub open spec fn digit(d: int) -> char {
    if d == 0 {
        '0'
    } else if d == 1 {
        '1'
    } else if d == 2 {
        '2'
    } else if d == 3 {
        '3'
    } else if d == 4 {
        '4'
    } else if d == 5 {
        '5'
    } else if d == 6 {
        '6'
    } else if d == 7 {
        '7'
    } else if d == 8 {
        '8'
    } else {
        '9'
    }
}

/// `n` in decimal, without leading zeros.
pub open spec fn decimal(n: nat) -> Seq<char>
    decreases n,
{
    if n < 10 {
        seq![digit(n as int)]
    } else {
        decimal(n / 10).push(digit((n % 10) as int))
    }
}

/// `n` in decimal, with a minus sign before it where it is negative.
pub open spec fn signed_decimal(n: int) -> Seq<char> {
    if n < 0 {
        seq!['-'] + decimal((-n) as nat)
    } else {
        decimal(n as nat)
    }
}

/// The job count as the build tool takes it, for a host that reported
/// `available`. A host that reported nothing, or zero, has not said what it
/// can run.
pub open spec fn cores_of(free: usize, available: Option<usize>) -> Result<Seq<char>, ErrorView> {
    match available {
        Some(total) if total >= 1 => Ok(decimal(job_count_of(total as int, free as int) as nat)),
        _ => Err(ErrorView::ParallelismUnavailable),
    }
}

/// Computes the number of build jobs for a host that runs `total` threads at
/// once, keeping `reserved` of them free where that leaves any.
pub fn job_count(total: usize, reserved: usize) -> (count: usize)
    ensures
        count == job_count_of(total as int, reserved as int),
        reserved >= total ==> count == total,
        reserved < total ==> count == total - reserved,
        total >= 1 ==> count >= 1,
{
    if total > reserved {
        total - reserved
    } else {
        total
    }
}

/// The text of one decimal digit.
fn digit_text(d: usize) -> (text: &'static str)
    requires
        d < 10,
    ensures
        text@ == seq![digit(d as int)],
{
    proof {
        reveal_strlit("0");
        reveal_strlit("1");
        reveal_strlit("2");
        reveal_strlit("3");
        reveal_strlit("4");
        reveal_strlit("5");
        reveal_strlit("6");
        reveal_strlit("7");
        reveal_strlit("8");
        reveal_strlit("9");
    }
    let text = if d == 0 {
        "0"
    } else if d == 1 {
        "1"
    } else if d == 2 {
        "2"
    } else if d == 3 {
        "3"
    } else if d == 4 {
        "4"
    } else if d == 5 {
        "5"
    } else if d == 6 {
        "6"
    } else if d == 7 {
        "7"
    } else if d == 8 {
        "8"
    } else {
        "9"
    };
    text
}

/// Writes `n` in decimal.
pub fn to_decimal(n: usize) -> (text: String)
    ensures
        text@ == decimal(n as nat),
    decreases n,
{
    if n < 10 {
        String::from_str(digit_text(n))
    } else {
        let mut text = to_decimal(n / 10);
        text.append(digit_text(n % 10));
        text
    }
}

/// Writes `n` in decimal, with a minus sign before it where it is negative.
pub fn to_signed_decimal(n: i32) -> (text: String)
    ensures
        text@ == signed_decimal(n as int),
{
    if n < 0 {
        let size: i64 = 0 - (n as i64);
        let mut text = String::from_str("-");
        let digits = to_decimal(size as usize);
        text.append(digits.as_str());
        proof {
            reveal_strlit("-");
        }
        text
    } else {
        to_decimal(n as usize)
    }
}

/// Resolves the job count for the build tool, keeping `free` threads of the
/// host's `available` ones unused where that leaves any.
///
/// Fails with `ParallelismUnavailable` where the host reported nothing or zero.
pub fn get_cores(free: usize, available: Option<usize>) -> (r: Result<String, UpdateError>)
    ensures
        r matches Ok(text) ==> cores_of(free, available) == Ok::<Seq<char>, ErrorView>(text@),
        r matches Err(e) ==> cores_of(free, available) == Err::<Seq<char>, ErrorView>(e@),
        r is Ok <==> (available matches Some(total) && total >= 1),
        available matches Some(total) ==> (1 <= total <= free ==> (r matches Ok(text) && text@
            == decimal(total as nat))),
        available matches Some(total) ==> (free < total ==> (r matches Ok(text) && text@
            == decimal((total - free) as nat))),
{
    match available {
        Some(total) => {
            if total >= 1 {
                Ok(to_decimal(job_count(total, free)))
            } else {
                Err(UpdateError::ParallelismUnavailable)
            }
        },
        None => Err(UpdateError::ParallelismUnavailable),
    }
}

} // verus!
