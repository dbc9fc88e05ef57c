//! Reading the module manager's status report.

use crate::error::{ErrorView, UpdateError};
use crate::text::{
    field_breaks, find_either, lemma_split_at, lemma_trim_end_keeps_prefix, line_break, lines,
    skip_spaces, split, starts_with_at, to_chars, trim, trim_start, without_cr,
};
use vstd::prelude::*;
use vstd::string::*;

verus! {

/// The name under which the module manager lists the driver.
pub const DRIVER: &'static str = "nvidia";

/// Whether `line`, white space at its ends aside, begins with the driver's name.
pub open spec fn is_driver_line(line: Seq<char>) -> bool {
    DRIVER@.is_prefix_of(trim(line))
}

/// The first of `ls` that is a line of the driver.
pub open spec fn first_driver_line(ls: Seq<Seq<char>>) -> Option<Seq<char>>
    decreases ls.len(),
{
    if ls.len() == 0 {
        None
    } else if is_driver_line(ls[0]) {
        Some(ls[0])
    } else {
        first_driver_line(ls.skip(1))
    }
}

/// The driver version that the status report `status` gives: the second field
/// of the first line of the driver, where fields end at `/` and `,`.
pub open spec fn driver_version(status: Seq<char>) -> Result<Seq<char>, ErrorView> {
    match first_driver_line(lines(status)) {
        None => Err(ErrorView::ModuleNotFound),
        Some(line) => {
            let fields = split(line, field_breaks());
            if fields.len() >= 2 {
                Ok(fields[1])
            } else {
                Err(ErrorView::ParseError)
            }
        },
    }
}

/// `first_driver_line` finds nothing exactly where no line is a line of the
/// driver; what it finds is such a line, and none stands before it.
pub proof fn lemma_first_driver_line(ls: Seq<Seq<char>>)
    ensures
        first_driver_line(ls) is None <==> forall|i: int|
            0 <= i < ls.len() ==> !is_driver_line(#[trigger] ls[i]),
        first_driver_line(ls) matches Some(line) ==> exists|i: int|
            0 <= i < ls.len() && #[trigger] ls[i] == line && is_driver_line(line) && forall|j: int|
                0 <= j < i ==> !is_driver_line(#[trigger] ls[j]),
    decreases ls.len(),
{
    if ls.len() > 0 && !is_driver_line(ls[0]) {
        let rest = ls.skip(1);
        lemma_first_driver_line(rest);
        if first_driver_line(rest) is None {
            assert forall|i: int| 0 <= i < ls.len() implies !is_driver_line(#[trigger] ls[i]) by {
                if i > 0 {
                    assert(rest[i - 1] == ls[i]);
                }
            }
        } else {
            let line = first_driver_line(rest)->0;
            let i = choose|i: int|
                0 <= i < rest.len() && #[trigger] rest[i] == line && is_driver_line(line)
                    && forall|j: int| 0 <= j < i ==> !is_driver_line(#[trigger] rest[j]);
            assert forall|j: int| 0 <= j < i + 1 implies !is_driver_line(#[trigger] ls[j]) by {
                if j > 0 {
                    assert(rest[j - 1] == ls[j]);
                }
            }
        }
    }
}

/// Whether `chars[from..to]` is a line of the driver.
fn driver_line_at(chars: &Vec<char>, from: usize, to: usize) -> (r: bool)
    requires
        from <= to <= chars.len(),
    ensures
        r == is_driver_line(chars@.subrange(from as int, to as int)),
{
    let p = skip_spaces(chars, from, to);
    proof {
        reveal_strlit("nvidia");
        lemma_trim_end_keeps_prefix(trim_start(chars@.subrange(from as int, to as int)), DRIVER@);
    }
    starts_with_at(chars, p, to, DRIVER)
}

/// Extracts the driver's version from the module manager's status report.
///
/// Fails with `ModuleNotFound` where no line is a line of the driver, and with
/// `ParseError` where the first such line holds neither `/` nor `,`.
pub fn get_nvidia_version(dkms_output: &str) -> (r: Result<String, UpdateError>)
    ensures
        r matches Ok(v) ==> driver_version(dkms_output@) == Ok::<Seq<char>, ErrorView>(v@),
        r matches Err(e) ==> driver_version(dkms_output@) == Err::<Seq<char>, ErrorView>(e@),
        r matches Err(UpdateError::ModuleNotFound) <==> forall|i: int|
            0 <= i < lines(dkms_output@).len() ==> !is_driver_line(
                #[trigger] lines(dkms_output@)[i],
            ),
{
    proof {
        lemma_first_driver_line(lines(dkms_output@));
    }
    let chars = to_chars(dkms_output);
    let n = chars.len();
    let mut start: usize = 0;
    assert(chars@.subrange(0, n as int) =~= chars@);
    while start < n
        invariant
            start <= n == chars.len(),
            chars@ == dkms_output@,
            first_driver_line(lines(chars@)) == first_driver_line(
                lines(chars@.subrange(start as int, n as int)),
            ),
        decreases n - start,
    {
        let ghost rest = chars@.subrange(start as int, n as int);
        let brk = find_either(&chars, start, n, '\n', '\n');
        let end = if brk < n && brk > start && chars[brk - 1] == '\r' {
            (brk - 1) as usize
        } else {
            brk
        };
        let ghost line = chars@.subrange(start as int, end as int);
        let ghost tail = if brk < n {
            lines(chars@.subrange(brk + 1, n as int))
        } else {
            Seq::empty()
        };
        proof {
            lemma_first_driver_line(lines(dkms_output@));
            assert(set!['\n', '\n'] =~= line_break());
            if brk < n {
                assert(without_cr(rest.take(brk - start)) =~= line);
                assert(rest.skip(brk - start + 1) =~= chars@.subrange(brk + 1, n as int));
            }
            assert((seq![line] + tail).skip(1) =~= tail);
        }
        if driver_line_at(&chars, start, end) {
            let d = find_either(&chars, start, end, '/', ',');
            proof {
                lemma_split_at(line, field_breaks());
            }
            if d == end {
                return Err(UpdateError::ParseError);
            }
            let e = find_either(&chars, d + 1, end, '/', ',');
            proof {
                let behind = chars@.subrange(d + 1, end as int);
                assert(line.skip(d - start + 1) =~= behind);
                lemma_split_at(behind, field_breaks());
                assert(behind.take(e - d - 1) =~= chars@.subrange(d + 1, e as int));
            }
            let version = dkms_output.substring_char(d + 1, e);
            return Ok(String::from_str(version));
        }
        if brk < n {
            start = brk + 1;
        } else {
            start = n;
        }
    }
    Err(UpdateError::ModuleNotFound)
}

} // verus!
