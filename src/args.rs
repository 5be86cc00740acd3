use vstd::prelude::*;

verus! {

/// The viewer's three startup parameters.
#[derive(Debug)]
pub struct Args {
    pub path: String,
    pub width: u16,
    pub height: u16,
}

/// Every character of `s` is an ASCII decimal digit, and there is one at least.
pub open spec fn is_digits(s: Seq<char>) -> bool {
    s.len() > 0 && forall|i: int| 0 <= i < s.len() ==> '0' <= #[trigger] s[i] && s[i] <= '9'
}

/// The number that a string of decimal digits writes.
pub open spec fn digits_value(s: Seq<char>) -> nat
    decreases s.len(),
{
    if s.len() == 0 {
        0
    } else {
        digits_value(s.drop_last()) * 10 + ((s.last() as u32 - '0' as u32) as nat)
    }
}

/// A 16-bit unsigned number written in decimal, with an optional leading `+`.
pub open spec fn decimal_u16(s: Seq<char>) -> Option<u16> {
    let d = if s.len() > 0 && s[0] == '+' {
        s.drop_first()
    } else {
        s
    };
    if is_digits(d) && digits_value(d) <= 65535 {
        Some(digits_value(d) as u16)
    } else {
        None
    }
}

/// Relies on std's `FromStr` for `u16` (`str::parse`): it accepts an
/// optional `+` followed by one or more ASCII digits whose value fits in 16
/// bits, and refuses anything else.
#[verifier::external_body]
fn parse_u16(s: &str) -> (r: Option<u16>)
    ensures
        r == decimal_u16(s@),
{
    s.parse::<u16>().ok()
}

impl Args {
    /// Reads width, height and image path from the positional parameters
    /// (the program's name left out); parameters after the third are ignored.
    pub fn parse(params: &Vec<String>) -> (r: Option<Args>)
        ensures
            r is Some <==> params@.len() >= 3 && decimal_u16(params@[0]@) is Some && decimal_u16(
                params@[1]@,
            ) is Some,
            r matches Some(a) ==> {
                &&& Some(a.width) == decimal_u16(params@[0]@)
                &&& Some(a.height) == decimal_u16(params@[1]@)
                &&& a.path@ == params@[2]@
            },
    {
        if params.len() < 3 {
            return None;
        }
        let width = match parse_u16(params[0].as_str()) {
            Some(w) => w,
            None => return None,
        };
        let height = match parse_u16(params[1].as_str()) {
            Some(h) => h,
            None => return None,
        };
        Some(Args { path: params[2].clone(), width, height })
    }
}

} // verus!
