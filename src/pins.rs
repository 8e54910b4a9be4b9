//! The `--rgb` option: the pins of an RGB LED, then any pins to ground.
use vstd::prelude::*;
use vstd::std_specs::iter::IteratorSpec;

verus! {

/// Pins of an RGB LED; every further pin is driven low as a ground.
#[derive(Clone, Debug, PartialEq, Eq)]
pub struct RGBPins {
    pub r: u8,
    pub g: u8,
    pub b: u8,
    pub ground: Vec<u8>,
}

/// Why a pin list was refused.
#[derive(Clone, Copy, Debug, PartialEq, Eq, Structural)]
pub enum PinsError {
    /// A piece between separators is not a number from 0 to 255.
    NotANumber,
    /// Fewer than three pins.
    TooFew,
}

/// Pins are separated by `,`, `:`, a space or `-`.
pub open spec fn is_sep(c: char) -> bool {
    c == ',' || c == ':' || c == ' ' || c == '-'
}

pub open spec fn is_digit(c: char) -> bool {
    '0' <= c && c <= '9'
}

pub open spec fn digit_val(c: char) -> int {
    c as int - '0' as int
}

/// Value of a string of decimal digits.
pub open spec fn dec_value(d: Seq<char>) -> int
    decreases d.len(),
{
    if d.len() == 0 {
        0
    } else {
        dec_value(d.drop_last()) * 10 + digit_val(d.last())
    }
}

/// The text after an optional leading `+`.
pub open spec fn unsigned_part(s: Seq<char>) -> Seq<char> {
    if s.len() > 0 && s[0] == '+' { s.drop_first() } else { s }
}

pub open spec fn all_digits(d: Seq<char>) -> bool {
    forall|i: int| 0 <= i < d.len() ==> is_digit(#[trigger] d[i])
}

/// A number as `u8::from_str` reads it: an optional `+`, then at least one
/// decimal digit, with a value that fits.
pub open spec fn u8_of(s: Seq<char>) -> Option<u8> {
    let d = unsigned_part(s);
    if d.len() > 0 && all_digits(d) && dec_value(d) <= 255 {
        Some(dec_value(d) as u8)
    } else {
        None
    }
}

/// The pieces between separators, as `str::split` gives them (never none).
pub open spec fn pieces(s: Seq<char>) -> Seq<Seq<char>>
    decreases s.len(),
{
    if s.len() == 0 {
        seq![Seq::empty()]
    } else {
        let p = pieces(s.drop_last());
        if is_sep(s.last()) {
            p.push(Seq::empty())
        } else {
            p.update(p.len() - 1, p.last().push(s.last()))
        }
    }
}

proof fn lemma_dec_nonneg(d: Seq<char>)
    requires
        forall|i: int| 0 <= i < d.len() ==> is_digit(#[trigger] d[i]),
    ensures
        dec_value(d) >= 0,
    decreases d.len(),
{
    if d.len() > 0 {
        lemma_dec_nonneg(d.drop_last());
    }
}

/// Reads one piece as `u8::from_str` does.
pub fn parse_u8(s: &Vec<char>) -> (r: Option<u8>)
    ensures
        r == u8_of(s@),
{
    let start: usize = if s.len() > 0 && s[0] == '+' { 1 } else { 0 };
    let ghost d = unsigned_part(s@);
    assert(d =~= s@.subrange(start as int, s@.len() as int));
    if start >= s.len() {
        return None;
    }
    let mut acc: u32 = 0;
    let mut i: usize = start;
    while i < s.len()
        invariant
            start <= i <= s.len(),
            d == unsigned_part(s@),
            d == s@.subrange(start as int, s@.len() as int),
            forall|k: int| start <= k < i ==> is_digit(#[trigger] s@[k]),
            acc == if dec_value(s@.subrange(start as int, i as int)) < 256 {
                dec_value(s@.subrange(start as int, i as int))
            } else {
                256
            },
        decreases s.len() - i,
    {
        let c = s[i];
        if !('0' <= c && c <= '9') {
            assert(d[i - start] == c);
            assert(!is_digit(d[i - start]));
            return None;
        }
        let ghost pre = s@.subrange(start as int, i as int);
        let ghost next = s@.subrange(start as int, i + 1);
        assert(next.drop_last() =~= pre);
        assert(forall|k: int| 0 <= k < pre.len() ==> is_digit(#[trigger] pre[k])) by {
            assert forall|k: int| 0 <= k < pre.len() implies is_digit(#[trigger] pre[k]) by {
                assert(pre[k] == s@[start + k]);
            }
        }
        proof {
            lemma_dec_nonneg(pre);
        }
        let dv: u32 = (c as u32) - ('0' as u32);
        let v: u32 = acc * 10 + dv;
        acc = if v < 256 { v } else { 256 };
        assert(acc == if dec_value(next) < 256 { dec_value(next) } else { 256 }) by (nonlinear_arith)
            requires
                dec_value(next) == dec_value(pre) * 10 + dv,
                dec_value(pre) >= 0,
                dv <= 9,
                v == (if dec_value(pre) < 256 { dec_value(pre) } else { 256 }) * 10 + dv,
                acc == if v < 256 { v } else { 256 },
        ;
        i = i + 1;
    }
    assert(forall|k: int| 0 <= k < d.len() ==> is_digit(#[trigger] d[k])) by {
        assert forall|k: int| 0 <= k < d.len() implies is_digit(#[trigger] d[k]) by {
            assert(d[k] == s@[start + k]);
        }
    }
    if acc < 256 {
        Some(acc as u8)
    } else {
        None
    }
}

/// The pin list that a text gives: every piece a number, at least three.
pub open spec fn pins_spec(s: Seq<char>) -> Result<Seq<u8>, PinsError> {
    let p = pieces(s);
    if exists|i: int| 0 <= i < p.len() && (#[trigger] u8_of(p[i])) is None {
        Err(PinsError::NotANumber)
    } else if p.len() < 3 {
        Err(PinsError::TooFew)
    } else {
        Ok(p.map_values(|x: Seq<char>| u8_of(x)->0))
    }
}

impl RGBPins {
    /// Parses `r,g,b[,ground...]`.
    pub fn parse(s: &str) -> (r: Result<RGBPins, PinsError>)
        ensures
            r matches Err(e) ==> pins_spec(s@) == Err::<Seq<u8>, PinsError>(e),
            r matches Ok(p) ==> pins_spec(s@) matches Ok(v) && v == seq![p.r, p.g, p.b] + p.ground@,
            pins_spec(s@) is Ok ==> r is Ok,
    {
        let mut nums: Vec<u8> = Vec::new();
        let mut cur: Vec<char> = Vec::new();
        let mut all_ok = true;
        let mut chars = s.chars();
        let ghost mut seen: Seq<char> = Seq::empty();
        let ghost mut done: Seq<Seq<char>> = Seq::empty();
        proof {
            vstd::string::axiom_spec_iter(s);
        }
        loop
            invariant
                seen + chars.remaining() == s@,
                pieces(seen) == done.push(cur@),
                all_ok <==> forall|i: int| 0 <= i < done.len() ==> (#[trigger] u8_of(done[i])) is Some,
                all_ok ==> nums@ == done.map_values(|x: Seq<char>| u8_of(x)->0),
                chars.obeys_prophetic_iter_laws(),
                chars.decrease() is Some,
            ensures
                seen == s@,
                pieces(seen) == done.push(cur@),
                all_ok <==> forall|i: int| 0 <= i < done.len() ==> (#[trigger] u8_of(done[i])) is Some,
                all_ok ==> nums@ == done.map_values(|x: Seq<char>| u8_of(x)->0),
            decreases chars.decrease()->0,
        {
            let ghost before = chars;
            let next = chars.next();
            proof {
                vstd::string::next_postcondition(&before, &chars, next);
            }
            match next {
                None => {
                    assert(seen =~= s@);
                    break;
                },
                Some(c) => {
                    let ghost old_seen = seen;
                    proof {
                        seen = seen.push(c);
                        assert(seen.drop_last() =~= old_seen);
                        assert(seen + chars.remaining() =~= s@) by {
                            assert(before.remaining() =~= seq![c] + chars.remaining());
                        }
                    }
                    if c == ',' || c == ':' || c == ' ' || c == '-' {
                        let v = parse_u8(&cur);
                        let ghost old_done = done;
                        proof {
                            done = done.push(cur@);
                        }
                        match v {
                            Some(x) => {
                                if all_ok {
                                    nums.push(x);
                                }
                            },
                            None => {
                                all_ok = false;
                            },
                        }
                        assert(all_ok ==> nums@ =~= done.map_values(|x: Seq<char>| u8_of(x)->0));
                        assert(all_ok <==> forall|i: int| 0 <= i < done.len() ==> (#[trigger] u8_of(done[i])) is Some) by {
                            assert(done[done.len() - 1] == cur@);
                            assert(forall|i: int| 0 <= i < old_done.len() ==> done[i] == old_done[i]);
                        }
                        cur = Vec::new();
                        assert(pieces(seen) =~= done.push(cur@));
                    } else {
                        cur.push(c);
                        assert(pieces(seen) =~= done.push(cur@));
                    }
                },
            }
        }
        let last = parse_u8(&cur);
        let ghost p = pieces(s@);
        assert(p == done.push(cur@));
        match last {
            None => {
                assert(u8_of(p[p.len() - 1]) is None);
                return Err(PinsError::NotANumber);
            },
            Some(x) => {
                if !all_ok {
                    let ghost k = choose|i: int| 0 <= i < done.len() && (#[trigger] u8_of(done[i])) is None;
                    assert(p[k] == done[k]);
                    assert(u8_of(p[k]) is None);
                    return Err(PinsError::NotANumber);
                }
                nums.push(x);
            },
        }
        assert(nums@ =~= p.map_values(|x: Seq<char>| u8_of(x)->0));
        assert(!exists|i: int| 0 <= i < p.len() && (#[trigger] u8_of(p[i])) is None) by {
            assert forall|i: int| 0 <= i < p.len() implies (#[trigger] u8_of(p[i])) is Some by {
                if i < done.len() {
                    assert(p[i] == done[i]);
                }
            }
        }
        if nums.len() < 3 {
            return Err(PinsError::TooFew);
        }
        let r = nums[0];
        let g = nums[1];
        let b = nums[2];
        let mut ground: Vec<u8> = Vec::new();
        let mut i: usize = 3;
        while i < nums.len()
            invariant
                3 <= i <= nums.len(),
                ground@ == nums@.subrange(3, i as int),
            decreases nums.len() - i,
        {
            ground.push(nums[i]);
            i = i + 1;
        }
        assert(nums@ =~= seq![r, g, b] + ground@);
        Ok(RGBPins { r, g, b, ground })
    }
}

} // verus!
