//! Moving between strings and the character sequences that the manifest
//! dialects are defined on.

use vstd::prelude::*;
use vstd::string::StringExecFns;

verus! {

/// The decimal digits of a number, the most significant first.
pub open spec fn decimal_spec(n: nat) -> Seq<char>
    decreases n,
{
    if n < 10 {
        seq![(n + 48) as char]
    } else {
        decimal_spec(n / 10).push((n % 10 + 48) as char)
    }
}

/// The number in decimal digits.
pub fn decimal(n: usize) -> (text: String)
    ensures
        text@ == decimal_spec(n as nat),
{
    // The digits come out least significant first, and are turned round.
    let mut reversed: Vec<char> = Vec::new();
    let mut rest: usize = n;
    while rest >= 10
        invariant
            decimal_spec(n as nat) == decimal_spec(rest as nat) + reversed@.reverse(),
        decreases rest,
    {
        let d: u8 = (rest % 10) as u8;
        let ghost before = reversed@;
        reversed.push((d + 48) as char);
        proof {
            assert(reversed@.reverse() =~= seq![(d + 48) as char] + before.reverse());
            assert(decimal_spec(rest as nat) == decimal_spec((rest / 10) as nat).push(
                (d + 48) as char,
            ));
            assert(decimal_spec(n as nat) =~= decimal_spec((rest / 10) as nat) + reversed@.reverse());
        }
        rest = rest / 10;
    }
    let mut digits: Vec<char> = Vec::new();
    digits.push(((rest as u8) + 48) as char);
    let mut i: usize = reversed.len();
    while i > 0
        invariant
            i <= reversed.len(),
            digits@ == decimal_spec(rest as nat) + reversed@.reverse().take(reversed.len() - i),
        decreases i,
    {
        i -= 1;
        digits.push(reversed[i]);
        proof {
            let r = reversed@.reverse();
            let k = reversed.len() - i - 1;
            assert(r[k] == reversed@[i as int]);
            assert(r.take(k + 1) =~= r.take(k).push(r[k]));
        }
    }
    proof {
        let r = reversed@.reverse();
        assert(r.take(reversed.len() as int) =~= r);
    }
    string_of(&digits)
}

/// Two texts, one after the other.
pub fn cat2(a: &str, b: &str) -> (text: String)
    ensures
        text@ == a@ + b@,
{
    let mut text = String::from_str(a);
    text.append(b);
    text
}

/// Three texts, one after the other.
pub fn cat3(a: &str, b: &str, c: &str) -> (text: String)
    ensures
        text@ == a@ + b@ + c@,
{
    let mut text = String::from_str(a);
    text.append(b);
    text.append(c);
    text
}

/// `String::push`: appends one character to the end of the string.
#[verifier::external_body]
fn push_char(s: &mut String, c: char)
    ensures
        final(s)@ == old(s)@.push(c),
{
    s.push(c);
}

/// The characters of a string, in order.
pub fn chars_of(s: &str) -> (chars: Vec<char>)
    ensures
        chars@ == s@,
{
    let mut chars: Vec<char> = Vec::new();
    for c in it: s.chars()
        invariant
            chars@ == s@.take(it.index() as int),
            it.seq() == s@,
    {
        chars.push(c);
        proof {
            assert(s@.take(it.index() + 1) =~= s@.take(it.index() as int).push(c));
        }
    }
    proof {
        assert(s@.take(s@.len() as int) =~= s@);
    }
    chars
}

/// The string made of the characters from `from` up to `to`, in order.
pub fn string_of_range(chars: &Vec<char>, from: usize, to: usize) -> (s: String)
    requires
        from <= to <= chars.len(),
    ensures
        s@ == chars@.subrange(from as int, to as int),
{
    let mut s = String::new();
    let mut i: usize = from;
    while i < to
        invariant
            from <= i <= to <= chars.len(),
            s@ == chars@.subrange(from as int, i as int),
        decreases to - i,
    {
        push_char(&mut s, chars[i]);
        proof {
            assert(chars@.subrange(from as int, i + 1) =~= chars@.subrange(
                from as int,
                i as int,
            ).push(chars@[i as int]));
        }
        i += 1;
    }
    s
}

/// Writes the characters of `tail` at the end of `out`.
pub fn append_chars(out: &mut Vec<char>, tail: &Vec<char>)
    ensures
        final(out)@ == old(out)@ + tail@,
{
    let mut i: usize = 0;
    while i < tail.len()
        invariant
            i <= tail.len(),
            out@ == old(out)@ + tail@.take(i as int),
        decreases tail.len() - i,
    {
        out.push(tail[i]);
        proof {
            assert(tail@.take(i + 1) =~= tail@.take(i as int).push(tail@[i as int]));
        }
        i += 1;
    }
    proof {
        assert(tail@.take(i as int) =~= tail@);
    }
}

/// The string made of the given characters, in order.
pub fn string_of(chars: &Vec<char>) -> (s: String)
    ensures
        s@ == chars@,
{
    let mut s = String::new();
    let mut i: usize = 0;
    while i < chars.len()
        invariant
            i <= chars.len(),
            s@ == chars@.take(i as int),
        decreases chars.len() - i,
    {
        push_char(&mut s, chars[i]);
        proof {
            assert(chars@.take(i + 1) =~= chars@.take(i as int).push(chars@[i as int]));
        }
        i += 1;
    }
    proof {
        assert(chars@.take(i as int) =~= chars@);
    }
    s
}

} // verus!
