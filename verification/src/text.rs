//! Byte-level text cleanup for cartridge header fields: whitespace
//! trimming and space-run collapsing over Latin-1 bytes, plus conversion
//! to a `String`.

use vstd::prelude::*;

verus! {

/// Unicode whitespace within the Latin-1 range: tab through carriage
/// return, space, next-line, and no-break space.
pub open spec fn spec_is_whitespace_byte(b: u8) -> bool {
    ||| b == 0x20
    ||| (0x09 <= b && b <= 0x0D)
    ||| b == 0x85
    ||| b == 0xA0
}

/// Executable form of [`spec_is_whitespace_byte`].
pub fn is_whitespace_byte(b: u8) -> (r: bool)
    ensures
        r == spec_is_whitespace_byte(b),
{
    b == 0x20 || (0x09 <= b && b <= 0x0D) || b == 0x85 || b == 0xA0
}

/// The sequence with leading whitespace removed.
pub open spec fn spec_trim_start(s: Seq<u8>) -> Seq<u8>
    decreases s.len(),
{
    if s.len() > 0 && spec_is_whitespace_byte(s[0]) {
        spec_trim_start(s.skip(1))
    } else {
        s
    }
}

/// The sequence with trailing whitespace removed.
pub open spec fn spec_trim_end(s: Seq<u8>) -> Seq<u8>
    decreases s.len(),
{
    if s.len() > 0 && spec_is_whitespace_byte(s.last()) {
        spec_trim_end(s.take(s.len() - 1))
    } else {
        s
    }
}

/// The sequence with every run of spaces shortened to a single space.
pub open spec fn spec_collapse_spaces(s: Seq<u8>) -> Seq<u8>
    decreases s.len(),
{
    if s.len() == 0 {
        Seq::empty()
    } else if s.len() >= 2 && s[0] == 0x20 && s[1] == 0x20 {
        spec_collapse_spaces(s.skip(1))
    } else {
        seq![s[0]] + spec_collapse_spaces(s.skip(1))
    }
}

/// Trim whitespace from both ends; see [`spec_trim_start`] and
/// [`spec_trim_end`].
pub fn trim_bytes(v: &Vec<u8>) -> (r: Vec<u8>)
    ensures
        r@ == spec_trim_end(spec_trim_start(v@)),
{
    let mut start: usize = 0;
    proof {
        assert(v@.skip(0) =~= v@);
    }
    while start < v.len() && is_whitespace_byte(v[start])
        invariant
            start <= v.len(),
            spec_trim_start(v@) == spec_trim_start(v@.skip(start as int)),
        decreases v.len() - start,
    {
        proof {
            assert(v@.skip(start as int).skip(1) =~= v@.skip(start + 1));
        }
        start = start + 1;
    }
    proof {
        assert(spec_trim_start(v@) == v@.skip(start as int));
    }

    let mut end: usize = v.len();
    while end > start && is_whitespace_byte(v[end - 1])
        invariant
            start <= end <= v.len(),
            spec_trim_start(v@) == v@.skip(start as int),
            spec_trim_end(v@.skip(start as int)) == spec_trim_end(
                v@.subrange(start as int, end as int),
            ),
        decreases end,
    {
        proof {
            let w = v@.subrange(start as int, end as int);
            assert(w.take(w.len() - 1) =~= v@.subrange(start as int, end - 1));
        }
        end = end - 1;
    }
    proof {
        assert(v@.skip(start as int) =~= v@.subrange(start as int, v.len() as int));
    }

    let mut out: Vec<u8> = Vec::new();
    let mut i: usize = start;
    while i < end
        invariant
            start <= i <= end <= v.len(),
            out@ =~= v@.subrange(start as int, i as int),
        decreases end - i,
    {
        out.push(v[i]);
        proof {
            assert(out@ =~= v@.subrange(start as int, i + 1));
        }
        i = i + 1;
    }
    proof {
        assert(out@ =~= v@.subrange(start as int, end as int));
    }
    out
}

/// Collapse runs of spaces; see [`spec_collapse_spaces`].
pub fn collapse_spaces(v: &Vec<u8>) -> (r: Vec<u8>)
    ensures
        r@ == spec_collapse_spaces(v@),
{
    let mut out: Vec<u8> = Vec::new();
    let mut i: usize = 0;
    proof {
        assert(v@.skip(0) =~= v@);
        assert(Seq::<u8>::empty() + spec_collapse_spaces(v@) =~= spec_collapse_spaces(v@));
    }
    while i < v.len()
        invariant
            i <= v.len(),
            spec_collapse_spaces(v@) =~= out@ + spec_collapse_spaces(v@.skip(i as int)),
        decreases v.len() - i,
    {
        proof {
            assert(v@.skip(i as int).skip(1) =~= v@.skip(i + 1));
            assert(v@.skip(i as int)[0] == v@[i as int]);
        }
        if v[i] == 0x20 && i + 1 < v.len() && v[i + 1] == 0x20 {
            proof {
                assert(v@.skip(i as int)[1] == v@[i + 1]);
            }
        } else {
            out.push(v[i]);
            proof {
                let rest = v@.skip(i as int);
                assert(out@ + spec_collapse_spaces(v@.skip(i + 1)) =~= (out@.take(out@.len() - 1)
                    + (seq![rest[0]] + spec_collapse_spaces(rest.skip(1)))));
            }
        }
        i = i + 1;
    }
    proof {
        assert(v@.skip(v@.len() as int) =~= Seq::<u8>::empty());
        assert(out@ + Seq::<u8>::empty() =~= out@);
    }
    out
}

/// The Latin-1 interpretation of a byte sequence.
pub open spec fn spec_latin1(s: Seq<u8>) -> Seq<char> {
    Seq::new(s.len(), |i: int| s[i] as char)
}

/// Relies on String::push: appends exactly the given character.
#[verifier::external_body]
fn push_char(s: &mut String, c: char)
    ensures
        final(s)@ == old(s)@.push(c),
{
    s.push(c);
}

/// Build a `String` reading each byte as its Latin-1 character.
pub fn latin1_string(v: &Vec<u8>) -> (r: String)
    ensures
        r@ == spec_latin1(v@),
{
    let mut r = String::new();
    let mut i: usize = 0;
    while i < v.len()
        invariant
            i <= v.len(),
            r@ =~= spec_latin1(v@.take(i as int)),
        decreases v.len() - i,
    {
        push_char(&mut r, v[i] as char);
        proof {
            assert(spec_latin1(v@.take(i + 1)) =~= spec_latin1(v@.take(i as int)).push(
                v@[i as int] as char,
            ));
        }
        i = i + 1;
    }
    proof {
        assert(v@.take(v@.len() as int) =~= v@);
    }
    r
}

} // verus!
