use vstd::prelude::*;

verus! {

/// The text of one decimal digit.
pub open spec fn digit_text(d: nat) -> Seq<char> {
    if d == 0 {
        "0"@
    } else if d == 1 {
        "1"@
    } else if d == 2 {
        "2"@
    } else if d == 3 {
        "3"@
    } else if d == 4 {
        "4"@
    } else if d == 5 {
        "5"@
    } else if d == 6 {
        "6"@
    } else if d == 7 {
        "7"@
    } else if d == 8 {
        "8"@
    } else {
        "9"@
    }
}

/// A number written in decimal, without leading zeros.
pub open spec fn decimal_text(n: nat) -> Seq<char>
    decreases n,
{
    if n < 10 {
        digit_text(n)
    } else {
        decimal_text(n / 10) + digit_text(n % 10)
    }
}

/// The numbers of a byte sequence in decimal, separated by `", "`.
pub open spec fn byte_list_body(s: Seq<u8>) -> Seq<char>
    decreases s.len(),
{
    if s.len() == 0 {
        Seq::empty()
    } else if s.len() == 1 {
        decimal_text(s[0] as nat)
    } else {
        byte_list_body(s.drop_last()) + ", "@ + decimal_text(s.last() as nat)
    }
}

/// A byte sequence in debug form: `[1, 2, 3]`.
pub open spec fn debug_bytes_text(s: Seq<u8>) -> Seq<char> {
    "["@ + byte_list_body(s) + "]"@
}

fn digit_str(d: u8) -> (r: &'static str)
    requires
        d < 10,
    ensures
        r@ == digit_text(d as nat),
{
    match d {
        0 => "0",
        1 => "1",
        2 => "2",
        3 => "3",
        4 => "4",
        5 => "5",
        6 => "6",
        7 => "7",
        8 => "8",
        _ => "9",
    }
}

/// Appends `n` in decimal.
pub fn push_decimal(out: &mut String, n: u8)
    ensures
        final(out)@ == old(out)@ + decimal_text(n as nat),
{
    let ghost start = out@;
    if n >= 100 {
        out.append(digit_str(n / 100));
        out.append(digit_str((n / 10) % 10));
        assert(decimal_text((n / 100) as nat) == digit_text((n / 100) as nat));
        assert(decimal_text((n / 10) as nat) == decimal_text((n / 100) as nat) + digit_text(
            ((n / 10) % 10) as nat,
        ));
    } else if n >= 10 {
        out.append(digit_str(n / 10));
        assert(decimal_text((n / 10) as nat) == digit_text((n / 10) as nat));
    }
    out.append(digit_str(n % 10));
    if n >= 10 {
        assert(decimal_text(n as nat) == decimal_text((n / 10) as nat) + digit_text((n % 10) as nat));
    } else {
        assert(decimal_text(n as nat) == digit_text((n % 10) as nat));
    }
    assert(out@ =~= start + decimal_text(n as nat));
}

proof fn lemma_byte_list_step(s: Seq<u8>, i: int)
    requires
        0 <= i < s.len(),
    ensures
        byte_list_body(s.subrange(0, i + 1)) == byte_list_body(s.subrange(0, i)) + (if i == 0 {
            Seq::<char>::empty()
        } else {
            ", "@
        }) + decimal_text(s[i] as nat),
{
    let next = s.subrange(0, i + 1);
    if i == 0 {
        assert(byte_list_body(s.subrange(0, 0)) =~= Seq::<char>::empty());
        assert(byte_list_body(next) == decimal_text(s[0] as nat));
        assert(Seq::<char>::empty() + Seq::<char>::empty() + decimal_text(s[0] as nat) =~= decimal_text(s[0] as nat));
    } else {
        assert(next.drop_last() =~= s.subrange(0, i));
    }
}

/// Appends the bytes in debug form.
pub fn push_debug_bytes(out: &mut String, s: &[u8])
    ensures
        final(out)@ == old(out)@ + debug_bytes_text(s@),
{
    let ghost start = out@;
    out.append("[");
    let mut i: usize = 0;
    while i < s.len()
        invariant
            i <= s@.len(),
            out@ == start + "["@ + byte_list_body(s@.subrange(0, i as int)),
        decreases s@.len() - i,
    {
        proof {
            lemma_byte_list_step(s@, i as int);
        }
        let ghost before = out@;
        if i > 0 {
            out.append(", ");
        }
        push_decimal(out, s[i]);
        assert(out@ =~= start + "["@ + byte_list_body(s@.subrange(0, i + 1)));
        i = i + 1;
    }
    assert(s@.subrange(0, s@.len() as int) =~= s@);
    out.append("]");
    assert(out@ =~= start + debug_bytes_text(s@));
}

} // verus!
