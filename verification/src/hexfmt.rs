//! Lowercase hexadecimal rendering of message buffers.
//!
//! A buffer renders as two lowercase hex digits per byte, each pair
//! followed by one space.

use vstd::prelude::*;
use vstd::string::StringExecFns;

verus! {

/// A borrowed byte buffer that can render itself as lowercase hex.
pub struct ByteBuf<'a>(pub &'a [u8]);

/// The sixteen lowercase hexadecimal digit characters, in value order.
pub open spec fn hex_digits() -> Seq<char> {
    seq!['0', '1', '2', '3', '4', '5', '6', '7', '8', '9', 'a', 'b', 'c', 'd', 'e', 'f']
}

/// The digit character for a nibble value.
pub open spec fn hex_digit(n: u8) -> char
    recommends
        n < 16,
{
    hex_digits()[n as int]
}

/// One byte rendered: high nibble, low nibble, space.
pub open spec fn hex_byte(b: u8) -> Seq<char> {
    seq![hex_digit(b / 16), hex_digit(b % 16), ' ']
}

/// A whole buffer rendered byte by byte.
pub open spec fn hex_render(s: Seq<u8>) -> Seq<char>
    decreases s.len(),
{
    if s.len() == 0 {
        Seq::empty()
    } else {
        hex_byte(s[0]) + hex_render(s.skip(1))
    }
}

proof fn lemma_hex_render_push(s: Seq<u8>, x: u8)
    ensures
        hex_render(s.push(x)) =~= hex_render(s) + hex_byte(x),
    decreases s.len(),
{
    if s.len() == 0 {
        assert(s.push(x)[0] == x);
        assert(s.push(x).skip(1) =~= Seq::<u8>::empty());
        assert(hex_render(s.push(x)) =~= hex_byte(x) + hex_render(Seq::<u8>::empty()));
        assert(hex_byte(x) + Seq::<char>::empty() =~= hex_byte(x));
        assert(hex_render(s) + hex_byte(x) =~= hex_byte(x));
    } else {
        assert(s.push(x)[0] == s[0]);
        assert(s.push(x).skip(1) =~= s.skip(1).push(x));
        lemma_hex_render_push(s.skip(1), x);
        assert(hex_render(s.push(x)) =~= hex_byte(s[0]) + (hex_render(s.skip(1)) + hex_byte(x)));
        assert(hex_byte(s[0]) + (hex_render(s.skip(1)) + hex_byte(x)) =~= (hex_byte(s[0])
            + hex_render(s.skip(1))) + hex_byte(x));
    }
}

/// The lowercase digit string for a nibble value.
fn hex_digit_str(n: u8) -> (r: &'static str)
    requires
        n < 16,
    ensures
        r@ =~= seq![hex_digit(n)],
{
    proof {
        reveal_strlit("0");
        reveal_strlit("1");
        reveal_strlit("2");
        reveal_strlit("3");
        reveal_strlit("4");
        reveal_strlit("5");
        reveal_strlit("6");
        reveal_strlit("7");
        reveal_strlit("8");
        reveal_strlit("9");
        reveal_strlit("a");
        reveal_strlit("b");
        reveal_strlit("c");
        reveal_strlit("d");
        reveal_strlit("e");
        reveal_strlit("f");
    }
    if n == 0 {
        "0"
    } else if n == 1 {
        "1"
    } else if n == 2 {
        "2"
    } else if n == 3 {
        "3"
    } else if n == 4 {
        "4"
    } else if n == 5 {
        "5"
    } else if n == 6 {
        "6"
    } else if n == 7 {
        "7"
    } else if n == 8 {
        "8"
    } else if n == 9 {
        "9"
    } else if n == 10 {
        "a"
    } else if n == 11 {
        "b"
    } else if n == 12 {
        "c"
    } else if n == 13 {
        "d"
    } else if n == 14 {
        "e"
    } else {
        "f"
    }
}

impl<'a> ByteBuf<'a> {
    /// Render the buffer as lowercase hex, one space after each byte.
    pub fn lower_hex(&self) -> (r: String)
        ensures
            r@ =~= hex_render(self.0@),
    {
        let mut r = String::new();
        let mut i: usize = 0;
        while i < self.0.len()
            invariant
                i <= self.0@.len(),
                r@ =~= hex_render(self.0@.take(i as int)),
            decreases self.0@.len() - i,
        {
            let b = self.0[i];
            r.append(hex_digit_str(b / 16));
            r.append(hex_digit_str(b % 16));
            proof {
                reveal_strlit(" ");
            }
            r.append(" ");
            proof {
                lemma_hex_render_push(self.0@.take(i as int), self.0@[i as int]);
                assert(self.0@.take(i + 1 as int) =~= self.0@.take(i as int).push(self.0@[i as int]));
            }
            i += 1;
        }
        proof {
            assert(self.0@.take(self.0@.len() as int) =~= self.0@);
        }
        r
    }
}

} // verus!
