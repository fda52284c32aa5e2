//! MAC addresses and their canonical text form.
//!
//! A device's MAC address is a 48-bit value carried in a 64-bit container,
//! rendered as six hyphen-separated upper-case hex pairs, most significant
//! byte first: `00-11-22-33-44-55`. Bits above the low 48 are ignored.

use vstd::prelude::*;
use vstd::string::StringExecFns;

verus! {

/// The upper-case hex digit for a value below 16.
pub open spec fn hex_digit_char(n: u8) -> char {
    if n == 0 {
        '0'
    } else if n == 1 {
        '1'
    } else if n == 2 {
        '2'
    } else if n == 3 {
        '3'
    } else if n == 4 {
        '4'
    } else if n == 5 {
        '5'
    } else if n == 6 {
        '6'
    } else if n == 7 {
        '7'
    } else if n == 8 {
        '8'
    } else if n == 9 {
        '9'
    } else if n == 10 {
        'A'
    } else if n == 11 {
        'B'
    } else if n == 12 {
        'C'
    } else if n == 13 {
        'D'
    } else if n == 14 {
        'E'
    } else {
        'F'
    }
}

/// The two upper-case hex digits of a byte, high nibble first.
pub open spec fn byte_hex_chars(b: u8) -> Seq<char> {
    seq![hex_digit_char(b / 16), hex_digit_char(b % 16)]
}

/// The byte of `v` that stands `shift` bits up.
pub open spec fn byte_at(v: u64, shift: u64) -> u8 {
    ((v >> shift) & 0xff) as u8
}

/// The canonical text of a MAC address value: six hyphen-separated
/// upper-case hex pairs, most significant byte of the low 48 bits first.
pub open spec fn mac_text(v: u64) -> Seq<char> {
    byte_hex_chars(byte_at(v, 40)) + seq!['-'] + byte_hex_chars(byte_at(v, 32)) + seq!['-']
        + byte_hex_chars(byte_at(v, 24)) + seq!['-'] + byte_hex_chars(byte_at(v, 16)) + seq!['-']
        + byte_hex_chars(byte_at(v, 8)) + seq!['-'] + byte_hex_chars(byte_at(v, 0))
}

/// The upper-case hex digit for a value below 16, as a one-character string.
fn hex_digit_str(n: u8) -> (r: &'static str)
    requires
        n < 16,
    ensures
        r@ =~= seq![hex_digit_char(n)],
{
    if n == 0 {
        proof {
            reveal_strlit("0");
        }
        "0"
    } else if n == 1 {
        proof {
            reveal_strlit("1");
        }
        "1"
    } else if n == 2 {
        proof {
            reveal_strlit("2");
        }
        "2"
    } else if n == 3 {
        proof {
            reveal_strlit("3");
        }
        "3"
    } else if n == 4 {
        proof {
            reveal_strlit("4");
        }
        "4"
    } else if n == 5 {
        proof {
            reveal_strlit("5");
        }
        "5"
    } else if n == 6 {
        proof {
            reveal_strlit("6");
        }
        "6"
    } else if n == 7 {
        proof {
            reveal_strlit("7");
        }
        "7"
    } else if n == 8 {
        proof {
            reveal_strlit("8");
        }
        "8"
    } else if n == 9 {
        proof {
            reveal_strlit("9");
        }
        "9"
    } else if n == 10 {
        proof {
            reveal_strlit("A");
        }
        "A"
    } else if n == 11 {
        proof {
            reveal_strlit("B");
        }
        "B"
    } else if n == 12 {
        proof {
            reveal_strlit("C");
        }
        "C"
    } else if n == 13 {
        proof {
            reveal_strlit("D");
        }
        "D"
    } else if n == 14 {
        proof {
            reveal_strlit("E");
        }
        "E"
    } else {
        proof {
            reveal_strlit("F");
        }
        "F"
    }
}

/// Append the two hex digits of a byte to a string, high nibble first.
fn push_byte_hex(out: &mut String, b: u8)
    ensures
        final(out)@ == old(out)@ + byte_hex_chars(b),
{
    out.append(hex_digit_str(b / 16));
    out.append(hex_digit_str(b % 16));
    assert(final(out)@ =~= old(out)@ + byte_hex_chars(b));
}

/// Append a hyphen to a string.
fn push_hyphen(out: &mut String)
    ensures
        final(out)@ == old(out)@ + seq!['-'],
{
    proof {
        reveal_strlit("-");
    }
    out.append("-");
    assert(final(out)@ =~= old(out)@ + seq!['-']);
}

/// The byte of `v` that stands `shift` bits up.
fn extract_byte(v: u64, shift: u64) -> (r: u8)
    requires
        shift <= 40,
    ensures
        r == byte_at(v, shift),
{
    assert((v >> shift) & 0xff < 256) by (bit_vector);
    ((v >> shift) & 0xff) as u8
}

/// A device's MAC address: a 48-bit value in a 64-bit container, unique to
/// the physical device.
#[derive(Clone, Copy, Debug, PartialEq, Eq, Structural)]
pub struct MACAddress {
    value: u64,
}

impl MACAddress {
    /// The address as a 64-bit value.
    pub closed spec fn spec_value(self) -> u64 {
        self.value
    }

    /// Wrap a raw address value.
    pub fn new(value: u64) -> (r: MACAddress)
        ensures
            r.spec_value() == value,
    {
        MACAddress { value }
    }

    /// The address as a 64-bit value.
    pub fn value(&self) -> (r: u64)
        ensures
            r == self.spec_value(),
    {
        self.value
    }

    /// Render the address in its canonical hyphen-separated hex form.
    pub fn to_text(&self) -> (r: String)
        ensures
            r@ == mac_text(self.spec_value()),
    {
        let mut out = String::new();
        push_byte_hex(&mut out, extract_byte(self.value, 40));
        push_hyphen(&mut out);
        push_byte_hex(&mut out, extract_byte(self.value, 32));
        push_hyphen(&mut out);
        push_byte_hex(&mut out, extract_byte(self.value, 24));
        push_hyphen(&mut out);
        push_byte_hex(&mut out, extract_byte(self.value, 16));
        push_hyphen(&mut out);
        push_byte_hex(&mut out, extract_byte(self.value, 8));
        push_hyphen(&mut out);
        push_byte_hex(&mut out, extract_byte(self.value, 0));
        assert(out@ =~= mac_text(self.value));
        out
    }
}

} // verus!
