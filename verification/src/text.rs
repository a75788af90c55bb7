use crate::icmpv6::Icmpv6;
use crate::ndp::RouterSolicitation;
use vstd::prelude::*;

verus! {

/// The character that renders one decimal digit.
pub open spec fn digit_char(d: nat) -> char {
    if d == 0 {
        '0'
    } else if d == 1 {
        '1'
    } else if d == 2 {
        '2'
    } else if d == 3 {
        '3'
    } else if d == 4 {
        '4'
    } else if d == 5 {
        '5'
    } else if d == 6 {
        '6'
    } else if d == 7 {
        '7'
    } else if d == 8 {
        '8'
    } else {
        '9'
    }
}

/// The decimal rendering of `v`, most significant digit first, with no
/// leading zeroes.
pub open spec fn dec_chars(v: nat) -> Seq<char>
    decreases v,
{
    if v < 10 {
        seq![digit_char(v)]
    } else {
        dec_chars(v / 10).push(digit_char(v % 10))
    }
}

/// The character that renders one hexadecimal digit, lower case.
pub open spec fn hex_digit_char(d: nat) -> char {
    if d < 10 {
        digit_char(d)
    } else if d == 10 {
        'a'
    } else if d == 11 {
        'b'
    } else if d == 12 {
        'c'
    } else if d == 13 {
        'd'
    } else if d == 14 {
        'e'
    } else {
        'f'
    }
}

/// The four-digit, zero-padded hexadecimal rendering of a 16-bit value.
pub open spec fn hex4_chars(v: nat) -> Seq<char> {
    seq![
        hex_digit_char(v / 0x1000 % 0x10),
        hex_digit_char(v / 0x100 % 0x10),
        hex_digit_char(v / 0x10 % 0x10),
        hex_digit_char(v % 0x10),
    ]
}

/// One decimal digit as a string slice.
fn digit_str(d: u8) -> (r: &'static str)
    requires
        d < 10,
    ensures
        r@ == seq![digit_char(d as nat)],
{
    proof {
        reveal_strlit("0");
        reveal_strlit("1");
        reveal_strlit("2");
        reveal_strlit("3");
        reveal_strlit("4");
        reveal_strlit("5");
        reveal_strlit("6");
        reveal_strlit("7");
        reveal_strlit("8");
        reveal_strlit("9");
    }
    let r = if d == 0 {
        "0"
    } else if d == 1 {
        "1"
    } else if d == 2 {
        "2"
    } else if d == 3 {
        "3"
    } else if d == 4 {
        "4"
    } else if d == 5 {
        "5"
    } else if d == 6 {
        "6"
    } else if d == 7 {
        "7"
    } else if d == 8 {
        "8"
    } else {
        "9"
    };
    proof {
        assert(r@ =~= seq![digit_char(d as nat)]);
    }
    r
}

/// One hexadecimal digit as a string slice, lower case.
fn hex_digit_str(d: u8) -> (r: &'static str)
    requires
        d < 16,
    ensures
        r@ == seq![hex_digit_char(d as nat)],
{
    if d < 10 {
        digit_str(d)
    } else {
        proof {
            reveal_strlit("a");
            reveal_strlit("b");
            reveal_strlit("c");
            reveal_strlit("d");
            reveal_strlit("e");
            reveal_strlit("f");
        }
        let r = if d == 10 {
            "a"
        } else if d == 11 {
            "b"
        } else if d == 12 {
            "c"
        } else if d == 13 {
            "d"
        } else if d == 14 {
            "e"
        } else {
            "f"
        };
        proof {
            assert(r@ =~= seq![hex_digit_char(d as nat)]);
        }
        r
    }
}

/// Renders `v` in decimal, most significant digit first.
pub fn u32_to_dec(v: u32) -> (r: String)
    ensures
        r@ == dec_chars(v as nat),
    decreases v,
{
    if v < 10 {
        String::from_str(digit_str(v as u8))
    } else {
        let rest = u32_to_dec(v / 10);
        let r = rest.concat(digit_str((v % 10) as u8));
        proof {
            assert(r@ =~= dec_chars(v as nat));
        }
        r
    }
}

/// Renders `v` as four zero-padded hexadecimal digits.
pub fn u16_to_hex4(v: u16) -> (r: String)
    ensures
        r@ == hex4_chars(v as nat),
{
    let s = String::from_str(hex_digit_str((v / 0x1000 % 0x10) as u8));
    let s = s.concat(hex_digit_str((v / 0x100 % 0x10) as u8));
    let s = s.concat(hex_digit_str((v / 0x10 % 0x10) as u8));
    let r = s.concat(hex_digit_str((v % 0x10) as u8));
    proof {
        assert(r@ =~= hex4_chars(v as nat));
    }
    r
}

/// The diagnostic rendering of a router solicitation: type, code,
/// checksum in hexadecimal, and the reserved field, in that fixed order.
pub open spec fn router_solicitation_text(m: &Icmpv6<RouterSolicitation>) -> Seq<char> {
    "type: "@ + dec_chars(m.msg_type_spec() as nat) + " code: "@ + dec_chars(m.code_spec() as nat)
        + " checksum: 0x"@ + hex4_chars(m.checksum_spec() as nat) + " reserved: "@ + dec_chars(
        m.reserved_spec() as nat,
    )
}

impl Icmpv6<RouterSolicitation> {
    /// A human-readable rendering for diagnostics, not wire output.
    pub fn to_text(&self) -> (r: String)
        requires
            self.wf(),
        ensures
            r@ == router_solicitation_text(self),
    {
        let s = String::from_str("type: ");
        let t = u32_to_dec(self.msg_type() as u32);
        let s = s.concat(t.as_str());
        let s = s.concat(" code: ");
        let c = u32_to_dec(self.code() as u32);
        let s = s.concat(c.as_str());
        let s = s.concat(" checksum: 0x");
        let k = u16_to_hex4(self.checksum());
        let s = s.concat(k.as_str());
        let s = s.concat(" reserved: ");
        let v = u32_to_dec(self.reserved());
        let r = s.concat(v.as_str());
        proof {
            assert(r@ =~= router_solicitation_text(self));
        }
        r
    }
}

} // verus!
