//! The human-readable text of a message, as used in logs.

use vstd::prelude::*;
use vstd::string::StringExecFns;
use crate::frame::{Message, MessageView};

verus! {

/// The character of digit `d` (below 16), in lower case.
pub open spec fn digit_char(d: nat) -> char {
    seq!['0', '1', '2', '3', '4', '5', '6', '7', '8', '9', 'a', 'b', 'c', 'd', 'e', 'f'][d as int]
}

/// The decimal digits of `x`, without leading zeros.
pub open spec fn dec_digits(x: nat) -> Seq<char>
    decreases x,
{
    if x < 10 {
        seq![digit_char(x)]
    } else {
        dec_digits(x / 10).push(digit_char(x % 10))
    }
}

/// The lower-case hexadecimal digits of `x`, without leading zeros.
pub open spec fn hex_digits(x: nat) -> Seq<char>
    decreases x,
{
    if x < 16 {
        seq![digit_char(x)]
    } else {
        hex_digits(x / 16).push(digit_char(x % 16))
    }
}

/// `x` in lower-case hexadecimal, at least two digits wide.
pub open spec fn hex2(x: nat) -> Seq<char> {
    if x < 16 {
        seq!['0'] + hex_digits(x)
    } else {
        hex_digits(x)
    }
}

/// `true` or `false`.
pub open spec fn bool_text(b: bool) -> Seq<char> {
    if b {
        seq!['t', 'r', 'u', 'e']
    } else {
        seq!['f', 'a', 'l', 's', 'e']
    }
}

/// The bytes of `d` in two-digit hexadecimal, separated by ", ".
pub open spec fn byte_items(d: Seq<u8>) -> Seq<char>
    decreases d.len(),
{
    if d.len() == 0 {
        Seq::empty()
    } else if d.len() == 1 {
        hex2(d[0] as nat)
    } else {
        byte_items(d.drop_last()) + seq![',', ' '] + hex2(d.last() as nat)
    }
}

/// The text of a message.
pub open spec fn message_text(v: MessageView) -> Seq<char> {
    match v {
        MessageView::Data { bus, id, ext_id, data } => "Data Frame: bus="@ + dec_digits(bus as nat)
            + ", id="@ + hex2(id as nat) + ", ext_id="@ + bool_text(ext_id) + ", dlc="@ + dec_digits(data.len()) + ", data=["@ + byte_items(data) + "]"@,
        MessageView::Remote { bus, id, ext_id, dlc } => "Remote Frame: bus="@ + dec_digits(bus as nat) + ", id="@ + hex2(id as nat) + ", ext_id="@ + bool_text(ext_id) + ", dlc="@ + dec_digits(dlc as nat),
    }
}

/// The text of digit `d`.
fn digit_str(d: u32) -> (r: &'static str)
    requires
        d < 16,
    ensures
        r@ == seq![digit_char(d as nat)],
{
    match d {
        0 => {
            proof {
                reveal_strlit("0");
            }
            "0"
        },
        1 => {
            proof {
                reveal_strlit("1");
            }
            "1"
        },
        2 => {
            proof {
                reveal_strlit("2");
            }
            "2"
        },
        3 => {
            proof {
                reveal_strlit("3");
            }
            "3"
        },
        4 => {
            proof {
                reveal_strlit("4");
            }
            "4"
        },
        5 => {
            proof {
                reveal_strlit("5");
            }
            "5"
        },
        6 => {
            proof {
                reveal_strlit("6");
            }
            "6"
        },
        7 => {
            proof {
                reveal_strlit("7");
            }
            "7"
        },
        8 => {
            proof {
                reveal_strlit("8");
            }
            "8"
        },
        9 => {
            proof {
                reveal_strlit("9");
            }
            "9"
        },
        10 => {
            proof {
                reveal_strlit("a");
            }
            "a"
        },
        11 => {
            proof {
                reveal_strlit("b");
            }
            "b"
        },
        12 => {
            proof {
                reveal_strlit("c");
            }
            "c"
        },
        13 => {
            proof {
                reveal_strlit("d");
            }
            "d"
        },
        14 => {
            proof {
                reveal_strlit("e");
            }
            "e"
        },
        _ => {
            proof {
                reveal_strlit("f");
            }
            "f"
        },
    }
}

/// Appends the decimal digits of `x`.
fn append_dec(s: &mut String, x: u32)
    ensures
        final(s)@ == old(s)@ + dec_digits(x as nat),
    decreases x,
{
    if x >= 10 {
        append_dec(s, x / 10);
    }
    s.append(digit_str(x % 10));
    assert(final(s)@ =~= old(s)@ + dec_digits(x as nat));
}

/// Appends the hexadecimal digits of `x`.
fn append_hex(s: &mut String, x: u32)
    ensures
        final(s)@ == old(s)@ + hex_digits(x as nat),
    decreases x,
{
    if x >= 16 {
        append_hex(s, x / 16);
    }
    s.append(digit_str(x % 16));
    assert(final(s)@ =~= old(s)@ + hex_digits(x as nat));
}

/// Appends `x` in hexadecimal, at least two digits wide.
fn append_hex2(s: &mut String, x: u32)
    ensures
        final(s)@ == old(s)@ + hex2(x as nat),
{
    if x < 16 {
        s.append(digit_str(0));
    }
    append_hex(s, x);
    assert(final(s)@ =~= old(s)@ + hex2(x as nat));
}

/// Appends `true` or `false`.
fn append_bool(s: &mut String, b: bool)
    ensures
        final(s)@ == old(s)@ + bool_text(b),
{
    if b {
        proof {
            reveal_strlit("true");
        }
        s.append("true");
    } else {
        proof {
            reveal_strlit("false");
        }
        s.append("false");
    }
    assert(final(s)@ =~= old(s)@ + bool_text(b));
}

impl Message {
    /// The human-readable text of the message: its kind, bus, identifier in
    /// hexadecimal, extended-ID flag, DLC and, for a data frame, its payload.
    pub fn to_string(&self) -> (r: String)
        ensures
            r@ == message_text(self@),
    {
        let mut s = String::new();
        match self {
            Message::Data(bus, f) => {
                s.append("Data Frame: bus=");
                append_dec(&mut s, *bus as u32);
                s.append(", id=");
                append_hex2(&mut s, f.id());
                s.append(", ext_id=");
                append_bool(&mut s, f.ext_id());
                s.append(", dlc=");
                append_dec(&mut s, f.dlc() as u32);
                s.append(", data=[");
                let data = f.data();
                let mut i: usize = 0;
                while i < data.len()
                    invariant
                        i <= data@.len(),
                        data@ == self@->Data_data,
                        s@ == "Data Frame: bus="@ + dec_digits(*bus as nat) + ", id="@ + hex2(
                            self@.id() as nat,
                        ) + ", ext_id="@ + bool_text(self@.ext_id()) + ", dlc="@ + dec_digits(data@.len()) + ", data=["@ + byte_items(data@.subrange(0, i as int)),
                    decreases data@.len() - i,
                {
                    let ghost prev = s@;
                    if i > 0 {
                        proof {
                            reveal_strlit(", ");
                        }
                        s.append(", ");
                    }
                    append_hex2(&mut s, data[i] as u32);
                    proof {
                        let sub = data@.subrange(0, i + 1);
                        assert(sub.drop_last() =~= data@.subrange(0, i as int));
                        assert(sub.last() == data@[i as int]);
                        if i == 0 {
                            assert(data@.subrange(0, 0) =~= Seq::<u8>::empty());
                        }
                    }
                    i += 1;
                }
                assert(data@.subrange(0, data@.len() as int) =~= data@);
                s.append("]");
            },
            Message::Remote(bus, f) => {
                s.append("Remote Frame: bus=");
                append_dec(&mut s, *bus as u32);
                s.append(", id=");
                append_hex2(&mut s, f.id());
                s.append(", ext_id=");
                append_bool(&mut s, f.ext_id());
                s.append(", dlc=");
                append_dec(&mut s, f.dlc() as u32);
            },
        }
        s
    }
}

} // verus!
