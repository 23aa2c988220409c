//! Device addresses as the consumer handles them: their text form, and the
//! search for an address in a list of addresses seen before.

use vstd::prelude::*;
use vstd::string::StringExecFns;

verus! {

/// The upper-case hexadecimal digit of a number below 16.
pub open spec fn hex_digit(n: u8) -> char {
    if n == 0 {
        '0'
    } else if n == 1 {
        '1'
    } else if n == 2 {
        '2'
    } else if n == 3 {
        '3'
    } else if n == 4 {
        '4'
    } else if n == 5 {
        '5'
    } else if n == 6 {
        '6'
    } else if n == 7 {
        '7'
    } else if n == 8 {
        '8'
    } else if n == 9 {
        '9'
    } else if n == 10 {
        'A'
    } else if n == 11 {
        'B'
    } else if n == 12 {
        'C'
    } else if n == 13 {
        'D'
    } else if n == 14 {
        'E'
    } else {
        'F'
    }
}

/// The two hexadecimal digits of a byte, the high one first.
pub open spec fn hex_pair(b: u8) -> Seq<char> {
    seq![hex_digit(b / 16), hex_digit(b % 16)]
}

/// The text of the first `count` bytes of an address: two digits for each
/// byte, with a colon between one byte and the next.
pub open spec fn mac_text_upto(mac: Seq<u8>, count: nat) -> Seq<char>
    decreases count,
{
    if count == 0 {
        Seq::empty()
    } else if count == 1 {
        hex_pair(mac[0])
    } else {
        mac_text_upto(mac, (count - 1) as nat) + seq![':'] + hex_pair(mac[count - 1])
    }
}

/// The text of an address, such as `66:55:44:33:22:11`.
pub open spec fn mac_text(mac: Seq<u8>) -> Seq<char> {
    mac_text_upto(mac, mac.len())
}

/// True if one of the recorded addresses equals `mac`.
pub open spec fn is_recorded(recorded: Seq<[u8; 6]>, mac: Seq<u8>) -> bool {
    exists|i: int| 0 <= i < recorded.len() && (#[trigger] recorded[i])@ == mac
}

/// The text of an address has two digits for each of its six bytes and
/// five colons.
pub proof fn lemma_mac_text_length(mac: Seq<u8>, count: nat)
    ensures
        mac_text_upto(mac, count).len() == if count == 0 {
            0
        } else {
            3 * count - 1
        },
    decreases count,
{
    if count > 1 {
        lemma_mac_text_length(mac, (count - 1) as nat);
    }
}

/// The digit of a number below 16, as a string of one character.
fn hex_digit_text(n: u8) -> (text: &'static str)
    requires
        n < 16,
    ensures
        text@ == seq![hex_digit(n)],
{
    proof {
        reveal_strlit("0");
        reveal_strlit("1");
        reveal_strlit("2");
        reveal_strlit("3");
        reveal_strlit("4");
        reveal_strlit("5");
        reveal_strlit("6");
        reveal_strlit("7");
        reveal_strlit("8");
        reveal_strlit("9");
        reveal_strlit("A");
        reveal_strlit("B");
        reveal_strlit("C");
        reveal_strlit("D");
        reveal_strlit("E");
        reveal_strlit("F");
    }
    let text: &'static str = if n == 0 {
        "0"
    } else if n == 1 {
        "1"
    } else if n == 2 {
        "2"
    } else if n == 3 {
        "3"
    } else if n == 4 {
        "4"
    } else if n == 5 {
        "5"
    } else if n == 6 {
        "6"
    } else if n == 7 {
        "7"
    } else if n == 8 {
        "8"
    } else if n == 9 {
        "9"
    } else if n == 10 {
        "A"
    } else if n == 11 {
        "B"
    } else if n == 12 {
        "C"
    } else if n == 13 {
        "D"
    } else if n == 14 {
        "E"
    } else {
        "F"
    };
    assert(text@ =~= seq![hex_digit(n)]);
    text
}

/// Writes an address as text: six pairs of upper-case hexadecimal digits
/// with colons between them, in the order of the bytes.
pub fn get_mac_bytes_str(mac_bytes: [u8; 6]) -> (text: String)
    ensures
        text@ == mac_text(mac_bytes@),
        text@.len() == 17,
{
    let mut text: String = String::new();
    let mut i: usize = 0;
    while i < 6
        invariant
            i <= 6,
            text@ == mac_text_upto(mac_bytes@, i as nat),
        decreases 6 - i,
    {
        let ghost before = text@;
        let b: u8 = mac_bytes[i];
        if i > 0 {
            proof {
                reveal_strlit(":");
            }
            text.append(":");
            assert(text@ =~= before + seq![':']);
        }
        text.append(hex_digit_text(b / 16));
        text.append(hex_digit_text(b % 16));
        assert(text@ =~= mac_text_upto(mac_bytes@, (i + 1) as nat));
        i = i + 1;
    }
    proof {
        lemma_mac_text_length(mac_bytes@, 6);
    }
    text
}

/// Tells whether two addresses hold the same bytes.
pub fn same_mac(a: &[u8; 6], b: &[u8; 6]) -> (same: bool)
    ensures
        same == (a@ == b@),
{
    let mut i: usize = 0;
    while i < 6
        invariant
            i <= 6,
            forall|k: int| 0 <= k < i ==> a@[k] == b@[k],
        decreases 6 - i,
    {
        if a[i] != b[i] {
            return false;
        }
        i = i + 1;
    }
    assert(a@ =~= b@);
    true
}

/// Tells whether `check_mac` is one of the addresses recorded before.
pub fn mac_is_recorded(recorded_macs: &Vec<[u8; 6]>, check_mac: &[u8; 6]) -> (found: bool)
    ensures
        found == is_recorded(recorded_macs@, check_mac@),
{
    let mut i: usize = 0;
    while i < recorded_macs.len()
        invariant
            i <= recorded_macs.len(),
            forall|k: int| 0 <= k < i ==> (#[trigger] recorded_macs@[k])@ != check_mac@,
        decreases recorded_macs.len() - i,
    {
        if same_mac(&recorded_macs[i], check_mac) {
            return true;
        }
        i = i + 1;
    }
    false
}

} // verus!
