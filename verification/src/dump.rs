//! The debugging dump of the bytes sent to and received from a client: a
//! hex and ASCII listing, sixteen bytes to a line, followed by the TELNET
//! commands found in them.

use vstd::prelude::*;
use crate::chars::{push_str, string_from_chars};
use crate::session::{digits, pad_left, push_digits};
use crate::telnet::{
    command_name_spec, option_name_spec, telnet_command_name, telnet_option_name, CMD_DO, CMD_DONT,
    CMD_SB, CMD_SE, CMD_WILL, CMD_WONT, IAC,
};

verus! {

/// A hexadecimal digit, in lower case.
pub open spec fn hex_digit(n: nat) -> char {
    if n < 10 {
        (n + 48) as char
    } else {
        (n + 87) as char
    }
}

/// The hexadecimal digits of a number.
pub open spec fn hex_digits(n: nat) -> Seq<char>
    decreases n,
{
    if n < 16 {
        seq![hex_digit(n)]
    } else {
        hex_digits(n / 16).push(hex_digit(n % 16))
    }
}

/// A byte as two hexadecimal digits.
pub open spec fn hex2(b: u8) -> Seq<char> {
    seq![hex_digit((b / 16) as nat), hex_digit((b % 16) as nat)]
}

/// A byte as the ASCII column shows it.
pub open spec fn shown_byte(b: u8) -> char {
    if 32 <= b <= 126 {
        b as char
    } else {
        '.'
    }
}

/// The hex column for the first `k` bytes of a line: each byte and a
/// space, with one more space before the ninth.
pub open spec fn hex_part(chunk: Seq<u8>, k: int) -> Seq<char>
    decreases k,
{
    if k <= 0 {
        Seq::empty()
    } else {
        hex_part(chunk, k - 1) + (if k - 1 == 8 {
            " "@
        } else {
            Seq::empty()
        }) + hex2(chunk[k - 1]) + " "@
    }
}

/// The padding of the hex column of a short line, from byte `j` to 16.
pub open spec fn pad_part(j: int) -> Seq<char>
    decreases 16 - j,
{
    if j >= 16 {
        Seq::empty()
    } else {
        (if j == 8 {
            " "@
        } else {
            Seq::empty()
        }) + "   "@ + pad_part(j + 1)
    }
}

/// One line of the listing: the offset, the hex column and the ASCII
/// column.
pub open spec fn dump_line(chunk: Seq<u8>, offset: nat) -> Seq<char> {
    pad_left(hex_digits(offset), 4, '0') + ": "@ + hex_part(chunk, chunk.len() as int) + pad_part(
        chunk.len() as int,
    ) + " |"@ + chunk.map_values(|b: u8| shown_byte(b)) + "|\n"@
}

/// The lines for the first `k` chunks of sixteen bytes.
pub open spec fn dump_lines(bytes: Seq<u8>, k: nat) -> Seq<char>
    decreases k,
{
    if k == 0 {
        Seq::empty()
    } else {
        let i = (k - 1) as nat;
        let end: int = if (i + 1) * 16 < bytes.len() {
            ((i + 1) * 16) as int
        } else {
            bytes.len() as int
        };
        dump_lines(bytes, i) + dump_line(bytes.subrange((i * 16) as int, end), i * 16)
    }
}

/// The number of lines of sixteen bytes.
pub open spec fn chunk_count(n: nat) -> nat {
    (n + 15) / 16
}

/// The TELNET commands found from position `i` on, one line each.
pub open spec fn decode_from(bytes: Seq<u8>, i: int) -> Seq<char>
    decreases bytes.len() - i,
{
    if i < 0 || i >= bytes.len() {
        Seq::empty()
    } else if bytes[i] == IAC && i + 1 < bytes.len() {
        let cmd = bytes[i + 1];
        if (cmd == CMD_WILL || cmd == CMD_WONT || cmd == CMD_DO || cmd == CMD_DONT) && i + 2 < bytes.len() {
            "  -> TELNET: IAC "@ + command_name_spec(cmd) + " "@ + option_name_spec(bytes[i + 2]) + "\n"@
                + decode_from(bytes, i + 3)
        } else if cmd == CMD_SB {
            "  -> TELNET: IAC SB (subnegotiation begin)\n"@ + decode_from(bytes, i + 2)
        } else if cmd == CMD_SE {
            "  -> TELNET: IAC SE (subnegotiation end)\n"@ + decode_from(bytes, i + 2)
        } else {
            "  -> TELNET: IAC "@ + command_name_spec(cmd) + " (0x"@ + hex2(cmd) + ")\n"@ + decode_from(
                bytes,
                i + 2,
            )
        }
    } else {
        decode_from(bytes, i + 1)
    }
}

/// The whole dump: nothing for no bytes; otherwise the header, the
/// listing, the TELNET commands and the footer.
pub open spec fn dump_spec(bytes: Seq<u8>, label: Seq<char>) -> Seq<char> {
    if bytes.len() == 0 {
        Seq::empty()
    } else {
        "=== DEBUG: "@ + label + " ("@ + digits(bytes.len()) + " bytes) ===\n"@ + dump_lines(
            bytes,
            chunk_count(bytes.len()),
        ) + decode_from(bytes, 0) + "=== END "@ + label + " ===\n"@
    }
}

fn hex_digit_exec(n: u8) -> (r: char)
    requires
        n < 16,
    ensures
        r == hex_digit(n as nat),
{
    if n < 10 {
        (n + 48) as char
    } else {
        (n + 87) as char
    }
}

fn push_hex2(v: &mut Vec<char>, b: u8)
    ensures
        final(v)@ == old(v)@ + hex2(b),
{
    v.push(hex_digit_exec(b / 16));
    v.push(hex_digit_exec(b % 16));
    assert(v@ =~= old(v)@ + hex2(b));
}

fn push_hex_digits(v: &mut Vec<char>, n: u64)
    ensures
        final(v)@ == old(v)@ + hex_digits(n as nat),
    decreases n,
{
    if n < 16 {
        v.push(hex_digit_exec(n as u8));
        assert(v@ =~= old(v)@ + hex_digits(n as nat));
    } else {
        push_hex_digits(v, n / 16);
        v.push(hex_digit_exec((n % 16) as u8));
        assert(v@ =~= old(v)@ + hex_digits(n as nat));
    }
}

fn push_line(v: &mut Vec<char>, bytes: &[u8], start: usize, end: usize)
    requires
        start <= end <= bytes@.len(),
        end - start <= 16,
    ensures
        final(v)@ == old(v)@ + dump_line(bytes@.subrange(start as int, end as int), start as nat),
{
    let ghost chunk = bytes@.subrange(start as int, end as int);
    let mut off: Vec<char> = Vec::new();
    push_hex_digits(&mut off, start as u64);
    crate::session::push_padded(v, &off, 4, '0');
    push_str(v, ": ");
    let ghost base = v@;
    let mut j: usize = start;
    while j < end
        invariant
            start <= j <= end,
            end - start <= 16,
            end <= bytes@.len(),
            chunk == bytes@.subrange(start as int, end as int),
            v@ == base + hex_part(chunk, j - start),
        decreases end - j,
    {
        if j - start == 8 {
            push_str(v, " ");
        }
        push_hex2(v, bytes[j]);
        push_str(v, " ");
        proof {
            assert(chunk[j - start] == bytes@[j as int]);
            assert(v@ =~= base + hex_part(chunk, j - start + 1));
        }
        j += 1;
    }
    let ghost base2 = v@;
    let mut k: usize = end - start;
    while k < 16
        invariant
            end - start <= k <= 16,
            v@ + pad_part(k as int) == base2 + pad_part((end - start) as int),
        decreases 16 - k,
    {
        let ghost before = v@;
        if k == 8 {
            push_str(v, " ");
        }
        push_str(v, "   ");
        proof {
            assert(v@ + pad_part(k + 1) =~= before + pad_part(k as int));
        }
        k += 1;
    }
    proof {
        assert(pad_part(16) =~= Seq::<char>::empty());
        assert(v@ =~= base2 + pad_part((end - start) as int));
    }
    push_str(v, " |");
    let ghost base3 = v@;
    let mut j: usize = start;
    while j < end
        invariant
            start <= j <= end,
            end <= bytes@.len(),
            chunk == bytes@.subrange(start as int, end as int),
            v@ == base3 + chunk.take(j - start).map_values(|b: u8| shown_byte(b)),
        decreases end - j,
    {
        let b = bytes[j];
        v.push(if 32 <= b && b <= 126 {
            b as char
        } else {
            '.'
        });
        proof {
            assert(chunk[j - start] == b);
            assert(chunk.take(j - start + 1) =~= chunk.take(j - start).push(b));
            assert(v@ =~= base3 + chunk.take(j - start + 1).map_values(|b: u8| shown_byte(b)));
        }
        j += 1;
    }
    proof {
        assert(chunk.take(end - start) =~= chunk);
    }
    push_str(v, "|\n");
    assert(v@ =~= old(v)@ + dump_line(chunk, start as nat));
}

fn push_decoded(v: &mut Vec<char>, bytes: &[u8])
    ensures
        final(v)@ == old(v)@ + decode_from(bytes@, 0),
{
    let n = bytes.len();
    let mut i: usize = 0;
    while i < n
        invariant
            n == bytes@.len(),
            v@ + decode_from(bytes@, i as int) == old(v)@ + decode_from(bytes@, 0),
        decreases n - i,
    {
        let ghost before = v@;
        let ghost at = i;
        if bytes[i] == IAC && i + 1 < n {
            let cmd = bytes[i + 1];
            if (cmd == CMD_WILL || cmd == CMD_WONT || cmd == CMD_DO || cmd == CMD_DONT) && i + 2 < n {
                push_str(v, "  -> TELNET: IAC ");
                push_str(v, telnet_command_name(cmd));
                push_str(v, " ");
                push_str(v, telnet_option_name(bytes[i + 2]));
                push_str(v, "\n");
                i = i + 3;
            } else if cmd == CMD_SB {
                push_str(v, "  -> TELNET: IAC SB (subnegotiation begin)\n");
                i = i + 2;
            } else if cmd == CMD_SE {
                push_str(v, "  -> TELNET: IAC SE (subnegotiation end)\n");
                i = i + 2;
            } else {
                push_str(v, "  -> TELNET: IAC ");
                push_str(v, telnet_command_name(cmd));
                push_str(v, " (0x");
                push_hex2(v, cmd);
                push_str(v, ")\n");
                i = i + 2;
            }
        } else {
            i = i + 1;
        }
        proof {
            assert(v@ + decode_from(bytes@, i as int) =~= before + decode_from(bytes@, at as int));
        }
    }
}

/// The debugging dump of `bytes` under `label` (see `dump_spec`).
pub fn debug_format_bytes(bytes: &[u8], label: &str) -> (r: String)
    ensures
        r@ == dump_spec(bytes@, label@),
{
    let n = bytes.len();
    if n == 0 {
        return String::new();
    }
    let mut v: Vec<char> = Vec::new();
    push_str(&mut v, "=== DEBUG: ");
    push_str(&mut v, label);
    push_str(&mut v, " (");
    push_digits(&mut v, n as u64);
    push_str(&mut v, " bytes) ===\n");
    let ghost base = v@;
    let count: usize = n / 16 + if n % 16 > 0 {
        1
    } else {
        0
    };
    assert(count == chunk_count(n as nat));
    let mut k: usize = 0;
    while k < count
        invariant
            n == bytes@.len(),
            k <= count,
            count == chunk_count(n as nat),
            v@ == base + dump_lines(bytes@, k as nat),
        decreases count - k,
    {
        assert(k * 16 < n);
        let start = k * 16;
        let end = if n - start > 16 {
            start + 16
        } else {
            n
        };
        push_line(&mut v, bytes, start, end);
        proof {
            assert(dump_lines(bytes@, (k + 1) as nat) == dump_lines(bytes@, k as nat) + dump_line(
                bytes@.subrange(start as int, end as int),
                start as nat,
            ));
        }
        k = k + 1;
    }
    push_decoded(&mut v, bytes);
    push_str(&mut v, "=== END ");
    push_str(&mut v, label);
    push_str(&mut v, " ===\n");
    assert(v@ =~= dump_spec(bytes@, label@));
    string_from_chars(v)
}

} // verus!
