use vstd::prelude::*;
use vstd::string::StringExecFns;

verus! {

/// The character for one decimal digit.
pub open spec fn decimal_digit(d: nat) -> char {
    if d == 0 {
        '0'
    } else if d == 1 {
        '1'
    } else if d == 2 {
        '2'
    } else if d == 3 {
        '3'
    } else if d == 4 {
        '4'
    } else if d == 5 {
        '5'
    } else if d == 6 {
        '6'
    } else if d == 7 {
        '7'
    } else if d == 8 {
        '8'
    } else {
        '9'
    }
}

/// The decimal rendering of a number, most significant digit first, with
/// no leading zeros (zero itself renders as one digit).
pub open spec fn decimal_of(n: nat) -> Seq<char>
    decreases n,
{
    if n < 10 {
        seq![decimal_digit(n)]
    } else {
        decimal_of(n / 10).push(decimal_digit(n % 10))
    }
}

/// The character for one lower-case hexadecimal digit.
pub open spec fn hex_digit(d: nat) -> char {
    if d < 10 {
        decimal_digit(d)
    } else if d == 10 {
        'a'
    } else if d == 11 {
        'b'
    } else if d == 12 {
        'c'
    } else if d == 13 {
        'd'
    } else if d == 14 {
        'e'
    } else {
        'f'
    }
}

/// How one buffer byte renders inside the quoted report content.
///
/// Printable seven-bit bytes stand for themselves, except the quote and
/// the backslash, which take a backslash escape, as do tab, line feed,
/// carriage return and the zero byte. Every other byte renders as a
/// backslash-u escape holding its value in lower-case hexadecimal without
/// leading zeros, so arbitrary bytes pass through unambiguously with no
/// encoding validation.
pub open spec fn escaped_byte(b: u8) -> Seq<char> {
    if b == 0x22 {
        seq!['\\', '"']
    } else if b == 0x5c {
        seq!['\\', '\\']
    } else if b == 0x09 {
        seq!['\\', 't']
    } else if b == 0x0a {
        seq!['\\', 'n']
    } else if b == 0x0d {
        seq!['\\', 'r']
    } else if b == 0x00 {
        seq!['\\', '0']
    } else if 0x20 <= b && b <= 0x7e {
        seq![b as char]
    } else if b < 0x10 {
        seq!['\\', 'u', '{', hex_digit(b as nat), '}']
    } else {
        seq!['\\', 'u', '{', hex_digit((b / 16) as nat), hex_digit((b % 16) as nat), '}']
    }
}

/// The escaped rendering of a whole buffer, byte by byte, in order.
pub open spec fn escaped_bytes(bs: Seq<u8>) -> Seq<char>
    decreases bs.len(),
{
    if bs.len() == 0 {
        Seq::empty()
    } else {
        escaped_bytes(bs.drop_last()) + escaped_byte(bs.last())
    }
}

/// The report line for one completed output-write entry: the descriptor in
/// decimal and the buffer content, debug-quoted.
pub open spec fn report_line(fd: u64, bytes: Seq<u8>) -> Seq<char> {
    seq!['F', 'D', ':', ' '] + decimal_of(fd as nat) + seq![':', ' ', '"'] + escaped_bytes(bytes)
        + seq!['"']
}

/// A buffer reconstructed out of the target's address space: the bytes
/// that could be read, in address order, and whether they cover the whole
/// requested length. A remote read that fails mid-buffer ends the
/// reconstruction early, leaving the buffer incomplete rather than
/// aborting the trace.
pub struct RemoteBuffer {
    pub bytes: Vec<u8>,
    pub complete: bool,
}

/// The marker appended to the report of an incompletely read buffer.
pub open spec fn truncation_marker() -> Seq<char> {
    seq![' ', '(', 't', 'r', 'u', 'n', 'c', 'a', 't', 'e', 'd', ')']
}

/// The report line for one output-write entry whose buffer may have been
/// read only in part: a complete buffer renders as the plain report line,
/// an incomplete one carries the truncation marker after it.
pub open spec fn buffer_report_line(fd: u64, bytes: Seq<u8>, complete: bool) -> Seq<char> {
    if complete {
        report_line(fd, bytes)
    } else {
        report_line(fd, bytes) + truncation_marker()
    }
}

/// Relies on String::push: appends exactly the given character at the end.
#[verifier::external_body]
fn push_char(s: &mut String, c: char)
    ensures
        final(s)@ == old(s)@.push(c),
{
    s.push(c)
}

/// The character for one decimal digit, executable form.
fn decimal_digit_char(d: u64) -> (c: char)
    requires
        d < 10,
    ensures
        c == decimal_digit(d as nat),
{
    match d {
        0 => '0',
        1 => '1',
        2 => '2',
        3 => '3',
        4 => '4',
        5 => '5',
        6 => '6',
        7 => '7',
        8 => '8',
        _ => '9',
    }
}

/// The character for one lower-case hexadecimal digit, executable form.
fn hex_digit_char(d: u8) -> (c: char)
    requires
        d < 16,
    ensures
        c == hex_digit(d as nat),
{
    match d {
        0 => '0',
        1 => '1',
        2 => '2',
        3 => '3',
        4 => '4',
        5 => '5',
        6 => '6',
        7 => '7',
        8 => '8',
        9 => '9',
        10 => 'a',
        11 => 'b',
        12 => 'c',
        13 => 'd',
        14 => 'e',
        _ => 'f',
    }
}

/// Render a number in decimal.
pub fn decimal_string(n: u64) -> (s: String)
    ensures
        s@ == decimal_of(n as nat),
    decreases n,
{
    if n < 10 {
        let mut s = String::new();
        push_char(&mut s, decimal_digit_char(n));
        proof {
            assert(s@ =~= decimal_of(n as nat));
        }
        s
    } else {
        let mut s = decimal_string(n / 10);
        push_char(&mut s, decimal_digit_char(n % 10));
        s
    }
}

/// Append the escaped rendering of one buffer byte.
fn push_escaped_byte(s: &mut String, b: u8)
    ensures
        final(s)@ == old(s)@ + escaped_byte(b),
{
    if b == 0x22 {
        push_char(s, '\\');
        push_char(s, '"');
    } else if b == 0x5c {
        push_char(s, '\\');
        push_char(s, '\\');
    } else if b == 0x09 {
        push_char(s, '\\');
        push_char(s, 't');
    } else if b == 0x0a {
        push_char(s, '\\');
        push_char(s, 'n');
    } else if b == 0x0d {
        push_char(s, '\\');
        push_char(s, 'r');
    } else if b == 0x00 {
        push_char(s, '\\');
        push_char(s, '0');
    } else if 0x20 <= b && b <= 0x7e {
        push_char(s, b as char);
    } else if b < 0x10 {
        push_char(s, '\\');
        push_char(s, 'u');
        push_char(s, '{');
        push_char(s, hex_digit_char(b));
        push_char(s, '}');
    } else {
        push_char(s, '\\');
        push_char(s, 'u');
        push_char(s, '{');
        push_char(s, hex_digit_char(b / 16));
        push_char(s, hex_digit_char(b % 16));
        push_char(s, '}');
    }
    proof {
        assert(s@ =~= old(s)@ + escaped_byte(b));
    }
}

/// Render a whole buffer in its escaped form.
pub fn escape_bytes(bs: &Vec<u8>) -> (s: String)
    ensures
        s@ == escaped_bytes(bs@),
{
    let mut s = String::new();
    proof {
        assert(s@ =~= escaped_bytes(bs@.take(0)));
    }
    let mut i: usize = 0;
    while i < bs.len()
        invariant
            i <= bs.len(),
            s@ == escaped_bytes(bs@.take(i as int)),
        decreases bs.len() - i,
    {
        push_escaped_byte(&mut s, bs[i]);
        proof {
            assert(bs@.take(i + 1 as int).drop_last() =~= bs@.take(i as int));
            assert(bs@.take(i + 1 as int).last() == bs@[i as int]);
        }
        i = i + 1;
    }
    proof {
        assert(bs@.take(bs@.len() as int) =~= bs@);
    }
    s
}

/// Render the report line for one completed output-write entry.
pub fn render_report(fd: u64, bytes: &Vec<u8>) -> (s: String)
    ensures
        s@ == report_line(fd, bytes@),
{
    let mut s = String::new();
    push_char(&mut s, 'F');
    push_char(&mut s, 'D');
    push_char(&mut s, ':');
    push_char(&mut s, ' ');
    let digits = decimal_string(fd);
    s.append(digits.as_str());
    push_char(&mut s, ':');
    push_char(&mut s, ' ');
    push_char(&mut s, '"');
    let content = escape_bytes(bytes);
    s.append(content.as_str());
    push_char(&mut s, '"');
    proof {
        assert(s@ =~= report_line(fd, bytes@));
    }
    s
}

/// Render the report line for one reconstructed buffer, marking a buffer
/// whose remote read stopped early.
pub fn render_buffer_report(fd: u64, buf: &RemoteBuffer) -> (s: String)
    ensures
        s@ == buffer_report_line(fd, buf.bytes@, buf.complete),
{
    let mut s = render_report(fd, &buf.bytes);
    if !buf.complete {
        push_char(&mut s, ' ');
        push_char(&mut s, '(');
        push_char(&mut s, 't');
        push_char(&mut s, 'r');
        push_char(&mut s, 'u');
        push_char(&mut s, 'n');
        push_char(&mut s, 'c');
        push_char(&mut s, 'a');
        push_char(&mut s, 't');
        push_char(&mut s, 'e');
        push_char(&mut s, 'd');
        push_char(&mut s, ')');
    }
    proof {
        assert(s@ =~= buffer_report_line(fd, buf.bytes@, buf.complete));
    }
    s
}

} // verus!
