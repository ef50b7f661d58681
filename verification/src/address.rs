//! Internet addresses as plain values.

use vstd::prelude::*;

verus! {

/// An IPv4 address, held as its four octets in network order.
#[derive(Clone, Copy, Debug, PartialEq, Eq, Structural)]
pub struct Ipv4Address {
    pub a: u8,
    pub b: u8,
    pub c: u8,
    pub d: u8,
}

/// An IPv6 address, held as its 128 bits in network order.
#[derive(Clone, Copy, Debug, PartialEq, Eq, Structural)]
pub struct Ipv6Address {
    pub bits: u128,
}

/// An address of either family, as an upstream resolver hands it back.
#[derive(Clone, Copy, Debug, PartialEq, Eq, Structural)]
pub enum IpAddress {
    V4(Ipv4Address),
    V6(Ipv6Address),
}

impl Ipv4Address {
    /// The address `a.b.c.d`.
    pub fn new(a: u8, b: u8, c: u8, d: u8) -> (address: Ipv4Address)
        ensures
            address == (Ipv4Address { a, b, c, d }),
    {
        Ipv4Address { a, b, c, d }
    }

    /// The four octets, first to last.
    pub fn octets(&self) -> (octets: [u8; 4])
        ensures
            octets@ == seq![self.a, self.b, self.c, self.d],
    {
        let octets: [u8; 4] = [self.a, self.b, self.c, self.d];
        assert(octets@ =~= seq![self.a, self.b, self.c, self.d]);
        octets
    }
}

/// The IPv4 address that `address` holds, if it is of that family.
pub open spec fn spec_as_ipv4(address: IpAddress) -> Option<Ipv4Address> {
    match address {
        IpAddress::V4(v4) => Some(v4),
        IpAddress::V6(_) => None,
    }
}

/// The IPv4 addresses among `addresses`, in their order.
pub open spec fn spec_ipv4_only(addresses: Seq<IpAddress>) -> Seq<Ipv4Address> {
    addresses.filter_map(|address: IpAddress| spec_as_ipv4(address))
}

/// Keeps the IPv4 addresses of a resolver's answer and drops the others.
pub fn ipv4_only(addresses: &Vec<IpAddress>) -> (kept: Vec<Ipv4Address>)
    ensures
        kept@ == spec_ipv4_only(addresses@),
{
    let mut kept: Vec<Ipv4Address> = Vec::new();
    let mut i: usize = 0;
    while i < addresses.len()
        invariant
            i <= addresses.len(),
            kept@ == spec_ipv4_only(addresses@.take(i as int)),
        decreases addresses.len() - i,
    {
        proof {
            addresses@.lemma_filter_map_take_succ(|address: IpAddress| spec_as_ipv4(address), i as int);
        }
        match addresses[i] {
            IpAddress::V4(v4) => {
                kept.push(v4);
            },
            IpAddress::V6(_) => {},
        }
        i += 1;
    }
    assert(addresses@.take(i as int) =~= addresses@);
    kept
}

/// The decimal digit that stands for `value`, for a value below ten.
pub open spec fn spec_digit(value: int) -> char {
    if value == 0 {
        '0'
    } else if value == 1 {
        '1'
    } else if value == 2 {
        '2'
    } else if value == 3 {
        '3'
    } else if value == 4 {
        '4'
    } else if value == 5 {
        '5'
    } else if value == 6 {
        '6'
    } else if value == 7 {
        '7'
    } else if value == 8 {
        '8'
    } else {
        '9'
    }
}

/// The value of a decimal digit; `None` for any other character.
spec fn spec_digit_value(c: char) -> Option<int> {
    if c == '0' {
        Some(0)
    } else if c == '1' {
        Some(1)
    } else if c == '2' {
        Some(2)
    } else if c == '3' {
        Some(3)
    } else if c == '4' {
        Some(4)
    } else if c == '5' {
        Some(5)
    } else if c == '6' {
        Some(6)
    } else if c == '7' {
        Some(7)
    } else if c == '8' {
        Some(8)
    } else if c == '9' {
        Some(9)
    } else {
        None
    }
}

/// An octet in decimal, with no zero in front of another digit.
pub open spec fn spec_octet_text(octet: u8) -> Seq<char> {
    if octet < 10 {
        seq![spec_digit(octet as int)]
    } else if octet < 100 {
        seq![spec_digit(octet as int / 10), spec_digit(octet as int % 10)]
    } else {
        seq![
            spec_digit(octet as int / 100),
            spec_digit(octet as int / 10 % 10),
            spec_digit(octet as int % 10),
        ]
    }
}

/// An address in dotted decimal: its four octets in decimal, with a dot
/// between one and the next.
pub open spec fn spec_text(address: Ipv4Address) -> Seq<char> {
    spec_octet_text(address.a) + seq!['.'] + spec_octet_text(address.b) + seq!['.']
        + spec_octet_text(address.c) + seq!['.'] + spec_octet_text(address.d)
}

/// The address that a text writes in dotted decimal, if it writes one.
pub open spec fn spec_parse(text: Seq<char>) -> Option<Ipv4Address> {
    if exists|address: Ipv4Address| spec_text(address) == text {
        Some(choose|address: Ipv4Address| spec_text(address) == text)
    } else {
        None
    }
}

/// The run of up to three digits that starts at `start`, as a number, and
/// the place behind it. `None` where no digit stands at `start` or the
/// number is above 255.
spec fn spec_read_octet(text: Seq<char>, start: int) -> Option<(u8, int)> {
    if !(0 <= start < text.len()) {
        None
    } else {
        match spec_digit_value(text[start]) {
            None => None,
            Some(first) => if start + 1 < text.len() && spec_digit_value(text[start + 1])
                is Some {
                let second = spec_digit_value(text[start + 1])->Some_0;
                if start + 2 < text.len() && spec_digit_value(text[start + 2]) is Some {
                    let third = spec_digit_value(text[start + 2])->Some_0;
                    let value = first * 100 + second * 10 + third;
                    if value <= 255 {
                        Some((value as u8, start + 3))
                    } else {
                        None
                    }
                } else {
                    Some(((first * 10 + second) as u8, start + 2))
                }
            } else {
                Some((first as u8, start + 1))
            },
        }
    }
}

/// Whether a dot stands at `at`.
spec fn spec_dot_at(text: Seq<char>, at: int) -> bool {
    0 <= at < text.len() && text[at] == '.'
}

/// The four numbers that a text holds with a dot between one and the next
/// and nothing behind the last, read run by run. The runs may carry zeros
/// in front, so more than one text may give the same address.
spec fn spec_scan(text: Seq<char>) -> Option<Ipv4Address> {
    match spec_read_octet(text, 0) {
        None => None,
        Some((a, after_a)) => if !spec_dot_at(text, after_a) {
            None
        } else {
            match spec_read_octet(text, after_a + 1) {
                None => None,
                Some((b, after_b)) => if !spec_dot_at(text, after_b) {
                    None
                } else {
                    match spec_read_octet(text, after_b + 1) {
                        None => None,
                        Some((c, after_c)) => if !spec_dot_at(text, after_c) {
                            None
                        } else {
                            match spec_read_octet(text, after_c + 1) {
                                None => None,
                                Some((d, after_d)) => if after_d == text.len() {
                                    Some(Ipv4Address { a, b, c, d })
                                } else {
                                    None
                                },
                            }
                        },
                    }
                },
            }
        },
    }
}

/// Reading gives an octet back from where its decimal form stands in a
/// text, if a dot or the end of the text follows.
proof fn lemma_read_octet_text(text: Seq<char>, start: int, octet: u8)
    requires
        0 <= start,
        start + spec_octet_text(octet).len() <= text.len(),
        text.subrange(start, start + spec_octet_text(octet).len()) == spec_octet_text(octet),
        start + spec_octet_text(octet).len() == text.len() || text[start + spec_octet_text(
            octet,
        ).len()] == '.',
    ensures
        spec_read_octet(text, start) == Some((octet, start + spec_octet_text(octet).len())),
{
    let digits = spec_octet_text(octet);
    let part = text.subrange(start, start + digits.len());
    assert(text[start] == part[0]);
    if octet >= 10 {
        assert(text[start + 1] == part[1]);
    }
    if octet >= 100 {
        assert(text[start + 2] == part[2]);
    }
}

/// Scanning the dotted decimal form of an address gives the address back.
proof fn lemma_scan_of_text(address: Ipv4Address)
    ensures
        spec_scan(spec_text(address)) == Some(address),
{
    let text = spec_text(address);
    let a = spec_octet_text(address.a);
    let b = spec_octet_text(address.b);
    let c = spec_octet_text(address.c);
    let d = spec_octet_text(address.d);
    let dot = seq!['.'];
    let at_b: int = a.len() as int + 1;
    let at_c: int = at_b + b.len() + 1;
    let at_d: int = at_c + c.len() + 1;
    assert(text.len() == at_d + d.len());
    assert(text.subrange(0, a.len() as int) =~= a);
    assert(text[a.len() as int] == '.');
    lemma_read_octet_text(text, 0, address.a);
    assert(text.subrange(at_b, at_b + b.len()) =~= b);
    assert(text[at_b + b.len()] == '.');
    lemma_read_octet_text(text, at_b, address.b);
    assert(text.subrange(at_c, at_c + c.len()) =~= c);
    assert(text[at_c + c.len()] == '.');
    lemma_read_octet_text(text, at_c, address.c);
    assert(text.subrange(at_d, at_d + d.len()) =~= d);
    lemma_read_octet_text(text, at_d, address.d);
}

/// No two addresses are written alike.
pub proof fn lemma_text_is_injective(first: Ipv4Address, second: Ipv4Address)
    requires
        spec_text(first) == spec_text(second),
    ensures
        first == second,
{
    lemma_scan_of_text(first);
    lemma_scan_of_text(second);
}

/// A text is parsed to an address exactly when it is the dotted decimal
/// form of that address.
pub proof fn lemma_parse_inverts_text(text: Seq<char>, address: Ipv4Address)
    ensures
        spec_parse(text) == Some(address) <==> text == spec_text(address),
        spec_parse(spec_text(address)) == Some(address),
{
    if text == spec_text(address) {
        let chosen = choose|other: Ipv4Address| spec_text(other) == text;
        lemma_text_is_injective(chosen, address);
    }
    let again = spec_text(address);
    let chosen = choose|other: Ipv4Address| spec_text(other) == again;
    lemma_text_is_injective(chosen, address);
}

/// The value of a decimal digit.
fn digit_value(c: char) -> (value: Option<u8>)
    ensures
        match value {
            Some(v) => spec_digit_value(c) == Some(v as int),
            None => spec_digit_value(c) is None,
        },
{
    match c {
        '0' => Some(0),
        '1' => Some(1),
        '2' => Some(2),
        '3' => Some(3),
        '4' => Some(4),
        '5' => Some(5),
        '6' => Some(6),
        '7' => Some(7),
        '8' => Some(8),
        '9' => Some(9),
        _ => None,
    }
}

/// The digit at `at`, if one stands there.
fn digit_at(text: &str, length: usize, at: usize) -> (value: Option<u8>)
    requires
        length == text@.len(),
    ensures
        match value {
            Some(v) => at < length && spec_digit_value(text@[at as int]) == Some(v as int),
            None => at >= length || spec_digit_value(text@[at as int]) is None,
        },
{
    if at < length {
        digit_value(text.get_char(at))
    } else {
        None
    }
}

/// Reads the run of up to three digits that starts at `start`.
fn read_octet(text: &str, length: usize, start: usize) -> (read: Option<(u8, usize)>)
    requires
        length == text@.len(),
        length <= 15,
        start <= 16,
    ensures
        match read {
            Some((octet, after)) => spec_read_octet(text@, start as int) == Some(
                (octet, after as int),
            ) && after <= length,
            None => spec_read_octet(text@, start as int) is None,
        },
{
    match digit_at(text, length, start) {
        None => None,
        Some(first) => match digit_at(text, length, start + 1) {
            None => Some((first, start + 1)),
            Some(second) => match digit_at(text, length, start + 2) {
                None => Some((first * 10 + second, start + 2)),
                Some(third) => {
                    let value: u16 = first as u16 * 100 + second as u16 * 10 + third as u16;
                    if value <= 255 {
                        Some((value as u8, start + 3))
                    } else {
                        None
                    }
                },
            },
        },
    }
}

/// Whether a dot stands at `at`.
fn dot_at(text: &str, length: usize, at: usize) -> (found: bool)
    requires
        length == text@.len(),
    ensures
        found == spec_dot_at(text@, at as int),
{
    at < length && text.get_char(at) == '.'
}

/// Reads four numbers with a dot between one and the next.
fn scan(text: &str) -> (scanned: Option<Ipv4Address>)
    ensures
        text@.len() <= 15 ==> scanned == spec_scan(text@),
        text@.len() > 15 ==> scanned is None,
{
    let length: usize = text.unicode_len();
    if length > 15 {
        return None;
    }
    let (a, after_a) = match read_octet(text, length, 0) {
        Some(read) => read,
        None => return None,
    };
    if !dot_at(text, length, after_a) {
        return None;
    }
    let (b, after_b) = match read_octet(text, length, after_a + 1) {
        Some(read) => read,
        None => return None,
    };
    if !dot_at(text, length, after_b) {
        return None;
    }
    let (c, after_c) = match read_octet(text, length, after_b + 1) {
        Some(read) => read,
        None => return None,
    };
    if !dot_at(text, length, after_c) {
        return None;
    }
    let (d, after_d) = match read_octet(text, length, after_c + 1) {
        Some(read) => read,
        None => return None,
    };
    if after_d == length {
        Some(Ipv4Address { a, b, c, d })
    } else {
        None
    }
}

/// The decimal digit that stands for `value`.
fn digit_text(value: u8) -> (digit: &'static str)
    requires
        value < 10,
    ensures
        digit@ == seq![spec_digit(value as int)],
{
    proof {
        reveal_strlit("0");
        reveal_strlit("1");
        reveal_strlit("2");
        reveal_strlit("3");
        reveal_strlit("4");
        reveal_strlit("5");
        reveal_strlit("6");
        reveal_strlit("7");
        reveal_strlit("8");
        reveal_strlit("9");
    }
    let digit: &'static str = match value {
        0 => "0",
        1 => "1",
        2 => "2",
        3 => "3",
        4 => "4",
        5 => "5",
        6 => "6",
        7 => "7",
        8 => "8",
        _ => "9",
    };
    assert(digit@ =~= seq![spec_digit(value as int)]);
    digit
}

/// Puts an octet in decimal behind `text`.
fn push_octet(text: &mut String, octet: u8)
    ensures
        final(text)@ == old(text)@ + spec_octet_text(octet),
{
    let ghost before = text@;
    if octet >= 100 {
        text.append(digit_text(octet / 100));
    }
    if octet >= 10 {
        text.append(digit_text(octet / 10 % 10));
    }
    text.append(digit_text(octet % 10));
    assert(text@ =~= before + spec_octet_text(octet));
}

impl Ipv4Address {
    /// The address in dotted decimal.
    pub fn to_text(&self) -> (text: String)
        ensures
            text@ == spec_text(*self),
    {
        proof {
            reveal_strlit(".");
        }
        let mut text: String = String::new();
        push_octet(&mut text, self.a);
        text.append(".");
        push_octet(&mut text, self.b);
        text.append(".");
        push_octet(&mut text, self.c);
        text.append(".");
        push_octet(&mut text, self.d);
        assert(text@ =~= spec_text(*self));
        text
    }

    /// Reads an address in dotted decimal: four numbers from 0 to 255 with
    /// a dot between one and the next, none with a zero in front of another
    /// digit, and nothing else. Any other text gives `None`.
    pub fn parse(text: &str) -> (parsed: Option<Ipv4Address>)
        ensures
            parsed == spec_parse(text@),
            match parsed {
                Some(address) => text@ == spec_text(address),
                None => forall|address: Ipv4Address| spec_text(address) != text@,
            },
    {
        match scan(text) {
            Some(address) => {
                let written: String = address.to_text();
                let given: String = text.to_owned();
                if written == given {
                    proof {
                        lemma_parse_inverts_text(text@, address);
                    }
                    Some(address)
                } else {
                    proof {
                        assert forall|other: Ipv4Address| spec_text(other) != text@ by {
                            if spec_text(other) == text@ {
                                lemma_scan_of_text(other);
                            }
                        }
                    }
                    None
                }
            },
            None => {
                proof {
                    assert forall|other: Ipv4Address| spec_text(other) != text@ by {
                        if spec_text(other) == text@ {
                            lemma_scan_of_text(other);
                            lemma_text_length(other);
                        }
                    }
                }
                None
            },
        }
    }
}

/// The dotted decimal form of an address has from seven to fifteen
/// characters.
pub proof fn lemma_text_length(address: Ipv4Address)
    ensures
        7 <= spec_text(address).len() <= 15,
{
}

} // verus!
