//! IPv4 addresses and their dotted-decimal text.

use vstd::prelude::*;

verus! {

/// An IPv4 address: four octets, `a` leftmost in the dotted text.
#[derive(Clone, Copy, Debug, PartialEq, Eq, Hash, Structural)]
pub struct Ipv4Addr {
    pub a: u8,
    pub b: u8,
    pub c: u8,
    pub d: u8,
}

impl View for Ipv4Addr {
    type V = Ipv4Addr;

    open spec fn view(&self) -> Ipv4Addr {
        *self
    }
}

impl DeepView for Ipv4Addr {
    type V = Ipv4Addr;

    open spec fn deep_view(&self) -> Ipv4Addr {
        *self
    }
}

/// The character that stands for the decimal digit `d`.
pub open spec fn digit(d: int) -> char {
    (d + 48) as char
}

/// Whether a character is one of `0` to `9`.
pub open spec fn is_digit(c: char) -> bool {
    '0' <= c <= '9'
}

/// The decimal text of an octet: one to three digits, no leading zero.
pub open spec fn decimal(n: u8) -> Seq<char> {
    if n < 10 {
        seq![digit(n as int)]
    } else if n < 100 {
        seq![digit(n as int / 10), digit(n as int % 10)]
    } else {
        seq![digit(n as int / 100), digit(n as int / 10 % 10), digit(n as int % 10)]
    }
}

/// The dotted-decimal text of an address, such as `192.168.1.100`.
pub open spec fn dotted(ip: Ipv4Addr) -> Seq<char> {
    decimal(ip.a) + seq!['.'] + decimal(ip.b) + seq!['.'] + decimal(ip.c) + seq!['.'] + decimal(
        ip.d,
    )
}

/// `s` holds the decimal text of `v` from `start` up to `end`, and the digits
/// stop there.
pub open spec fn octet_at(s: Seq<char>, start: int, v: u8, end: int) -> bool {
    &&& 0 <= start < end <= s.len()
    &&& s.subrange(start, end) == decimal(v)
    &&& (end == s.len() || !is_digit(s[end]))
}

/// At one place a text holds at most one octet.
pub proof fn lemma_octet_unique(s: Seq<char>, start: int, v1: u8, e1: int, v2: u8, e2: int)
    requires
        octet_at(s, start, v1, e1),
        octet_at(s, start, v2, e2),
    ensures
        v1 == v2,
        e1 == e2,
{
    let d1 = s.subrange(start, e1);
    let d2 = s.subrange(start, e2);
    assert(forall|k: int| 0 <= k < d1.len() ==> d1[k] == s[start + k]);
    assert(forall|k: int| 0 <= k < d2.len() ==> d2[k] == s[start + k]);
    assert(forall|k: int| 0 <= k < d1.len() ==> is_digit(#[trigger] d1[k]));
    assert(forall|k: int| 0 <= k < d2.len() ==> is_digit(#[trigger] d2[k]));
    if e1 < e2 {
        assert(d2[e1 - start] == s[e1]);
    }
    if e2 < e1 {
        assert(d1[e2 - start] == s[e2]);
    }
    assert(d1 =~= d2);
    assert(d1[0] == d2[0]);
    if d1.len() >= 2 {
        assert(d1[1] == d2[1]);
    }
    if d1.len() >= 3 {
        assert(d1[2] == d2[2]);
    }
}

/// Where the four octets and the three dots of a dotted text stand.
pub proof fn lemma_dotted_shape(ip: Ipv4Addr)
    ensures
        ({
            let s = dotted(ip);
            let e0 = decimal(ip.a).len() as int;
            let e1 = e0 + 1 + decimal(ip.b).len();
            let e2 = e1 + 1 + decimal(ip.c).len();
            let e3 = e2 + 1 + decimal(ip.d).len();
            &&& octet_at(s, 0, ip.a, e0)
            &&& s[e0] == '.'
            &&& octet_at(s, e0 + 1, ip.b, e1)
            &&& s[e1] == '.'
            &&& octet_at(s, e1 + 1, ip.c, e2)
            &&& s[e2] == '.'
            &&& octet_at(s, e2 + 1, ip.d, e3)
            &&& e3 == s.len()
        }),
{
    let s = dotted(ip);
    let e0 = decimal(ip.a).len() as int;
    let e1 = e0 + 1 + decimal(ip.b).len();
    let e2 = e1 + 1 + decimal(ip.c).len();
    let e3 = e2 + 1 + decimal(ip.d).len();
    assert(s.subrange(0, e0) =~= decimal(ip.a));
    assert(s.subrange(e0 + 1, e1) =~= decimal(ip.b));
    assert(s.subrange(e1 + 1, e2) =~= decimal(ip.c));
    assert(s.subrange(e2 + 1, e3) =~= decimal(ip.d));
}

/// Two addresses with the same dotted text are the same address.
pub proof fn lemma_dotted_injective(x: Ipv4Addr, y: Ipv4Addr)
    requires
        dotted(x) == dotted(y),
    ensures
        x == y,
{
    let s = dotted(x);
    lemma_dotted_shape(x);
    lemma_dotted_shape(y);
    let x0 = decimal(x.a).len() as int;
    let y0 = decimal(y.a).len() as int;
    lemma_octet_unique(s, 0, x.a, x0, y.a, y0);
    let x1 = x0 + 1 + decimal(x.b).len();
    let y1 = y0 + 1 + decimal(y.b).len();
    lemma_octet_unique(s, x0 + 1, x.b, x1, y.b, y1);
    let x2 = x1 + 1 + decimal(x.c).len();
    let y2 = y1 + 1 + decimal(y.c).len();
    lemma_octet_unique(s, x1 + 1, x.c, x2, y.c, y2);
    let x3 = x2 + 1 + decimal(x.d).len();
    let y3 = y2 + 1 + decimal(y.d).len();
    lemma_octet_unique(s, x2 + 1, x.d, x3, y.d, y3);
}

/// The address that a text spells, if it spells one.
pub open spec fn parse_dotted(s: Seq<char>) -> Option<Ipv4Addr> {
    if exists|ip: Ipv4Addr| dotted(ip) == s {
        Some(choose|ip: Ipv4Addr| dotted(ip) == s)
    } else {
        None
    }
}

/// Reading back the dotted text of an address gives that address.
pub proof fn lemma_parse_dotted_roundtrip(ip: Ipv4Addr)
    ensures
        parse_dotted(dotted(ip)) == Some(ip),
{
    let found = choose|other: Ipv4Addr| dotted(other) == dotted(ip);
    lemma_dotted_injective(found, ip);
}

/// A text that spells an address is the dotted text of the address it spells.
pub proof fn lemma_parse_dotted_sound(s: Seq<char>)
    ensures
        parse_dotted(s) matches Some(ip) ==> dotted(ip) == s,
{
}

/// A text that spells `ip` and holds an octet at its start holds the first
/// octet of `ip` there, with a dot and the second octet behind it.
proof fn lemma_first_octet(s: Seq<char>, ip: Ipv4Addr, a: u8, e0: int)
    requires
        s == dotted(ip),
        octet_at(s, 0, a, e0),
    ensures
        a == ip.a,
        e0 == decimal(ip.a).len(),
        e0 < s.len(),
        s[e0] == '.',
        octet_at(s, e0 + 1, ip.b, e0 + 1 + decimal(ip.b).len()),
{
    lemma_dotted_shape(ip);
    lemma_octet_unique(s, 0, a, e0, ip.a, decimal(ip.a).len() as int);
}

/// The same, one octet on.
proof fn lemma_second_octet(s: Seq<char>, ip: Ipv4Addr, e0: int, b: u8, e1: int)
    requires
        s == dotted(ip),
        e0 == decimal(ip.a).len(),
        octet_at(s, e0 + 1, b, e1),
    ensures
        b == ip.b,
        e1 == e0 + 1 + decimal(ip.b).len(),
        e1 < s.len(),
        s[e1] == '.',
        octet_at(s, e1 + 1, ip.c, e1 + 1 + decimal(ip.c).len()),
{
    lemma_dotted_shape(ip);
    lemma_octet_unique(s, e0 + 1, b, e1, ip.b, e0 + 1 + decimal(ip.b).len());
}

/// The same, two octets on.
proof fn lemma_third_octet(s: Seq<char>, ip: Ipv4Addr, e1: int, c: u8, e2: int)
    requires
        s == dotted(ip),
        e1 == decimal(ip.a).len() + 1 + decimal(ip.b).len(),
        octet_at(s, e1 + 1, c, e2),
    ensures
        c == ip.c,
        e2 == e1 + 1 + decimal(ip.c).len(),
        e2 < s.len(),
        s[e2] == '.',
        octet_at(s, e2 + 1, ip.d, e2 + 1 + decimal(ip.d).len()),
{
    lemma_dotted_shape(ip);
    lemma_octet_unique(s, e1 + 1, c, e2, ip.c, e1 + 1 + decimal(ip.c).len());
}

/// The last octet of a text that spells `ip` ends the text.
proof fn lemma_fourth_octet(s: Seq<char>, ip: Ipv4Addr, e2: int, d: u8, e3: int)
    requires
        s == dotted(ip),
        e2 == decimal(ip.a).len() + 1 + decimal(ip.b).len() + 1 + decimal(ip.c).len(),
        octet_at(s, e2 + 1, d, e3),
    ensures
        d == ip.d,
        e3 == s.len(),
{
    lemma_dotted_shape(ip);
    lemma_octet_unique(s, e2 + 1, d, e3, ip.d, e2 + 1 + decimal(ip.d).len());
}

/// A text made of four octets with a dot between them spells the address of
/// those octets.
proof fn lemma_octets_spell(s: Seq<char>, ip: Ipv4Addr, e0: int, e1: int, e2: int)
    requires
        octet_at(s, 0, ip.a, e0),
        e0 < s.len() && s[e0] == '.',
        octet_at(s, e0 + 1, ip.b, e1),
        e1 < s.len() && s[e1] == '.',
        octet_at(s, e1 + 1, ip.c, e2),
        e2 < s.len() && s[e2] == '.',
        octet_at(s, e2 + 1, ip.d, s.len() as int),
    ensures
        s == dotted(ip),
{
    let n = s.len() as int;
    assert(s =~= s.subrange(0, e0) + seq!['.'] + s.subrange(e0 + 1, e1) + seq!['.'] + s.subrange(
        e1 + 1,
        e2,
    ) + seq!['.'] + s.subrange(e2 + 1, n));
}

fn digit_text(d: u8) -> (text: &'static str)
    requires
        d < 10,
    ensures
        text@ == seq![digit(d as int)],
{
    proof {
        reveal_strlit("0");
        reveal_strlit("1");
        reveal_strlit("2");
        reveal_strlit("3");
        reveal_strlit("4");
        reveal_strlit("5");
        reveal_strlit("6");
        reveal_strlit("7");
        reveal_strlit("8");
        reveal_strlit("9");
    }
    let text = if d == 0 {
        "0"
    } else if d == 1 {
        "1"
    } else if d == 2 {
        "2"
    } else if d == 3 {
        "3"
    } else if d == 4 {
        "4"
    } else if d == 5 {
        "5"
    } else if d == 6 {
        "6"
    } else if d == 7 {
        "7"
    } else if d == 8 {
        "8"
    } else {
        "9"
    };
    assert(text@ =~= seq![digit(d as int)]);
    text
}

fn push_decimal(text: &mut String, n: u8)
    ensures
        final(text)@ == old(text)@ + decimal(n),
{
    if n >= 100 {
        text.append(digit_text(n / 100));
    }
    if n >= 10 {
        text.append(digit_text(n / 10 % 10));
    }
    text.append(digit_text(n % 10));
    assert(text@ =~= old(text)@ + decimal(n));
}

/// Reads one octet of `text` at `start`, where `len` is the length of `text`
/// in characters.
fn read_octet(text: &str, len: usize, start: usize) -> (r: Option<(u8, usize)>)
    requires
        len == text@.len(),
        start <= len,
    ensures
        match r {
            Some((v, end)) => octet_at(text@, start as int, v, end as int),
            None => forall|v: u8, end: int| !octet_at(text@, start as int, v, end),
        },
{
    let ghost s = text@;
    let ghost st = start as int;
    if start >= len {
        return None;
    }
    let c0 = text.get_char(start);
    if !('0' <= c0 && c0 <= '9') {
        assert forall|v: u8, end: int| !octet_at(s, st, v, end) by {
            if octet_at(s, st, v, end) {
                assert(s.subrange(st, end)[0] == s[st]);
            }
        }
        return None;
    }
    let d0: u8 = (c0 as u8) - 48;
    let more1 = if len - start > 1 {
        let c = text.get_char(start + 1);
        '0' <= c && c <= '9'
    } else {
        false
    };
    if !more1 {
        assert(s.subrange(st, st + 1) =~= decimal(d0));
        return Some((d0, start + 1));
    }
    if d0 == 0 {
        assert forall|v: u8, end: int| !octet_at(s, st, v, end) by {
            if octet_at(s, st, v, end) {
                let t = s.subrange(st, end);
                assert(t.len() == decimal(v).len());
                assert(t[0] == s[st]);
                assert(decimal(v)[0] == '0');
                assert(v == 0);
                assert(end == st + 1);
            }
        }
        return None;
    }
    let c1 = text.get_char(start + 1);
    let d1: u8 = (c1 as u8) - 48;
    let more2 = if len - start > 2 {
        let c = text.get_char(start + 2);
        '0' <= c && c <= '9'
    } else {
        false
    };
    if !more2 {
        let v: u8 = d0 * 10 + d1;
        assert(s.subrange(st, st + 2) =~= decimal(v));
        return Some((v, start + 2));
    }
    let c2 = text.get_char(start + 2);
    let d2: u8 = (c2 as u8) - 48;
    let more3 = if len - start > 3 {
        let c = text.get_char(start + 3);
        '0' <= c && c <= '9'
    } else {
        false
    };
    let wide: u16 = (d0 as u16) * 100 + (d1 as u16) * 10 + (d2 as u16);
    if more3 || wide > 255 {
        assert forall|v: u8, end: int| !octet_at(s, st, v, end) by {
            if octet_at(s, st, v, end) {
                let t = s.subrange(st, end);
                assert(t.len() == decimal(v).len());
                assert(t[0] == s[st]);
                if end == st + 1 {
                    assert(is_digit(s[end]));
                } else if end == st + 2 {
                    assert(is_digit(s[end]));
                } else {
                    assert(end == st + 3);
                    assert(t[1] == s[st + 1]);
                    assert(t[2] == s[st + 2]);
                    assert(decimal(v)[0] == digit(d0 as int));
                    assert(decimal(v)[1] == digit(d1 as int));
                    assert(decimal(v)[2] == digit(d2 as int));
                    assert(v as int / 100 == d0);
                    assert(v as int / 10 % 10 == d1);
                    assert(v as int % 10 == d2);
                    assert(v as int == wide as int);
                }
            }
        }
        return None;
    }
    let v: u8 = wide as u8;
    assert(s.subrange(st, st + 3) =~= decimal(v));
    Some((v, start + 3))
}

/// Whether `text` has the character `.` at `at`.
fn dot_at(text: &str, len: usize, at: usize) -> (r: bool)
    requires
        len == text@.len(),
    ensures
        r == (at < len && text@[at as int] == '.'),
{
    at < len && text.get_char(at) == '.'
}

impl Ipv4Addr {
    /// The address `a.b.c.d`.
    pub fn new(a: u8, b: u8, c: u8, d: u8) -> (ip: Ipv4Addr)
        ensures
            ip == (Ipv4Addr { a, b, c, d }),
    {
        Ipv4Addr { a, b, c, d }
    }

    /// The address whose octets are `octets`, leftmost first.
    pub fn from_octets(octets: [u8; 4]) -> (ip: Ipv4Addr)
        ensures
            ip == (Ipv4Addr { a: octets[0], b: octets[1], c: octets[2], d: octets[3] }),
    {
        Ipv4Addr { a: octets[0], b: octets[1], c: octets[2], d: octets[3] }
    }

    /// The four octets, leftmost first.
    pub fn octets(&self) -> (octets: [u8; 4])
        ensures
            octets@ == seq![self.a, self.b, self.c, self.d],
    {
        let octets = [self.a, self.b, self.c, self.d];
        assert(octets@ =~= seq![self.a, self.b, self.c, self.d]);
        octets
    }

    /// The dotted-decimal text of the address.
    pub fn to_string(&self) -> (text: String)
        ensures
            text@ == dotted(*self),
    {
        let mut text = String::new();
        push_decimal(&mut text, self.a);
        text.append(".");
        push_decimal(&mut text, self.b);
        text.append(".");
        push_decimal(&mut text, self.c);
        text.append(".");
        push_decimal(&mut text, self.d);
        proof {
            reveal_strlit(".");
            assert("."@ =~= seq!['.']);
            assert(text@ =~= dotted(*self));
        }
        text
    }

    /// Reads an address from its dotted-decimal text: four octets from 0 to
    /// 255, each written without a leading zero, with a dot between them and
    /// nothing else.
    pub fn parse(text: &str) -> (r: Option<Ipv4Addr>)
        ensures
            r == parse_dotted(text@),
            match r {
                Some(ip) => text@ == dotted(ip),
                None => forall|ip: Ipv4Addr| text@ != dotted(ip),
            },
    {
        let ghost s = text@;
        let len: usize = text.unicode_len();
        let (a, e0) = match read_octet(text, len, 0) {
            Some(found) => found,
            None => {
                assert forall|ip: Ipv4Addr| s != dotted(ip) by {
                    lemma_dotted_shape(ip);
                }
                return None;
            },
        };
        if !dot_at(text, len, e0) {
            assert forall|ip: Ipv4Addr| s != dotted(ip) by {
                if s == dotted(ip) {
                    lemma_first_octet(s, ip, a, e0 as int);
                }
            }
            return None;
        }
        let (b, e1) = match read_octet(text, len, e0 + 1) {
            Some(found) => found,
            None => {
                assert forall|ip: Ipv4Addr| s != dotted(ip) by {
                    if s == dotted(ip) {
                        lemma_first_octet(s, ip, a, e0 as int);
                    }
                }
                return None;
            },
        };
        if !dot_at(text, len, e1) {
            assert forall|ip: Ipv4Addr| s != dotted(ip) by {
                if s == dotted(ip) {
                    lemma_first_octet(s, ip, a, e0 as int);
                    lemma_second_octet(s, ip, e0 as int, b, e1 as int);
                }
            }
            return None;
        }
        let (c, e2) = match read_octet(text, len, e1 + 1) {
            Some(found) => found,
            None => {
                assert forall|ip: Ipv4Addr| s != dotted(ip) by {
                    if s == dotted(ip) {
                        lemma_first_octet(s, ip, a, e0 as int);
                        lemma_second_octet(s, ip, e0 as int, b, e1 as int);
                    }
                }
                return None;
            },
        };
        if !dot_at(text, len, e2) {
            assert forall|ip: Ipv4Addr| s != dotted(ip) by {
                if s == dotted(ip) {
                    lemma_first_octet(s, ip, a, e0 as int);
                    lemma_second_octet(s, ip, e0 as int, b, e1 as int);
                    lemma_third_octet(s, ip, e1 as int, c, e2 as int);
                }
            }
            return None;
        }
        let (d, e3) = match read_octet(text, len, e2 + 1) {
            Some(found) => found,
            None => {
                assert forall|ip: Ipv4Addr| s != dotted(ip) by {
                    if s == dotted(ip) {
                        lemma_first_octet(s, ip, a, e0 as int);
                        lemma_second_octet(s, ip, e0 as int, b, e1 as int);
                        lemma_third_octet(s, ip, e1 as int, c, e2 as int);
                    }
                }
                return None;
            },
        };
        if e3 != len {
            assert forall|ip: Ipv4Addr| s != dotted(ip) by {
                if s == dotted(ip) {
                    lemma_first_octet(s, ip, a, e0 as int);
                    lemma_second_octet(s, ip, e0 as int, b, e1 as int);
                    lemma_third_octet(s, ip, e1 as int, c, e2 as int);
                    lemma_fourth_octet(s, ip, e2 as int, d, e3 as int);
                }
            }
            return None;
        }
        let ip = Ipv4Addr { a, b, c, d };
        proof {
            lemma_octets_spell(s, ip, e0 as int, e1 as int, e2 as int);
            lemma_parse_dotted_roundtrip(ip);
        }
        Some(ip)
    }
}

} // verus!
