//! Port parsing and the port-probing order.
//!
//! The socket work itself (binding, resolving) happens outside this crate;
//! here live the decisions: parsing a `start-end` port range with the exact
//! messages callers see, parsing a single port, and the wrap-around order in
//! which a free port is searched for.

use vstd::prelude::*;
use vstd::string::StringExecFns;
use vstd::string::StringSliceAdditionalSpecFns;
use vstd::utf8::is_ascii_chars;
use vstd::utf8::is_char_boundary;
use vstd::utf8::valid_utf8;
use vstd::prelude::View;

verus! {

/// An inclusive-exclusive pair of ports.
pub type PortRange = (u16, u16);

/// The default dynamic port range of a validator.
pub const VALIDATOR_PORT_RANGE_STR: &'static str = "8000-10000";

/// Socket construction knobs handed to the binding glue.
#[derive(Clone, Copy, Debug, Default)]
pub struct SocketConfiguration {
    /// Whether several sockets may share the port.
    pub reuseport: bool,
    pub recv_buffer_size: Option<usize>,
    pub send_buffer_size: Option<usize>,
    pub non_blocking: bool,
}

/// The record of a node's bound sockets.
#[derive(Debug)]
pub struct Sockets {}

/// Whether `c` is a decimal digit.
pub open spec fn spec_is_digit(c: char) -> bool {
    48 <= c as int <= 57
}

/// The number the decimal digits of `s` spell.
pub open spec fn spec_digits_value(s: Seq<char>) -> int
    decreases s.len(),
{
    if s.len() == 0 {
        0
    } else {
        spec_digits_value(s.drop_last()) * 10 + (s.last() as int - 48)
    }
}

/// The digits of a port, the optional leading plus sign dropped.
pub open spec fn spec_u16_body(s: Seq<char>) -> Seq<char> {
    if s.len() > 0 && s[0] == '+' {
        s.drop_first()
    } else {
        s
    }
}

/// How an unsigned 16-bit port parses: an optional leading plus sign, then
/// at least one digit, all digits, within range.
pub open spec fn spec_parse_u16(s: Seq<char>) -> Option<u16> {
    let body = spec_u16_body(s);
    if body.len() >= 1 && (forall|i: int| 0 <= i < body.len() ==> spec_is_digit(#[trigger] body[i]))
        && spec_digits_value(body) <= u16::MAX {
        Some(spec_digits_value(body) as u16)
    } else {
        None
    }
}

/// How many dashes `s` holds.
pub open spec fn spec_dash_count(s: Seq<char>) -> int
    decreases s.len(),
{
    if s.len() == 0 {
        0int
    } else {
        spec_dash_count(s.drop_last()) + if s.last() == '-' {
            1int
        } else {
            0int
        }
    }
}

/// Index of the first dash, or the length when there is none.
pub open spec fn spec_first_dash(s: Seq<char>) -> int
    decreases s.len(),
{
    if s.len() == 0 {
        0int
    } else if s[0] == '-' {
        0int
    } else {
        1 + spec_first_dash(s.drop_first())
    }
}

/// How a port range parses, message for message: exactly one dash, both
/// sides ports, end at least start.
pub open spec fn spec_parse_port_range(s: Seq<char>) -> Result<(u16, u16), Seq<char>> {
    if spec_dash_count(s) != 1 {
        Err("Expected range format: port1-port2"@)
    } else {
        let i = spec_first_dash(s);
        let a = s.subrange(0, i);
        let b = s.subrange(i + 1, s.len() as int);
        match (spec_parse_u16(a), spec_parse_u16(b)) {
            (None, _) => Err("Error parsing start port: "@ + a),
            (Some(pa), None) => Err("Error parsing end port: "@ + b),
            (Some(pa), Some(pb)) => if pb < pa {
                Err("End port "@ + b + " is less than start port "@ + a)
            } else {
                Ok((pa, pb))
            },
        }
    }
}

/// An ASCII character's code is its byte.
proof fn lemma_ascii_byte_char(c: char, b: u8)
    requires
        c as u8 == b,
        (c as nat) < 128,
    ensures
        c as int == b as int,
{
}

/// An index holding an ASCII byte always falls on a character boundary,
/// whatever the rest of the string holds: a continuation byte never has the
/// high bit clear.  The index after it is a boundary too.
proof fn lemma_boundary_at_ascii_byte(bytes: Seq<u8>, i: int)
    requires
        valid_utf8(bytes),
        0 <= i < bytes.len(),
        bytes[i] < 0x80,
    ensures
        is_char_boundary(bytes, i),
        is_char_boundary(bytes, i + 1),
    decreases bytes.len(),
{
    assert(vstd::utf8::valid_first_scalar(bytes));
    let l: int = vstd::utf8::length_of_first_scalar(bytes);
    assert(1 <= l <= 4);
    let pop = vstd::utf8::pop_first_scalar(bytes);
    assert(pop =~= bytes.subrange(l, bytes.len() as int));
    assert(valid_utf8(pop));
    if i == 0 {
        assert(vstd::utf8::is_leading_byte_width_1(bytes[0]));
        assert(l == 1);
        assert(is_char_boundary(bytes, 1) == is_char_boundary(pop, 0));
        assert(is_char_boundary(pop, 0));
    } else if i < l {
        assert(vstd::utf8::is_continuation_byte(bytes[i]));
        assert(false);
    } else {
        assert(pop[i - l] == bytes[i]);
        lemma_boundary_at_ascii_byte(pop, i - l);
        assert(is_char_boundary(bytes, i) == is_char_boundary(pop, i - l));
        assert(is_char_boundary(bytes, i + 1) == is_char_boundary(pop, i + 1 - l));
    }
}

/// The first dash is where the bytes first show one.
proof fn lemma_first_dash_at(s: Seq<char>, j: int)
    requires
        0 <= j < s.len(),
        s[j] == '-',
        forall|k: int| 0 <= k < j ==> s[k] != '-',
    ensures
        spec_first_dash(s) == j,
    decreases j,
{
    if j > 0 {
        lemma_first_dash_at(s.drop_first(), j - 1);
    }
}

/// A string with a non-digit character somewhere in its body never parses.
proof fn lemma_parse_none(s: Seq<char>, j: int)
    requires
        0 <= j < s.len(),
        !spec_is_digit(s[j]),
        !(j == 0 && s[0] == '+'),
    ensures
        spec_parse_u16(s) is None,
{
    let body = spec_u16_body(s);
    let i0: int = if s.len() > 0 && s[0] == '+' {
        j - 1
    } else {
        j
    };
    assert(body[i0] == s[j]);
    assert(!spec_is_digit(body[i0]));
    assert(!(forall|i: int| 0 <= i < body.len() ==> spec_is_digit(#[trigger] body[i])));
}

/// Parses an unsigned 16-bit value the way the standard parser does:
/// optional leading plus, then decimal digits, within range.
pub fn parse_u16_str(p: &str) -> (r: Option<u16>)
    ensures
        r == spec_parse_u16(p@),
{
    let cs: Ghost<Seq<char>> = Ghost(p@);
    if !p.is_ascii() {
        proof {
            assert(!is_ascii_chars(cs@));
            let j = choose|j: int|
                0 <= j < cs@.len() && !('\0' <= #[trigger] cs@[j] <= '\u{7f}');
            if j == 0 && cs@[0] == '+' {
                assert(false);
            } else {
                assert(!spec_is_digit(cs@[j]));
                lemma_parse_none(cs@, j);
            }
        }
        return None;
    }
    let bytes: &[u8] = p.as_bytes();
    proof {
        vstd::string::is_ascii_spec_bytes(p);
        vstd::utf8::is_ascii_chars_nat_bound(cs@);
    }
    let blen: usize = bytes.len();
    let start: usize = if blen > 0 && bytes[0] == 43 {
        1
    } else {
        0
    };
    proof {
        if blen > 0 {
            assert(bytes@[0] == cs@[0] as u8);
        }
    }
    if start == blen {
        proof {
            assert(spec_u16_body(cs@).len() == 0);
        }
        return None;
    }
    let ghost body: Seq<char> = spec_u16_body(cs@);
    proof {
        assert(body.len() == blen - start);
        assert(forall|k: int|
            0 <= k < body.len() ==> #[trigger] body[k] == cs@[k + start]);
    }
    let mut val: u32 = 0;
    let mut over: bool = false;
    let mut j: usize = start;
    while j < blen
        invariant
            start <= j <= blen,
            blen == bytes@.len(),
            bytes@.len() == cs@.len(),
            cs@ == p@,
            body == spec_u16_body(cs@),
            body.len() == blen - start,
            start <= 1,
            forall|k: int| 0 <= k < body.len() ==> #[trigger] body[k] == cs@[k + start],
            forall|k: int| 0 <= k < cs@.len() ==> #[trigger] bytes@[k] == cs@[k] as u8,
            forall|k: int| 0 <= k < cs@.len() ==> (#[trigger] cs@[k] as nat) < 128,
            forall|k: int| 0 <= k < j - start ==> spec_is_digit(#[trigger] body[k]),
            !over ==> val == spec_digits_value(body.subrange(0, j - start)),
            !over ==> val <= 65535,
            over ==> spec_digits_value(body.subrange(0, j - start)) > 65535,
            over ==> 65536 <= val <= 655369,
        decreases blen - j,
    {
        let b: u8 = bytes[j];
        if b < 48 || b > 57 {
            proof {
                assert(body[j - start] == cs@[j as int]);
                assert(cs@[j as int] as u8 == b);
                lemma_ascii_byte_char(cs@[j as int], b);
                assert(!spec_is_digit(body[j - start]));
                lemma_parse_none(cs@, j as int);
            }
            return None;
        }
        let d: u32 = (b - 48) as u32;
        proof {
            assert(body.subrange(0, j + 1 - start).drop_last() =~= body.subrange(0, j - start));
            assert(body.subrange(0, j + 1 - start).last() == body[j - start]);
            assert(body[j - start] == cs@[j as int]);
            assert(cs@[j as int] as u8 == b);
            lemma_ascii_byte_char(cs@[j as int], b);
            assert(body[j - start] as int == b as int);
        }
        if !over {
            val = val * 10 + d;
            if val > 65535 {
                over = true;
            }
        } else {
            proof {
                let prev = spec_digits_value(body.subrange(0, j - start));
                assert(spec_digits_value(body.subrange(0, j + 1 - start)) == prev * 10 + (
                body[j - start] as int - 48));
                assert(prev * 10 >= prev + prev) by (nonlinear_arith)
                    requires
                        prev > 65535,
                ;
            }
        }
        j = j + 1;
    }
    proof {
        assert(body.subrange(0, (blen - start) as int) =~= body);
    }
    if over {
        None
    } else {
        proof {
            assert(spec_digits_value(body) == val);
        }
        Some(val as u16)
    }
}

/// Parses a `start-end` port range, reporting malformed input with the
/// exact message the caller displays: the format message for anything but
/// exactly one dash, else the offending side echoed back in its parse
/// error.  The contract pins every result for ASCII input; other input
/// follows the same byte-level path (a dash byte never occurs inside a
/// multi-byte character), its sides echoed the same way.
pub fn parse_port_range(port_range: &str) -> (r: Result<(u16, u16), String>)
    ensures
        is_ascii_chars(port_range@) ==> ({
            &&& (spec_parse_port_range(port_range@) matches Ok(p) ==> r matches Ok(q) && q == p)
            &&& (spec_parse_port_range(port_range@) matches Err(em) ==> r matches Err(m) && m@
                == em)
        }),
{
    let cs: Ghost<Seq<char>> = Ghost(port_range@);
    let ascii: bool = port_range.is_ascii();
    let bytes: &[u8] = port_range.as_bytes();
    proof {
        vstd::string::is_ascii_spec_bytes(port_range);
        vstd::utf8::is_ascii_chars_nat_bound(cs@);
        vstd::utf8::encode_utf8_valid_utf8(cs@);
    }
    let blen: usize = bytes.len();
    let mut count: usize = 0;
    let mut first: usize = blen;
    let mut j: usize = 0;
    while j < blen
        invariant
            j <= blen,
            blen == bytes@.len(),
            bytes@ == port_range.spec_bytes(),
            cs@ == port_range@,
            ascii == is_ascii_chars(cs@),
            ascii ==> bytes@.len() == cs@.len(),
            ascii ==> (forall|k: int| 0 <= k < cs@.len() ==> #[trigger] bytes@[k] == cs@[k] as u8),
            ascii ==> (forall|k: int| 0 <= k < cs@.len() ==> (#[trigger] cs@[k] as nat) < 128),
            ascii ==> count == spec_dash_count(cs@.subrange(0, j as int)),
            count <= j,
            count == 0 ==> first == blen,
            count > 0 ==> first < j && bytes@[first as int] == 45,
            ascii ==> (count == 0 ==> (forall|k: int| 0 <= k < j ==> cs@[k] != '-')),
            ascii ==> (count > 0 ==> cs@[first as int] == '-' && (forall|k: int|
                0 <= k < first ==> cs@[k] != '-')),
        decreases blen - j,
    {
        proof {
            if ascii {
                assert(cs@.subrange(0, j + 1).drop_last() =~= cs@.subrange(0, j as int));
                assert(cs@.subrange(0, j + 1).last() == cs@[j as int]);
                assert(bytes@[j as int] == cs@[j as int] as u8);
            }
        }
        if bytes[j] == 45 {
            proof {
                if ascii {
                    lemma_ascii_byte_char(cs@[j as int], 45);
                    assert(cs@[j as int] == '-');
                }
            }
            if count == 0 {
                first = j;
            }
            count = count + 1;
        } else {
            proof {
                if ascii && cs@[j as int] == '-' {
                    lemma_ascii_byte_char(cs@[j as int], bytes@[j as int]);
                    assert(false);
                }
            }
        }
        j = j + 1;
    }
    proof {
        if ascii {
            assert(cs@.subrange(0, blen as int) =~= cs@);
        }
    }
    if count != 1 {
        return Err("Expected range format: port1-port2".to_owned());
    }
    proof {
        if ascii {
            lemma_first_dash_at(cs@, first as int);
        }
        lemma_boundary_at_ascii_byte(port_range.spec_bytes(), first as int);
    }
    let pair: (&str, &str) = port_range.split_at(first);
    let a_str: &str = pair.0;
    let rest: &str = pair.1;
    proof {
        assert(rest.spec_bytes() =~= port_range.spec_bytes().subrange(
            first as int,
            blen as int,
        ));
        vstd::utf8::valid_utf8_split(port_range.spec_bytes(), first as int);
        assert(rest.spec_bytes()[0] == 45);
        lemma_boundary_at_ascii_byte(rest.spec_bytes(), 0);
    }
    let pair2: (&str, &str) = rest.split_at(1);
    let b_str: &str = pair2.1;
    let ghost a_chars: Seq<char> = cs@.subrange(0, first as int);
    let ghost b_chars: Seq<char> = cs@.subrange(first + 1, cs@.len() as int);
    proof {
        if ascii {
            lemma_str_view_from_bytes(a_str, a_chars);
            assert(b_str.spec_bytes() =~= port_range.spec_bytes().subrange(
                first + 1,
                blen as int,
            ));
            lemma_str_view_from_bytes(b_str, b_chars);
        }
    }
    let start_port: Option<u16> = parse_u16_str(a_str);
    let end_port: Option<u16> = parse_u16_str(b_str);
    match (start_port, end_port) {
        (None, _) => Err("Error parsing start port: ".to_owned().concat(a_str)),
        (Some(_), None) => Err("Error parsing end port: ".to_owned().concat(b_str)),
        (Some(pa), Some(pb)) => {
            if pb < pa {
                Err(
                    "End port ".to_owned().concat(b_str).concat(
                        " is less than start port ",
                    ).concat(a_str),
                )
            } else {
                Ok((pa, pb))
            }
        },
    }
}

/// A string whose bytes are the ASCII codes of `chars` reads back as
/// exactly those characters.
proof fn lemma_str_view_from_bytes(s: &str, chars: Seq<char>)
    requires
        is_ascii_chars(chars),
        s.spec_bytes() =~= Seq::new(chars.len(), |i: int| chars[i] as u8),
    ensures
        s@ == chars,
{
    vstd::utf8::is_ascii_chars_encode_utf8(chars);
    assert(vstd::utf8::encode_utf8(chars) =~= s.spec_bytes());
    vstd::utf8::encode_utf8_decode_utf8(chars);
    vstd::utf8::encode_utf8_decode_utf8(s@);
}

/// Parses a single port number, reporting the offending input back.
pub fn parse_port_validator(port: &str) -> (r: Result<u16, String>)
    ensures
        r matches Ok(p) ==> spec_parse_u16(port@) == Some(p),
        r is Err <==> spec_parse_u16(port@) is None,
        r matches Err(m) ==> m@ == "Unable to parse "@ + port@,
{
    match parse_u16_str(port) {
        Some(p) => Ok(p),
        None => Err("Unable to parse ".to_owned().concat(port)),
    }
}

/// Relies on rand::random_range: a value uniform in the half-open range,
/// which must be nonempty.  Nothing is assumed of the value beyond its
/// bounds.
#[verifier::external_body]
fn random_in(lo: u16, hi: u16) -> (r: u16)
    requires
        lo < hi,
    ensures
        lo <= r < hi,
{
    rand::random_range(lo..hi)
}

/// Whether `r` walks the range from offset `off`, wrapping at the end.
pub open spec fn is_rotation(r: Seq<u16>, lo: u16, hi: u16, off: int) -> bool {
    forall|k: int| 0 <= k < r.len() ==> #[trigger] r[k] == lo + ((off + k) % (hi - lo))
}

/// The order in which free ports are probed: starting from a random point
/// of the range, then sequentially with wrap-around, visiting every port of
/// the range exactly once.
pub fn port_search_order(range: PortRange) -> (r: Vec<u16>)
    requires
        range.0 < range.1,
    ensures
        r@.len() == range.1 - range.0,
        exists|off: int| 0 <= off < range.1 - range.0 && #[trigger] is_rotation(
            r@,
            range.0,
            range.1,
            off,
        ),
        forall|k1: int, k2: int| 0 <= k1 < k2 < r@.len() ==> r@[k1] != r@[k2],
{
    let lo: u16 = range.0;
    let hi: u16 = range.1;
    let size: u16 = hi - lo;
    let start: u16 = random_in(lo, hi);
    let off: u16 = start - lo;
    let mut out: Vec<u16> = Vec::new();
    let mut k: u16 = 0;
    while k < size
        invariant
            lo < hi,
            size == hi - lo,
            off < size,
            k <= size,
            out@.len() == k,
            forall|t: int|
                0 <= t < k ==> #[trigger] out@[t] == lo + ((off + t) % (hi - lo)),
        decreases size - k,
    {
        let pos: u32 = ((off as u32) + (k as u32)) % (size as u32);
        let port: u16 = lo + (pos as u16);
        proof {
            assert(0 <= (off as int + k as int) % (size as int) < size as int)
                by (nonlinear_arith)
                requires
                    size > 0,
            ;
            assert(pos as int == (off as int + k as int) % (size as int));
        }
        out.push(port);
        k = k + 1;
    }
    proof {
        assert(is_rotation(out@, range.0, range.1, off as int));
        assert forall|k1: int, k2: int| 0 <= k1 < k2 < out@.len() implies out@[k1] != out@[k2] by {
            lemma_rotation_distinct(off as int, k1, k2, (range.1 - range.0) as int);
        }
    }
    out
}

/// Two different steps of a wrap-around walk land on different offsets.
proof fn lemma_rotation_distinct(off: int, k1: int, k2: int, size: int)
    requires
        0 <= off < size,
        0 <= k1 < k2 < size,
    ensures
        (off + k1) % size != (off + k2) % size,
{
    let x1 = off + k1;
    let x2 = off + k2;
    assert(x1 % size == if x1 < size {
        x1
    } else {
        x1 - size
    }) by (nonlinear_arith)
        requires
            0 <= x1 < 2 * size,
            size > 0,
    ;
    assert(x2 % size == if x2 < size {
        x2
    } else {
        x2 - size
    }) by (nonlinear_arith)
        requires
            0 <= x2 < 2 * size,
            size > 0,
    ;
}

} // verus!
