//! Wire encoding of process identifiers.
//!
//! A [`Pid`](crate::pid::Pid) crosses process boundaries as a
//! protobuf-compatible record of three fields: `address` (string, tag 1),
//! `id` (string, tag 2) and `request_id` (32-bit unsigned, tag 3). A field
//! holding its default value (empty string, zero) is omitted. Integers and
//! field keys travel as base-128 varints, strings as a length prefix
//! followed by their UTF-8 bytes.
//!
//! [`encode_raw`](crate::pid::Pid::encode_raw) and
//! [`merge`](crate::pid::Pid::merge) are proved against the specification
//! functions here, and [`lemma_wire_round_trip`] shows that decoding an
//! encoded identifier restores it exactly.

use vstd::prelude::*;
use vstd::slice::{slice_subrange, slice_to_vec};
use vstd::utf8::{decode_utf8, encode_utf8, valid_utf8};

use crate::pid::{Pid, PidView};

verus! {

/// The largest value a varint may decode to: `u64::MAX`.
pub open spec fn varint_limit() -> nat {
    0x1_0000_0000_0000_0000
}

/// Base-128 little-endian encoding with a continuation bit: each byte
/// carries seven low-order bits, the high bit says that more follow.
pub open spec fn varint(n: nat) -> Seq<u8>
    decreases n,
{
    if n < 0x80 {
        seq![n as u8]
    } else {
        seq![(n % 0x80 + 0x80) as u8] + varint(n / 0x80)
    }
}

/// Length of the varint at the head of `s`: the distance to the first byte
/// without its continuation bit, or `-1` when no such byte exists.
pub open spec fn varint_size(s: Seq<u8>) -> int
    decreases s.len(),
{
    if s.len() == 0 {
        -1
    } else if s[0] < 0x80 {
        1
    } else {
        let t = varint_size(s.skip(1));
        if t < 0 {
            -1
        } else {
            1 + t
        }
    }
}

/// Value of the varint at the head of `s` (zero when `s` has no
/// terminated varint: pair this with [`varint_size`]).
pub open spec fn varint_value(s: Seq<u8>) -> nat
    decreases s.len(),
{
    if s.len() == 0 {
        0
    } else if s[0] < 0x80 {
        s[0] as nat
    } else {
        (s[0] - 0x80) as nat + 0x80 * varint_value(s.skip(1))
    }
}

/// The head of `s` is a varint the decoder accepts: terminated within ten
/// bytes and in range of `u64`.
pub open spec fn varint_ok(s: Seq<u8>) -> bool {
    1 <= varint_size(s) <= 10 && varint_value(s) < varint_limit()
}

/// The encoding of any value is one to ten bytes: continuation bytes, then
/// one final byte below `0x80`.
pub proof fn lemma_varint_shape(n: nat)
    requires
        n < varint_limit(),
    ensures
        1 <= varint(n).len() <= 10,
        varint(n)[varint(n).len() - 1] < 0x80,
        forall|i: int| 0 <= i < varint(n).len() - 1 ==> varint(n)[i] >= 0x80,
    decreases n,
{
    if n >= 0x80 {
        lemma_varint_shape(n / 0x80);
        assert(varint(n).len() <= 10) by {
            assert(varint_limit() <= vstd::arithmetic::power::pow(0x80, 10)) by {
                reveal_with_fuel(vstd::arithmetic::power::pow, 11);
            };
            lemma_varint_len_bound(n, 10);
        };
    }
}

/// Values below `128^k` encode in at most `k` bytes.
pub proof fn lemma_varint_len_bound(n: nat, k: nat)
    requires
        k >= 1,
        n < vstd::arithmetic::power::pow(0x80, k),
    ensures
        varint(n).len() <= k,
    decreases n,
{
    vstd::arithmetic::power::lemma_pow_positive(0x80, (k - 1) as nat);
    vstd::arithmetic::power::lemma_pow1(0x80);
    if n >= 0x80 {
        assert(k >= 2);
        assert(vstd::arithmetic::power::pow(0x80, k) == 0x80 * vstd::arithmetic::power::pow(
            0x80,
            (k - 1) as nat,
        )) by {
            reveal_with_fuel(vstd::arithmetic::power::pow, 2);
        };
        lemma_varint_len_bound(n / 0x80, (k - 1) as nat);
    }
}

/// Parsing a varint's encoding followed by anything yields the value back
/// and consumes exactly the encoding.
pub proof fn lemma_varint_parse(n: nat, rest: Seq<u8>)
    requires
        n < varint_limit(),
    ensures
        varint_size(varint(n) + rest) == varint(n).len(),
        varint_value(varint(n) + rest) == n,
        varint_ok(varint(n) + rest),
    decreases n,
{
    let s = varint(n) + rest;
    lemma_varint_shape(n);
    if n < 0x80 {
        assert(s[0] == n as u8);
    } else {
        lemma_varint_parse(n / 0x80, rest);
        assert(s.skip(1) =~= varint(n / 0x80) + rest);
        assert(s[0] == (n % 0x80 + 0x80) as u8);
        assert(varint_value(s) == (s[0] - 0x80) as nat + 0x80 * varint_value(s.skip(1)));
        assert((s[0] - 0x80) as nat == n % 0x80);
        assert(varint_value(s) == n % 0x80 + 0x80 * (n / 0x80));
        assert(n % 0x80 + 0x80 * (n / 0x80) == n) by {
            vstd::arithmetic::div_mod::lemma_fundamental_div_mod(n as int, 0x80);
        };
    }
}

/// What can go wrong while decoding an identifier from bytes.
#[derive(Debug, Clone, Copy, PartialEq, Eq, Structural)]
pub enum WireError {
    /// A varint ran past ten bytes, past the end of input, or past `u64`.
    InvalidVarint,
    /// A field key carried tag zero or a tag beyond 32 bits.
    InvalidTag,
    /// A field arrived with a wire type its tag does not take, or an
    /// unknown field used a wire type the format does not define.
    WrongWireType,
    /// A length prefix pointed past the end of the input.
    Truncated,
    /// A string field held bytes that are not UTF-8.
    InvalidUtf8,
}

/// Append the varint encoding of `n`.
pub fn encode_varint(buf: &mut Vec<u8>, n: u64)
    ensures
        final(buf)@ == old(buf)@ + varint(n as nat),
{
    let mut m: u64 = n;
    while m >= 0x80
        invariant
            buf@ + varint(m as nat) == old(buf)@ + varint(n as nat),
        decreases m,
    {
        let b: u8 = ((m % 0x80) + 0x80) as u8;
        proof {
            assert(varint(m as nat) == seq![b] + varint((m / 0x80) as nat));
            assert((buf@ + seq![b]) + varint((m / 0x80) as nat) =~= buf@ + varint(m as nat));
        }
        buf.push(b);
        m = m / 0x80;
    }
    proof {
        assert(varint(m as nat) =~= seq![m as u8]);
        assert((buf@ + seq![m as u8]) =~= buf@ + varint(m as nat));
    }
    buf.push(m as u8);
}

/// How many bytes the varint encoding of `n` takes.
pub fn encoded_len_varint(n: u64) -> (r: usize)
    ensures
        r == varint(n as nat).len(),
        1 <= r <= 10,
{
    proof {
        lemma_varint_shape(n as nat);
    }
    let mut m: u64 = n;
    let mut count: usize = 1;
    while m >= 0x80
        invariant
            1 <= count,
            count - 1 + varint(m as nat).len() == varint(n as nat).len(),
            varint(n as nat).len() <= 10,
        decreases m,
    {
        assert(varint(m as nat) == seq![(m % 0x80 + 0x80) as u8] + varint((m / 0x80) as nat));
        assert(varint((m / 0x80) as nat).len() >= 1);
        count = count + 1;
        m = m / 0x80;
    }
    assert(varint(m as nat).len() == 1);
    count
}

/// A varint is never zero bytes long: parsing finds one byte or fails.
proof fn lemma_varint_size_shape(s: Seq<u8>)
    ensures
        varint_size(s) == -1 || varint_size(s) >= 1,
{
}

/// A varint never reaches past the bytes that hold it.
pub proof fn lemma_varint_size_le(s: Seq<u8>)
    ensures
        varint_size(s) <= s.len(),
    decreases s.len(),
{
    if s.len() > 0 && s[0] >= 0x80 {
        lemma_varint_size_le(s.skip(1));
    }
}

/// Read the varint starting at `pos`, returning its value and the position
/// just past it.
pub fn decode_varint(bytes: &[u8], pos: usize) -> (r: Result<(u64, usize), WireError>)
    requires
        pos <= bytes@.len(),
    ensures
        varint_ok(bytes@.skip(pos as int)) ==> (r matches Ok(p) && p.0 == varint_value(
            bytes@.skip(pos as int),
        ) && p.1 == pos + varint_size(bytes@.skip(pos as int))),
        !varint_ok(bytes@.skip(pos as int)) ==> r == Err::<(u64, usize), WireError>(
            WireError::InvalidVarint,
        ),
{
    let ghost tail = bytes@.skip(pos as int);
    let mut value: u64 = 0;
    let mut pow_val: u64 = 1;
    let mut i: usize = 0;
    proof {
        vstd::arithmetic::power::lemma_pow0(0x80);
        assert(tail.skip(0) =~= tail);
    }
    loop
        invariant
            pos <= bytes@.len(),
            tail == bytes@.skip(pos as int),
            0 <= i <= 9,
            i <= tail.len(),
            pos + i <= usize::MAX,
            pow_val == vstd::arithmetic::power::pow(0x80, i as nat),
            pow_val <= 0x8000_0000_0000_0000,
            value < pow_val,
            varint_size(tail.skip(i as int)) >= 0 ==> varint_size(tail) == i + varint_size(
                tail.skip(i as int),
            ),
            varint_size(tail.skip(i as int)) < 0 ==> varint_size(tail) < 0,
            varint_value(tail) == value + pow_val * varint_value(tail.skip(i as int)),
        decreases 10 - i,
    {
        let ghost rest = tail.skip(i as int);
        if pos + i >= bytes.len() {
            proof {
                assert(rest.len() == 0);
                assert(varint_size(rest) < 0);
            }
            return Err(WireError::InvalidVarint);
        }
        let b: u8 = bytes[pos + i];
        proof {
            assert(rest.len() > 0);
            assert(rest[0] == b);
        }
        if b < 0x80 {
            proof {
                assert(varint_size(rest) == 1);
                assert(varint_value(rest) == b as nat);
                assert(varint_size(tail) == i + 1);
            }
            if i == 9 && b >= 2 {
                proof {
                    assert(pow_val == 0x8000_0000_0000_0000) by {
                        reveal_with_fuel(vstd::arithmetic::power::pow, 10);
                    };
                    assert(value + pow_val * (b as nat) >= varint_limit()) by (nonlinear_arith)
                        requires
                            pow_val == 0x8000_0000_0000_0000,
                            b >= 2,
                            value >= 0,
                    ;
                }
                return Err(WireError::InvalidVarint);
            }
            proof {
                if i == 9 {
                    assert(pow_val == 0x8000_0000_0000_0000) by {
                        reveal_with_fuel(vstd::arithmetic::power::pow, 10);
                    };
                    assert(b <= 1);
                } else {
                    assert(pow_val <= 0x100_0000_0000_0000) by {
                        assert(vstd::arithmetic::power::pow(0x80, i as nat)
                            <= vstd::arithmetic::power::pow(0x80, 8)) by {
                            vstd::arithmetic::power::lemma_pow_increases(0x80, i as nat, 8);
                        };
                        assert(vstd::arithmetic::power::pow(0x80, 8) == 0x100_0000_0000_0000) by {
                            reveal_with_fuel(vstd::arithmetic::power::pow, 9);
                        };
                    };
                }
                assert(value + pow_val * (b as u64) <= u64::MAX) by (nonlinear_arith)
                    requires
                        value < pow_val,
                        b < 0x80,
                        (pow_val <= 0x100_0000_0000_0000) || (b <= 1 && pow_val
                            == 0x8000_0000_0000_0000),
                ;
            }
            let v: u64 = value + pow_val * (b as u64);
            return Ok((v, pos + i + 1));
        }
        // `b` is a continuation byte.
        if i == 9 {
            proof {
                lemma_varint_size_shape(rest.skip(1));
                assert(varint_size(rest) < 0 || varint_size(rest) >= 2);
                assert(!varint_ok(tail));
            }
            return Err(WireError::InvalidVarint);
        }
        let low: u64 = (b - 0x80) as u64;
        proof {
            assert(tail.skip(i + 1 as int) =~= rest.skip(1));
            assert(varint_size(rest) >= 0 ==> varint_size(rest) == 1 + varint_size(rest.skip(1)));
            assert(varint_size(rest.skip(1)) < 0 ==> varint_size(rest) < 0);
            assert(varint_value(rest) == low + 0x80 * varint_value(rest.skip(1)));
            assert(pow_val <= 0x100_0000_0000_0000) by {
                assert(vstd::arithmetic::power::pow(0x80, i as nat) <= vstd::arithmetic::power::pow(
                    0x80,
                    8,
                )) by {
                    vstd::arithmetic::power::lemma_pow_increases(0x80, i as nat, 8);
                };
                assert(vstd::arithmetic::power::pow(0x80, 8) == 0x100_0000_0000_0000) by {
                    reveal_with_fuel(vstd::arithmetic::power::pow, 9);
                };
            };
            assert(value + pow_val * low < pow_val * 0x80 && pow_val * 0x80
                <= 0x8000_0000_0000_0000) by (nonlinear_arith)
                requires
                    value < pow_val,
                    low < 0x80,
                    0 < pow_val <= 0x100_0000_0000_0000,
            ;
            assert(value + pow_val * low + (pow_val * 0x80) * varint_value(rest.skip(1)) == value
                + pow_val * (low + 0x80 * varint_value(rest.skip(1)))) by (nonlinear_arith);
            assert(vstd::arithmetic::power::pow(0x80, (i + 1) as nat) == vstd::arithmetic::power::pow(
                0x80,
                i as nat,
            ) * 0x80) by {
                vstd::arithmetic::power::lemma_pow_adds(0x80, i as nat, 1);
                vstd::arithmetic::power::lemma_pow1(0x80);
            };
        }
        value = value + pow_val * low;
        pow_val = pow_val * 0x80;
        i = i + 1;
    }
}

/// Key byte of the `address` field: tag 1, length-delimited.
pub open spec fn address_key() -> u8 {
    0x0a
}

/// Key byte of the `id` field: tag 2, length-delimited.
pub open spec fn id_key() -> u8 {
    0x12
}

/// Key byte of the `request_id` field: tag 3, varint.
pub open spec fn request_id_key() -> u8 {
    0x18
}

/// A string field on the wire: key byte, byte length as a varint, then the
/// UTF-8 bytes.
pub open spec fn string_field(key: u8, s: Seq<char>) -> Seq<u8> {
    seq![key] + varint(encode_utf8(s).len()) + encode_utf8(s)
}

/// An unsigned field on the wire: key byte, then the value as a varint.
pub open spec fn uint_field(key: u8, n: nat) -> Seq<u8> {
    seq![key] + varint(n)
}

/// The full encoding of an identifier. A field at its default value (empty
/// string, zero tag) is omitted, so the encoding of a default identifier is
/// empty.
pub open spec fn pid_encoding(p: PidView) -> Seq<u8> {
    (if p.address.len() == 0 {
        Seq::<u8>::empty()
    } else {
        string_field(address_key(), p.address)
    }) + (if p.id.len() == 0 {
        Seq::<u8>::empty()
    } else {
        string_field(id_key(), p.id)
    }) + (if p.request_id == 0 {
        Seq::<u8>::empty()
    } else {
        uint_field(request_id_key(), p.request_id as nat)
    })
}

/// What merging `s` into the identifier value `p` yields: the decoder's
/// full behaviour as one function. Fields may arrive in any order and more
/// than once (the last occurrence wins); unknown tags are skipped by their
/// wire type; a `request_id` wider than 32 bits keeps its low 32 bits.
pub open spec fn spec_merge(p: PidView, s: Seq<u8>) -> Result<PidView, WireError>
    decreases s.len(),
    via spec_merge_decreases
{
    if s.len() == 0 {
        Ok(p)
    } else if !varint_ok(s) {
        Err(WireError::InvalidVarint)
    } else {
        let ksz = varint_size(s);
        let key = varint_value(s);
        let rest = s.skip(ksz);
        let tag = key / 8;
        let wire = key % 8;
        if tag == 0 || key > 0xFFFF_FFFF {
            Err(WireError::InvalidTag)
        } else if tag == 1 || tag == 2 {
            if wire != 2 {
                Err(WireError::WrongWireType)
            } else if !varint_ok(rest) {
                Err(WireError::InvalidVarint)
            } else {
                let lsz = varint_size(rest);
                let len = varint_value(rest);
                let body = rest.skip(lsz);
                if len > body.len() {
                    Err(WireError::Truncated)
                } else if !valid_utf8(body.take(len as int)) {
                    Err(WireError::InvalidUtf8)
                } else {
                    let v = decode_utf8(body.take(len as int));
                    let p2 = if tag == 1 {
                        PidView { address: v, ..p }
                    } else {
                        PidView { id: v, ..p }
                    };
                    spec_merge(p2, body.skip(len as int))
                }
            }
        } else if tag == 3 {
            if wire != 0 {
                Err(WireError::WrongWireType)
            } else if !varint_ok(rest) {
                Err(WireError::InvalidVarint)
            } else {
                let p2 = PidView {
                    request_id: (varint_value(rest) % 0x1_0000_0000) as u32,
                    ..p
                };
                spec_merge(p2, rest.skip(varint_size(rest)))
            }
        } else {
            if wire == 0 {
                if !varint_ok(rest) {
                    Err(WireError::InvalidVarint)
                } else {
                    spec_merge(p, rest.skip(varint_size(rest)))
                }
            } else if wire == 1 {
                if rest.len() < 8 {
                    Err(WireError::Truncated)
                } else {
                    spec_merge(p, rest.skip(8))
                }
            } else if wire == 2 {
                if !varint_ok(rest) {
                    Err(WireError::InvalidVarint)
                } else {
                    let lsz = varint_size(rest);
                    let len = varint_value(rest);
                    let body = rest.skip(lsz);
                    if len > body.len() {
                        Err(WireError::Truncated)
                    } else {
                        spec_merge(p, body.skip(len as int))
                    }
                }
            } else if wire == 5 {
                if rest.len() < 4 {
                    Err(WireError::Truncated)
                } else {
                    spec_merge(p, rest.skip(4))
                }
            } else {
                Err(WireError::WrongWireType)
            }
        }
    }
}

#[via_fn]
proof fn spec_merge_decreases(p: PidView, s: Seq<u8>) {
    lemma_varint_size_le(s);
    if s.len() > 0 && varint_ok(s) {
        lemma_varint_size_le(s.skip(varint_size(s)));
    }
}

/// The identifier value every decode starts from: all fields defaulted.
pub open spec fn default_pid_view() -> PidView {
    PidView { address: Seq::<char>::empty(), id: Seq::<char>::empty(), request_id: 0 }
}

/// What decoding `s` from scratch yields.
pub open spec fn spec_decode(s: Seq<u8>) -> Result<PidView, WireError> {
    spec_merge(default_pid_view(), s)
}

/// Relies on `String::from_utf8`: it succeeds exactly on valid UTF-8 input
/// and returns the string those bytes spell.
#[verifier::external_body]
fn utf8_to_string(v: Vec<u8>) -> (r: Option<String>)
    ensures
        r is Some <==> valid_utf8(v@),
        r is Some ==> r->0@ == decode_utf8(v@),
{
    String::from_utf8(v).ok()
}

/// Append a string field: key byte, byte-length varint, UTF-8 bytes.
fn encode_string_field(buf: &mut Vec<u8>, key: u8, s: &str)
    ensures
        final(buf)@ == old(buf)@ + string_field(key, s@),
{
    buf.push(key);
    let mut body = s.as_bytes_vec();
    encode_varint(buf, body.len() as u64);
    buf.append(&mut body);
    proof {
        assert(((old(buf)@ + seq![key]) + varint(encode_utf8(s@).len())) + encode_utf8(s@)
            =~= old(buf)@ + string_field(key, s@));
    }
}

impl Pid {
    /// Append this identifier's wire encoding to `buf`.
    pub fn encode_raw(&self, buf: &mut Vec<u8>)
        ensures
            final(buf)@ == old(buf)@ + pid_encoding(self@),
    {
        let ghost f1 = if self@.address.len() == 0 {
            Seq::<u8>::empty()
        } else {
            string_field(address_key(), self@.address)
        };
        let ghost f2 = if self@.id.len() == 0 {
            Seq::<u8>::empty()
        } else {
            string_field(id_key(), self@.id)
        };
        let ghost f3 = if self@.request_id == 0 {
            Seq::<u8>::empty()
        } else {
            uint_field(request_id_key(), self@.request_id as nat)
        };
        if !self.address.as_str().is_empty() {
            encode_string_field(buf, 0x0a, self.address.as_str());
        }
        if !self.id.as_str().is_empty() {
            encode_string_field(buf, 0x12, self.id.as_str());
        }
        if self.request_id != 0 {
            buf.push(0x18);
            encode_varint(buf, self.request_id as u64);
            proof {
                assert(seq![0x18u8] + varint(self@.request_id as nat) =~= f3);
            }
        }
        proof {
            assert(final(buf)@ =~= old(buf)@ + ((f1 + f2) + f3));
        }
    }

    /// Merge the fields encoded in `bytes` into this identifier, as the
    /// decoder of a continuing stream would: later occurrences of a field
    /// overwrite earlier ones, unknown fields are skipped.
    #[verifier::rlimit(60)]
    pub fn merge(&mut self, bytes: &[u8]) -> (r: Result<(), WireError>)
        ensures
            ({
                let m = spec_merge(old(self)@, bytes@);
                match m {
                    Ok(v) => r is Ok && final(self)@ == v,
                    Err(e) => r == Err::<(), WireError>(e),
                }
            }),
    {
        let mut pos: usize = 0;
        proof {
            assert(bytes@.skip(0) =~= bytes@);
        }
        while pos < bytes.len()
            invariant
                pos <= bytes@.len(),
                spec_merge(old(self)@, bytes@) == spec_merge(self@, bytes@.skip(pos as int)),
            decreases bytes@.len() - pos,
        {
            let ghost s = bytes@.skip(pos as int);
            proof {
                lemma_varint_size_le(s);
            }
            let (key, kend) = match decode_varint(bytes, pos) {
                Ok(p) => p,
                Err(e) => {
                    return Err(e);
                },
            };
            proof {
                assert(varint_ok(s));
                assert(bytes@.skip(kend as int) =~= s.skip(varint_size(s)));
            }
            let ghost rest = s.skip(varint_size(s));
            let tag = key / 8;
            let wire = key % 8;
            if tag == 0 || key > 0xFFFF_FFFF {
                return Err(WireError::InvalidTag);
            }
            if tag == 1 || tag == 2 {
                if wire != 2 {
                    return Err(WireError::WrongWireType);
                }
                proof {
                    lemma_varint_size_le(rest);
                }
                let (len64, lend) = match decode_varint(bytes, kend) {
                    Ok(p) => p,
                    Err(e) => {
                        return Err(e);
                    },
                };
                proof {
                    assert(bytes@.skip(lend as int) =~= rest.skip(varint_size(rest)));
                }
                let ghost body = rest.skip(varint_size(rest));
                if len64 > (bytes.len() - lend) as u64 {
                    return Err(WireError::Truncated);
                }
                let len = len64 as usize;
                let body_end = lend + len;
                let sub = slice_subrange(bytes, lend, body_end);
                proof {
                    assert(sub@ =~= body.take(len as int));
                }
                let owned = slice_to_vec(sub);
                match utf8_to_string(owned) {
                    Some(string_val) => {
                        if tag == 1 {
                            self.address = string_val;
                        } else {
                            self.id = string_val;
                        }
                        pos = body_end;
                        proof {
                            assert(bytes@.skip(pos as int) =~= body.skip(len as int));
                        }
                    },
                    None => {
                        return Err(WireError::InvalidUtf8);
                    },
                }
            } else if tag == 3 {
                if wire != 0 {
                    return Err(WireError::WrongWireType);
                }
                proof {
                    lemma_varint_size_le(rest);
                }
                let (val, vend) = match decode_varint(bytes, kend) {
                    Ok(p) => p,
                    Err(e) => {
                        return Err(e);
                    },
                };
                proof {
                    assert(bytes@.skip(vend as int) =~= rest.skip(varint_size(rest)));
                }
                self.request_id = (val % 0x1_0000_0000) as u32;
                pos = vend;
            } else {
                if wire == 0 {
                    proof {
                        lemma_varint_size_le(rest);
                    }
                    let (_val, vend) = match decode_varint(bytes, kend) {
                        Ok(p) => p,
                        Err(e) => {
                            return Err(e);
                        },
                    };
                    proof {
                        assert(bytes@.skip(vend as int) =~= rest.skip(varint_size(rest)));
                    }
                    pos = vend;
                } else if wire == 1 {
                    if bytes.len() - kend < 8 {
                        return Err(WireError::Truncated);
                    }
                    pos = kend + 8;
                    proof {
                        assert(bytes@.skip(pos as int) =~= rest.skip(8));
                    }
                } else if wire == 2 {
                    proof {
                        lemma_varint_size_le(rest);
                    }
                    let (len64, lend) = match decode_varint(bytes, kend) {
                        Ok(p) => p,
                        Err(e) => {
                            return Err(e);
                        },
                    };
                    proof {
                        assert(bytes@.skip(lend as int) =~= rest.skip(varint_size(rest)));
                    }
                    let ghost body = rest.skip(varint_size(rest));
                    if len64 > (bytes.len() - lend) as u64 {
                        return Err(WireError::Truncated);
                    }
                    pos = lend + len64 as usize;
                    proof {
                        assert(bytes@.skip(pos as int) =~= body.skip(len64 as int));
                    }
                } else if wire == 5 {
                    if bytes.len() - kend < 4 {
                        return Err(WireError::Truncated);
                    }
                    pos = kend + 4;
                    proof {
                        assert(bytes@.skip(pos as int) =~= rest.skip(4));
                    }
                } else {
                    return Err(WireError::WrongWireType);
                }
            }
        }
        proof {
            assert(bytes@.skip(pos as int) =~= Seq::<u8>::empty());
        }
        Ok(())
    }

    /// How many bytes [`Pid::encode_raw`] will append.
    pub fn encoded_len(&self) -> (r: usize)
        requires
            pid_encoding(self@).len() <= usize::MAX,
        ensures
            r == pid_encoding(self@).len(),
    {
        let mut total: usize = 0;
        if !self.address.as_str().is_empty() {
            let n = self.address.as_str().len();
            total = total + 1 + encoded_len_varint(n as u64);
            total = total + n;
        }
        if !self.id.as_str().is_empty() {
            let n = self.id.as_str().len();
            total = total + 1 + encoded_len_varint(n as u64);
            total = total + n;
        }
        if self.request_id != 0 {
            total = total + 1 + encoded_len_varint(self.request_id as u64);
        }
        total
    }
}

/// An identifier value the wire format can carry: each string's UTF-8 form
/// has a length a varint can hold. Every identifier built from Rust
/// strings satisfies this.
pub open spec fn wf_pid_view(p: PidView) -> bool {
    encode_utf8(p.address).len() < varint_limit() && encode_utf8(p.id).len() < varint_limit()
}

/// Merging one encoded string field sets exactly that field and consumes
/// exactly the field's bytes.
proof fn lemma_merge_string_step(p: PidView, tag: nat, s: Seq<char>, rest: Seq<u8>)
    requires
        tag == 1 || tag == 2,
        encode_utf8(s).len() < varint_limit(),
    ensures
        tag == 1 ==> spec_merge(p, string_field(address_key(), s) + rest) == spec_merge(
            PidView { address: s, ..p },
            rest,
        ),
        tag == 2 ==> spec_merge(p, string_field(id_key(), s) + rest) == spec_merge(
            PidView { id: s, ..p },
            rest,
        ),
{
    let key: u8 = if tag == 1 {
        0x0a
    } else {
        0x12
    };
    let bytes = encode_utf8(s);
    let full = string_field(key, s) + rest;
    assert(varint(key as nat) =~= seq![key]);
    lemma_varint_parse(key as nat, varint(bytes.len()) + (bytes + rest));
    assert(full =~= varint(key as nat) + (varint(bytes.len()) + (bytes + rest)));
    assert(varint_ok(full));
    assert(varint_size(full) == 1 && varint_value(full) == key as nat);
    let r1 = full.skip(1);
    assert(r1 =~= varint(bytes.len()) + (bytes + rest));
    lemma_varint_parse(bytes.len(), bytes + rest);
    assert(varint_ok(r1));
    assert(varint_value(r1) == bytes.len());
    let lsz = varint_size(r1);
    let body = r1.skip(lsz);
    assert(body =~= bytes + rest);
    assert(body.take(bytes.len() as int) =~= bytes);
    assert(body.skip(bytes.len() as int) =~= rest);
    vstd::utf8::encode_utf8_valid_utf8(s);
    vstd::utf8::encode_utf8_decode_utf8(s);
    assert((key as nat) / 8 == tag && (key as nat) % 8 == 2);
}

/// Merging one encoded unsigned field sets the correlation tag and
/// consumes exactly the field's bytes.
proof fn lemma_merge_uint_step(p: PidView, n: u32, rest: Seq<u8>)
    ensures
        spec_merge(p, uint_field(request_id_key(), n as nat) + rest) == spec_merge(
            PidView { request_id: n, ..p },
            rest,
        ),
{
    let key: u8 = 0x18;
    let full = uint_field(key, n as nat) + rest;
    assert(varint(key as nat) =~= seq![key]);
    lemma_varint_parse(key as nat, varint(n as nat) + rest);
    assert(full =~= varint(key as nat) + (varint(n as nat) + rest));
    assert(varint_ok(full));
    assert(varint_size(full) == 1 && varint_value(full) == key as nat);
    let r1 = full.skip(1);
    assert(r1 =~= varint(n as nat) + rest);
    lemma_varint_parse(n as nat, rest);
    assert(varint_ok(r1));
    assert(varint_value(r1) == n as nat);
    assert(r1.skip(varint_size(r1)) =~= rest);
    assert((n as nat) % 0x1_0000_0000 == n as nat);
    assert((key as nat) / 8 == 3 && (key as nat) % 8 == 0);
}

/// Round trip: decoding the encoding of any identifier value restores it
/// exactly. Together with the contracts of [`Pid::encode_raw`] and
/// [`decode`], this is the stability the remote extension point depends
/// on.
pub proof fn lemma_wire_round_trip(p: PidView)
    requires
        wf_pid_view(p),
    ensures
        spec_decode(pid_encoding(p)) == Ok::<PidView, WireError>(p),
{
    let q0 = default_pid_view();
    let f1 = if p.address.len() == 0 {
        Seq::<u8>::empty()
    } else {
        string_field(address_key(), p.address)
    };
    let f2 = if p.id.len() == 0 {
        Seq::<u8>::empty()
    } else {
        string_field(id_key(), p.id)
    };
    let f3 = if p.request_id == 0 {
        Seq::<u8>::empty()
    } else {
        uint_field(request_id_key(), p.request_id as nat)
    };
    assert(pid_encoding(p) =~= f1 + (f2 + f3));
    let q1 = if p.address.len() == 0 {
        q0
    } else {
        PidView { address: p.address, ..q0 }
    };
    if p.address.len() == 0 {
        assert(f1 + (f2 + f3) =~= f2 + f3);
    } else {
        lemma_merge_string_step(q0, 1, p.address, f2 + f3);
        assert(f1 + (f2 + f3) =~= string_field(address_key(), p.address) + (f2 + f3));
    }
    assert(spec_merge(q0, pid_encoding(p)) == spec_merge(q1, f2 + f3));
    let q2 = if p.id.len() == 0 {
        q1
    } else {
        PidView { id: p.id, ..q1 }
    };
    if p.id.len() == 0 {
        assert(f2 + f3 =~= f3);
    } else {
        lemma_merge_string_step(q1, 2, p.id, f3);
    }
    assert(spec_merge(q1, f2 + f3) == spec_merge(q2, f3));
    let q3 = if p.request_id == 0 {
        q2
    } else {
        PidView { request_id: p.request_id, ..q2 }
    };
    if p.request_id == 0 {
        assert(f3 =~= Seq::<u8>::empty());
    } else {
        lemma_merge_uint_step(q2, p.request_id, Seq::<u8>::empty());
        assert(f3 =~= uint_field(request_id_key(), p.request_id as nat) + Seq::<u8>::empty());
    }
    assert(spec_merge(q2, f3) == spec_merge(q3, Seq::<u8>::empty()));
    assert(spec_merge(q3, Seq::<u8>::empty()) == Ok::<PidView, WireError>(q3));
    assert(q3.address =~= p.address);
    assert(q3.id =~= p.id);
    assert(q3 == p);
}

/// Decode an identifier from its wire encoding, starting from the default
/// value for every omitted field.
pub fn decode(bytes: &[u8]) -> (r: Result<Pid, WireError>)
    ensures
        ({
            let m = spec_decode(bytes@);
            match m {
                Ok(v) => r matches Ok(pid) && pid@ == v,
                Err(e) => r == Err::<Pid, WireError>(e),
            }
        }),
{
    let mut pid = Pid::default();
    proof {
        assert(pid@.address =~= Seq::<char>::empty());
        assert(pid@.id =~= Seq::<char>::empty());
        assert(pid@ == default_pid_view());
    }
    match pid.merge(bytes) {
        Ok(_) => Ok(pid),
        Err(e) => Err(e),
    }
}

} // verus!
