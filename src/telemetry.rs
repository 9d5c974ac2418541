//! Decoding of the game's telemetry messages.
//!
//! A message is a list of `key=value` lines. The value of the `TLM3` line is
//! obfuscated with a repeating-key XOR reduced modulo 0x80; every other value
//! is kept as the debug text of its bytes.

use vstd::prelude::*;

use crate::text::{all_ascii, ascii_chars, lossy_string, utf8_lossy_text};

verus! {

/// Key of the repeating XOR that obfuscates the TLM3 line
/// ("The truth is back in style.").
pub const TLM3_KEY: [u8; 27] = [
    84, 104, 101, 32, 116, 114, 117, 116, 104, 32, 105, 115, 32, 98, 97, 99, 107, 32, 105, 110,
    32, 115, 116, 121, 108, 101, 46,
];

/// Path of the server's telemetry endpoint, relative to its base URL.
pub const TELEMETRY_ENDPOINT: &'static str = "api/server/telemetry";

/// Size of the fixed header in front of each telemetry message.
pub const HEADER_SIZE: usize = 12;

/// Separator of the lines of a message.
pub const NEWLINE: u8 = 0x0A;

/// Separator of a key from its value.
pub const EQUALS: u8 = 0x3D;

/// Separator of the TLM3 prefix from its body.
pub const DASH: u8 = 0x2D;

/// Text of the `Debug` formatting of the byte slice `b`.
pub uninterp spec fn byte_list_text(b: Seq<u8>) -> Seq<char>;

/// Relies on the `Debug` formatting of `[u8]`, whose text std does not fix
/// but which depends on the bytes alone.
#[verifier::external_body]
fn debug_bytes(b: &[u8]) -> (r: String)
    ensures
        r@ == byte_list_text(b@),
{
    format!("{:?}", b)
}

/// One byte of the cipher: XOR with the key byte, reduced modulo 0x80.
pub open spec fn xor_byte(data: u8, key: u8) -> u8 {
    (data ^ key) % 0x80
}

/// The cipher applied to `input`, the key repeating along it. An empty key
/// gives an empty output.
pub open spec fn spec_xor_cipher(input: Seq<u8>, key: Seq<u8>) -> Seq<u8> {
    if key.len() == 0 {
        Seq::empty()
    } else {
        Seq::new(input.len(), |i: int| xor_byte(input[i], key[i % key.len() as int]))
    }
}

/// XORs each byte of `input` with the key repeated along it and keeps the
/// low seven bits of the result.
pub fn xor_cipher(input: &[u8], key: &[u8]) -> (r: Vec<u8>)
    ensures
        r@ == spec_xor_cipher(input@, key@),
{
    let mut out: Vec<u8> = Vec::new();
    if key.len() == 0 {
        return out;
    }
    let mut i: usize = 0;
    let mut k: usize = 0;
    let ghost mut q: int = 0;
    while i < input.len()
        invariant
            key@.len() > 0,
            i <= input@.len(),
            k < key@.len(),
            i == q * key@.len() + k,
            out@ =~= Seq::new(i as nat, |j: int| xor_byte(input@[j], key@[j % key@.len() as int])),
        decreases input@.len() - i,
    {
        proof {
            vstd::arithmetic::div_mod::lemma_fundamental_div_mod_converse(
                i as int,
                key@.len() as int,
                q,
                k as int,
            );
        }
        out.push((input[i] ^ key[k]) % 0x80);
        i = i + 1;
        if k + 1 == key.len() {
            k = 0;
            proof {
                q = q + 1;
                assert(i == q * key@.len() + k) by (nonlinear_arith)
                    requires
                        i == (q - 1) * key@.len() + key@.len(),
                        k == 0,
                ;
            }
        } else {
            k = k + 1;
        }
    }
    out
}

proof fn lemma_xor_byte_twice(m: u8, k: u8)
    requires
        m < 0x80,
    ensures
        xor_byte(xor_byte(m, k), k) == m,
{
    assert(((((m ^ k) % 0x80) as u8 ^ k) % 0x80) as u8 == m) by (bit_vector)
        requires
            m < 0x80,
    ;
}

/// Applying the cipher twice with the same non-empty key gives back a
/// message whose bytes are all below 0x80.
pub proof fn lemma_xor_cipher_involution(m: Seq<u8>, key: Seq<u8>)
    requires
        all_ascii(m),
        key.len() > 0,
    ensures
        spec_xor_cipher(spec_xor_cipher(m, key), key) == m,
{
    let once = spec_xor_cipher(m, key);
    let twice = spec_xor_cipher(once, key);
    assert forall|i: int| 0 <= i < m.len() implies twice[i] == m[i] by {
        lemma_xor_byte_twice(m[i], key[i % key.len() as int]);
    }
    assert(twice =~= m);
}

/// Index of the first `c` in `b`, if any.
pub open spec fn find_first(b: Seq<u8>, c: u8) -> Option<nat>
    decreases b.len(),
{
    if b.len() == 0 {
        None
    } else {
        match find_first(b.drop_last(), c) {
            Some(i) => Some(i),
            None => if b.last() == c {
                Some((b.len() - 1) as nat)
            } else {
                None
            },
        }
    }
}

proof fn lemma_find_first_bound(b: Seq<u8>, c: u8)
    ensures
        find_first(b, c) matches Some(i) ==> i < b.len() && b[i as int] == c,
    decreases b.len(),
{
    if b.len() > 0 {
        lemma_find_first_bound(b.drop_last(), c);
    }
}

/// Finds the index of the first `c` in `b`.
fn find_byte(b: &[u8], c: u8) -> (r: Option<usize>)
    ensures
        r matches Some(i) ==> find_first(b@, c) == Some(i as nat),
        r is None ==> find_first(b@, c) is None,
{
    let mut i: usize = 0;
    while i < b.len()
        invariant
            i <= b@.len(),
            find_first(b@.subrange(0, i as int), c) is None,
        decreases b@.len() - i,
    {
        assert(b@.subrange(0, i + 1).drop_last() =~= b@.subrange(0, i as int));
        if b[i] == c {
            assert(find_first(b@.subrange(0, i + 1), c) == Some(i as nat));
            proof {
                lemma_find_first_prefix(b@, c, (i + 1) as int);
            }
            return Some(i);
        }
        i = i + 1;
    }
    assert(b@.subrange(0, i as int) =~= b@);
    None
}

proof fn lemma_find_first_prefix(b: Seq<u8>, c: u8, n: int)
    requires
        0 <= n <= b.len(),
        find_first(b.subrange(0, n), c) is Some,
    ensures
        find_first(b, c) == find_first(b.subrange(0, n), c),
    decreases b.len() - n,
{
    if n < b.len() {
        assert(b.subrange(0, n + 1).drop_last() =~= b.subrange(0, n));
        lemma_find_first_prefix(b, c, n + 1);
    } else {
        assert(b.subrange(0, n) =~= b);
    }
}

/// The text of a TLM3 value: the part after the first `-`, deciphered with
/// the TLM3 key; without a `-`, the debug text of the whole value.
pub open spec fn tlm3_text(input: Seq<u8>) -> Seq<char> {
    match find_first(input, DASH) {
        Some(i) => ascii_chars(
            spec_xor_cipher(input.subrange(i + 1 as int, input.len() as int), TLM3_KEY@),
        ),
        None => byte_list_text(input),
    }
}

/// Decodes the value of a TLM3 line.
pub fn tlm3(input: &[u8]) -> (r: String)
    ensures
        r@ == tlm3_text(input@),
{
    match find_byte(input, DASH) {
        Some(i) => {
            proof {
                lemma_find_first_bound(input@, DASH);
            }
            let n = input.len();
            assert(i < n);
            let key = TLM3_KEY;
            let value = xor_cipher(&input[i + 1..n], &key);
            assert(all_ascii(value@));
            lossy_string(value.as_slice())
        },
        None => debug_bytes(input),
    }
}


/// The pieces of `b` between newlines, as `split` on the newline byte makes
/// them: an empty input or a trailing newline gives an empty last piece.
pub open spec fn lines_of(b: Seq<u8>) -> Seq<Seq<u8>>
    decreases b.len(),
{
    if b.len() == 0 {
        seq![Seq::empty()]
    } else {
        let prev = lines_of(b.drop_last());
        if b.last() == NEWLINE {
            prev.push(Seq::empty())
        } else {
            prev.update(prev.len() - 1, prev.last().push(b.last()))
        }
    }
}

/// The key and decoded value of one line, or `None` for a line without `=`.
pub open spec fn line_record(line: Seq<u8>) -> Option<(Seq<char>, Seq<char>)> {
    match find_first(line, EQUALS) {
        None => None,
        Some(e) => {
            let key = utf8_lossy_text(line.subrange(0, e as int));
            let value = line.subrange(e + 1 as int, line.len() as int);
            Some(
                (
                    key,
                    if key == "TLM3"@ {
                        tlm3_text(value)
                    } else {
                        byte_list_text(value)
                    },
                ),
            )
        },
    }
}

/// The records of the lines that hold a `=`, in order.
pub open spec fn records_of(lines: Seq<Seq<u8>>) -> Seq<(Seq<char>, Seq<char>)>
    decreases lines.len(),
{
    if lines.len() == 0 {
        Seq::empty()
    } else {
        let prev = records_of(lines.drop_last());
        match line_record(lines.last()) {
            Some(r) => prev.push(r),
            None => prev,
        }
    }
}

/// The key and value texts of a list of string pairs.
pub open spec fn pairs_view(v: Seq<(String, String)>) -> Seq<(Seq<char>, Seq<char>)> {
    v.map_values(|p: (String, String)| (p.0@, p.1@))
}

/// The key and value pairs of one telemetry message.
#[derive(Debug)]
pub struct TelemetryMessage {
    /// Pairs of key and value, in the order of the lines
    pub values: Vec<(String, String)>,
}

impl View for TelemetryMessage {
    type V = Seq<(Seq<char>, Seq<char>)>;

    open spec fn view(&self) -> Seq<(Seq<char>, Seq<char>)> {
        pairs_view(self.values@)
    }
}

proof fn lemma_lines_nonempty(b: Seq<u8>)
    ensures
        lines_of(b).len() >= 1,
    decreases b.len(),
{
    if b.len() > 0 {
        lemma_lines_nonempty(b.drop_last());
    }
}

/// Appends the record of `line` when the line holds a `=`.
fn push_record(values: &mut Vec<(String, String)>, line: &[u8])
    ensures
        pairs_view(final(values)@) == match line_record(line@) {
            Some(r) => pairs_view(old(values)@).push(r),
            None => pairs_view(old(values)@),
        },
{
    let e = match find_byte(line, EQUALS) {
        Some(e) => e,
        None => return,
    };
    proof {
        lemma_find_first_bound(line@, EQUALS);
    }
    let n = line.len();
    let key = lossy_string(&line[0..e]);
    let raw = &line[e + 1..n];
    let tag = String::from_str("TLM3");
    let value = if key.eq(&tag) {
        tlm3(raw)
    } else {
        debug_bytes(raw)
    };
    values.push((key, value));
    assert(pairs_view(final(values)@) =~= pairs_view(old(values)@).push(line_record(line@)->0));
}

/// Decodes a telemetry message: each line that holds a `=` gives a pair of
/// its key and its value. The value of a `TLM3` line is deciphered; every
/// other value becomes the debug text of its bytes.
pub fn decode_message(message: Vec<u8>) -> (r: TelemetryMessage)
    ensures
        r@ == records_of(lines_of(message@)),
{
    let b = message.as_slice();
    let n = b.len();
    let mut values: Vec<(String, String)> = Vec::new();
    let mut start: usize = 0;
    let mut i: usize = 0;
    let ghost mut done: Seq<Seq<u8>> = Seq::empty();
    assert(b@.subrange(0, 0) =~= Seq::<u8>::empty());
    assert(lines_of(Seq::<u8>::empty()) =~= done.push(b@.subrange(0, 0)));
    while i < n
        invariant
            n == b@.len(),
            b@ == message@,
            start <= i <= n,
            lines_of(b@.subrange(0, i as int)) == done.push(b@.subrange(start as int, i as int)),
            pairs_view(values@) == records_of(done),
        decreases n - i,
    {
        let ghost prefix = b@.subrange(0, i + 1);
        assert(prefix.drop_last() =~= b@.subrange(0, i as int));
        assert(prefix.last() == b@[i as int]);
        if b[i] == NEWLINE {
            push_record(&mut values, &b[start..i]);
            proof {
                let line = b@.subrange(start as int, i as int);
                assert(records_of(done.push(line)) == match line_record(line) {
                    Some(r) => records_of(done).push(r),
                    None => records_of(done),
                }) by {
                    assert(done.push(line).drop_last() =~= done);
                }
                done = done.push(line);
                assert(b@.subrange(i + 1, i + 1) =~= Seq::<u8>::empty());
            }
            start = i + 1;
        } else {
            assert(b@.subrange(start as int, i + 1) =~= b@.subrange(start as int, i as int).push(
                b@[i as int],
            ));
            assert(lines_of(prefix) =~= done.push(b@.subrange(start as int, i + 1)));
        }
        i = i + 1;
    }
    let ghost last = b@.subrange(start as int, n as int);
    push_record(&mut values, &b[start..n]);
    assert(b@.subrange(0, n as int) =~= message@);
    assert(done.push(last).drop_last() =~= done);
    TelemetryMessage { values }
}

/// Number of payload bytes that follow a message header: the big-endian
/// length in the header's last two bytes, less the header itself.
pub fn payload_length(header: &[u8; 12]) -> (r: usize)
    ensures
        r as int == {
            let length = header@[10] as int * 256 + header@[11] as int;
            if length < 12 {
                0
            } else {
                length - 12
            }
        },
{
    let length: usize = header[10] as usize * 256 + header[11] as usize;
    if length < HEADER_SIZE {
        0
    } else {
        length - HEADER_SIZE
    }
}

} // verus!
