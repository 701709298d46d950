//! Parsing of MAC addresses written as colon-separated hexadecimal bytes.
use vstd::prelude::*;

verus! {

/// The pieces of `s` between colons, in order: a text with `k` colons has
/// `k + 1` pieces, some of them possibly empty.
pub open spec fn colon_parts(s: Seq<char>) -> Seq<Seq<char>>
    decreases s.len(),
{
    if s.len() == 0 {
        seq![Seq::empty()]
    } else {
        let p = colon_parts(s.drop_last());
        if s.last() == ':' {
            p.push(Seq::empty())
        } else {
            p.update(p.len() - 1, p.last().push(s.last()))
        }
    }
}

/// The value of the hexadecimal digit `c`, either case.
pub open spec fn hex_digit(c: char) -> Option<nat> {
    if '0' <= c && c <= '9' {
        Some((c as nat - 48) as nat)
    } else if 'a' <= c && c <= 'f' {
        Some((c as nat - 87) as nat)
    } else if 'A' <= c && c <= 'F' {
        Some((c as nat - 55) as nat)
    } else {
        None
    }
}

/// The value of a string of hexadecimal digits; `None` if any character
/// is not one.
pub open spec fn hex_digits_value(d: Seq<char>) -> Option<nat>
    decreases d.len(),
{
    if d.len() == 0 {
        Some(0)
    } else {
        match (hex_digits_value(d.drop_last()), hex_digit(d.last())) {
            (Some(v), Some(x)) => Some(v * 16 + x),
            _ => None,
        }
    }
}

/// The byte that `u8::from_str_radix(p, 16)` gives: an optional `+`, then
/// at least one hexadecimal digit, with a value below 256.
pub open spec fn hex_byte(p: Seq<char>) -> Option<u8> {
    digits_byte(strip_plus(p))
}

/// `p` without one leading `+`.
pub open spec fn strip_plus(p: Seq<char>) -> Seq<char> {
    if p.len() > 0 && p[0] == '+' {
        p.drop_first()
    } else {
        p
    }
}

/// The byte that a non-empty string of hexadecimal digits denotes, if it
/// is below 256.
pub open spec fn digits_byte(d: Seq<char>) -> Option<u8> {
    if d.len() == 0 {
        None
    } else {
        match hex_digits_value(d) {
            Some(v) => if v < 256 {
                Some(v as u8)
            } else {
                None
            },
            None => None,
        }
    }
}

/// Each of the first six pieces of `s` (or all pieces, if fewer) is a
/// hexadecimal byte.
pub open spec fn valid_mac_text(s: Seq<char>) -> bool {
    forall|k: int|
        0 <= k < 6 && k < colon_parts(s).len() ==> (#[trigger] hex_byte(colon_parts(s)[k])) is Some
}

/// Byte `k` of the address that `s` names: the value of its `k`-th piece,
/// or 0 where `s` has fewer pieces.
pub open spec fn mac_byte(s: Seq<char>, k: int) -> u8 {
    if k < colon_parts(s).len() {
        hex_byte(colon_parts(s)[k]).unwrap()
    } else {
        0
    }
}

proof fn lemma_parts_len(s: Seq<char>)
    ensures
        1 <= colon_parts(s).len() <= s.len() + 1,
    decreases s.len(),
{
    if s.len() > 0 {
        lemma_parts_len(s.drop_last());
    }
}

/// Pieces closed by a colon in a prefix of `s` are pieces of `s`.
proof fn lemma_parts_prefix(s: Seq<char>, i: int)
    requires
        0 <= i <= s.len(),
    ensures
        colon_parts(s.take(i)).len() <= colon_parts(s).len(),
        forall|j: int|
            0 <= j < colon_parts(s.take(i)).len() - 1 ==> colon_parts(s.take(i))[j]
                == colon_parts(s)[j],
    decreases s.len() - i,
{
    if i < s.len() {
        lemma_parts_prefix(s, i + 1);
        lemma_parts_len(s.take(i));
        assert(s.take(i + 1).drop_last() =~= s.take(i));
    } else {
        assert(s.take(i) =~= s);
    }
}

/// A longer string of digits has at least the value of its prefix.
proof fn lemma_digits_monotone(d: Seq<char>, j: int)
    requires
        0 <= j <= d.len(),
        hex_digits_value(d) is Some,
    ensures
        hex_digits_value(d.take(j)) is Some,
        hex_digits_value(d.take(j)).unwrap() <= hex_digits_value(d).unwrap(),
    decreases d.len() - j,
{
    if j < d.len() {
        lemma_digits_monotone(d, j + 1);
        assert(d.take(j + 1).drop_last() =~= d.take(j));
    } else {
        assert(d.take(j) =~= d);
    }
}

fn digit_value(c: char) -> (r: Option<u32>)
    ensures
        match hex_digit(c) {
            Some(v) => r == Some(v as u32),
            None => r is None,
        },
{
    if '0' <= c && c <= '9' {
        Some((c as u32) - 48)
    } else if 'a' <= c && c <= 'f' {
        Some((c as u32) - 87)
    } else if 'A' <= c && c <= 'F' {
        Some((c as u32) - 55)
    } else {
        None
    }
}

/// `u8::from_str_radix(p, 16)`, with the result as an `Option`.
fn parse_hex_byte(p: &Vec<char>) -> (r: Option<u8>)
    ensures
        r == hex_byte(p@),
{
    let n = p.len();
    if n == 0 {
        return None;
    }
    let mut start: usize = 0;
    if p[0] == '+' {
        start = 1;
    }
    let ghost d = strip_plus(p@);
    assert(d =~= p@.skip(start as int));
    if start == n {
        return None;
    }
    let mut v: u32 = 0;
    let mut j: usize = start;
    while j < n
        invariant
            start <= j <= n,
            n == p@.len(),
            d == p@.skip(start as int),
            d == strip_plus(p@),
            start < n,
            hex_digits_value(d.take(j - start)) == Some(v as nat),
            v < 256,
        decreases n - j,
    {
        assert(d.take(j - start + 1).drop_last() =~= d.take(j - start));
        assert(d.take(j - start + 1).last() == p@[j as int]);
        let x = digit_value(p[j]);
        match x {
            None => {
                proof {
                    if hex_digits_value(d) is Some {
                        lemma_digits_monotone(d, j - start + 1);
                    }
                }
                return None;
            },
            Some(x) => {
                let w = v * 16 + x;
                if w >= 256 {
                    proof {
                        if hex_digits_value(d) is Some {
                            lemma_digits_monotone(d, j - start + 1);
                        }
                    }
                    return None;
                }
                v = w;
            },
        }
        j = j + 1;
    }
    assert(d.take(j - start) =~= d);
    Some(v as u8)
}

/// The six bytes of the MAC address written `aa:bb:cc:dd:ee:ff`, or `None`
/// when one of the first six pieces is not a hexadecimal byte. Pieces past
/// the sixth are ignored; missing pieces give zero bytes.
pub fn try_str2macarray(mac: &str) -> (r: Option<[u8; 6]>)
    ensures
        r is Some == valid_mac_text(mac@),
        r matches Some(a) ==> forall|k: int| 0 <= k < 6 ==> a@[k] == mac_byte(mac@, k),
{
    let ghost s = mac@;
    let n = mac.unicode_len();
    let mut result = [0u8; 6];
    let mut cur: Vec<char> = Vec::new();
    let mut k: usize = 0;
    let mut i: usize = 0;
    proof {
        assert(s.take(0) =~= Seq::<char>::empty());
        lemma_parts_len(s);
    }
    while i < n
        invariant
            i <= n,
            n == s.len(),
            s == mac@,
            result@.len() == 6,
            k + 1 == colon_parts(s.take(i as int)).len(),
            k + 1 <= colon_parts(s).len(),
            cur@ == colon_parts(s.take(i as int)).last(),
            forall|j: int|
                0 <= j < 6 && j < k ==> (#[trigger] hex_byte(colon_parts(s)[j])) is Some
                    && result@[j] == mac_byte(s, j),
            forall|j: int| 0 <= j < 6 && j >= k ==> result@[j] == 0,
        decreases n - i,
    {
        let c = mac.get_char(i);
        proof {
            assert(s.take(i + 1).drop_last() =~= s.take(i as int));
            assert(s.take(i + 1).last() == c);
        }
        if c == ':' {
            proof {
                lemma_parts_prefix(s, i + 1);
                lemma_parts_len(s.take(i as int));
                assert(colon_parts(s.take(i + 1))[k as int] == cur@);
            }
            if k < 6 {
                let b = parse_hex_byte(&cur);
                match b {
                    Some(b) => {
                        result[k] = b;
                    },
                    None => {
                        proof {
                            assert(hex_byte(colon_parts(s)[k as int]) is None);
                        }
                        return None;
                    },
                }
            }
            k = k + 1;
            cur = Vec::new();
            assert(cur@ =~= colon_parts(s.take(i + 1)).last());
        } else {
            cur.push(c);
            proof {
                lemma_parts_len(s.take(i as int));
                lemma_parts_prefix(s, i + 1);
            }
            assert(cur@ =~= colon_parts(s.take(i + 1)).last());
        }
        i = i + 1;
    }
    proof {
        assert(s.take(n as int) =~= s);
        lemma_parts_len(s);
    }
    if k < 6 {
        let b = parse_hex_byte(&cur);
        match b {
            Some(b) => {
                result[k] = b;
            },
            None => {
                proof {
                    assert(hex_byte(colon_parts(s)[k as int]) is None);
                }
                return None;
            },
        }
    }
    proof {
        assert forall|j: int| 0 <= j < 6 && j < colon_parts(s).len() implies (#[trigger] hex_byte(
            colon_parts(s)[j],
        )) is Some by {
            assert(j <= k);
        }
    }
    Some(result)
}

/// The six bytes of the MAC address written `aa:bb:cc:dd:ee:ff`. Pieces
/// past the sixth are ignored; missing pieces give zero bytes.
pub fn str2macarray(mac: &str) -> (r: [u8; 6])
    requires
        valid_mac_text(mac@),
    ensures
        forall|k: int| 0 <= k < 6 ==> r@[k] == mac_byte(mac@, k),
{
    try_str2macarray(mac).unwrap()
}

/// The character of the hexadecimal digit `d`, in upper or lower case.
pub open spec fn hex_char(d: nat, upper: bool) -> char {
    if d < 10 {
        (48 + d) as char
    } else if upper {
        (55 + d) as char
    } else {
        (87 + d) as char
    }
}

/// `b` as `{:x}` writes it, or as `{:02x}` when `pad`; `X` in place of `x`
/// when `upper`.
pub open spec fn hex_text(b: u8, upper: bool, pad: bool) -> Seq<char> {
    if pad || b >= 16 {
        seq![hex_char((b / 16) as nat, upper), hex_char((b % 16) as nat, upper)]
    } else {
        seq![hex_char(b as nat, upper)]
    }
}

/// The six bytes `a` written with colons between them.
pub open spec fn mac_text(a: Seq<u8>, upper: bool, pad: bool) -> Seq<char> {
    hex_text(a[0], upper, pad) + seq![':'] + hex_text(a[1], upper, pad) + seq![':'] + hex_text(
        a[2],
        upper,
        pad,
    ) + seq![':'] + hex_text(a[3], upper, pad) + seq![':'] + hex_text(a[4], upper, pad) + seq![
        ':',
    ] + hex_text(a[5], upper, pad)
}

proof fn lemma_hex_char(d: nat, upper: bool)
    requires
        d < 16,
    ensures
        hex_digit(hex_char(d, upper)) == Some(d),
        hex_char(d, upper) != ':',
        hex_char(d, upper) != '+',
{
}

proof fn lemma_hex_text(b: u8, upper: bool, pad: bool)
    ensures
        hex_byte(hex_text(b, upper, pad)) == Some(b),
        forall|i: int| 0 <= i < hex_text(b, upper, pad).len() ==> hex_text(b, upper, pad)[i] != ':',
{
    let t = hex_text(b, upper, pad);
    if pad || b >= 16 {
        lemma_hex_char((b / 16) as nat, upper);
        lemma_hex_char((b % 16) as nat, upper);
        let t0 = seq![t[0]];
        assert(t.drop_last() =~= t0);
        assert(t0.drop_last() =~= Seq::<char>::empty());
        assert(hex_digits_value(Seq::<char>::empty()) == Some(0nat));
        assert(t0.last() == hex_char((b / 16) as nat, upper));
        assert(t.last() == hex_char((b % 16) as nat, upper));
        assert(hex_digits_value(t0) == Some((b / 16) as nat));
        assert(hex_digits_value(t) == Some(((b / 16) * 16 + b % 16) as nat));
        assert(strip_plus(t) == t);
    } else {
        lemma_hex_char(b as nat, upper);
        assert(t.drop_last() =~= Seq::<char>::empty());
        assert(hex_digits_value(Seq::<char>::empty()) == Some(0nat));
        assert(t.last() == hex_char(b as nat, upper));
        assert(hex_digits_value(t) == Some(b as nat));
        assert(strip_plus(t) == t);
    }
}

/// Appending text without colons extends the last piece.
proof fn lemma_parts_append(s: Seq<char>, w: Seq<char>)
    requires
        forall|i: int| 0 <= i < w.len() ==> w[i] != ':',
    ensures
        colon_parts(s + w) == colon_parts(s).update(
            colon_parts(s).len() - 1,
            colon_parts(s).last() + w,
        ),
    decreases w.len(),
{
    lemma_parts_len(s);
    if w.len() == 0 {
        assert(s + w =~= s);
        assert(colon_parts(s).last() + w =~= colon_parts(s).last());
        assert(colon_parts(s).update(colon_parts(s).len() - 1, colon_parts(s).last())
            =~= colon_parts(s));
    } else {
        let w1 = w.drop_last();
        lemma_parts_append(s, w1);
        assert((s + w).drop_last() =~= s + w1);
        assert((s + w).last() == w.last());
        assert(colon_parts(s).last() + w1 + seq![w.last()] =~= colon_parts(s).last() + w);
        assert((colon_parts(s).last() + w1).push(w.last()) =~= colon_parts(s).last() + w);
        lemma_parts_len(s + w1);
        assert(colon_parts(s + w) =~= colon_parts(s).update(
            colon_parts(s).len() - 1,
            colon_parts(s).last() + w,
        ));
    }
}

/// A colon followed by text without colons adds that text as a new piece.
proof fn lemma_parts_piece(s: Seq<char>, w: Seq<char>)
    requires
        forall|i: int| 0 <= i < w.len() ==> w[i] != ':',
    ensures
        colon_parts(s + seq![':'] + w) == colon_parts(s).push(w),
{
    let s1 = s + seq![':'];
    assert(s1.drop_last() =~= s);
    assert(colon_parts(s1) == colon_parts(s).push(Seq::empty()));
    lemma_parts_append(s1, w);
    assert(Seq::<char>::empty() + w =~= w);
    assert(colon_parts(s1).update(colon_parts(s1).len() - 1, colon_parts(s1).last() + w)
        =~= colon_parts(s).push(w));
}

/// Writing six bytes as hexadecimal text with colons between them, in
/// either case and with or without leading zeros, and parsing the text
/// gives the six bytes back.
pub proof fn lemma_mac_text_round_trip(a: Seq<u8>, upper: bool, pad: bool)
    requires
        a.len() == 6,
    ensures
        valid_mac_text(mac_text(a, upper, pad)),
        forall|k: int| 0 <= k < 6 ==> mac_byte(mac_text(a, upper, pad), k) == a[k],
{
    let h0 = hex_text(a[0], upper, pad);
    let h1 = hex_text(a[1], upper, pad);
    let h2 = hex_text(a[2], upper, pad);
    let h3 = hex_text(a[3], upper, pad);
    let h4 = hex_text(a[4], upper, pad);
    let h5 = hex_text(a[5], upper, pad);
    lemma_hex_text(a[0], upper, pad);
    lemma_hex_text(a[1], upper, pad);
    lemma_hex_text(a[2], upper, pad);
    lemma_hex_text(a[3], upper, pad);
    lemma_hex_text(a[4], upper, pad);
    lemma_hex_text(a[5], upper, pad);
    let e = Seq::<char>::empty();
    lemma_parts_append(e, h0);
    assert(e + h0 =~= h0);
    assert(colon_parts(e) =~= seq![e]);
    assert(colon_parts(h0) =~= seq![h0]);
    let t1 = h0 + seq![':'] + h1;
    lemma_parts_piece(h0, h1);
    let t2 = t1 + seq![':'] + h2;
    lemma_parts_piece(t1, h2);
    let t3 = t2 + seq![':'] + h3;
    lemma_parts_piece(t2, h3);
    let t4 = t3 + seq![':'] + h4;
    lemma_parts_piece(t3, h4);
    let t5 = t4 + seq![':'] + h5;
    lemma_parts_piece(t4, h5);
    assert(t5 == mac_text(a, upper, pad));
    let p = colon_parts(t5);
    assert(p =~= seq![h0, h1, h2, h3, h4, h5]);
    assert forall|k: int| 0 <= k < 6 && k < p.len() implies (#[trigger] hex_byte(p[k])) is Some by {
        assert(p[k] == hex_text(a[k], upper, pad));
    }
    assert forall|k: int| 0 <= k < 6 implies mac_byte(t5, k) == a[k] by {
        assert(p[k] == hex_text(a[k], upper, pad));
    }
}

} // verus!
