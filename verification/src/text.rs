//! Text forms of byte strings and numbers used in the API records.

use vstd::prelude::*;

verus! {

/// The lower-case hexadecimal digit for a nibble.
pub open spec fn hex_digit(n: int) -> char {
    if n < 10 {
        (48 + n) as char
    } else {
        (87 + n) as char
    }
}

/// Lower-case hexadecimal text of a byte string: two digits per byte, high
/// nibble first.
pub open spec fn hex_lower(bytes: Seq<u8>) -> Seq<char> {
    Seq::new(
        2 * bytes.len(),
        |i: int|
            if i % 2 == 0 {
                hex_digit(bytes[i / 2] as int / 16)
            } else {
                hex_digit(bytes[i / 2] as int % 16)
            },
    )
}

proof fn lemma_hex_digit_injective(x: int, y: int)
    requires
        0 <= x < 16,
        0 <= y < 16,
        hex_digit(x) == hex_digit(y),
    ensures
        x == y,
{
    let cx = hex_digit(x) as int;
    let cy = hex_digit(y) as int;
    assert(cx == if x < 10 { 48 + x } else { 87 + x });
    assert(cy == if y < 10 { 48 + y } else { 87 + y });
}

/// Hexadecimal text loses nothing: two byte strings with the same text are
/// the same byte string.
pub proof fn lemma_hex_lower_injective(a: Seq<u8>, b: Seq<u8>)
    requires
        hex_lower(a) == hex_lower(b),
    ensures
        a == b,
{
    assert(hex_lower(a).len() == 2 * a.len());
    assert(hex_lower(b).len() == 2 * b.len());
    assert forall|i: int| 0 <= i < a.len() implies a[i] == b[i] by {
        let j = 2 * i;
        let k = 2 * i + 1;
        assert(j / 2 == i && j % 2 == 0);
        assert(k / 2 == i && k % 2 == 1);
        assert(hex_lower(a)[j] == hex_digit(a[i] as int / 16));
        assert(hex_lower(b)[j] == hex_digit(b[i] as int / 16));
        assert(hex_lower(a)[k] == hex_digit(a[i] as int % 16));
        assert(hex_lower(b)[k] == hex_digit(b[i] as int % 16));
        lemma_hex_digit_injective(a[i] as int / 16, b[i] as int / 16);
        lemma_hex_digit_injective(a[i] as int % 16, b[i] as int % 16);
    }
    assert(a =~= b);
}

/// Txid text loses nothing: two txids with the same display text are the
/// same bytes.
pub proof fn lemma_txid_text_injective(a: Seq<u8>, b: Seq<u8>)
    requires
        hex_lower(a.reverse()) == hex_lower(b.reverse()),
    ensures
        a == b,
{
    lemma_hex_lower_injective(a.reverse(), b.reverse());
    assert(a.len() == b.len());
    assert forall|i: int| 0 <= i < a.len() implies a[i] == b[i] by {
        assert(a.reverse()[a.len() - 1 - i] == a[i]);
        assert(b.reverse()[b.len() - 1 - i] == b[i]);
    }
    assert(a =~= b);
}

/// The characters of the hexadecimal text, in ASCII: the text is twice as
/// long as the bytes, and byte `i` gives the characters at `2i` (high nibble)
/// and `2i + 1` (low nibble), `0`-`9` then `a`-`f`.
pub proof fn lemma_hex_lower_chars(bytes: Seq<u8>)
    ensures
        hex_lower(bytes).len() == 2 * bytes.len(),
        forall|i: int|
            0 <= i < bytes.len() ==> {
                let hi = bytes[i] as int / 16;
                let lo = bytes[i] as int % 16;
                &&& (#[trigger] hex_lower(bytes)[2 * i]) as int == if hi < 10 { 48 + hi } else { 87 + hi }
                &&& hex_lower(bytes)[2 * i + 1] as int == if lo < 10 { 48 + lo } else { 87 + lo }
            },
{
    assert forall|i: int| 0 <= i < bytes.len() implies {
        let hi = bytes[i] as int / 16;
        let lo = bytes[i] as int % 16;
        &&& (#[trigger] hex_lower(bytes)[2 * i]) as int == if hi < 10 { 48 + hi } else { 87 + hi }
        &&& hex_lower(bytes)[2 * i + 1] as int == if lo < 10 { 48 + lo } else { 87 + lo }
    } by {
        let j = 2 * i;
        let k = 2 * i + 1;
        assert(j / 2 == i && j % 2 == 0);
        assert(k / 2 == i && k % 2 == 1);
        assert(hex_lower(bytes)[j] == hex_digit(bytes[i] as int / 16));
        assert(hex_lower(bytes)[k] == hex_digit(bytes[i] as int % 16));
    }
}

fn nibble_text(n: u8) -> (s: &'static str)
    requires
        n < 16,
    ensures
        s@ == seq![hex_digit(n as int)],
{
    if n == 0 {
        proof { reveal_strlit("0"); }
        "0"
    } else if n == 1 {
        proof { reveal_strlit("1"); }
        "1"
    } else if n == 2 {
        proof { reveal_strlit("2"); }
        "2"
    } else if n == 3 {
        proof { reveal_strlit("3"); }
        "3"
    } else if n == 4 {
        proof { reveal_strlit("4"); }
        "4"
    } else if n == 5 {
        proof { reveal_strlit("5"); }
        "5"
    } else if n == 6 {
        proof { reveal_strlit("6"); }
        "6"
    } else if n == 7 {
        proof { reveal_strlit("7"); }
        "7"
    } else if n == 8 {
        proof { reveal_strlit("8"); }
        "8"
    } else if n == 9 {
        proof { reveal_strlit("9"); }
        "9"
    } else if n == 10 {
        proof { reveal_strlit("a"); }
        "a"
    } else if n == 11 {
        proof { reveal_strlit("b"); }
        "b"
    } else if n == 12 {
        proof { reveal_strlit("c"); }
        "c"
    } else if n == 13 {
        proof { reveal_strlit("d"); }
        "d"
    } else if n == 14 {
        proof { reveal_strlit("e"); }
        "e"
    } else {
        proof { reveal_strlit("f"); }
        "f"
    }
}

/// Lower-case hexadecimal text of `bytes`, two characters per byte, high
/// nibble first (what `hex::encode` gives).
pub fn hex_encode(bytes: &[u8]) -> (res: String)
    ensures
        res@ == hex_lower(bytes@),
{
    let mut res = String::new();
    let n = bytes.len();
    for i in 0..n
        invariant
            n == bytes@.len(),
            res@ == hex_lower(bytes@.take(i as int)),
    {
        let b = bytes[i];
        let hi = nibble_text(b / 16);
        let lo = nibble_text(b % 16);
        res.append(hi);
        res.append(lo);
        proof {
            let t = bytes@.take(i as int);
            let t1 = bytes@.take(i + 1);
            assert forall|j: int| 0 <= j < 2 * t1.len() implies #[trigger] hex_lower(t1)[j] == (hex_lower(t)
                + seq![hex_digit(b as int / 16), hex_digit(b as int % 16)])[j] by {
                if j < 2 * i {
                    assert(j / 2 < i);
                    assert(t1[j / 2] == t[j / 2]);
                } else {
                    assert(j / 2 == i);
                }
            }
            assert(hex_lower(t1) =~= hex_lower(t) + seq![hex_digit(b as int / 16), hex_digit(b as int % 16)]);
        }
    }
    proof {
        assert(bytes@.take(n as int) =~= bytes@);
    }
    res
}

/// Display text of a transaction id given by its 32 bytes in internal order:
/// txids are shown byte-reversed in lower-case hex.
pub fn txid_text(bytes: [u8; 32]) -> (res: String)
    ensures
        res@ == hex_lower(bytes@.reverse()),
{
    let mut rev: Vec<u8> = Vec::new();
    let mut i: usize = 0;
    while i < 32
        invariant
            i <= 32,
            bytes@.len() == 32,
            rev@ == bytes@.reverse().take(i as int),
        decreases 32 - i,
    {
        rev.push(bytes[31 - i]);
        proof {
            assert(rev@ =~= bytes@.reverse().take(i + 1));
        }
        i = i + 1;
    }
    proof {
        assert(rev@ =~= bytes@.reverse());
    }
    hex_encode(rev.as_slice())
}

/// The decimal digit character for `d` in `0..10`.
pub open spec fn decimal_digit(d: int) -> char {
    (48 + d) as char
}

/// Decimal text of a natural number, without leading zeros.
pub open spec fn decimal(n: nat) -> Seq<char>
    decreases n,
{
    if n < 10 {
        seq![decimal_digit(n as int)]
    } else {
        decimal(n / 10).push(decimal_digit((n % 10) as int))
    }
}

fn digit_text(d: u16) -> (s: &'static str)
    requires
        d < 10,
    ensures
        s@ == seq![decimal_digit(d as int)],
{
    if d == 0 {
        proof { reveal_strlit("0"); }
        "0"
    } else if d == 1 {
        proof { reveal_strlit("1"); }
        "1"
    } else if d == 2 {
        proof { reveal_strlit("2"); }
        "2"
    } else if d == 3 {
        proof { reveal_strlit("3"); }
        "3"
    } else if d == 4 {
        proof { reveal_strlit("4"); }
        "4"
    } else if d == 5 {
        proof { reveal_strlit("5"); }
        "5"
    } else if d == 6 {
        proof { reveal_strlit("6"); }
        "6"
    } else if d == 7 {
        proof { reveal_strlit("7"); }
        "7"
    } else if d == 8 {
        proof { reveal_strlit("8"); }
        "8"
    } else {
        proof { reveal_strlit("9"); }
        "9"
    }
}

/// Appends the decimal text of `n` to `s`.
pub fn append_decimal(s: &mut String, n: u16)
    ensures
        final(s)@ == old(s)@ + decimal(n as nat),
    decreases n,
{
    if n >= 10 {
        append_decimal(s, n / 10);
    }
    let digit = digit_text(n % 10);
    s.append(digit);
    proof {
        if n >= 10 {
            assert(old(s)@ + decimal(n as nat) =~= old(s)@ + decimal((n / 10) as nat) + digit@);
        } else {
            assert(decimal(n as nat) =~= digit@);
        }
    }
}

/// The address of a TCP port on the loopback interface, `127.0.0.1:<port>`.
pub fn loopback_address(port: u16) -> (res: String)
    ensures
        res@ == "127.0.0.1:"@ + decimal(port as nat),
{
    let mut s = String::from_str("127.0.0.1:");
    append_decimal(&mut s, port);
    s
}

/// Each decimal digit is its ASCII character, `0` to `9`.
pub proof fn lemma_decimal_digit_ascii(d: int)
    requires
        0 <= d < 10,
    ensures
        decimal_digit(d) as int == 48 + d,
{
}

/// The value of a string of ASCII decimal digits, read base 10.
pub open spec fn digits_value(s: Seq<char>) -> int
    decreases s.len(),
{
    if s.len() == 0 {
        0
    } else {
        digits_value(s.drop_last()) * 10 + (s.last() as int - 48)
    }
}

/// The decimal text of `n` is made of ASCII digits, has no leading zero,
/// and reads back as `n`.
pub proof fn lemma_decimal_reads_back(n: nat)
    ensures
        decimal(n).len() >= 1,
        forall|i: int| 0 <= i < decimal(n).len() ==> 48 <= (#[trigger] decimal(n)[i]) as int <= 57,
        n >= 10 ==> decimal(n)[0] as int != 48,
        digits_value(decimal(n)) == n,
    decreases n,
{
    if n < 10 {
        assert(decimal(n) =~= seq![decimal_digit(n as int)]);
        assert(decimal(n).drop_last() =~= Seq::<char>::empty());
        assert(decimal_digit(n as int) as int == 48 + n);
        assert(digits_value(decimal(n).drop_last()) == 0);
    } else {
        lemma_decimal_reads_back(n / 10);
        let prefix = decimal(n / 10);
        assert(decimal(n) == prefix.push(decimal_digit((n % 10) as int)));
        assert(decimal(n).drop_last() =~= prefix);
        assert forall|i: int| 0 <= i < decimal(n).len() implies 48 <= (#[trigger] decimal(n)[i]) as int <= 57 by {
            if i < prefix.len() {
                assert(decimal(n)[i] == prefix[i]);
            }
        }
        assert(decimal(n)[0] == prefix[0]);
        if n / 10 < 10 {
            assert(prefix =~= seq![decimal_digit((n / 10) as int)]);
            assert(decimal_digit((n / 10) as int) as int == 48 + n / 10);
        }
        assert(decimal_digit((n % 10) as int) as int == 48 + n % 10);
        assert(decimal(n).last() == decimal_digit((n % 10) as int));
        assert(n == (n / 10) * 10 + n % 10);
        assert(digits_value(decimal(n)) == digits_value(prefix) * 10 + (decimal(n).last() as int - 48));
    }
}

} // verus!
