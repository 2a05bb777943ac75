//! Building human-readable text from numbers and fixed phrases.
use vstd::prelude::*;

verus! {

/// The character of the decimal digit `d` (`0 <= d < 10`).
pub open spec fn digit_char(d: nat) -> char {
    if d == 0 { '0' }
    else if d == 1 { '1' }
    else if d == 2 { '2' }
    else if d == 3 { '3' }
    else if d == 4 { '4' }
    else if d == 5 { '5' }
    else if d == 6 { '6' }
    else if d == 7 { '7' }
    else if d == 8 { '8' }
    else { '9' }
}

/// The decimal notation of `n`, most significant digit first, without
/// leading zeros.
pub open spec fn decimal(n: nat) -> Seq<char>
    decreases n,
{
    if n < 10 {
        seq![digit_char(n)]
    } else {
        decimal(n / 10).push(digit_char(n % 10))
    }
}

fn digit_str(d: u64) -> (r: &'static str)
    requires
        d < 10,
    ensures
        r@ == seq![digit_char(d as nat)],
{
    proof {
        reveal_strlit("0");
        reveal_strlit("1");
        reveal_strlit("2");
        reveal_strlit("3");
        reveal_strlit("4");
        reveal_strlit("5");
        reveal_strlit("6");
        reveal_strlit("7");
        reveal_strlit("8");
        reveal_strlit("9");
    }
    if d == 0 { "0" }
    else if d == 1 { "1" }
    else if d == 2 { "2" }
    else if d == 3 { "3" }
    else if d == 4 { "4" }
    else if d == 5 { "5" }
    else if d == 6 { "6" }
    else if d == 7 { "7" }
    else if d == 8 { "8" }
    else { "9" }
}

/// Appends the decimal notation of `n` to `s`.
pub fn append_decimal(s: &mut String, n: u64)
    ensures
        final(s)@ == old(s)@ + decimal(n as nat),
    decreases n,
{
    if n >= 10 {
        append_decimal(s, n / 10);
    }
    s.append(digit_str(n % 10));
    proof {
        if n >= 10 {
            assert(old(s)@ + decimal(n as nat) =~= old(s)@ + decimal((n / 10) as nat) + seq![digit_char((n % 10) as nat)]);
        } else {
            assert(n % 10 == n);
        }
    }
}


/// The parts of `fs`, in order, with `sep` between each two.
pub open spec fn join_with(fs: Seq<Seq<char>>, sep: Seq<char>) -> Seq<char>
    decreases fs.len(),
{
    if fs.len() == 0 {
        Seq::empty()
    } else if fs.len() == 1 {
        fs[0]
    } else {
        join_with(fs.drop_last(), sep) + sep + fs.last()
    }
}

/// Joining after one more part adds the separator and the part, or gives
/// the part alone where there was none before.
pub proof fn lemma_join_push(fs: Seq<Seq<char>>, sep: Seq<char>, m: Seq<char>)
    ensures
        join_with(fs.push(m), sep) == if fs.len() == 0 { m } else { join_with(fs, sep) + sep + m },
{
    assert(fs.push(m).drop_last() =~= fs);
}

/// If `p + x + s` equals `p + y + s`, then `x` equals `y`.
pub proof fn lemma_cancel(p: Seq<char>, x: Seq<char>, y: Seq<char>, s: Seq<char>)
    requires
        p + x + s == p + y + s,
    ensures
        x == y,
{
    assert((p + x + s).len() == p.len() + x.len() + s.len());
    assert((p + y + s).len() == p.len() + y.len() + s.len());
    assert(x =~= (p + x + s).subrange(p.len() as int, (p.len() + x.len()) as int));
    assert(y =~= (p + y + s).subrange(p.len() as int, (p.len() + y.len()) as int));
}

/// Two lists of parts that differ at exactly one position join to
/// different text, whatever the separator.
pub proof fn lemma_join_separates(fa: Seq<Seq<char>>, fb: Seq<Seq<char>>, sep: Seq<char>, k: int)
    requires
        fa.len() == fb.len(),
        0 <= k < fa.len(),
        fa[k] != fb[k],
        forall|i: int| 0 <= i < fa.len() && i != k ==> fa[i] == fb[i],
    ensures
        join_with(fa, sep) != join_with(fb, sep),
    decreases fa.len(),
{
    if fa.len() == 1 {
    } else if k == fa.len() - 1 {
        assert(fa.drop_last() =~= fb.drop_last());
        if join_with(fa, sep) == join_with(fb, sep) {
            let j = join_with(fa.drop_last(), sep) + sep;
            assert(j + fa.last() =~= j + fa.last() + Seq::<char>::empty());
            assert(j + fb.last() =~= j + fb.last() + Seq::<char>::empty());
            lemma_cancel(j, fa.last(), fb.last(), Seq::<char>::empty());
        }
    } else {
        lemma_join_separates(fa.drop_last(), fb.drop_last(), sep, k);
        if join_with(fa, sep) == join_with(fb, sep) {
            let ja = join_with(fa.drop_last(), sep);
            let jb = join_with(fb.drop_last(), sep);
            let t = sep + fa.last();
            assert(ja + sep + fa.last() =~= Seq::<char>::empty() + ja + t);
            assert(jb + sep + fb.last() =~= Seq::<char>::empty() + jb + t);
            lemma_cancel(Seq::<char>::empty(), ja, jb, t);
        }
    }
}

proof fn lemma_digit_injective(a: nat, b: nat)
    requires
        a < 10,
        b < 10,
        digit_char(a) == digit_char(b),
    ensures
        a == b,
{
    assert(digit_char(a) as u32 == '0' as u32 + a);
    assert(digit_char(b) as u32 == '0' as u32 + b);
}

proof fn lemma_decimal_len(n: nat)
    ensures
        decimal(n).len() >= 1,
        n < 10 <==> decimal(n).len() == 1,
    decreases n,
{
    if n >= 10 {
        lemma_decimal_len(n / 10);
    }
}

/// Distinct numbers have distinct decimal notations.
pub proof fn lemma_decimal_injective(n: nat, m: nat)
    requires
        decimal(n) == decimal(m),
    ensures
        n == m,
    decreases n,
{
    lemma_decimal_len(n);
    lemma_decimal_len(m);
    if n >= 10 && m >= 10 {
        assert(decimal(n).drop_last() =~= decimal(n / 10));
        assert(decimal(m).drop_last() =~= decimal(m / 10));
        lemma_decimal_injective(n / 10, m / 10);
        assert(decimal(n).last() == digit_char(n % 10));
        assert(decimal(m).last() == digit_char(m % 10));
        lemma_digit_injective(n % 10, m % 10);
        assert(n == 10 * (n / 10) + n % 10);
        assert(m == 10 * (m / 10) + m % 10);
    } else if n < 10 && m < 10 {
        assert(decimal(n) == seq![digit_char(n)]);
        assert(decimal(m) == seq![digit_char(m)]);
        assert(seq![digit_char(n)][0] == digit_char(n));
        assert(seq![digit_char(m)][0] == digit_char(m));
        lemma_digit_injective(n, m);
    } else {
        assert(decimal(n).len() != decimal(m).len());
    }
}

/// The lowercase hexadecimal digit of `d` (`0 <= d < 16`).
pub open spec fn hex_digit(d: nat) -> char {
    if d < 10 { digit_char(d) }
    else if d == 10 { 'a' }
    else if d == 11 { 'b' }
    else if d == 12 { 'c' }
    else if d == 13 { 'd' }
    else if d == 14 { 'e' }
    else { 'f' }
}

/// Two lowercase hexadecimal digits for each byte of `b`, high half first.
pub open spec fn hex_of(b: Seq<u8>) -> Seq<char>
    decreases b.len(),
{
    if b.len() == 0 {
        Seq::empty()
    } else {
        hex_of(b.drop_last()) + seq![hex_digit((b.last() / 16) as nat), hex_digit((b.last() % 16) as nat)]
    }
}

/// Relies on hex::encode: two lowercase hexadecimal digits for each byte, in
/// order, high half first.
#[verifier::external_body]
fn encode_hex(b: &[u8]) -> (r: String)
    ensures
        r@ == hex_of(b@),
{
    hex::encode(b)
}

/// The number of bytes a hexadecimal preview shows.
pub const PREVIEW_BYTES: usize = 8;

/// The hexadecimal digits of the first bytes of `b`, followed by an
/// ellipsis where some were left out.
pub open spec fn hex_preview(b: Seq<u8>) -> Seq<char> {
    if b.len() > PREVIEW_BYTES {
        hex_of(b.take(PREVIEW_BYTES as int)) + "..."@
    } else {
        hex_of(b)
    }
}

/// Appends the hexadecimal digits of all of `b` to `s`.
pub fn append_hex(s: &mut String, b: &[u8])
    ensures
        final(s)@ == old(s)@ + hex_of(b@),
{
    let h = encode_hex(b);
    s.append(h.as_str());
}

/// Appends a hexadecimal preview of `b` to `s`.
pub fn append_hex_preview(s: &mut String, b: &[u8])
    ensures
        final(s)@ == old(s)@ + hex_preview(b@),
{
    let n: usize = if b.len() > PREVIEW_BYTES { PREVIEW_BYTES } else { b.len() };
    let mut head: Vec<u8> = Vec::new();
    let mut i: usize = 0;
    while i < n
        invariant
            n <= b@.len(),
            0 <= i <= n,
            head@ == b@.take(i as int),
        decreases n - i,
    {
        head.push(b[i]);
        i += 1;
        assert(head@ =~= b@.take(i as int));
    }
    append_hex(s, head.as_slice());
    if b.len() > PREVIEW_BYTES {
        s.append("...");
    } else {
        assert(b@.take(n as int) =~= b@);
    }
}

} // verus!
