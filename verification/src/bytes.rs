use vstd::prelude::*;

verus! {

/// Decimal digit test on a byte (b'0' is 48, b'9' is 57).
pub open spec fn is_digit(b: u8) -> bool {
    48 <= b && b <= 57
}

/// Numeric value of a decimal digit byte.
pub open spec fn digit_val(b: u8) -> int {
    b - 48
}

pub open spec fn all_digits(s: Seq<u8>) -> bool {
    forall|i: int| 0 <= i < s.len() ==> is_digit(#[trigger] s[i])
}

/// Value of a digit string read in base ten.
pub open spec fn digits_val(s: Seq<u8>) -> int
    decreases s.len(),
{
    if s.len() == 0 {
        0
    } else {
        digits_val(s.drop_last()) * 10 + digit_val(s.last())
    }
}

pub proof fn lemma_digits_val_nonneg(s: Seq<u8>)
    requires
        all_digits(s),
    ensures
        digits_val(s) >= 0,
    decreases s.len(),
{
    if s.len() > 0 {
        assert(all_digits(s.drop_last()));
        lemma_digits_val_nonneg(s.drop_last());
    }
}

/// Appending one digit multiplies the value by ten and adds the digit.
pub proof fn lemma_digits_val_snoc(s: Seq<u8>, from: int, i: int)
    requires
        0 <= from <= i < s.len(),
    ensures
        digits_val(s.subrange(from, i + 1)) == digits_val(s.subrange(from, i)) * 10 + digit_val(
            s[i],
        ),
{
    assert(s.subrange(from, i + 1).drop_last() =~= s.subrange(from, i));
    assert(s.subrange(from, i + 1).last() == s[i]);
}

/// The value of a digit string never falls when more digits follow.
pub proof fn lemma_digits_val_mono(s: Seq<u8>, from: int, i: int, j: int)
    requires
        0 <= from <= i <= j <= s.len(),
        all_digits(s.subrange(from, j)),
    ensures
        digits_val(s.subrange(from, i)) <= digits_val(s.subrange(from, j)),
    decreases j - i,
{
    if i < j {
        assert(all_digits(s.subrange(from, j - 1))) by {
            assert(forall|k: int|
                0 <= k < j - 1 - from ==> s.subrange(from, j - 1)[k] == #[trigger] s.subrange(
                    from,
                    j,
                )[k]);
        }
        lemma_digits_val_mono(s, from, i, j - 1);
        lemma_digits_val_snoc(s, from, j - 1);
        lemma_digits_val_nonneg(s.subrange(from, j - 1));
        assert(s.subrange(from, j)[j - 1 - from] == s[j - 1]);
        assert(is_digit(s[j - 1]));
    }
}

/// Parse the digits of `s` from position `from` on as a base-ten number,
/// refusing empty input, non-digits, and values above `max`.
pub fn parse_digits_max(s: &[u8], from: usize, max: u32) -> (r: Option<u32>)
    requires
        from <= s@.len(),
    ensures
        r is Some <==> (from < s@.len() && all_digits(s@.skip(from as int)) && digits_val(
            s@.skip(from as int),
        ) <= max),
        r matches Some(v) ==> v == digits_val(s@.skip(from as int)),
{
    proof {
        assert(s@.skip(from as int) =~= s@.subrange(from as int, s@.len() as int));
    }
    if from == s.len() {
        return None;
    }
    let ghost end = s@.len() as int;
    let mut acc: u64 = 0;
    let mut i: usize = from;
    while i < s.len()
        invariant
            from <= i <= s@.len(),
            from < s@.len(),
            all_digits(s@.subrange(from as int, i as int)),
            acc == digits_val(s@.subrange(from as int, i as int)),
            acc <= max,
            end == s@.len(),
        decreases s@.len() - i,
    {
        let b = s[i];
        if !(48 <= b && b <= 57) {
            proof {
                assert(s@.subrange(from as int, end)[i - from] == s[i as int]);
            }
            return None;
        }
        let d: u64 = (b - 48) as u64;
        proof {
            lemma_digits_val_snoc(s@, from as int, i as int);
        }
        let next: u64 = acc * 10 + d;
        if next > max as u64 {
            proof {
                if all_digits(s@.subrange(from as int, end)) {
                    lemma_digits_val_mono(s@, from as int, i + 1, end);
                }
            }
            return None;
        }
        proof {
            assert(all_digits(s@.subrange(from as int, i + 1))) by {
                assert(forall|k: int|
                    0 <= k < i - from ==> s@.subrange(from as int, i + 1)[k] == #[trigger] s@.subrange(
                        from as int,
                        i as int,
                    )[k]);
                assert(s@.subrange(from as int, i + 1)[i - from] == s[i as int]);
            }
        }
        acc = next;
        i = i + 1;
    }
    Some(acc as u32)
}

/// The input with one leading '+' removed, as `str::parse` for unsigned
/// integers strips it.
pub open spec fn strip_plus(s: Seq<u8>) -> Seq<u8> {
    if s.len() > 0 && s[0] == 43 {
        s.drop_first()
    } else {
        s
    }
}

/// What `str::parse::<u16>` accepts: an optional leading '+', then at least
/// one decimal digit, with a value of at most 65535.
pub open spec fn is_dec_u16(s: Seq<u8>) -> bool {
    strip_plus(s).len() > 0 && all_digits(strip_plus(s)) && digits_val(strip_plus(s)) <= 65535
}

pub open spec fn dec_u16_val(s: Seq<u8>) -> u16 {
    digits_val(strip_plus(s)) as u16
}

/// Parse a 16-bit unsigned decimal integer, as `str::parse::<u16>` would.
pub fn parse_u16(s: &[u8]) -> (r: Option<u16>)
    ensures
        r is Some <==> is_dec_u16(s@),
        r matches Some(v) ==> v == dec_u16_val(s@),
{
    let from: usize = if s.len() > 0 && s[0] == 43 {
        1
    } else {
        0
    };
    proof {
        assert(s@.skip(from as int) =~= strip_plus(s@));
    }
    match parse_digits_max(s, from, 65535) {
        Some(v) => Some(v as u16),
        None => None,
    }
}

/// The parts of `s` between occurrences of `sep`, as `str::split` yields
/// them: always at least one part, with empty parts kept.
pub open spec fn split_on(s: Seq<u8>, sep: u8) -> Seq<Seq<u8>>
    decreases s.len(),
{
    if s.len() == 0 {
        seq![Seq::<u8>::empty()]
    } else {
        let rest = split_on(s.drop_first(), sep);
        if s[0] == sep {
            seq![Seq::<u8>::empty()].add(rest)
        } else {
            seq![seq![s[0]].add(rest[0])].add(rest.drop_first())
        }
    }
}

pub proof fn lemma_split_on_len(s: Seq<u8>, sep: u8)
    ensures
        split_on(s, sep).len() >= 1,
    decreases s.len(),
{
    if s.len() > 0 {
        lemma_split_on_len(s.drop_first(), sep);
    }
}

/// A string without the separator is one single part.
pub proof fn lemma_split_on_no_sep(x: Seq<u8>, sep: u8)
    requires
        !x.contains(sep),
    ensures
        split_on(x, sep) == seq![x],
    decreases x.len(),
{
    if x.len() == 0 {
        assert(x =~= Seq::<u8>::empty());
        assert(split_on(x, sep) =~= seq![x]);
    } else {
        assert(x[0] != sep) by {
            if x[0] == sep {
                assert(x.contains(sep));
            }
        }
        assert(!x.drop_first().contains(sep)) by {
            if x.drop_first().contains(sep) {
                let i = choose|i: int|
                    0 <= i < x.drop_first().len() && x.drop_first()[i] == sep;
                assert(x[i + 1] == sep);
                assert(x.contains(sep));
            }
        }
        lemma_split_on_no_sep(x.drop_first(), sep);
        assert(seq![x[0]] + x.drop_first() =~= x);
        assert(split_on(x, sep) =~= seq![x]);
    }
}

/// Splitting "x sep y" with no separator in x yields x and then the parts
/// of y.
pub proof fn lemma_split_on_concat(x: Seq<u8>, y: Seq<u8>, sep: u8)
    requires
        !x.contains(sep),
    ensures
        split_on(x + seq![sep] + y, sep) == seq![x] + split_on(y, sep),
    decreases x.len(),
{
    let s = x + seq![sep] + y;
    assert(s.len() > 0);
    if x.len() == 0 {
        assert(s[0] == sep);
        assert(s.drop_first() =~= y);
        assert(x =~= Seq::<u8>::empty());
        assert(split_on(s, sep) =~= seq![x] + split_on(y, sep));
    } else {
        assert(s[0] == x[0]);
        assert(x[0] != sep) by {
            if x[0] == sep {
                assert(x.contains(sep));
            }
        }
        assert(!x.drop_first().contains(sep)) by {
            if x.drop_first().contains(sep) {
                let i = choose|i: int|
                    0 <= i < x.drop_first().len() && x.drop_first()[i] == sep;
                assert(x[i + 1] == sep);
                assert(x.contains(sep));
            }
        }
        assert(s.drop_first() =~= x.drop_first() + seq![sep] + y);
        lemma_split_on_concat(x.drop_first(), y, sep);
        lemma_split_on_len(y, sep);
        let rest = split_on(s.drop_first(), sep);
        assert(rest == seq![x.drop_first()] + split_on(y, sep));
        assert(rest[0] == x.drop_first());
        assert(seq![s[0]] + rest[0] =~= x);
        assert(rest.drop_first() =~= split_on(y, sep));
        assert(split_on(s, sep) =~= seq![x] + split_on(y, sep));
    }
}

/// A string that parses as a 16-bit number never holds the range
/// separator '-'.
pub proof fn lemma_dec_u16_no_dash(x: Seq<u8>)
    requires
        is_dec_u16(x),
    ensures
        !x.contains(45),
{
    if x.contains(45) {
        let i = choose|i: int| 0 <= i < x.len() && x[i] == 45;
        if x.len() > 0 && x[0] == 43 {
            if i > 0 {
                assert(strip_plus(x)[i - 1] == x[i]);
                assert(is_digit(45));
            }
        } else {
            assert(strip_plus(x) == x);
            assert(is_digit(x[i]));
        }
    }
}

/// The views of a vector of byte vectors.
pub open spec fn vecs_view(r: Seq<Vec<u8>>) -> Seq<Seq<u8>> {
    r.map_values(|v: Vec<u8>| v@)
}

/// Split a byte string on a separator, as `str::split` does.
pub fn split_bytes(s: &[u8], sep: u8) -> (r: Vec<Vec<u8>>)
    ensures
        vecs_view(r@) == split_on(s@, sep),
{
    let ghost end = s@.len() as int;
    let mut parts: Vec<Vec<u8>> = Vec::new();
    let mut cur: Vec<u8> = Vec::new();
    let mut i: usize = 0;
    proof {
        assert(s@.skip(0) =~= s@);
    }
    while i < s.len()
        invariant
            0 <= i <= s@.len(),
            end == s@.len(),
            split_on(s@, sep) =~= vecs_view(parts@) + seq![cur@ + split_on(
                s@.skip(i as int),
                sep,
            )[0]] + split_on(s@.skip(i as int), sep).drop_first(),
        decreases s@.len() - i,
    {
        let ghost t = split_on(s@.skip(i as int), sep);
        let ghost t1 = split_on(s@.skip(i + 1), sep);
        proof {
            lemma_split_on_len(s@.skip(i as int), sep);
            lemma_split_on_len(s@.skip(i + 1), sep);
            assert(s@.skip(i as int).len() > 0);
            assert(s@.skip(i as int)[0] == s@[i as int]);
            assert(s@.skip(i as int).drop_first() =~= s@.skip(i + 1));
        }
        let b = s[i];
        if b == sep {
            proof {
                assert(t =~= seq![Seq::<u8>::empty()].add(t1));
                assert(cur@ + t[0] =~= cur@);
                assert(t.drop_first() =~= t1);
                assert(t1 =~= seq![t1[0]] + t1.drop_first());
            }
            let ghost old_parts = parts@;
            let ghost old_cur = cur@;
            parts.push(cur);
            cur = Vec::new();
            proof {
                assert(vecs_view(parts@) =~= vecs_view(old_parts) + seq![old_cur]);
                assert(cur@ + t1[0] =~= t1[0]);
                assert(split_on(s@, sep) =~= vecs_view(old_parts) + seq![old_cur] + seq![
                    t1[0],
                ] + t1.drop_first());
                assert(vecs_view(parts@) + seq![cur@ + t1[0]] + t1.drop_first()
                    =~= vecs_view(old_parts) + seq![old_cur] + seq![t1[0]] + t1.drop_first());
                assert(split_on(s@, sep) =~= vecs_view(parts@) + seq![cur@ + t1[0]]
                    + t1.drop_first());
            }
        } else {
            let ghost old_cur = cur@;
            proof {
                assert(t =~= seq![seq![s@[i as int]].add(t1[0])].add(t1.drop_first()));
                assert(old_cur + t[0] =~= (old_cur + seq![s@[i as int]]) + t1[0]);
                assert(t.drop_first() =~= t1.drop_first());
            }
            cur.push(b);
            proof {
                assert(cur@ =~= old_cur + seq![s@[i as int]]);
                assert(cur@ + t1[0] == old_cur + t[0]);
                assert(split_on(s@, sep) =~= vecs_view(parts@) + seq![cur@ + t1[0]]
                    + t1.drop_first());
            }
        }
        i = i + 1;
    }
    proof {
        assert(s@.skip(end) =~= Seq::<u8>::empty());
        assert(split_on(s@.skip(end), sep) =~= seq![Seq::<u8>::empty()]);
        assert(cur@ + Seq::<u8>::empty() =~= cur@);
    }
    let ghost old_parts = parts@;
    let ghost old_cur = cur@;
    parts.push(cur);
    proof {
        assert(vecs_view(parts@) =~= vecs_view(old_parts) + seq![old_cur]);
        assert(vecs_view(parts@) =~= split_on(s@, sep));
    }
    parts
}

/// The sentinel string that marks an absent field.
pub open spec fn null_bytes() -> Seq<u8> {
    seq![110u8, 117u8, 108u8, 108u8]
}

pub open spec fn is_null_str(s: Seq<u8>) -> bool {
    s == null_bytes()
}

/// Test for the "null" sentinel that stands for an unset string field.
pub fn is_null_sentinel(s: &[u8]) -> (r: bool)
    ensures
        r == is_null_str(s@),
{
    if s.len() == 4 {
        let r = s[0] == 110 && s[1] == 117 && s[2] == 108 && s[3] == 108;
        proof {
            if r {
                assert(s@ =~= null_bytes());
            }
        }
        r
    } else {
        false
    }
}

} // verus!
