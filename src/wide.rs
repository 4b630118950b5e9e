use vstd::prelude::*;

verus! {

/// The UTF-16 code units of one character.
pub open spec fn utf16_of_char(c: char) -> Seq<u16> {
    let v = c as int;
    if v < 0x10000 {
        seq![v as u16]
    } else {
        seq![(0xD800 + (v - 0x10000) / 0x400) as u16, (0xDC00 + (v - 0x10000) % 0x400) as u16]
    }
}

/// The UTF-16 encoding of a character sequence.
pub open spec fn utf16_of(s: Seq<char>) -> Seq<u16>
    decreases s.len(),
{
    if s.len() == 0 {
        Seq::empty()
    } else {
        utf16_of(s.drop_last()) + utf16_of_char(s.last())
    }
}

/// At most the first `n` items of `s`.
pub open spec fn truncated<T>(s: Seq<T>, n: nat) -> Seq<T> {
    if s.len() <= n {
        s
    } else {
        s.take(n as int)
    }
}

/// `s` followed by zeros up to `capacity` items.
pub open spec fn zero_padded(s: Seq<u16>, capacity: nat) -> Seq<u16> {
    s + Seq::new((capacity - s.len()) as nat, |i: int| 0u16)
}

proof fn lemma_utf16_of_push(s: Seq<char>, c: char)
    ensures
        utf16_of(s.push(c)) == utf16_of(s) + utf16_of_char(c),
{
    assert(s.push(c).drop_last() =~= s);
}

/// The encoding of a prefix is a prefix of the encoding.
pub proof fn lemma_utf16_of_prefix(s: Seq<char>, i: int)
    requires
        0 <= i <= s.len(),
    ensures
        utf16_of(s) == utf16_of(s.take(i)) + utf16_of(s.skip(i)),
    decreases s.len() - i,
{
    if i == s.len() {
        assert(s.take(i) =~= s);
        assert(utf16_of(s.skip(i)) =~= Seq::<u16>::empty());
        assert(utf16_of(s) + Seq::<u16>::empty() =~= utf16_of(s));
    } else {
        lemma_utf16_of_prefix(s, i + 1);
        assert(s.take(i + 1) =~= s.take(i).push(s[i]));
        lemma_utf16_of_push(s.take(i), s[i]);
        let rest = s.skip(i);
        lemma_utf16_of_cons(s[i], s.skip(i + 1));
        assert(seq![s[i]] + s.skip(i + 1) =~= rest);
        assert(utf16_of(s.take(i)) + utf16_of_char(s[i]) + utf16_of(s.skip(i + 1))
            =~= utf16_of(s.take(i)) + (utf16_of_char(s[i]) + utf16_of(s.skip(i + 1))));
    }
}

proof fn lemma_utf16_of_cons(c: char, s: Seq<char>)
    ensures
        utf16_of(seq![c] + s) == utf16_of_char(c) + utf16_of(s),
    decreases s.len(),
{
    if s.len() == 0 {
        assert(seq![c] + s =~= seq![c]);
        assert(seq![c].drop_last() =~= Seq::<char>::empty());
        assert(seq![c].last() == c);
        assert(utf16_of(seq![c]) == utf16_of(Seq::<char>::empty()) + utf16_of_char(c));
        assert(utf16_of(Seq::<char>::empty()) =~= Seq::<u16>::empty());
        assert(utf16_of(s) =~= Seq::<u16>::empty());
        assert(utf16_of_char(c) + utf16_of(s) =~= utf16_of_char(c));
        assert(Seq::<u16>::empty() + utf16_of_char(c) =~= utf16_of_char(c));
    } else {
        lemma_utf16_of_cons(c, s.drop_last());
        assert((seq![c] + s).drop_last() =~= seq![c] + s.drop_last());
        assert((seq![c] + s).last() == s.last());
        assert(utf16_of_char(c) + utf16_of(s.drop_last()) + utf16_of_char(s.last())
            =~= utf16_of_char(c) + (utf16_of(s.drop_last()) + utf16_of_char(s.last())));
    }
}

proof fn lemma_truncated_extend(a: Seq<u16>, b: Seq<u16>, n: nat)
    ensures
        truncated(a + b, n) == truncated(truncated(a, n) + b, n),
{
    if a.len() > n {
        assert((a + b).take(n as int) =~= a.take(n as int));
        assert((a.take(n as int) + b).take(n as int) =~= a.take(n as int));
    }
}

/// Pushes the UTF-16 units of `c` onto `out`, stopping once `out` holds `len` units.
fn push_units(out: &mut Vec<u16>, c: char, len: usize)
    requires
        old(out).len() <= len,
    ensures
        final(out)@ == truncated(old(out)@ + utf16_of_char(c), len as nat),
{
    let v = c as u32;
    if v < 0x10000 {
        if out.len() < len {
            out.push(v as u16);
        }
        proof {
            assert(old(out)@ + utf16_of_char(c) =~= old(out)@.push(v as u16));
            if old(out).len() == len {
                assert(old(out)@.push(v as u16).take(len as int) =~= old(out)@);
            }
        }
    } else {
        let u: u32 = v - 0x10000;
        let hi: u16 = (0xD800 + u / 0x400) as u16;
        let lo: u16 = (0xDC00 + u % 0x400) as u16;
        let ghost before = out@;
        if out.len() < len {
            out.push(hi);
            if out.len() < len {
                out.push(lo);
            }
        }
        proof {
            let units = utf16_of_char(c);
            assert(units =~= seq![hi, lo]);
            if before.len() == len {
                assert((before + units).take(len as int) =~= before);
            } else if before.len() + 1 == len {
                assert((before + units).take(len as int) =~= before.push(hi));
            } else {
                assert(before + units =~= before.push(hi).push(lo));
            }
        }
    }
}

/// The UTF-16 encoding of `text`, cut after its first `len` code units.
pub fn convert_to_wchar_t(text: &str, len: usize) -> (r: Vec<u16>)
    ensures
        r@ == truncated(utf16_of(text@), len as nat),
{
    broadcast use vstd::string::group_string_axioms;

    let mut out: Vec<u16> = Vec::new();
    for c in it: text.chars()
        invariant
            it.seq() == text@,
            out.len() <= len,
            out@ == truncated(utf16_of(text@.take(it.index() as int)), len as nat),
    {
        let ghost i = it.index() as int;
        proof {
            assert(text@.take(i + 1) =~= text@.take(i).push(c));
            lemma_utf16_of_push(text@.take(i), c);
            lemma_truncated_extend(utf16_of(text@.take(i)), utf16_of_char(c), len as nat);
        }
        push_units(&mut out, c, len);
    }
    assert(text@.take(text@.len() as int) =~= text@);
    out
}

/// A buffer of `capacity` units that starts with `units` and is zero after them.
pub fn fixed_buffer(units: &Vec<u16>, capacity: usize) -> (r: Vec<u16>)
    requires
        units.len() <= capacity,
    ensures
        r@ == zero_padded(units@, capacity as nat),
{
    let mut buf: Vec<u16> = Vec::new();
    let mut i: usize = 0;
    while i < capacity
        invariant
            i <= capacity,
            units.len() <= capacity,
            buf@ == zero_padded(units@, capacity as nat).take(i as int),
        decreases capacity - i,
    {
        if i < units.len() {
            buf.push(units[i]);
        } else {
            buf.push(0);
        }
        proof {
            assert(zero_padded(units@, capacity as nat).take(i + 1) =~= buf@);
        }
        i = i + 1;
    }
    assert(zero_padded(units@, capacity as nat).take(capacity as int) =~= zero_padded(units@, capacity as nat));
    buf
}

} // verus!
