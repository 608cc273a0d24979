//! Small text building blocks: decimal rendering of counters, lower-casing,
//! dash-joining of names and joining of lists with a separator.

use vstd::prelude::*;

verus! {

/// The character of a decimal digit.
pub open spec fn digit_char(d: nat) -> char {
    if d == 0 {
        '0'
    } else if d == 1 {
        '1'
    } else if d == 2 {
        '2'
    } else if d == 3 {
        '3'
    } else if d == 4 {
        '4'
    } else if d == 5 {
        '5'
    } else if d == 6 {
        '6'
    } else if d == 7 {
        '7'
    } else if d == 8 {
        '8'
    } else {
        '9'
    }
}

/// The decimal rendering of a natural number, most significant digit first,
/// without sign or leading zeros (zero renders as `0`).
pub open spec fn decimal(n: nat) -> Seq<char>
    decreases n,
{
    if n < 10 {
        seq![digit_char(n)]
    } else {
        decimal(n / 10).push(digit_char(n % 10))
    }
}

/// A name with every space replaced by a dash.
pub open spec fn dashed(s: Seq<char>) -> Seq<char> {
    s.map_values(|c: char| if c == ' ' { '-' } else { c })
}

/// The items joined, with `sep` between each two neighbours.
pub open spec fn joined(items: Seq<Seq<char>>, sep: Seq<char>) -> Seq<char>
    decreases items.len(),
{
    if items.len() == 0 {
        Seq::empty()
    } else if items.len() == 1 {
        items[0]
    } else {
        joined(items.drop_last(), sep) + sep + items.last()
    }
}

/// What `str::to_lowercase` gives for a string (full Unicode lower-case mapping).
pub uninterp spec fn lowercase_of(s: Seq<char>) -> Seq<char>;

/// `String::push`: the string grows by the one character, at its end.
#[verifier::external_body]
pub(crate) fn push_char(s: &mut String, c: char)
    ensures
        final(s)@ == old(s)@.push(c),
{
    s.push(c)
}

/// `str::to_lowercase`: the lower-case mapping of the whole string. The mapping
/// itself (Unicode's tables) is not written out here; the result is named by
/// `lowercase_of`, a function of the argument alone.
#[verifier::external_body]
pub(crate) fn to_lowercase(s: &str) -> (r: String)
    ensures
        r@ == lowercase_of(s@),
{
    s.to_lowercase()
}

fn digit(d: u64) -> (c: char)
    requires
        d < 10,
    ensures
        c == digit_char(d as nat),
{
    if d == 0 {
        '0'
    } else if d == 1 {
        '1'
    } else if d == 2 {
        '2'
    } else if d == 3 {
        '3'
    } else if d == 4 {
        '4'
    } else if d == 5 {
        '5'
    } else if d == 6 {
        '6'
    } else if d == 7 {
        '7'
    } else if d == 8 {
        '8'
    } else {
        '9'
    }
}

/// Appends the decimal rendering of `n` to `s`.
pub fn push_decimal(s: &mut String, n: u64)
    ensures
        final(s)@ == old(s)@ + decimal(n as nat),
    decreases n,
{
    if n >= 10 {
        push_decimal(s, n / 10);
        push_char(s, digit(n % 10));
        assert(s@ =~= old(s)@ + decimal(n as nat));
    } else {
        push_char(s, digit(n));
        assert(s@ =~= old(s)@ + decimal(n as nat));
    }
}

/// Appends `src` to `s` with every space replaced by a dash.
pub fn push_dashed(s: &mut String, src: &str)
    ensures
        final(s)@ == old(s)@ + dashed(src@),
{
    let ghost start = s@;
    let ghost all = src@;
    let mut i: usize = 0;
    let n: usize = src.unicode_len();
    while i < n
        invariant
            n == all.len(),
            all == src@,
            i <= n,
            s@ == start + dashed(all.subrange(0, i as int)),
        decreases n - i,
    {
        let c = src.get_char(i);
        if c == ' ' {
            push_char(s, '-');
        } else {
            push_char(s, c);
        }
        assert(dashed(all.subrange(0, i as int + 1)) =~= dashed(all.subrange(0, i as int)).push(
            if c == ' ' { '-' } else { c },
        ));
        i = i + 1;
    }
    assert(all.subrange(0, n as int) =~= all);
}

/// Appends the items of `items`, joined by `sep`, to `s`.
pub fn push_joined(s: &mut String, items: &Vec<String>, sep: &str)
    ensures
        final(s)@ == old(s)@ + joined(items@.map_values(|x: String| x@), sep@),
{
    let ghost start = s@;
    let ghost views = items@.map_values(|x: String| x@);
    let mut i: usize = 0;
    while i < items.len()
        invariant
            i <= items.len(),
            views == items@.map_values(|x: String| x@),
            s@ == start + joined(views.subrange(0, i as int), sep@),
        decreases items.len() - i,
    {
        if i > 0 {
            s.append(sep);
        }
        s.append(items[i].as_str());
        proof {
            let prev = views.subrange(0, i as int);
            let next = views.subrange(0, i as int + 1);
            assert(next.drop_last() =~= prev);
            assert(next.last() == items@[i as int]@);
            if i > 0 {
                assert(joined(next, sep@) == joined(prev, sep@) + sep@ + next.last());
            } else {
                assert(joined(prev, sep@) =~= Seq::<char>::empty());
            }
            assert(s@ =~= start + joined(next, sep@));
        }
        i = i + 1;
    }
    assert(views.subrange(0, items.len() as int) =~= views);
}

/// The digits are the ten characters `0` to `9`, in order of their code points.
pub proof fn lemma_digit_chars(d: nat)
    requires
        d < 10,
    ensures
        digit_char(d) as int == '0' as int + d,
{
}

/// Rendering in decimal: a number under ten is one digit, and appending a
/// digit `d` to a number `q` (other than zero) appends that digit's character
/// to its rendering.
pub proof fn lemma_decimal_digits(q: nat, d: nat)
    requires
        d < 10,
    ensures
        decimal(d) == seq![digit_char(d)],
        q > 0 ==> decimal(10 * q + d) == decimal(q).push(digit_char(d)),
{
    if q > 0 {
        assert((10 * q + d) / 10 == q);
        assert((10 * q + d) % 10 == d);
    }
}

/// Dashing a name keeps its length, turns every space into a dash and keeps
/// every other character: the result holds no space.
pub proof fn lemma_dashed(s: Seq<char>)
    ensures
        dashed(s).len() == s.len(),
        forall|i: int| 0 <= i < s.len() ==> #[trigger] dashed(s)[i] == (if s[i] == ' ' {
            '-'
        } else {
            s[i]
        }),
        forall|i: int| 0 <= i < s.len() ==> #[trigger] dashed(s)[i] != ' ',
{
}

} // verus!
