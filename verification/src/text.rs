use vstd::prelude::*;

verus! {

// ---------------------------------------------------------------------------
// Concatenation of text fragments.
// ---------------------------------------------------------------------------

/// The concatenation of a sequence of text fragments, in order.
pub open spec fn concat_texts(parts: Seq<Seq<char>>) -> Seq<char>
    decreases parts.len(),
{
    if parts.len() == 0 {
        Seq::<char>::empty()
    } else {
        concat_texts(parts.drop_last()) + parts.last()
    }
}

/// Appending one more fragment extends the concatenation on the right.
pub proof fn lemma_concat_texts_push(parts: Seq<Seq<char>>, x: Seq<char>)
    ensures
        concat_texts(parts.push(x)) == concat_texts(parts) + x,
{
    assert(parts.push(x).drop_last() =~= parts);
    assert(parts.push(x).last() == x);
}

// ---------------------------------------------------------------------------
// Decimal digits.
// ---------------------------------------------------------------------------

/// The character for one decimal digit value; values ten and up clamp to '9'
/// so that the function is total.
pub open spec fn digit_char(d: u8) -> char {
    if d == 0 {
        '0'
    } else if d == 1 {
        '1'
    } else if d == 2 {
        '2'
    } else if d == 3 {
        '3'
    } else if d == 4 {
        '4'
    } else if d == 5 {
        '5'
    } else if d == 6 {
        '6'
    } else if d == 7 {
        '7'
    } else if d == 8 {
        '8'
    } else {
        '9'
    }
}

/// The text of a run of digit values.
pub open spec fn digits_text(ds: Seq<u8>) -> Seq<char> {
    ds.map_values(|d: u8| digit_char(d))
}

/// The digit values of a natural number, most significant first.
pub open spec fn nat_digits(n: nat) -> Seq<u8>
    decreases n,
{
    if n < 10 {
        seq![n as u8]
    } else {
        nat_digits(n / 10).push((n % 10) as u8)
    }
}

/// The decimal text of a natural number.
pub open spec fn nat_text(n: nat) -> Seq<char> {
    digits_text(nat_digits(n))
}

fn digit_str(d: u8) -> (s: &'static str)
    ensures
        s@ == seq![digit_char(d)],
{
    proof {
        reveal_strlit("0");
        reveal_strlit("1");
        reveal_strlit("2");
        reveal_strlit("3");
        reveal_strlit("4");
        reveal_strlit("5");
        reveal_strlit("6");
        reveal_strlit("7");
        reveal_strlit("8");
        reveal_strlit("9");
        assert(("0")@ =~= seq!['0']);
        assert(("1")@ =~= seq!['1']);
        assert(("2")@ =~= seq!['2']);
        assert(("3")@ =~= seq!['3']);
        assert(("4")@ =~= seq!['4']);
        assert(("5")@ =~= seq!['5']);
        assert(("6")@ =~= seq!['6']);
        assert(("7")@ =~= seq!['7']);
        assert(("8")@ =~= seq!['8']);
        assert(("9")@ =~= seq!['9']);
    }
    if d == 0 {
        "0"
    } else if d == 1 {
        "1"
    } else if d == 2 {
        "2"
    } else if d == 3 {
        "3"
    } else if d == 4 {
        "4"
    } else if d == 5 {
        "5"
    } else if d == 6 {
        "6"
    } else if d == 7 {
        "7"
    } else if d == 8 {
        "8"
    } else {
        "9"
    }
}

/// Renders a machine integer as decimal text.
pub fn fmt_u64(n: u64) -> (s: String)
    ensures
        s@ == nat_text(n as nat),
    decreases n,
{
    if n < 10 {
        let s = digit_str(n as u8).to_owned();
        proof {
            assert(nat_digits(n as nat) =~= seq![n as u8]);
            assert(digits_text(seq![n as u8]) =~= seq![digit_char(n as u8)]);
        }
        s
    } else {
        let mut s = fmt_u64(n / 10);
        s.append(digit_str((n % 10) as u8));
        proof {
            let q = (n / 10) as nat;
            let r = (n % 10) as u8;
            assert(q == (n as nat) / 10);
            assert(r == ((n as nat) % 10) as u8);
            assert(nat_digits(n as nat) == nat_digits(q).push(r));
            assert(digits_text(nat_digits(q).push(r)) =~= digits_text(nat_digits(q)).push(
                digit_char(r),
            ));
            assert(seq![digit_char(r)] =~= Seq::<char>::empty().push(digit_char(r)));
            assert(digits_text(nat_digits(q)) + seq![digit_char(r)] =~= digits_text(
                nat_digits(q),
            ).push(digit_char(r)));
        }
        s
    }
}

/// Renders a usize as decimal text.
pub fn fmt_usize(n: usize) -> (s: String)
    ensures
        s@ == nat_text(n as nat),
{
    fmt_u64(n as u64)
}

// ---------------------------------------------------------------------------
// Decimal numbers.
// ---------------------------------------------------------------------------

/// A decimal number held exactly: a sign, the digits before the point and
/// the digits after it, each digit as its value.  Numeric constraint values
/// read from a schema are carried in this form so that rendering them back
/// out is exact.
#[derive(Clone, Debug)]
pub struct Decimal {
    pub negative: bool,
    pub int_digits: Vec<u8>,
    pub frac_digits: Vec<u8>,
}

/// The mathematical content of a `Decimal`.
#[verifier::ext_equal]
pub ghost struct DecView {
    pub negative: bool,
    pub int_digits: Seq<u8>,
    pub frac_digits: Seq<u8>,
}

pub open spec fn dec_view(d: &Decimal) -> DecView {
    DecView { negative: d.negative, int_digits: d.int_digits@, frac_digits: d.frac_digits@ }
}

/// The fractional digits with the trailing zeros removed.
pub open spec fn trim_zeros(ds: Seq<u8>) -> Seq<u8>
    decreases ds.len(),
{
    if ds.len() == 0 {
        ds
    } else if ds.last() == 0 {
        trim_zeros(ds.drop_last())
    } else {
        ds
    }
}

/// The human-readable text of a decimal number: the sign, the integer
/// digits, and the fractional digits only when some nonzero one remains
/// after trimming, so that an integral value renders without a point.
pub open spec fn dec_text_v(d: DecView) -> Seq<char> {
    (if d.negative {
        "-"@
    } else {
        Seq::<char>::empty()
    }) + digits_text(d.int_digits) + (if trim_zeros(d.frac_digits).len() == 0 {
        Seq::<char>::empty()
    } else {
        "."@ + digits_text(trim_zeros(d.frac_digits))
    })
}

proof fn lemma_trim_zeros_take(ds: Seq<u8>, k: int)
    requires
        0 <= k <= ds.len(),
        forall|i: int| k <= i < ds.len() ==> ds[i] == 0,
        k > 0 ==> ds[k - 1] != 0,
    ensures
        trim_zeros(ds) == ds.take(k),
    decreases ds.len(),
{
    if ds.len() == 0 {
        assert(trim_zeros(ds) =~= ds.take(k));
    } else if ds.last() == 0 {
        assert(k < ds.len());
        lemma_trim_zeros_take(ds.drop_last(), k);
        assert(ds.drop_last().take(k) =~= ds.take(k));
    } else {
        assert(k == ds.len());
        assert(trim_zeros(ds) == ds);
        assert(ds.take(k) =~= ds);
    }
}

fn push_digits(s: &mut String, ds: &Vec<u8>, upto: usize)
    requires
        upto <= ds@.len(),
    ensures
        final(s)@ == old(s)@ + digits_text(ds@.take(upto as int)),
{
    let ghost start = s@;
    let mut i: usize = 0;
    proof {
        assert(s@ =~= start + digits_text(ds@.take(0)));
    }
    while i < upto
        invariant
            i <= upto <= ds@.len(),
            s@ == start + digits_text(ds@.take(i as int)),
        decreases upto - i,
    {
        s.append(digit_str(ds[i]));
        proof {
            assert(ds@.take(i + 1).drop_last() =~= ds@.take(i as int));
            assert(digits_text(ds@.take(i + 1)) =~= digits_text(ds@.take(i as int)).push(
                digit_char(ds@[i as int]),
            ));
            assert(digits_text(ds@.take(i as int)) + seq![digit_char(ds@[i as int])]
                =~= digits_text(ds@.take(i as int)).push(digit_char(ds@[i as int])));
        }
        i = i + 1;
    }
}

impl Decimal {
    /// Builds a decimal from its sign and digit runs.
    pub fn new(negative: bool, int_digits: Vec<u8>, frac_digits: Vec<u8>) -> (d: Decimal)
        ensures
            dec_view(&d) == (DecView {
                negative,
                int_digits: int_digits@,
                frac_digits: frac_digits@,
            }),
    {
        Decimal { negative, int_digits, frac_digits }
    }

    /// Renders the number as human-readable decimal text, dropping a
    /// trailing run of fractional zeros (and with it the point, when
    /// nothing else follows it).
    pub fn render(&self) -> (s: String)
        ensures
            s@ == dec_text_v(dec_view(self)),
    {
        let mut t: usize = self.frac_digits.len();
        while t > 0 && self.frac_digits[t - 1] == 0
            invariant
                t <= self.frac_digits@.len(),
                forall|i: int| t <= i < self.frac_digits@.len() ==> self.frac_digits@[i] == 0,
            decreases t,
        {
            t = t - 1;
        }
        proof {
            lemma_trim_zeros_take(self.frac_digits@, t as int);
        }
        let mut s = if self.negative {
            "-".to_owned()
        } else {
            String::new()
        };
        push_digits(&mut s, &self.int_digits, self.int_digits.len());
        proof {
            assert(self.int_digits@.take(self.int_digits@.len() as int) =~= self.int_digits@);
        }
        if t > 0 {
            s.append(".");
            push_digits(&mut s, &self.frac_digits, t);
        }
        proof {
            assert(trim_zeros(self.frac_digits@).len() == t);
        }
        s
    }
}

// ---------------------------------------------------------------------------
// What rendering guarantees of a decimal value.
// ---------------------------------------------------------------------------

/// A decimal whose fractional digits are all zero renders with no point at
/// all: the sign and the integer digits alone.
pub proof fn lemma_integral_fraction_dropped(d: DecView)
    requires
        forall|i: int| 0 <= i < d.frac_digits.len() ==> d.frac_digits[i] == 0,
    ensures
        dec_text_v(d) == (if d.negative {
            "-"@
        } else {
            Seq::<char>::empty()
        }) + digits_text(d.int_digits),
{
    lemma_trim_zeros_take(d.frac_digits, 0);
    assert(d.frac_digits.take(0) =~= Seq::<u8>::empty());
    assert(dec_text_v(d) =~= (if d.negative {
        "-"@
    } else {
        Seq::<char>::empty()
    }) + digits_text(d.int_digits));
}

/// A decimal whose last fractional digit is nonzero renders with every
/// fractional digit kept verbatim after the point.
pub proof fn lemma_fraction_preserved(d: DecView)
    requires
        d.frac_digits.len() > 0,
        d.frac_digits.last() != 0,
    ensures
        dec_text_v(d) == (if d.negative {
            "-"@
        } else {
            Seq::<char>::empty()
        }) + digits_text(d.int_digits) + "."@ + digits_text(d.frac_digits),
{
    assert(trim_zeros(d.frac_digits) == d.frac_digits);
}

} // verus!
