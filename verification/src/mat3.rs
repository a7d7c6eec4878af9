//! 3x3 integer matrices in row-major order, with matrix-matrix and
//! matrix-vector products.

use vstd::prelude::*;

use crate::arith::{mul_bounded, MAT_ENTRY_BOUND};
use crate::vec3::Vec3;

verus! {

#[derive(Clone, Copy, Debug, PartialEq, Eq)]
pub struct Mat3 {
    pub data: [i64; 9],
}

/// All nine entries lie within `MAT_ENTRY_BOUND`, which rules out overflow in
/// the products below.
pub open spec fn m3_bounded(m: Mat3) -> bool {
    forall|i: int|
        0 <= i < 9 ==> -MAT_ENTRY_BOUND <= #[trigger] m.data@[i] <= MAT_ENTRY_BOUND
}

/// All three components lie within `MAT_ENTRY_BOUND`.
pub open spec fn v3_bounded(v: Vec3) -> bool {
    &&& -MAT_ENTRY_BOUND <= v.x <= MAT_ENTRY_BOUND
    &&& -MAT_ENTRY_BOUND <= v.y <= MAT_ENTRY_BOUND
    &&& -MAT_ENTRY_BOUND <= v.z <= MAT_ENTRY_BOUND
}

/// Row `y`, column `x` of the product `a * b`, over unbounded integers.
pub open spec fn m3_prod_entry(a: Mat3, b: Mat3, y: int, x: int) -> int {
    a.data@[y * 3] * b.data@[x] + a.data@[y * 3 + 1] * b.data@[3 + x] + a.data@[y * 3 + 2]
        * b.data@[6 + x]
}

/// Component `y` of the product `a * v`, over unbounded integers.
pub open spec fn m3_vec_entry(a: Mat3, v: Vec3, y: int) -> int {
    a.data@[y * 3] * v.x + a.data@[y * 3 + 1] * v.y + a.data@[y * 3 + 2] * v.z
}

impl Mat3 {
    pub fn new(data: [i64; 9]) -> (r: Self)
        ensures
            r.data == data,
    {
        Self { data }
    }

    pub fn get(&self, y: usize, x: usize) -> (r: i64)
        requires
            y < 3,
            x < 3,
        ensures
            r == self.data@[y * 3 + x],
    {
        self.data[y * 3 + x]
    }

    /// Matrix product `self * other` in row-major order.
    pub fn mat_mul(&self, other: &Self) -> (r: Self)
        requires
            m3_bounded(*self),
            m3_bounded(*other),
        ensures
            r.data@[0] == m3_prod_entry(*self, *other, 0, 0),
            r.data@[1] == m3_prod_entry(*self, *other, 0, 1),
            r.data@[2] == m3_prod_entry(*self, *other, 0, 2),
            r.data@[3] == m3_prod_entry(*self, *other, 1, 0),
            r.data@[4] == m3_prod_entry(*self, *other, 1, 1),
            r.data@[5] == m3_prod_entry(*self, *other, 1, 2),
            r.data@[6] == m3_prod_entry(*self, *other, 2, 0),
            r.data@[7] == m3_prod_entry(*self, *other, 2, 1),
            r.data@[8] == m3_prod_entry(*self, *other, 2, 2),
    {
        Self::new(
            [
                mul_bounded(self.get(0, 0), other.get(0, 0)) + mul_bounded(
                    self.get(0, 1),
                    other.get(1, 0),
                ) + mul_bounded(self.get(0, 2), other.get(2, 0)),
                mul_bounded(self.get(0, 0), other.get(0, 1)) + mul_bounded(
                    self.get(0, 1),
                    other.get(1, 1),
                ) + mul_bounded(self.get(0, 2), other.get(2, 1)),
                mul_bounded(self.get(0, 0), other.get(0, 2)) + mul_bounded(
                    self.get(0, 1),
                    other.get(1, 2),
                ) + mul_bounded(self.get(0, 2), other.get(2, 2)),
                mul_bounded(self.get(1, 0), other.get(0, 0)) + mul_bounded(
                    self.get(1, 1),
                    other.get(1, 0),
                ) + mul_bounded(self.get(1, 2), other.get(2, 0)),
                mul_bounded(self.get(1, 0), other.get(0, 1)) + mul_bounded(
                    self.get(1, 1),
                    other.get(1, 1),
                ) + mul_bounded(self.get(1, 2), other.get(2, 1)),
                mul_bounded(self.get(1, 0), other.get(0, 2)) + mul_bounded(
                    self.get(1, 1),
                    other.get(1, 2),
                ) + mul_bounded(self.get(1, 2), other.get(2, 2)),
                mul_bounded(self.get(2, 0), other.get(0, 0)) + mul_bounded(
                    self.get(2, 1),
                    other.get(1, 0),
                ) + mul_bounded(self.get(2, 2), other.get(2, 0)),
                mul_bounded(self.get(2, 0), other.get(0, 1)) + mul_bounded(
                    self.get(2, 1),
                    other.get(1, 1),
                ) + mul_bounded(self.get(2, 2), other.get(2, 1)),
                mul_bounded(self.get(2, 0), other.get(0, 2)) + mul_bounded(
                    self.get(2, 1),
                    other.get(1, 2),
                ) + mul_bounded(self.get(2, 2), other.get(2, 2)),
            ],
        )
    }

    /// Matrix-vector product `self * other`.
    pub fn vec_mul(&self, other: &Vec3) -> (r: Vec3)
        requires
            m3_bounded(*self),
            v3_bounded(*other),
        ensures
            r.x == m3_vec_entry(*self, *other, 0),
            r.y == m3_vec_entry(*self, *other, 1),
            r.z == m3_vec_entry(*self, *other, 2),
    {
        Vec3::new(
            mul_bounded(self.get(0, 0), other.x) + mul_bounded(self.get(0, 1), other.y)
                + mul_bounded(self.get(0, 2), other.z),
            mul_bounded(self.get(1, 0), other.x) + mul_bounded(self.get(1, 1), other.y)
                + mul_bounded(self.get(1, 2), other.z),
            mul_bounded(self.get(2, 0), other.x) + mul_bounded(self.get(2, 1), other.y)
                + mul_bounded(self.get(2, 2), other.z),
        )
    }
}

/// The display grid of a matrix: every entry rendered in decimal, padded to
/// the digit count of the largest entry, three per row.
pub open spec fn m3_display(m: Mat3) -> Seq<char> {
    let w = dec_chars(max_entry(m.data@, 9) as int).len() as int;
    let sp = seq![' '];
    let nl = seq!['\n'];
    pad_chars(int_chars(m.data@[0] as int), w) + sp + pad_chars(int_chars(m.data@[1] as int), w)
        + sp + pad_chars(int_chars(m.data@[2] as int), w) + nl + pad_chars(
        int_chars(m.data@[3] as int),
        w,
    ) + sp + pad_chars(int_chars(m.data@[4] as int), w) + sp + pad_chars(
        int_chars(m.data@[5] as int),
        w,
    ) + nl + pad_chars(int_chars(m.data@[6] as int), w) + sp + pad_chars(
        int_chars(m.data@[7] as int),
        w,
    ) + sp + pad_chars(int_chars(m.data@[8] as int), w) + nl
}

impl Mat3 {
    /// Renders the matrix as three rows of decimal entries, each padded to
    /// the width of the largest entry.
    pub fn to_display_string(&self) -> (r: String)
        ensures
            r@ == m3_display(*self),
    {
        let mut biggest: i64 = 0;
        let mut i: usize = 0;
        while i < 9
            invariant
                i <= 9,
                biggest == max_entry(self.data@, i as int),
                biggest >= 0,
            decreases 9 - i,
        {
            if self.data[i] > biggest {
                biggest = self.data[i];
            }
            i = i + 1;
        }
        let bs = decimal_string(biggest);
        let width = bs.as_str().unicode_len();
        let mut res = String::new();
        let mut k: usize = 0;
        while k < 9
            invariant
                k <= 9,
                k % 3 == 0,
                width == dec_chars(max_entry(self.data@, 9) as int).len(),
                res@ == m3_rows(*self, width as int, k as int),
            decreases 9 - k,
        {
            let a = padded_entry(self.data[k], width);
            let b = padded_entry(self.data[k + 1], width);
            let c = padded_entry(self.data[k + 2], width);
            res.append(a.as_str());
            res.append(" ");
            res.append(b.as_str());
            res.append(" ");
            res.append(c.as_str());
            res.append("\n");
            proof {
                reveal_strlit(" ");
                reveal_strlit("\n");
                assert(" "@ =~= seq![' ']);
                assert("\n"@ =~= seq!['\n']);
                assert(res@ =~= m3_rows(*self, width as int, k + 3));
            }
            k = k + 3;
        }
        proof {
            reveal_with_fuel(m3_rows, 4);
            assert(m3_rows(*self, width as int, 9) =~= m3_display(*self));
        }
        res
    }
}

/// The first `k / 3` rows of the display grid.
pub open spec fn m3_rows(m: Mat3, w: int, k: int) -> Seq<char>
    decreases k,
{
    if k < 3 {
        Seq::empty()
    } else {
        m3_rows(m, w, k - 3) + pad_chars(int_chars(m.data@[k - 3] as int), w) + seq![' ']
            + pad_chars(int_chars(m.data@[k - 2] as int), w) + seq![' '] + pad_chars(
            int_chars(m.data@[k - 1] as int),
            w,
        ) + seq!['\n']
    }
}

/// The decimal digit character of `d`.
pub open spec fn digit_char(d: int) -> char {
    if d == 0 {
        '0'
    } else if d == 1 {
        '1'
    } else if d == 2 {
        '2'
    } else if d == 3 {
        '3'
    } else if d == 4 {
        '4'
    } else if d == 5 {
        '5'
    } else if d == 6 {
        '6'
    } else if d == 7 {
        '7'
    } else if d == 8 {
        '8'
    } else {
        '9'
    }
}

/// The decimal digits of a nonnegative number, as characters.
pub open spec fn dec_chars(n: int) -> Seq<char>
    decreases n,
{
    if n < 10 {
        seq![digit_char(n)]
    } else {
        dec_chars(n / 10) + seq![digit_char(n % 10)]
    }
}

/// The decimal rendering of a signed number: a minus sign before the digits
/// of the magnitude.
pub open spec fn int_chars(n: int) -> Seq<char> {
    if n < 0 {
        seq!['-'] + dec_chars(-n)
    } else {
        dec_chars(n)
    }
}

/// One decimal digit as a string slice.
fn digit_str(d: u64) -> (s: &'static str)
    requires
        d < 10,
    ensures
        s@ == seq![digit_char(d as int)],
{
    let s = if d == 0 {
        "0"
    } else if d == 1 {
        "1"
    } else if d == 2 {
        "2"
    } else if d == 3 {
        "3"
    } else if d == 4 {
        "4"
    } else if d == 5 {
        "5"
    } else if d == 6 {
        "6"
    } else if d == 7 {
        "7"
    } else if d == 8 {
        "8"
    } else {
        "9"
    };
    proof {
        reveal_strlit("0");
        reveal_strlit("1");
        reveal_strlit("2");
        reveal_strlit("3");
        reveal_strlit("4");
        reveal_strlit("5");
        reveal_strlit("6");
        reveal_strlit("7");
        reveal_strlit("8");
        reveal_strlit("9");
        assert(s@ =~= seq![digit_char(d as int)]);
    }
    s
}

/// Appends the decimal digits of `n`.
fn push_digits(s: &mut String, n: u64)
    ensures
        final(s)@ == old(s)@ + dec_chars(n as int),
    decreases n,
{
    if n < 10 {
        s.append(digit_str(n));
        proof {
            assert(s@ =~= old(s)@ + dec_chars(n as int));
        }
    } else {
        push_digits(s, n / 10);
        s.append(digit_str(n % 10));
        proof {
            assert(s@ =~= old(s)@ + dec_chars(n as int));
        }
    }
}

/// The decimal rendering of a signed number, as a string.
pub fn decimal_string(n: i64) -> (r: String)
    ensures
        r@ == int_chars(n as int),
{
    let mut s = String::new();
    if n < 0 {
        s.append("-");
        let magnitude = if n == i64::MIN {
            9223372036854775808u64
        } else {
            (-n) as u64
        };
        push_digits(&mut s, magnitude);
        proof {
            reveal_strlit("-");
            assert(s@ =~= int_chars(n as int));
        }
    } else {
        push_digits(&mut s, n as u64);
    }
    s
}

/// `p` concatenated with itself `n` times.
pub open spec fn repeat_str(p: Seq<char>, n: nat) -> Seq<char>
    decreases n,
{
    if n == 0 {
        Seq::empty()
    } else {
        repeat_str(p, (n - 1) as nat) + p
    }
}

/// `s` padded on the right with spaces to width `w`.
pub open spec fn pad_chars(s: Seq<char>, w: int) -> Seq<char> {
    if s.len() >= w {
        s
    } else {
        s + repeat_str(seq![' '], (w - s.len()) as nat)
    }
}

/// The largest of the first `n` entries of `d` and zero.
pub open spec fn max_entry(d: Seq<i64>, n: int) -> i64
    decreases n,
{
    if n <= 0 {
        0i64
    } else {
        let p = max_entry(d, n - 1);
        if d[n - 1] > p {
            d[n - 1]
        } else {
            p
        }
    }
}

/// One matrix entry rendered in decimal and padded to the column width.
pub(crate) fn padded_entry(v: i64, width: usize) -> (r: String)
    ensures
        r@ == pad_chars(int_chars(v as int), width as int),
{
    let s = decimal_string(v);
    let r = right_pad(s, width, " ");
    proof {
        reveal_strlit(" ");
        assert(" "@ =~= seq![' ']);
        assert(r@ =~= pad_chars(int_chars(v as int), width as int));
    }
    r
}

/// Appends `width - s.len()` copies of `pad` to `s`; returns `s` unchanged
/// when it is already at least `width` characters long.
pub fn right_pad(s: String, width: usize, pad: &str) -> (r: String)
    ensures
        s@.len() >= width ==> r@ == s@,
        s@.len() < width ==> r@ == s@ + repeat_str(pad@, (width - s@.len()) as nat),
{
    let len = s.as_str().unicode_len();
    if len >= width {
        s
    } else {
        let n = width - len;
        let mut r = s;
        let mut i: usize = 0;
        while i < n
            invariant
                i <= n,
                r@ =~= s@ + repeat_str(pad@, i as nat),
            decreases n - i,
        {
            r.append(pad);
            proof {
                assert(repeat_str(pad@, (i + 1) as nat) =~= repeat_str(pad@, i as nat) + pad@);
                assert(r@ =~= s@ + repeat_str(pad@, (i + 1) as nat));
            }
            i = i + 1;
        }
        proof {
            assert(r@ =~= s@ + repeat_str(pad@, n as nat));
        }
        r
    }
}

} // verus!
