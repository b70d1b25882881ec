use vstd::prelude::*;

verus! {

/// nginx's error return value.
pub const NGX_ERROR: i64 = -1;

/// The largest value of nginx's signed integer type on a 64-bit host.
pub const NGX_MAX_INT_T_VALUE: i64 = 0x7fff_ffff_ffff_ffff;

/// An ASCII decimal digit.
pub open spec fn is_digit(b: u8) -> bool {
    48 <= b <= 57
}

/// Every byte is an ASCII decimal digit.
pub open spec fn all_digits(s: Seq<u8>) -> bool {
    forall|i: int| 0 <= i < s.len() ==> is_digit(#[trigger] s[i])
}

/// The number that a string of decimal digits writes, most significant first.
pub open spec fn decimal_value(s: Seq<u8>) -> int
    decreases s.len(),
{
    if s.len() == 0 {
        0
    } else {
        decimal_value(s.drop_last()) * 10 + (s.last() - 48)
    }
}

/// What `ngx_atoi` gives: the value of a non-empty string of decimal digits
/// that fits in nginx's signed integer type, and `NGX_ERROR` for anything else.
pub open spec fn spec_ngx_atoi(s: Seq<u8>) -> int {
    if s.len() > 0 && all_digits(s) && decimal_value(s) <= NGX_MAX_INT_T_VALUE {
        decimal_value(s)
    } else {
        NGX_ERROR as int
    }
}

/// A string of digits writes a number that is at least zero, and at least the
/// number that any of its prefixes writes.
pub proof fn lemma_decimal_prefix(s: Seq<u8>, k: int)
    requires
        all_digits(s),
        0 <= k <= s.len(),
    ensures
        0 <= decimal_value(s.take(k)) <= decimal_value(s),
    decreases s.len(),
{
    if k == s.len() {
        assert(s.take(k) =~= s);
        if s.len() > 0 {
            lemma_decimal_prefix(s.drop_last(), k - 1);
            assert(s.drop_last().take(k - 1) =~= s.drop_last());
            assert(is_digit(s[s.len() - 1]));
        }
    } else {
        lemma_decimal_prefix(s.drop_last(), k);
        assert(s.drop_last().take(k) =~= s.take(k));
        lemma_decimal_prefix(s.drop_last(), s.len() - 1);
        assert(s.drop_last().take(s.len() - 1) =~= s.drop_last());
        assert(is_digit(s[s.len() - 1]));
    }
}

/// Converts a decimal number written in ASCII, as nginx's `ngx_atoi` does:
/// the empty string, a byte that is not a digit, and a value that does not fit
/// give `NGX_ERROR`.
pub fn ngx_atoi(line: &[u8]) -> (r: i64)
    ensures
        r == spec_ngx_atoi(line@),
{
    let n = line.len();
    if n == 0 {
        return NGX_ERROR;
    }
    let cutoff: i64 = NGX_MAX_INT_T_VALUE / 10;
    let cutlim: i64 = NGX_MAX_INT_T_VALUE % 10;
    let mut value: i64 = 0;
    let mut i: usize = 0;
    assert(line@.take(0) =~= Seq::<u8>::empty());
    while i < n
        invariant
            n == line@.len(),
            n > 0,
            i <= n,
            cutoff == 922337203685477580,
            cutlim == 7,
            all_digits(line@.take(i as int)),
            value == decimal_value(line@.take(i as int)),
            0 <= value,
        decreases n - i,
    {
        let c = line[i];
        if c < 48 || c > 57 {
            assert(!is_digit(line@[i as int]));
            return NGX_ERROR;
        }
        let d: i64 = (c - 48) as i64;
        assert(line@.take(i as int + 1).drop_last() =~= line@.take(i as int));
        assert(all_digits(line@.take(i as int + 1)));
        if value >= cutoff && (value > cutoff || d > cutlim) {
            proof {
                assert(decimal_value(line@.take(i as int + 1)) > NGX_MAX_INT_T_VALUE);
                if all_digits(line@) {
                    lemma_decimal_prefix(line@, i as int + 1);
                }
            }
            return NGX_ERROR;
        }
        value = value * 10 + d;
        i = i + 1;
    }
    assert(line@.take(n as int) =~= line@);
    value
}

} // verus!
