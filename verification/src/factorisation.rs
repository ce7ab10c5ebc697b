//! Factor and primality helpers over signed 64-bit integers.

use vstd::prelude::*;
use vstd::math::abs;
use vstd::arithmetic::div_mod::lemma_fundamental_div_mod;
use crate::math::modulo;
use crate::math::modulo_spec;

verus! {

/// `d` divides `n`, signs ignored: the remainder of `|n| / |d|` is zero.
pub open spec fn divides(d: int, n: int) -> bool {
    abs(n) % abs(d) == 0
}

/// The sign-adjusted remainder is zero exactly on divisors.
pub proof fn lemma_modulo_zero_is_divides(a: int, b: int)
    requires
        b != 0,
    ensures
        modulo_spec(a, b) == 0 <==> divides(b, a),
{
}

/// A divisor in the sense of `divides` really is one: some multiple of `d`
/// gives `n` back.
pub proof fn lemma_divides_witness(d: int, n: int)
    requires
        d != 0,
        divides(d, n),
    ensures
        exists|k: int| n == #[trigger] (k * d),
{
    let a = abs(n) as int;
    let b = abs(d) as int;
    lemma_fundamental_div_mod(a, b);
    let q = a / b;
    assert(a == b * q);
    if n >= 0 && d > 0 {
        assert(n == q * d) by (nonlinear_arith)
            requires
                a == b * q,
                a == n,
                b == d,
        ;
    } else if n >= 0 && d < 0 {
        assert(n == (-q) * d) by (nonlinear_arith)
            requires
                a == b * q,
                a == n,
                b == -d,
        ;
    } else if n < 0 && d > 0 {
        assert(n == (-q) * d) by (nonlinear_arith)
            requires
                a == b * q,
                a == -n,
                b == d,
        ;
    } else {
        assert(n == q * d) by (nonlinear_arith)
            requires
                a == b * q,
                a == -n,
                b == -d,
        ;
    }
}

/// Check if the queried value is a factor of num.
pub fn is_factor(num: i64, query: i64) -> (r: bool)
    requires
        query != 0,
    ensures
        r <==> divides(query as int, num as int),
{
    proof {
        lemma_modulo_zero_is_divides(num as int, query as int);
    }
    modulo(num, query) == 0
}

/// Check if any of the queried values are a factor of num.
pub fn are_any_factors(num: i64, queries: &[i64]) -> (r: bool)
    requires
        forall|i: int| 0 <= i < queries@.len() ==> queries@[i] != 0,
    ensures
        r <==> exists|i: int|
            0 <= i < queries@.len() && divides(#[trigger] queries@[i] as int, num as int),
{
    let n = queries.len();
    let mut i: usize = 0;
    while i < n
        invariant
            i <= n,
            n == queries@.len(),
            forall|j: int| 0 <= j < queries@.len() ==> queries@[j] != 0,
            forall|j: int| 0 <= j < i ==> !divides(#[trigger] queries@[j] as int, num as int),
        decreases n - i,
    {
        if is_factor(num, queries[i]) {
            return true;
        }
        i += 1;
    }
    false
}

/// Check if all of the queried values are factors of num.
pub fn are_all_factors(num: i64, queries: &[i64]) -> (r: bool)
    requires
        forall|i: int| 0 <= i < queries@.len() ==> queries@[i] != 0,
    ensures
        r <==> forall|i: int|
            0 <= i < queries@.len() ==> divides(#[trigger] queries@[i] as int, num as int),
{
    let n = queries.len();
    let mut i: usize = 0;
    while i < n
        invariant
            i <= n,
            n == queries@.len(),
            forall|j: int| 0 <= j < queries@.len() ==> queries@[j] != 0,
            forall|j: int| 0 <= j < i ==> divides(#[trigger] queries@[j] as int, num as int),
        decreases n - i,
    {
        if !is_factor(num, queries[i]) {
            return false;
        }
        i += 1;
    }
    true
}

/// Return the lowest non-one factor: the least divisor of `n` that is at
/// least 2 and no larger than its own cofactor, or `None` when no such
/// divisor exists — in particular for every prime `n`.
pub fn lowest_non_one(n: i64) -> (r: Option<i64>)
    ensures
        r matches Some(f) ==> 2 <= f && (f as int) * (f as int) <= n && divides(f as int, n as int)
            && (forall|d: int| 2 <= d < f ==> !divides(d, n as int)),
        r is None ==> forall|d: int| 2 <= d && d * d <= n ==> !divides(d, n as int),
{
    let mut i: i64 = 2;
    while i <= n / i
        invariant
            2 <= i,
            forall|d: int| 2 <= d < i ==> !divides(d, n as int),
        decreases n - i,
    {
        proof {
            lemma_div_bound_pos(n as int, i as int);
        }
        if n % i == 0 {
            proof {
                lemma_exec_rem_zero_divides(n as int, i as int);
            }
            return Some(i);
        }
        proof {
            lemma_exec_rem_nonzero_not_divides(n as int, i as int);
        }
        i += 1;
    }
    proof {
        if n >= 1 {
            lemma_past_sqrt(n as int, i as int);
        } else {
            assert forall|d: int| 2 <= d && d * d <= n implies !divides(d, n as int) by {
                assert(d * d >= 4) by (nonlinear_arith)
                    requires
                        d >= 2,
                ;
            }
        }
    }
    None
}

/// While the loop guard `i <= n / i` holds for positive `i`, `n` is
/// positive and `i * i` stays within bounds.
proof fn lemma_div_bound_pos(n: int, i: int)
    requires
        2 <= i,
        i <= n / i,
    ensures
        n >= i * i,
        n >= 2,
        n > i,
{
    lemma_fundamental_div_mod(n, i);
    assert(n == i * (n / i) + n % i);
    assert(n % i >= 0) by {
        vstd::arithmetic::div_mod::lemma_mod_pos_bound(n, i);
    }
    assert(i * (n / i) >= i * i) by (nonlinear_arith)
        requires
            i >= 2,
            n / i >= i,
    ;
    assert(i * i > i) by (nonlinear_arith)
        requires
            i >= 2,
    ;
}

/// For positive operands the executable remainder being zero means the
/// divisor divides.
proof fn lemma_exec_rem_zero_divides(n: int, i: int)
    requires
        n >= 1,
        i >= 1,
        n % i == 0,
    ensures
        divides(i, n),
{
}

/// For positive operands a nonzero executable remainder refutes
/// divisibility.
proof fn lemma_exec_rem_nonzero_not_divides(n: int, i: int)
    requires
        n >= 1,
        i >= 1,
        n % i != 0,
    ensures
        !divides(i, n),
{
}

/// Once the scan has passed the square root, every remaining candidate at
/// or below its own cofactor has been ruled out.
proof fn lemma_past_sqrt(n: int, i: int)
    requires
        n >= 1,
        i >= 2,
        i > n / i,
        forall|d: int| 2 <= d < i ==> !divides(d, n),
    ensures
        forall|d: int| 2 <= d && d * d <= n ==> !divides(d, n),
{
    lemma_exit_sq(n, i);
    assert forall|d: int| 2 <= d && d * d <= n implies !divides(d, n) by {
        assert(d * d <= n < i * i);
        assert(d < i) by (nonlinear_arith)
            requires
                d >= 2,
                i >= 2,
                d * d < i * i,
        ;
    }
}


/// Ascending order.
pub open spec fn sorted(s: Seq<i64>) -> bool {
    forall|i: int, j: int| 0 <= i <= j < s.len() ==> s[i] <= s[j]
}

/// Insert `x` into an ascending vector, keeping it ascending. Used to keep
/// the factor list sorted as it grows.
fn insert_sorted(v: &mut Vec<i64>, x: i64)
    requires
        sorted(old(v)@),
    ensures
        sorted(final(v)@),
        final(v)@.len() == old(v)@.len() + 1,
        forall|y: i64| final(v)@.contains(y) <==> (old(v)@.contains(y) || y == x),
        old(v)@.no_duplicates() && !old(v)@.contains(x) ==> final(v)@.no_duplicates(),
        exists|j: int| 0 <= j <= old(v)@.len() && final(v)@ == old(v)@.insert(j, x),
{
    let mut j: usize = 0;
    while j < v.len() && v[j] < x
        invariant
            j <= v@.len(),
            v@ == old(v)@,
            forall|k: int| 0 <= k < j ==> v@[k] < x,
        decreases v@.len() - j,
    {
        j += 1;
    }
    v.insert(j, x);
    proof {
        let s0 = old(v)@;
        let s1 = v@;
        assert(s1 == s0.insert(j as int, x));
        assert forall|a: int, b: int| 0 <= a <= b < s1.len() implies s1[a] <= s1[b] by {
            if a < j && b < j {
            } else if a >= j + 1 && b >= j + 1 {
                assert(s1[a] == s0[a - 1] && s1[b] == s0[b - 1]);
            } else if a < j && b == j {
                assert(s1[a] == s0[a] && s0[a] < x);
            } else if a == j && b > j {
                assert(s1[b] == s0[b - 1] && b - 1 >= j);
                if j < s0.len() {
                    assert(s0[j as int] >= x);
                }
            } else if a < j && b > j {
                assert(s1[a] == s0[a] && s0[a] < x);
                assert(s1[b] == s0[b - 1]);
            }
        }
        assert forall|y: i64| s1.contains(y) implies (s0.contains(y) || y == x) by {
            let idx = choose|idx: int| 0 <= idx < s1.len() && s1[idx] == y;
            if idx < j {
                assert(s0[idx] == y);
            } else if idx > j {
                assert(s0[idx - 1] == y);
            }
        }
        assert forall|y: i64| s0.contains(y) || y == x implies s1.contains(y) by {
            if s0.contains(y) {
                let idx = choose|idx: int| 0 <= idx < s0.len() && s0[idx] == y;
                if idx < j {
                    assert(s1[idx] == y);
                } else {
                    assert(s1[idx + 1] == y);
                }
            } else {
                assert(s1[j as int] == x);
            }
        }
        if s0.no_duplicates() && !s0.contains(x) {
            assert forall|a: int, b: int| 0 <= a < b < s1.len() implies s1[a] != s1[b] by {
                if a < j && b < j {
                } else if a >= j + 1 && b >= j + 1 {
                    assert(s1[a] == s0[a - 1] && s1[b] == s0[b - 1]);
                } else if a < j && b == j {
                    assert(s0.contains(s0[a]));
                } else if a == j && b > j {
                    assert(s0.contains(s0[b - 1]));
                    assert(s1[b] == s0[b - 1]);
                } else if a < j && b > j {
                    assert(s1[a] == s0[a] && s1[b] == s0[b - 1]);
                }
            }
            assert(s1.no_duplicates());
        }
    }
}

/// Every factor list member of a scan prefix: 1, a divisor found below
/// `i`, or the cofactor of one.
spec fn scan_member(n: int, i: int, d: i64) -> bool {
    ||| d == 1
    ||| (2 <= d < i && divides(d as int, n))
    ||| (exists|e: int|
        2 <= e < i && e * e <= n && e * e != n && #[trigger] divides(e, n) && d == n / e)
}

/// Get all factors for `n`, in ascending order: for `n` at least 2 the
/// result holds exactly the divisors of `n` from 1 to `n` itself, each
/// once. For `n` below 2 the scan finds nothing and the result is just 1
/// and `n` — including the doubled 1 for `n == 1`.
pub fn get_all_factors(n: i64) -> (r: Vec<i64>)
    ensures
        n >= 2 ==> sorted(r@) && r@.no_duplicates() && (forall|d: i64|
            #![trigger r@.contains(d)]
            r@.contains(d) <==> 1 <= d <= n && divides(d as int, n as int)),
        n == 1 ==> r@ == seq![1i64, 1i64],
        n <= 0 ==> r@ == seq![n, 1i64],
{
    let mut factors: Vec<i64> = Vec::new();
    factors.push(1);
    proof {
        assert forall|d: i64| factors@.contains(d) <==> scan_member(n as int, 2, d) by {
            if factors@.contains(d) {
                let idx = choose|idx: int| 0 <= idx < factors@.len() && factors@[idx] == d;
                assert(d == 1);
            }
            if scan_member(n as int, 2, d) {
                assert(d == 1);
                assert(factors@[0] == d);
            }
        }
    }
    let mut i: i64 = 2;
    while i <= n / i
        invariant
            2 <= i,
            n >= 2 || i == 2,
            i == 2 || (i - 1) * (i - 1) <= n as int,
            sorted(factors@),
            factors@.no_duplicates(),
            forall|d: i64| factors@.contains(d) <==> scan_member(n as int, i as int, d),
        decreases n - i,
    {
        proof {
            lemma_div_bound_pos(n as int, i as int);
        }
        if n % i == 0 {
            proof {
                lemma_exec_rem_zero_divides(n as int, i as int);
                lemma_scan_fresh_divisor(n as int, i as int);
            }
            insert_sorted(&mut factors, i);
            let c = n / i;
            proof {
                lemma_exact_cofactor(n as int, i as int);
                if n as int == i as int * i as int {
                    vstd::arithmetic::div_mod::lemma_div_by_multiple(i as int, i as int);
                }
            }
            if i != c {
                proof {
                    lemma_scan_fresh_cofactor(n as int, i as int);
                }
                insert_sorted(&mut factors, c);
            }
            proof {
                assert forall|d: i64|
                    factors@.contains(d) <==> scan_member(n as int, i as int + 1, d) by {
                    lemma_scan_unfold(n as int, i as int, d);
                }
            }
        } else {
            proof {
                lemma_exec_rem_nonzero_not_divides(n as int, i as int);
                assert forall|d: i64|
                    factors@.contains(d) <==> scan_member(n as int, i as int + 1, d) by {
                    lemma_scan_unfold(n as int, i as int, d);
                }
            }
        }
        i += 1;
    }
    proof {
        if n >= 2 {
            lemma_scan_fresh_n(n as int, i as int);
        } else {
            assert(factors@.len() == 1 && factors@[0] == 1i64) by {
                assert(factors@.contains(1i64) <==> scan_member(n as int, 2, 1i64));
                if factors@.len() >= 2 {
                    assert(factors@[0] != factors@[1]);
                    assert(factors@.contains(factors@[0]) && factors@.contains(factors@[1]));
                }
                assert(factors@.contains(factors@[0]));
            }
        }
    }
    let ghost before = factors@;
    insert_sorted(&mut factors, n);
    proof {
        if n >= 2 {
            assert forall|d: i64|
                factors@.contains(d) <==> (1 <= d <= n && divides(d as int, n as int)) by {
                lemma_scan_complete(n as int, i as int, d);
            }
        } else {
            let j = choose|j: int| 0 <= j <= before.len() && factors@ == before.insert(j, n);
            if n == 1 {
                assert(factors@ =~= seq![1i64, 1i64]);
            } else {
                assert(factors@.len() == 2);
                if j == 0 {
                    assert(factors@ =~= seq![n, 1i64]);
                } else {
                    assert(factors@[0] == 1i64 && factors@[1] == n);
                    assert(factors@[0] <= factors@[1]);
                    assert(false);
                }
            }
        }
    }
    factors
}

/// Is the number prime? Decided, as a factor count: `n` is prime when its
/// factor list holds nothing but 1 and `n`. For `n` below 2 the list is
/// exactly that pair, so this reports those values prime as well.
pub fn is_prime(num: i64) -> (r: bool)
    ensures
        num >= 2 ==> (r <==> (forall|d: int| 2 <= d < num ==> !divides(d, num as int))),
        num <= 1 ==> r,
{
    let factors = get_all_factors(num);
    proof {
        if num >= 2 {
            lemma_prime_by_count(num as int, factors@);
        }
    }
    match factors.len() {
        1 => true,
        2 => true,
        _ => false,
    }
}


/// When the scan's guard first fails, `n` lies below `i * i`.
proof fn lemma_exit_sq(n: int, i: int)
    requires
        n >= 1,
        i >= 2,
        i > n / i,
    ensures
        n < i * i,
{
    lemma_fundamental_div_mod(n, i);
    vstd::arithmetic::div_mod::lemma_mod_pos_bound(n, i);
    assert(i * (n / i) + i - 1 < i * i) by (nonlinear_arith)
        requires
            i >= 2,
            n / i <= i - 1,
    ;
}

/// For positive `e` dividing positive `n`, the cofactor is exact:
/// `n == e * (n / e)`.
proof fn lemma_exact_cofactor(n: int, e: int)
    requires
        n >= 1,
        e >= 1,
        divides(e, n),
    ensures
        n == e * (n / e),
        1 <= n / e <= n,
{
    lemma_fundamental_div_mod(n, e);
    assert(n == e * (n / e));
    assert(1 <= n / e <= n) by (nonlinear_arith)
        requires
            n >= 1,
            e >= 1,
            n == e * (n / e),
    ;
}

/// The value scanned at step `i` is itself no previous scan member.
proof fn lemma_scan_fresh_divisor(n: int, i: int)
    requires
        n >= 2,
        2 <= i,
        i <= i64::MAX,
        i * i <= n,
        divides(i, n),
    ensures
        !scan_member(n, i, i as i64),
{
    assert forall|e: int|
        2 <= e < i && e * e <= n && e * e != n && #[trigger] divides(e, n) implies i != n
        / e by {
        lemma_exact_cofactor(n, e);
        if i == n / e {
            assert(false) by (nonlinear_arith)
                requires
                    n == e * i,
                    i * i <= n,
                    2 <= e < i,
            ;
        }
    }
}

/// Neither is its cofactor, once the value itself is counted in.
proof fn lemma_scan_fresh_cofactor(n: int, i: int)
    requires
        n >= 2,
        n <= i64::MAX,
        2 <= i,
        i * i <= n,
        i * i != n,
        divides(i, n),
    ensures
        n / i != i,
        n / i != 1,
        !scan_member(n, i, (n / i) as i64),
{
    lemma_exact_cofactor(n, i);
    let c = n / i;
    assert(c > i) by (nonlinear_arith)
        requires
            n == i * c,
            i * i <= n,
            i * i != n,
            i >= 2,
            c >= 1,
    ;
    assert forall|e: int|
        2 <= e < i && e * e <= n && e * e != n && #[trigger] divides(e, n) implies c != n
        / e by {
        lemma_exact_cofactor(n, e);
        if c == n / e {
            assert(false) by (nonlinear_arith)
                requires
                    n == e * (n / e),
                    n == i * c,
                    c == n / e,
                    2 <= e < i,
                    c >= 1,
            ;
        }
    }
}

/// How one scan step extends the member set: the ranges widen by `i`, so
/// exactly `i` and its proper cofactor join when `i` divides.
proof fn lemma_scan_unfold(n: int, i: int, d: i64)
    requires
        n >= 2,
        2 <= i,
        i * i <= n,
    ensures
        scan_member(n, i + 1, d) <==> (scan_member(n, i, d) || (divides(i, n) && (d == i || (i * i
            != n && d == n / i)))),
{
    if scan_member(n, i + 1, d) {
        if d == 1 {
        } else if 2 <= d < i + 1 && divides(d as int, n) {
            assert(d < i || d == i);
        } else {
            let e = choose|e: int|
                2 <= e < i + 1 && e * e <= n && e * e != n && #[trigger] divides(e, n) && d == n
                    / e;
            if e < i {
                assert(scan_member(n, i, d));
            } else {
                assert(e == i);
            }
        }
    }
    if scan_member(n, i, d) {
        if d == 1 {
        } else if 2 <= d < i && divides(d as int, n) {
            assert(2 <= d < i + 1);
        } else {
            let e = choose|e: int|
                2 <= e < i && e * e <= n && e * e != n && #[trigger] divides(e, n) && d == n / e;
            assert(2 <= e < i + 1 && e * e <= n && e * e != n && divides(e, n) && d == n / e);
        }
        assert(scan_member(n, i + 1, d));
    }
    if divides(i, n) && d == i {
        assert(2 <= d < i + 1 && divides(d as int, n));
        assert(scan_member(n, i + 1, d));
    }
    if divides(i, n) && i * i != n && d == n / i {
        assert(2 <= i < i + 1 && i * i <= n && i * i != n && divides(i, n) && d as int == n / i);
        assert(scan_member(n, i + 1, d));
    }
}

/// `n` itself is never found by the proper scan.
proof fn lemma_scan_fresh_n(n: int, i: int)
    requires
        n >= 2,
        n <= i64::MAX,
        2 <= i,
        i == 2 || (i - 1) * (i - 1) <= n,
        i > n / i,
    ensures
        !scan_member(n, i, n as i64),
{
    lemma_exit_sq(n, i);
    if 2 <= n < i {
        assert(false) by (nonlinear_arith)
            requires
                i == 2 || (i - 1) * (i - 1) <= n,
                2 <= n < i,
                i >= 2,
        ;
    }
    assert forall|e: int|
        2 <= e < i && e * e <= n && e * e != n && #[trigger] divides(e, n) implies n != n / e by {
        lemma_exact_cofactor(n, e);
        if n == n / e {
            assert(false) by (nonlinear_arith)
                requires
                    n == e * (n / e),
                    n == n / e,
                    e >= 2,
                    n >= 2,
            ;
        }
    }
}

/// After the scan has passed the square root, its member set plus `n`
/// itself is exactly the divisor set of `n`.
proof fn lemma_scan_complete(n: int, i: int, d: i64)
    requires
        n >= 2,
        2 <= i,
        i == 2 || (i - 1) * (i - 1) <= n,
        i > n / i,
    ensures
        (scan_member(n, i, d) || d == n) <==> (1 <= d <= n && divides(d as int, n)),
{
    lemma_exit_sq(n, i);
    lemma_one_divides(n);
    if scan_member(n, i, d) || d == n {
        if d == 1 {
        } else if d == n {
            lemma_self_divides(n);
        } else if 2 <= d < i && divides(d as int, n) {
            lemma_divisor_le(n, d as int);
        } else if scan_member(n, i, d) {
            let e = choose|e: int|
                2 <= e < i && e * e <= n && e * e != n && #[trigger] divides(e, n) && d == n / e;
            lemma_exact_cofactor(n, e);
            lemma_product_divides(n, e, n / e);
        }
    }
    if 1 <= d <= n && divides(d as int, n) {
        if d == 1 || d == n {
        } else {
            let dd = d as int;
            lemma_exact_cofactor(n, dd);
            let c = n / dd;
            assert(c >= 2) by (nonlinear_arith)
                requires
                    n == dd * c,
                    2 <= dd <= n - 1,
                    c >= 1,
                    n >= 2,
            ;
            if dd * dd <= n {
                assert(dd < i) by (nonlinear_arith)
                    requires
                        dd * dd <= n,
                        n < i * i,
                        dd >= 2,
                        i >= 2,
                ;
                assert(scan_member(n, i, d));
            } else {
                assert(c < dd && c * c < n) by (nonlinear_arith)
                    requires
                        n == dd * c,
                        dd * dd > n,
                        c >= 2,
                        dd >= 2,
                ;
                assert(c < i) by (nonlinear_arith)
                    requires
                        c * c < n,
                        n < i * i,
                        c >= 2,
                        i >= 2,
                ;
                lemma_product_divides(n, dd, c);
                assert(n / c == dd) by {
                    vstd::arithmetic::div_mod::lemma_div_by_multiple(dd, c);
                    assert(n == dd * c);
                    assert((dd * c) / c == dd);
                }
                assert(2 <= c < i && c * c <= n && c * c != n && divides(c, n) && d == n / c);
                assert(scan_member(n, i, d));
            }
        }
    }
}

/// One divides everything.
proof fn lemma_one_divides(n: int)
    ensures
        divides(1, n),
{
    lemma_fundamental_div_mod(abs(n) as int, 1);
    vstd::arithmetic::div_mod::lemma_mod_pos_bound(abs(n) as int, 1);
}

/// Everything divides itself.
proof fn lemma_self_divides(n: int)
    requires
        n != 0,
    ensures
        divides(n, n),
{
    let a = abs(n) as int;
    vstd::arithmetic::div_mod::lemma_mod_self_0(a);
}

/// A positive divisor of a positive number is at most the number.
proof fn lemma_divisor_le(n: int, d: int)
    requires
        n >= 1,
        d >= 1,
        divides(d, n),
    ensures
        d <= n,
{
    if d > n {
        vstd::arithmetic::div_mod::lemma_small_mod(n as nat, d as nat);
    }
}

/// A factor of a positive product divides it.
proof fn lemma_product_divides(n: int, a: int, b: int)
    requires
        n >= 1,
        a >= 1,
        b >= 1,
        n == a * b,
    ensures
        divides(b, n),
        divides(a, n),
{
    vstd::arithmetic::div_mod::lemma_mod_multiples_basic(a, b);
    assert((a * b) % b == 0);
    vstd::arithmetic::div_mod::lemma_mod_multiples_basic(b, a);
    assert((b * a) % a == 0);
    assert(a * b == b * a) by (nonlinear_arith);
}

/// The factor count tells primality: the divisor list of `n` has exactly
/// the members 1 and `n` when no value strictly between divides `n`.
proof fn lemma_prime_by_count(n: int, s: Seq<i64>)
    requires
        n >= 2,
        n <= i64::MAX,
        s.no_duplicates(),
        forall|d: i64| #![trigger s.contains(d)] s.contains(d) <==> 1 <= d <= n && divides(
            d as int,
            n,
        ),
    ensures
        s.len() >= 2,
        (s.len() == 2) <==> (forall|d: int| 2 <= d < n ==> !divides(d, n)),
{
    lemma_one_divides(n);
    lemma_self_divides(n);
    assert(s.contains(1i64));
    assert(s.contains(n as i64));
    let i1 = choose|j: int| 0 <= j < s.len() && s[j] == 1i64;
    let i2 = choose|j: int| 0 <= j < s.len() && s[j] == n as i64;
    assert(i1 != i2);
    assert(s.len() >= 2);
    if forall|d: int| 2 <= d < n ==> !divides(d, n) {
        if s.len() > 2 {
            assert(s[0] != s[1] && s[0] != s[2] && s[1] != s[2]);
            assert(s.contains(s[0]) && s.contains(s[1]) && s.contains(s[2]));
            assert(forall|k: int| 0 <= k < 3 ==> s[k] == 1 || s[k] == n);
            assert(false);
        }
    } else {
        let d = choose|d: int| 2 <= d < n && divides(d, n);
        assert(s.contains(d as i64));
        let i3 = choose|j: int| 0 <= j < s.len() && s[j] == d as i64;
        assert(i3 != i1 && i3 != i2);
        if s.len() == 2 {
            assert(false);
        }
    }
}

} // verus!
