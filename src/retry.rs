use vstd::prelude::*;
use vstd::string::*;

verus! {

/// The phrase after which rate-limit messages state the wait.
pub const WAIT_MARKER: &'static str = "try again in ";

/// Scanner state over a wait such as `1m51.264s`, `7.5s`, `2h3m` or `350ms`.
#[derive(Clone, Copy, Debug, PartialEq, Eq, Structural)]
pub struct WaitScan {
    /// Whole seconds of the parts read so far.
    pub total: u64,
    /// Integer part of the number being read.
    pub num: u64,
    /// The number being read has a non-zero fraction.
    pub frac: bool,
    /// Digits now go to the fraction.
    pub in_frac: bool,
    /// A number is being read.
    pub has_num: bool,
    /// At least one part with a unit was read.
    pub any: bool,
}

pub open spec fn sat_add(a: u64, b: u64) -> u64 {
    if a as int + b as int > u64::MAX as int { u64::MAX } else { (a + b) as u64 }
}

pub open spec fn sat_mul(a: u64, b: u64) -> u64 {
    if a as int * b as int > u64::MAX as int { u64::MAX } else { (a * b) as u64 }
}

fn saturating_sum(a: u64, b: u64) -> (r: u64)
    ensures
        r == sat_add(a, b),
{
    if a > u64::MAX - b { u64::MAX } else { a + b }
}

fn saturating_product(a: u64, b: u64) -> (r: u64)
    ensures
        r == sat_mul(a, b),
{
    if b != 0 && a > u64::MAX / b {
        assert(a as int * b as int > u64::MAX as int) by (nonlinear_arith)
            requires b != 0, a > u64::MAX / b;
        u64::MAX
    } else {
        assert(a as int * b as int <= u64::MAX as int) by (nonlinear_arith)
            requires b == 0 || a <= u64::MAX / b;
        a * b
    }
}

pub open spec fn is_digit(c: char) -> bool {
    '0' <= c && c <= '9'
}

pub open spec fn scan_start() -> WaitScan {
    WaitScan { total: 0, num: 0, frac: false, in_frac: false, has_num: false, any: false }
}

/// The number read so far, rounded up to a whole unit when it has a fraction.
pub open spec fn rounded_up(st: WaitScan) -> u64 {
    sat_add(st.num, if st.frac { 1 } else { 0 })
}

/// A part of `n` units of `unit_seconds` each is added to the total.
pub open spec fn add_part(st: WaitScan, n: u64, unit_seconds: u64) -> WaitScan {
    WaitScan { total: sat_add(st.total, sat_mul(n, unit_seconds)), num: 0, frac: false, in_frac: false, has_num: false, any: true }
}

pub open spec fn digit_step(st: WaitScan, c: char) -> WaitScan {
    if st.in_frac {
        WaitScan { frac: st.frac || c != '0', ..st }
    } else {
        WaitScan { num: sat_add(sat_mul(st.num, 10), (c as u32 - '0' as u32) as u64), has_num: true, ..st }
    }
}

/// Reads a wait from position `i` on: numbers (with an optional fraction on
/// seconds) each followed by a unit `h`, `m`, `s` or `ms`, up to the first
/// character that does not fit. Fractions of a second round up.
pub open spec fn scan_wait(s: Seq<char>, i: int, st: WaitScan) -> WaitScan
    decreases s.len() - i,
{
    if i < 0 || i >= s.len() {
        st
    } else {
        let c = s[i];
        if is_digit(c) {
            scan_wait(s, i + 1, digit_step(st, c))
        } else if c == '.' && st.has_num && !st.in_frac {
            scan_wait(s, i + 1, WaitScan { in_frac: true, ..st })
        } else if c == 's' && st.has_num {
            scan_wait(s, i + 1, add_part(st, rounded_up(st), 1))
        } else if c == 'm' && st.has_num && i + 1 < s.len() && s[i + 1] == 's' {
            scan_wait(s, i + 2, add_part(st, sat_add(rounded_up(st), 999) / 1000, 1))
        } else if c == 'm' && st.has_num && !st.in_frac {
            scan_wait(s, i + 1, add_part(st, st.num, 60))
        } else if c == 'h' && st.has_num && !st.in_frac {
            scan_wait(s, i + 1, add_part(st, st.num, 3600))
        } else {
            st
        }
    }
}

pub open spec fn marker_at(s: Seq<char>, k: int) -> bool {
    0 <= k && k + WAIT_MARKER@.len() <= s.len() && s.subrange(k, k + WAIT_MARKER@.len()) == WAIT_MARKER@
}

/// The first position at or after `k` where the marker starts.
pub open spec fn marker_from(s: Seq<char>, k: int) -> Option<int>
    decreases s.len() - k,
{
    if k < 0 || k >= s.len() || k + WAIT_MARKER@.len() > s.len() {
        Option::None
    } else if marker_at(s, k) {
        Option::Some(k)
    } else {
        marker_from(s, k + 1)
    }
}

/// The wait, in whole seconds, that a rate-limit message states; `None` when
/// the message states none in the expected form.
pub open spec fn stated_wait(s: Seq<char>) -> Option<u64> {
    match marker_from(s, 0) {
        Option::None => Option::None,
        Option::Some(k) => {
            let st = scan_wait(s, k + WAIT_MARKER@.len(), scan_start());
            if st.any { Option::Some(st.total) } else { Option::None }
        },
    }
}

fn find_marker(s: &str) -> (r: Option<usize>)
    ensures
        r is Some ==> marker_from(s@, 0) == Option::Some(r->Some_0 as int) && marker_at(s@, r->Some_0 as int),
        r is None ==> marker_from(s@, 0) is None,
{
    let n = s.unicode_len();
    let m = WAIT_MARKER.unicode_len();
    let marker = String::from_str(WAIT_MARKER);
    proof {
        reveal_strlit("try again in ");
    }
    assert(m > 0);
    let mut k: usize = 0;
    while k < n && m <= n - k
        invariant
            n == s@.len(),
            m == WAIT_MARKER@.len(),
            m > 0,
            marker@ == WAIT_MARKER@,
            marker_from(s@, 0) == marker_from(s@, k as int),
        decreases n - k,
    {
        let here = String::from_str(s.substring_char(k, k + m));
        if here == marker {
            return Some(k);
        }
        k = k + 1;
    }
    None
}

/// The wait, in whole seconds, stated in a rate-limit message
/// ("... try again in 1m51.264s ..." gives 112).
pub fn retry_after_seconds(message: &str) -> (r: Option<u64>)
    ensures
        r == stated_wait(message@),
{
    let k = match find_marker(message) {
        Some(k) => k,
        None => return None,
    };
    let n = message.unicode_len();
    let mut i: usize = k + WAIT_MARKER.unicode_len();
    let ghost start = i as int;
    let mut st = WaitScan { total: 0, num: 0, frac: false, in_frac: false, has_num: false, any: false };
    let mut stopped = false;
    while i < n && !stopped
        invariant
            n == message@.len(),
            i <= n,
            scan_wait(message@, start, scan_start()) == (if stopped { st } else { scan_wait(message@, i as int, st) }),
        decreases (n - i) * 2 + (if stopped { 0int } else { 1int }),
    {
        let c = message.get_char(i);
        if '0' <= c && c <= '9' {
            if st.in_frac {
                st.frac = st.frac || c != '0';
            } else {
                let d = (c as u32 - '0' as u32) as u64;
                st.num = saturating_sum(saturating_product(st.num, 10), d);
                st.has_num = true;
            }
            i = i + 1;
        } else if c == '.' && st.has_num && !st.in_frac {
            st.in_frac = true;
            i = i + 1;
        } else if c == 's' && st.has_num {
            let up = saturating_sum(st.num, if st.frac { 1 } else { 0 });
            st = WaitScan { total: saturating_sum(st.total, saturating_product(up, 1)), num: 0, frac: false, in_frac: false, has_num: false, any: true };
            i = i + 1;
        } else if c == 'm' && st.has_num && i + 1 < n && message.get_char(i + 1) == 's' {
            let up = saturating_sum(st.num, if st.frac { 1 } else { 0 });
            let secs = saturating_sum(up, 999) / 1000;
            st = WaitScan { total: saturating_sum(st.total, saturating_product(secs, 1)), num: 0, frac: false, in_frac: false, has_num: false, any: true };
            i = i + 2;
        } else if c == 'm' && st.has_num && !st.in_frac {
            st = WaitScan { total: saturating_sum(st.total, saturating_product(st.num, 60)), num: 0, frac: false, in_frac: false, has_num: false, any: true };
            i = i + 1;
        } else if c == 'h' && st.has_num && !st.in_frac {
            st = WaitScan { total: saturating_sum(st.total, saturating_product(st.num, 3600)), num: 0, frac: false, in_frac: false, has_num: false, any: true };
            i = i + 1;
        } else {
            stopped = true;
        }
    }
    assert(scan_wait(message@, start, scan_start()) == st) by {
        if !stopped {
            assert(i >= n);
            assert(scan_wait(message@, i as int, st) == st);
        }
    };
    if st.any {
        Some(st.total)
    } else {
        None
    }
}

} // verus!
