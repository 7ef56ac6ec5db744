use std::collections::HashSet;
use vstd::prelude::*;

verus! {

broadcast use vstd::std_specs::hash::group_hash_axioms;

// A commit message references an issue wherever it contains the trigger
// phrase: the word `needs`, one whitespace character, the word `qa`, an
// optional colon, one whitespace character, `#`, and a run of decimal
// digits.  The words are matched without regard to ASCII case.  The digit
// run is maximal, and its value is the referenced issue number.  No
// occurrence can start inside another one (none of the characters an
// occurrence is made of can begin the word `needs`), so collecting the
// occurrences at every starting position yields exactly the
// non-overlapping occurrences read from left to right.

/// One of the whitespace characters accepted inside the trigger phrase:
/// the ASCII whitespace class.
pub open spec fn is_space(c: char) -> bool {
    c == ' ' || c == '\t' || c == '\n' || c == '\r' || c == '\u{b}' || c == '\u{c}'
}

/// An ASCII decimal digit.
pub open spec fn is_digit(c: char) -> bool {
    '0' as int <= c as int && c as int <= '9' as int
}

/// Case-insensitive comparison of `c` against a lower-case ASCII letter
/// `l`: either the letter itself or its upper-case form.
pub open spec fn eq_ci(c: char, l: char) -> bool {
    c == l || c as int == l as int - 0x20
}

/// The words `needs` and `qa` of the trigger phrase start at `i`,
/// separated by one whitespace character.
pub open spec fn phrase_at(s: Seq<char>, i: int) -> bool {
    &&& 0 <= i
    &&& i + 8 <= s.len()
    &&& eq_ci(s[i], 'n')
    &&& eq_ci(s[i + 1], 'e')
    &&& eq_ci(s[i + 2], 'e')
    &&& eq_ci(s[i + 3], 'd')
    &&& eq_ci(s[i + 4], 's')
    &&& is_space(s[i + 5])
    &&& eq_ci(s[i + 6], 'q')
    &&& eq_ci(s[i + 7], 'a')
}

/// A trigger occurrence without the optional colon starts at `i`:
/// `needs qa #` followed by at least one digit.
pub open spec fn match_plain_at(s: Seq<char>, i: int) -> bool {
    &&& phrase_at(s, i)
    &&& i + 11 <= s.len()
    &&& is_space(s[i + 8])
    &&& s[i + 9] == '#'
    &&& is_digit(s[i + 10])
}

/// A trigger occurrence with the colon starts at `i`:
/// `needs qa: #` followed by at least one digit.
pub open spec fn match_colon_at(s: Seq<char>, i: int) -> bool {
    &&& phrase_at(s, i)
    &&& i + 12 <= s.len()
    &&& s[i + 8] == ':'
    &&& is_space(s[i + 9])
    &&& s[i + 10] == '#'
    &&& is_digit(s[i + 11])
}

/// A trigger occurrence starts at `i`.
pub open spec fn match_at(s: Seq<char>, i: int) -> bool {
    match_plain_at(s, i) || match_colon_at(s, i)
}

/// Index of the first digit of the occurrence starting at `i`.
pub open spec fn digits_start(s: Seq<char>, i: int) -> int {
    if match_colon_at(s, i) {
        i + 11
    } else {
        i + 10
    }
}

/// End (exclusive) of the maximal digit run beginning at `j`.
pub open spec fn run_end(s: Seq<char>, j: int) -> int
    decreases s.len() - j,
{
    if 0 <= j < s.len() && is_digit(s[j]) {
        run_end(s, j + 1)
    } else {
        j
    }
}

/// Decimal value of `s[j..k]`.
pub open spec fn digits_value(s: Seq<char>, j: int, k: int) -> int
    decreases k - j,
{
    if j >= k {
        0
    } else {
        digits_value(s, j, k - 1) * 10 + (s[k - 1] as int - '0' as int)
    }
}

/// Issue numbers of the trigger occurrences starting at or after `i`,
/// collected as a set; a digit run whose value does not fit in `u64`
/// contributes nothing.
pub open spec fn scan_from(s: Seq<char>, i: int) -> Set<u64>
    decreases s.len() - i,
{
    if i < 0 || i >= s.len() {
        Set::empty()
    } else {
        let rest = scan_from(s, i + 1);
        if match_at(s, i) {
            let v = digits_value(s, digits_start(s, i), run_end(s, digits_start(s, i)));
            if 0 <= v <= u64::MAX {
                rest.insert(v as u64)
            } else {
                rest
            }
        } else {
            rest
        }
    }
}

/// Issue numbers referenced by one commit message.
pub open spec fn message_issues(s: Seq<char>) -> Set<u64> {
    scan_from(s, 0)
}

/// Issue numbers referenced by a sequence of commit messages.
pub open spec fn messages_issues(msgs: Seq<Seq<char>>) -> Set<u64>
    decreases msgs.len(),
{
    if msgs.len() == 0 {
        Set::<u64>::empty()
    } else {
        message_issues(msgs[0]).union(messages_issues(msgs.drop_first()))
    }
}

/// Case-insensitive test of `c` against the lower-case ASCII letter `l`.
fn eq_ci_exec(c: char, l: char) -> (r: bool)
    ensures
        r == eq_ci(c, l),
{
    c == l || (c as u32) + 0x20 == (l as u32)
}

/// Whether `c` is accepted as whitespace inside the trigger phrase.
fn is_space_exec(c: char) -> (r: bool)
    ensures
        r == is_space(c),
{
    c == ' ' || c == '\t' || c == '\n' || c == '\r' || c == '\u{b}' || c == '\u{c}'
}

/// Whether `c` is an ASCII decimal digit.
fn is_digit_exec(c: char) -> (r: bool)
    ensures
        r == is_digit(c),
{
    ('0' as u32) <= (c as u32) && (c as u32) <= ('9' as u32)
}

/// Looks for a trigger occurrence starting at `i`; returns the index of
/// its first digit when there is one.
fn find_match(s: &str, i: usize, n: usize) -> (r: Option<usize>)
    requires
        n == s@.len(),
        i < n,
    ensures
        match r {
            Some(j) => match_at(s@, i as int) && j == digits_start(s@, i as int),
            None => !match_at(s@, i as int),
        },
{
    let rem: usize = n - i;
    if rem < 11 {
        return None;
    }
    let phrase = eq_ci_exec(s.get_char(i), 'n') && eq_ci_exec(s.get_char(i + 1), 'e')
        && eq_ci_exec(s.get_char(i + 2), 'e') && eq_ci_exec(s.get_char(i + 3), 'd')
        && eq_ci_exec(s.get_char(i + 4), 's') && is_space_exec(s.get_char(i + 5))
        && eq_ci_exec(s.get_char(i + 6), 'q') && eq_ci_exec(s.get_char(i + 7), 'a');
    if !phrase {
        return None;
    }
    let c8 = s.get_char(i + 8);
    if is_space_exec(c8) {
        if s.get_char(i + 9) == '#' && is_digit_exec(s.get_char(i + 10)) {
            Some(i + 10)
        } else {
            None
        }
    } else if c8 == ':' {
        if rem < 12 {
            return None;
        }
        if is_space_exec(s.get_char(i + 9)) && s.get_char(i + 10) == '#' && is_digit_exec(
            s.get_char(i + 11),
        ) {
            Some(i + 11)
        } else {
            None
        }
    } else {
        None
    }
}

/// The characters of the maximal digit run beginning at `j` are digits,
/// and the run ends at the first non-digit.
proof fn lemma_run_end(s: Seq<char>, j: int, k: int)
    requires
        0 <= j <= k <= s.len(),
        forall|t: int| j <= t < k ==> is_digit(s[t]),
        k == s.len() || !is_digit(s[k]),
    ensures
        run_end(s, j) == k,
    decreases k - j,
{
    if j == k {
    } else {
        lemma_run_end(s, j + 1, k);
    }
}

/// Reads the maximal digit run beginning at `j`: returns its end and its
/// value, or `None` for the value when it does not fit in `u64`.
fn read_number(s: &str, j: usize, n: usize) -> (r: (usize, Option<u64>))
    requires
        n == s@.len(),
        j <= n,
    ensures
        r.0 == run_end(s@, j as int),
        j <= r.0 <= n,
        match r.1 {
            Some(v) => v as int == digits_value(s@, j as int, r.0 as int),
            None => digits_value(s@, j as int, r.0 as int) > u64::MAX,
        },
{
    let mut k: usize = j;
    let mut acc: u64 = 0;
    let mut over: bool = false;
    loop
        invariant
            n == s@.len(),
            j <= k <= n,
            forall|t: int| j <= t < k ==> is_digit(s@[t]),
            !over ==> acc as int == digits_value(s@, j as int, k as int),
            over ==> digits_value(s@, j as int, k as int) > u64::MAX,
        ensures
            n == s@.len(),
            j <= k <= n,
            forall|t: int| j <= t < k ==> is_digit(s@[t]),
            k == n || !is_digit(s@[k as int]),
            !over ==> acc as int == digits_value(s@, j as int, k as int),
            over ==> digits_value(s@, j as int, k as int) > u64::MAX,
        decreases n - k,
    {
        if k == n {
            break;
        }
        let c = s.get_char(k);
        if !is_digit_exec(c) {
            break;
        }
        let d: u64 = ((c as u32) - ('0' as u32)) as u64;
        if !over {
            if acc > (u64::MAX - d) / 10 {
                proof {
                    assert(acc * 10 + d > u64::MAX) by (nonlinear_arith)
                        requires
                            acc > (u64::MAX - d) / 10,
                            0 <= d <= 9,
                    ;
                }
                over = true;
            } else {
                proof {
                    assert(acc * 10 + d <= u64::MAX) by (nonlinear_arith)
                        requires
                            acc <= (u64::MAX - d) / 10,
                            0 <= d <= 9,
                    ;
                }
                acc = acc * 10 + d;
            }
        } else {
            proof {
                assert(digits_value(s@, j as int, k as int) * 10 + (s@[k as int] as int
                    - '0' as int) > u64::MAX) by (nonlinear_arith)
                    requires
                        digits_value(s@, j as int, k as int) > u64::MAX,
                        0 <= s@[k as int] as int - '0' as int,
                ;
            }
        }
        k = k + 1;
    }
    proof {
        lemma_run_end(s@, j as int, k as int);
    }
    if over {
        (k, None)
    } else {
        (k, Some(acc))
    }
}

/// Adds to `numbers` every issue number referenced in `message`.
pub fn get_issues(numbers: &mut HashSet<u64>, message: &str)
    ensures
        final(numbers)@ == old(numbers)@.union(message_issues(message@)),
{
    let n: usize = message.unicode_len();
    let mut i: usize = 0;
    while i < n
        invariant
            n == message@.len(),
            i <= n,
            numbers@.union(scan_from(message@, i as int)) == old(numbers)@.union(
                message_issues(message@),
            ),
        decreases n - i,
    {
        match find_match(message, i, n) {
            Some(j) => {
                let ghost prev = numbers@;
                let (k, val) = read_number(message, j, n);
                match val {
                    Some(v) => {
                        numbers.insert(v);
                        proof {
                            assert(scan_from(message@, i as int) == scan_from(
                                message@,
                                i as int + 1,
                            ).insert(v));
                            assert(numbers@.union(scan_from(message@, i as int + 1)) =~= prev.union(
                                scan_from(message@, i as int),
                            ));
                        }
                    },
                    None => {
                        proof {
                            assert(scan_from(message@, i as int) == scan_from(
                                message@,
                                i as int + 1,
                            ));
                        }
                    },
                }
            },
            None => {
                proof {
                    assert(scan_from(message@, i as int) == scan_from(message@, i as int + 1));
                }
            },
        }
        i = i + 1;
    }
    proof {
        assert(numbers@.union(scan_from(message@, n as int)) =~= numbers@);
    }
}

/// Whether `x` already occurs in `v`.
fn vec_contains(v: &Vec<u64>, x: u64) -> (r: bool)
    ensures
        r == v@.contains(x),
{
    let mut i: usize = 0;
    while i < v.len()
        invariant
            i <= v@.len(),
            forall|t: int| 0 <= t < i ==> v@[t] != x,
        decreases v@.len() - i,
    {
        if v[i] == x {
            return true;
        }
        i = i + 1;
    }
    false
}

/// Appends to `issues` every issue number referenced in `message` that is
/// not already present, keeping the list free of duplicates.
pub fn collect_issues(issues: &mut Vec<u64>, message: &str)
    requires
        old(issues)@.no_duplicates(),
    ensures
        final(issues)@.to_set() == old(issues)@.to_set().union(message_issues(message@)),
        final(issues)@.no_duplicates(),
{
    let n: usize = message.unicode_len();
    let mut i: usize = 0;
    proof {
        assert(issues@.to_set().union(scan_from(message@, 0)) =~= old(issues)@.to_set().union(
            message_issues(message@),
        ));
    }
    while i < n
        invariant
            n == message@.len(),
            i <= n,
            issues@.no_duplicates(),
            issues@.to_set().union(scan_from(message@, i as int)) == old(issues)@.to_set().union(
                message_issues(message@),
            ),
        decreases n - i,
    {
        match find_match(message, i, n) {
            Some(j) => {
                let ghost prev = issues@;
                let (k, val) = read_number(message, j, n);
                match val {
                    Some(v) => {
                        proof {
                            assert(scan_from(message@, i as int) == scan_from(
                                message@,
                                i as int + 1,
                            ).insert(v));
                        }
                        if !vec_contains(issues, v) {
                            issues.push(v);
                            proof {
                                assert forall|p: int, q: int|
                                    0 <= p < issues@.len() && 0 <= q < issues@.len() && p
                                        != q implies issues@[p] != issues@[q] by {
                                    if p < prev.len() && q < prev.len() {
                                        assert(prev[p] != prev[q]);
                                    } else if q == prev.len() && p < prev.len() {
                                        assert(!prev.contains(v));
                                        assert(prev[p] != v);
                                    } else {
                                        assert(!prev.contains(v));
                                        assert(prev[q] != v);
                                    }
                                }
                                assert(issues@.no_duplicates());
                                assert forall|y: u64|
                                    issues@.contains(y) <==> (prev.contains(y) || y == v) by {
                                    if issues@.contains(y) {
                                        let t = choose|t: int|
                                            0 <= t < issues@.len() && issues@[t] == y;
                                        if t < prev.len() {
                                            assert(prev[t] == y);
                                        }
                                    }
                                    if prev.contains(y) {
                                        let t = choose|t: int| 0 <= t < prev.len() && prev[t] == y;
                                        assert(issues@[t] == y);
                                    }
                                    if y == v {
                                        assert(issues@[prev.len() as int] == v);
                                    }
                                }
                                assert(issues@.to_set() =~= prev.to_set().insert(v));
                            }
                        }
                        proof {
                            assert(issues@.to_set().union(scan_from(message@, i as int + 1))
                                =~= prev.to_set().union(scan_from(message@, i as int)));
                        }
                    },
                    None => {
                        proof {
                            assert(scan_from(message@, i as int) == scan_from(
                                message@,
                                i as int + 1,
                            ));
                        }
                    },
                }
            },
            None => {
                proof {
                    assert(scan_from(message@, i as int) == scan_from(message@, i as int + 1));
                }
            },
        }
        i = i + 1;
    }
    proof {
        assert(issues@.to_set().union(scan_from(message@, n as int)) =~= issues@.to_set());
    }
}

/// Scans every commit message and collects the referenced issue numbers,
/// free of duplicates.
pub fn scan_messages(messages: &Vec<String>) -> (issues: Vec<u64>)
    ensures
        issues@.to_set() == messages_issues(messages.deep_view()),
        issues@.no_duplicates(),
{
    let ghost dv = messages.deep_view();
    let mut issues: Vec<u64> = Vec::new();
    let mut idx: usize = 0;
    proof {
        assert(dv.skip(0) =~= dv);
        assert(issues@.to_set().union(messages_issues(dv)) =~= messages_issues(dv));
    }
    while idx < messages.len()
        invariant
            dv == messages.deep_view(),
            dv.len() == messages@.len(),
            idx <= messages@.len(),
            issues@.no_duplicates(),
            issues@.to_set().union(messages_issues(dv.skip(idx as int))) == messages_issues(dv),
        decreases messages@.len() - idx,
    {
        proof {
            assert(dv.skip(idx as int)[0] == dv[idx as int]);
            assert(dv.skip(idx as int).drop_first() =~= dv.skip(idx as int + 1));
            assert(dv[idx as int] == messages@[idx as int]@);
        }
        let ghost prev = issues@;
        collect_issues(&mut issues, messages[idx].as_str());
        proof {
            assert(issues@.to_set().union(messages_issues(dv.skip(idx as int + 1))) =~= prev.to_set().union(
                messages_issues(dv.skip(idx as int)),
            ));
        }
        idx = idx + 1;
    }
    proof {
        assert(dv.skip(messages@.len() as int).len() == 0);
        assert(issues@.to_set().union(messages_issues(dv.skip(messages@.len() as int)))
            =~= issues@.to_set());
    }
    issues
}

/// No trigger occurrence at or after `i` means nothing is collected from
/// there on.
proof fn lemma_scan_from_empty(s: Seq<char>, i: int)
    requires
        forall|t: int| i <= t < s.len() ==> !match_at(s, t),
    ensures
        scan_from(s, i) == Set::<u64>::empty(),
    decreases s.len() - i,
{
    if 0 <= i < s.len() {
        lemma_scan_from_empty(s, i + 1);
    }
}

/// A message without any trigger occurrence references no issue.
pub proof fn lemma_no_match_no_issues(s: Seq<char>)
    requires
        forall|i: int| 0 <= i < s.len() ==> !match_at(s, i),
    ensures
        message_issues(s) == Set::<u64>::empty(),
{
    lemma_scan_from_empty(s, 0);
}

/// Scanning distributes over concatenation of message sequences: the
/// issues of `a + b` are exactly the union of the issues of `a` and of
/// `b`.
pub proof fn lemma_scan_concat(a: Seq<Seq<char>>, b: Seq<Seq<char>>)
    ensures
        messages_issues(a + b) == messages_issues(a).union(messages_issues(b)),
    decreases a.len(),
{
    if a.len() == 0 {
        assert(a + b =~= b);
        assert(messages_issues(a) == Set::<u64>::empty());
        assert(messages_issues(a).union(messages_issues(b)) =~= messages_issues(b));
    } else {
        lemma_scan_concat(a.drop_first(), b);
        assert((a + b).drop_first() =~= a.drop_first() + b);
        assert(messages_issues(a + b) == message_issues(a[0]).union(
            messages_issues(a.drop_first() + b),
        ));
        assert(message_issues(a[0]).union(
            messages_issues(a.drop_first()).union(messages_issues(b)),
        ) =~= messages_issues(a).union(messages_issues(b)));
    }
}

} // verus!
