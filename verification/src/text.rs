use vstd::prelude::*;

verus! {

/// The decimal digit `d` (0 to 9) as a character.
pub open spec fn digit_char(d: int) -> char {
    seq!['0', '1', '2', '3', '4', '5', '6', '7', '8', '9'][d]
}

/// The decimal representation of `n`, without leading zeros.
pub open spec fn decimal(n: nat) -> Seq<char>
    decreases n,
{
    if n < 10 {
        seq![digit_char(n as int)]
    } else {
        decimal(n / 10).push(digit_char((n % 10) as int))
    }
}

/// `k` zero characters.
pub open spec fn zeros(k: nat) -> Seq<char> {
    Seq::new(k, |i: int| '0')
}

/// The decimal representation of `n`, padded on the left with zeros to at
/// least `width` characters (what `format!("{:0width$}", n)` prints).
pub open spec fn zero_padded(n: nat, width: nat) -> Seq<char> {
    let d = decimal(n);
    if d.len() < width {
        zeros((width - d.len()) as nat) + d
    } else {
        d
    }
}

/// A decimal representation is never empty and has at most one digit more
/// than that of `n / 10`.
pub proof fn lemma_decimal_len(n: nat)
    ensures
        1 <= decimal(n).len(),
        n < 10 ==> decimal(n).len() == 1,
        n >= 10 ==> decimal(n).len() == decimal(n / 10).len() + 1,
    decreases n,
{
    if n >= 10 {
        lemma_decimal_len(n / 10);
    }
}

/// `10^k`.
pub open spec fn pow10(k: nat) -> nat
    decreases k,
{
    if k == 0 {
        1
    } else {
        10 * pow10((k - 1) as nat)
    }
}

/// A number below `10^k` has at most `k` decimal digits.
pub proof fn lemma_decimal_len_bound(n: nat, k: nat)
    requires
        1 <= k,
        n < pow10(k),
    ensures
        decimal(n).len() <= k,
    decreases k,
{
    lemma_decimal_len(n);
    if n >= 10 {
        if k == 1 {
            assert(pow10(1) == 10) by {
                reveal_with_fuel(pow10, 2);
            }
        } else {
            let p = pow10((k - 1) as nat);
            assert(n / 10 < p) by (nonlinear_arith)
                requires
                    n < 10 * p,
            ;
            lemma_decimal_len_bound(n / 10, (k - 1) as nat);
        }
    }
}

/// A `u32` has at most ten decimal digits.
pub proof fn lemma_u32_decimal_len(n: u32)
    ensures
        decimal(n as nat).len() <= 10,
{
    assert(pow10(10) == 10_000_000_000) by {
        reveal_with_fuel(pow10, 11);
    }
    lemma_decimal_len_bound(n as nat, 10);
}

/// The value of a digit character (0 for any other character).
pub open spec fn digit_value(c: char) -> nat {
    if '0' <= c && c <= '9' {
        (c as nat - '0' as nat) as nat
    } else {
        0
    }
}

/// The number that a string of decimal digits stands for.
pub open spec fn parse_decimal(s: Seq<char>) -> nat
    decreases s.len(),
{
    if s.len() == 0 {
        0
    } else {
        parse_decimal(s.drop_last()) * 10 + digit_value(s.last())
    }
}

/// Reading a decimal representation gives back the number.
pub proof fn lemma_parse_decimal(n: nat)
    ensures
        parse_decimal(decimal(n)) == n,
    decreases n,
{
    let d = decimal(n);
    if n < 10 {
        assert(d.drop_last() =~= Seq::<char>::empty());
        assert(parse_decimal(Seq::<char>::empty()) == 0);
        assert(d.last() == digit_char(n as int));
        assert(digit_value(digit_char(n as int)) == n);
        assert(parse_decimal(d) == parse_decimal(d.drop_last()) * 10 + digit_value(d.last()));
    } else {
        lemma_parse_decimal(n / 10);
        assert(d.drop_last() =~= decimal(n / 10));
        assert(d.last() == digit_char((n % 10) as int));
        assert(digit_value(digit_char((n % 10) as int)) == n % 10);
        assert(parse_decimal(d) == parse_decimal(d.drop_last()) * 10 + digit_value(d.last()));
        assert((n / 10) * 10 + n % 10 == n);
    }
}

/// Leading zeros do not change the number a digit string stands for.
pub proof fn lemma_parse_leading_zeros(k: nat, s: Seq<char>)
    ensures
        parse_decimal(zeros(k) + s) == parse_decimal(s),
    decreases s.len() + k,
{
    if s.len() == 0 {
        assert(zeros(k) + s =~= zeros(k));
        if k > 0 {
            assert(zeros(k).drop_last() =~= zeros((k - 1) as nat));
            assert(zeros((k - 1) as nat) + s =~= zeros((k - 1) as nat));
            lemma_parse_leading_zeros((k - 1) as nat, s);
        }
    } else {
        assert((zeros(k) + s).drop_last() =~= zeros(k) + s.drop_last());
        lemma_parse_leading_zeros(k, s.drop_last());
    }
}

/// Zero padding can be read back: different numbers have different padded
/// representations.
pub proof fn lemma_zero_padded_injective(a: nat, b: nat, width: nat)
    requires
        zero_padded(a, width) == zero_padded(b, width),
    ensures
        a == b,
{
    lemma_parse_decimal(a);
    lemma_parse_decimal(b);
    let da = decimal(a);
    let db = decimal(b);
    if da.len() < width {
        lemma_parse_leading_zeros((width - da.len()) as nat, da);
    }
    if db.len() < width {
        lemma_parse_leading_zeros((width - db.len()) as nat, db);
    }
}

/// The decimal digit `d` as a one-character string.
fn digit_str(d: u32) -> (s: &'static str)
    requires
        d < 10,
    ensures
        s@ == seq![digit_char(d as int)],
{
    if d == 0 {
        proof { reveal_strlit("0"); }
        "0"
    } else if d == 1 {
        proof { reveal_strlit("1"); }
        "1"
    } else if d == 2 {
        proof { reveal_strlit("2"); }
        "2"
    } else if d == 3 {
        proof { reveal_strlit("3"); }
        "3"
    } else if d == 4 {
        proof { reveal_strlit("4"); }
        "4"
    } else if d == 5 {
        proof { reveal_strlit("5"); }
        "5"
    } else if d == 6 {
        proof { reveal_strlit("6"); }
        "6"
    } else if d == 7 {
        proof { reveal_strlit("7"); }
        "7"
    } else if d == 8 {
        proof { reveal_strlit("8"); }
        "8"
    } else {
        proof { reveal_strlit("9"); }
        "9"
    }
}

/// Appends the decimal representation of `n` to `out`.
pub fn push_decimal(out: &mut String, n: u32)
    ensures
        final(out)@ == old(out)@ + decimal(n as nat),
    decreases n,
{
    if n >= 10 {
        push_decimal(out, n / 10);
    }
    out.append(digit_str(n % 10));
    assert(out@ =~= old(out)@ + decimal(n as nat));
}

/// The number of digits in the decimal representation of `n`.
pub fn decimal_len(n: u32) -> (len: usize)
    ensures
        len == decimal(n as nat).len(),
        len <= 10,
    decreases n,
{
    proof {
        lemma_decimal_len(n as nat);
        lemma_u32_decimal_len(n);
    }
    if n < 10 {
        1
    } else {
        proof { lemma_decimal_len((n / 10) as nat); }
        decimal_len(n / 10) + 1
    }
}

/// Appends `n` in decimal, padded on the left with zeros to at least
/// `width` characters.
pub fn push_zero_padded(out: &mut String, n: u32, width: usize)
    ensures
        final(out)@ == old(out)@ + zero_padded(n as nat, width as nat),
{
    let len = decimal_len(n);
    let mut i = len;
    while i < width
        invariant
            len == decimal(n as nat).len(),
            len <= i,
            i <= width || len >= width,
            len < width ==> i <= width,
            len >= width ==> i == len,
            out@ == old(out)@ + zeros((i - len) as nat),
        decreases width - i,
    {
        proof { reveal_strlit("0"); }
        out.append("0");
        i = i + 1;
        assert(out@ =~= old(out)@ + zeros((i - len) as nat));
    }
    push_decimal(out, n);
    proof {
        let d = decimal(n as nat);
        if len < width {
            assert(i == width);
            assert(out@ =~= old(out)@ + (zeros((width - len) as nat) + d));
        } else {
            assert(i == len);
            assert(zeros(0) =~= Seq::<char>::empty());
            assert(out@ =~= old(out)@ + d);
        }
    }
}

/// The first `n` characters of `s`, or all of `s` where it is shorter.
pub open spec fn take_chars(s: Seq<char>, n: nat) -> Seq<char> {
    if s.len() <= n {
        s
    } else {
        s.take(n as int)
    }
}

/// The first `n` characters of `s` (all of them where `s` is shorter).
fn prefix_chars(s: &str, n: usize) -> (r: String)
    ensures
        r@ == take_chars(s@, n as nat),
{
    let len = s.unicode_len();
    let k = if len < n { len } else { n };
    let head = s.substring_char(0, k);
    assert(head@ =~= take_chars(s@, n as nat));
    String::from_str(head)
}

/// An identifier shortened for display: its first eight characters (the
/// whole identifier where it is no longer).
pub fn format_id(id: &str) -> (r: String)
    ensures
        r@ == take_chars(id@, 8),
{
    prefix_chars(id, 8)
}

/// What `str::to_uppercase` returns for a string: its Unicode upper-case
/// form.
pub uninterp spec fn uppercase(s: Seq<char>) -> Seq<char>;

/// Calls `str::to_uppercase`. The contract only names the result: the
/// Unicode case mapping itself (under which one character may become
/// several) is not stated here.
#[verifier::external_body]
fn to_uppercase(s: &str) -> (r: String)
    ensures
        r@ == uppercase(s@),
{
    s.to_uppercase()
}

/// The label of a project whose short name is `head`: `Project '<head>'`.
pub open spec fn project_label(head: Seq<char>) -> Seq<char> {
    "Project '"@ + head + "'"@
}

/// Wraps an already upper-cased short name into a project label.
pub fn quoted_project_name(head: &str) -> (r: String)
    ensures
        r@ == project_label(head@),
{
    let mut out = String::from_str("Project '");
    out.append(head);
    out.append("'");
    out
}

/// The display name of a project: its first three characters in upper
/// case, quoted after the word `Project`.
pub fn short_project_name(id: &str) -> (r: String)
    ensures
        r@ == project_label(uppercase(take_chars(id@, 3))),
{
    let head = prefix_chars(id, 3);
    let upper = to_uppercase(head.as_str());
    quoted_project_name(upper.as_str())
}

/// The label of the project selector: a prompt when no project is open,
/// the short name of the open project otherwise.
pub fn project_select_label(current: &str) -> (r: String)
    ensures
        current@.len() == 0 ==> r@ == "Open a project"@,
        current@.len() > 0 ==> r@ == project_label(uppercase(take_chars(current@, 3))),
{
    if current.is_empty() {
        String::from_str("Open a project")
    } else {
        short_project_name(current)
    }
}

/// The identifier of the `seq`-th project: `prj` and the number padded to
/// three digits.
pub open spec fn project_id(seq: nat) -> Seq<char> {
    seq!['p', 'r', 'j'] + zero_padded(seq, 3)
}

/// Builds the identifier of the `seq`-th project.
pub fn make_project_id(seq: u32) -> (r: String)
    ensures
        r@ == project_id(seq as nat),
{
    proof { reveal_strlit("prj"); }
    let mut out = String::from_str("prj");
    assert(out@ =~= seq!['p', 'r', 'j']);
    push_zero_padded(&mut out, seq, 3);
    out
}

/// The simulation clock as shown: `HH:MM`, each part padded to two digits.
pub open spec fn clock_label(hour: nat, minute: nat) -> Seq<char> {
    zero_padded(hour, 2).push(':') + zero_padded(minute, 2)
}

/// Builds the clock label for the given simulated time.
pub fn sim_time_label(hour: u32, minute: u32) -> (r: String)
    ensures
        r@ == clock_label(hour as nat, minute as nat),
{
    let mut out = String::new();
    push_zero_padded(&mut out, hour, 2);
    proof { reveal_strlit(":"); }
    out.append(":");
    push_zero_padded(&mut out, minute, 2);
    assert(out@ =~= clock_label(hour as nat, minute as nat));
    out
}

/// Different project numbers give different project identifiers.
pub proof fn lemma_project_id_injective(a: nat, b: nat)
    requires
        project_id(a) == project_id(b),
    ensures
        a == b,
{
    assert(project_id(a).skip(3) =~= zero_padded(a, 3));
    assert(project_id(b).skip(3) =~= zero_padded(b, 3));
    lemma_zero_padded_injective(a, b, 3);
}

} // verus!
