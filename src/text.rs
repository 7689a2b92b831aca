use vstd::prelude::*;

verus! {

/// Joins a relative path component onto a directory path, inserting a `/`
/// separator unless the directory is empty or already ends in one.
pub open spec fn join_path(base: Seq<char>, rel: Seq<char>) -> Seq<char> {
    if base.len() == 0 || base.last() == '/' {
        base + rel
    } else {
        base + seq!['/'] + rel
    }
}

/// Executable form of `join_path`.
pub fn join(base: &str, rel: &str) -> (r: String)
    ensures
        r@ == join_path(base@, rel@),
{
    let n: usize = base.unicode_len();
    let mut r = base.to_owned();
    if n > 0 && base.get_char(n - 1) != '/' {
        r.append("/");
        proof { reveal_strlit("/"); }
    }
    r.append(rel);
    r
}

/// The decimal digit `d` as a character.
pub open spec fn digit_char(d: nat) -> char {
    if d == 0 { '0' } else if d == 1 { '1' } else if d == 2 { '2' } else if d == 3 { '3' }
    else if d == 4 { '4' } else if d == 5 { '5' } else if d == 6 { '6' } else if d == 7 { '7' }
    else if d == 8 { '8' } else { '9' }
}

/// `n` written in decimal, without leading zeros.
pub open spec fn decimal(n: nat) -> Seq<char>
    decreases n,
{
    if n < 10 {
        seq![digit_char(n)]
    } else {
        decimal(n / 10).push(digit_char(n % 10))
    }
}

/// `n` written in decimal, with a leading `-` when negative.
pub open spec fn signed_decimal(n: int) -> Seq<char> {
    if n < 0 {
        seq!['-'] + decimal((-n) as nat)
    } else {
        decimal(n as nat)
    }
}

fn push_digit(s: &mut String, d: u64)
    requires
        d < 10,
    ensures
        final(s)@ == old(s)@.push(digit_char(d as nat)),
{
    let t = if d == 0 { "0" } else if d == 1 { "1" } else if d == 2 { "2" } else if d == 3 { "3" }
        else if d == 4 { "4" } else if d == 5 { "5" } else if d == 6 { "6" } else if d == 7 { "7" }
        else if d == 8 { "8" } else { "9" };
    proof {
        reveal_strlit("0"); reveal_strlit("1"); reveal_strlit("2"); reveal_strlit("3");
        reveal_strlit("4"); reveal_strlit("5"); reveal_strlit("6"); reveal_strlit("7");
        reveal_strlit("8"); reveal_strlit("9");
    }
    s.append(t);
    assert(t@ =~= seq![digit_char(d as nat)]);
}

/// Appends `n` in decimal to `s`.
pub fn push_decimal(s: &mut String, n: u64)
    ensures
        final(s)@ == old(s)@ + decimal(n as nat),
    decreases n,
{
    if n < 10 {
        push_digit(s, n);
        assert(old(s)@.push(digit_char(n as nat)) =~= old(s)@ + decimal(n as nat));
    } else {
        push_decimal(s, n / 10);
        push_digit(s, n % 10);
        assert(old(s)@ + decimal((n / 10) as nat) + seq![digit_char((n % 10) as nat)]
            =~= old(s)@ + decimal(n as nat));
    }
}

/// Appends `n` in decimal, with a leading `-` when negative, to `s`.
pub fn push_signed_decimal(s: &mut String, n: i32)
    ensures
        final(s)@ == old(s)@ + signed_decimal(n as int),
{
    if n < 0 {
        s.append("-");
        proof { reveal_strlit("-"); }
        let m: u64 = (-(n as i64)) as u64;
        push_decimal(s, m);
        assert(old(s)@ + seq!['-'] + decimal(m as nat) =~= old(s)@ + signed_decimal(n as int));
    } else {
        push_decimal(s, n as u64);
    }
}

/// `n` in decimal.
pub fn decimal_string(n: u64) -> (r: String)
    ensures
        r@ == decimal(n as nat),
{
    let mut s = String::new();
    push_decimal(&mut s, n);
    assert(Seq::<char>::empty() + decimal(n as nat) =~= decimal(n as nat));
    s
}

/// The character sequences of a list of strings.
pub open spec fn strings(v: Seq<String>) -> Seq<Seq<char>> {
    v.map_values(|s: String| s@)
}

/// A copy of a list of strings.
pub fn copy_strings(v: &Vec<String>) -> (r: Vec<String>)
    ensures
        strings(r@) == strings(v@),
{
    let mut r: Vec<String> = Vec::new();
    let mut i: usize = 0;
    while i < v.len()
        invariant
            i <= v@.len(),
            strings(r@) =~= strings(v@.take(i as int)),
        decreases v@.len() - i,
    {
        r.push(v[i].clone());
        assert(strings(v@.take(i as int + 1)) =~= strings(v@.take(i as int)).push(v@[i as int]@));
        i += 1;
    }
    assert(v@.take(v@.len() as int) =~= v@);
    r
}

} // verus!
