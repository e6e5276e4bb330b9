use vstd::prelude::*;

verus! {

/// The number of leading items of `s` that equal `c`.
pub open spec fn leading(s: Seq<char>, c: char) -> nat
    decreases s.len(),
{
    if s.len() > 0 && s[0] == c {
        1 + leading(s.drop_first(), c)
    } else {
        0
    }
}

/// The number of trailing items of `s` that equal `c`.
pub open spec fn trailing(s: Seq<char>, c: char) -> nat
    decreases s.len(),
{
    if s.len() > 0 && s.last() == c {
        1 + trailing(s.drop_last(), c)
    } else {
        0
    }
}

/// `s` without its leading and its trailing run of `c`.
pub open spec fn trimmed(s: Seq<char>, c: char) -> Seq<char> {
    if leading(s, c) >= s.len() {
        Seq::empty()
    } else {
        s.subrange(leading(s, c) as int, s.len() - trailing(s, c))
    }
}

/// Appending one item extends the leading run only while the run is all there is.
pub proof fn lemma_leading_push(s: Seq<char>, x: char, c: char)
    ensures
        leading(s, c) <= s.len(),
        leading(s.push(x), c) == if leading(s, c) == s.len() && x == c {
            s.len() + 1
        } else {
            leading(s, c)
        },
    decreases s.len(),
{
    if s.len() == 0 {
        assert(s.push(x).drop_first() =~= s);
    } else {
        lemma_leading_push(s.drop_first(), x, c);
        assert(s.push(x).drop_first() =~= s.drop_first().push(x));
    }
}

/// The trailing run of a sequence never reaches into its leading run, unless
/// the whole sequence is one run.
pub proof fn lemma_runs_apart(s: Seq<char>, c: char)
    ensures
        leading(s, c) <= s.len(),
        trailing(s, c) <= s.len(),
        leading(s, c) < s.len() ==> leading(s, c) + trailing(s, c) < s.len(),
        leading(s, c) == s.len() ==> trailing(s, c) == s.len(),
    decreases s.len(),
{
    if s.len() > 0 {
        let t = s.drop_last();
        lemma_runs_apart(t, c);
        lemma_leading_push(t, s.last(), c);
        assert(t.push(s.last()) =~= s);
    }
}

/// `s` without the slashes, or whatever `c` is, at its two ends.
pub fn trim_matches(s: &str, c: char) -> (r: &str)
    ensures
        r@ == trimmed(s@, c),
{
    let len = s.unicode_len();
    let mut lead: usize = 0;
    let mut trail: usize = 0;
    let mut seen: usize = 0;
    for x in it: s.chars()
        invariant
            it.seq() == s@,
            len == s@.len(),
            seen == it.index(),
            lead == leading(s@.take(it.index() as int), c),
            trail == trailing(s@.take(it.index() as int), c),
            lead <= it.index(),
            trail <= it.index(),
    {
        proof {
            let i = it.index() as int;
            assert(s@.take(i + 1) =~= s@.take(i).push(x));
            assert(s@.take(i + 1).drop_last() =~= s@.take(i));
            lemma_leading_push(s@.take(i), x, c);
        }
        if x == c {
            if lead == seen {
                lead = lead + 1;
            }
            trail = trail + 1;
        } else {
            trail = 0;
        }
        seen = seen + 1;
    }
    proof {
        assert(s@.take(s@.len() as int) =~= s@);
        lemma_runs_apart(s@, c);
        reveal_strlit("");
    }
    if lead >= len {
        assert(""@ =~= Seq::<char>::empty());
        ""
    } else {
        s.substring_char(lead, len - trail)
    }
}

/// The character that writes the digit `d`.
pub open spec fn digit(d: nat) -> char {
    if d == 0 {
        '0'
    } else if d == 1 {
        '1'
    } else if d == 2 {
        '2'
    } else if d == 3 {
        '3'
    } else if d == 4 {
        '4'
    } else if d == 5 {
        '5'
    } else if d == 6 {
        '6'
    } else if d == 7 {
        '7'
    } else if d == 8 {
        '8'
    } else {
        '9'
    }
}

/// `n` written in base ten, without leading zeros.
pub open spec fn decimal(n: nat) -> Seq<char>
    decreases n,
{
    if n < 10 {
        seq![digit(n)]
    } else {
        decimal(n / 10).push(digit(n % 10))
    }
}

fn digit_str(d: u16) -> (r: &'static str)
    requires
        d < 10,
    ensures
        r@ == seq![digit(d as nat)],
{
    proof {
        reveal_strlit("0");
        reveal_strlit("1");
        reveal_strlit("2");
        reveal_strlit("3");
        reveal_strlit("4");
        reveal_strlit("5");
        reveal_strlit("6");
        reveal_strlit("7");
        reveal_strlit("8");
        reveal_strlit("9");
    }
    let r = match d {
        0 => "0",
        1 => "1",
        2 => "2",
        3 => "3",
        4 => "4",
        5 => "5",
        6 => "6",
        7 => "7",
        8 => "8",
        _ => "9",
    };
    assert(r@ =~= seq![digit(d as nat)]);
    r
}

/// `n` in base ten.
pub fn decimal_string(n: u16) -> (r: String)
    ensures
        r@ == decimal(n as nat),
    decreases n,
{
    if n < 10 {
        String::from_str(digit_str(n))
    } else {
        let mut r = decimal_string(n / 10);
        r.append(digit_str(n % 10));
        r
    }
}

} // verus!
