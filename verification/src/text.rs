use vstd::prelude::*;

verus! {

/// The character for one decimal digit.
pub open spec fn digit_char(d: int) -> char {
    if d == 0 {
        '0'
    } else if d == 1 {
        '1'
    } else if d == 2 {
        '2'
    } else if d == 3 {
        '3'
    } else if d == 4 {
        '4'
    } else if d == 5 {
        '5'
    } else if d == 6 {
        '6'
    } else if d == 7 {
        '7'
    } else if d == 8 {
        '8'
    } else {
        '9'
    }
}

/// The decimal numeral of a number, most significant digit first.
pub open spec fn decimal(n: nat) -> Seq<char>
    decreases n,
{
    if n < 10 {
        seq![digit_char(n as int)]
    } else {
        decimal(n / 10).push(digit_char((n % 10) as int))
    }
}

/// The string for one decimal digit.
fn digit_str(d: usize) -> (r: &'static str)
    requires
        d < 10,
    ensures
        r@ == seq![digit_char(d as int)],
{
    let r: &'static str = if d == 0 {
        "0"
    } else if d == 1 {
        "1"
    } else if d == 2 {
        "2"
    } else if d == 3 {
        "3"
    } else if d == 4 {
        "4"
    } else if d == 5 {
        "5"
    } else if d == 6 {
        "6"
    } else if d == 7 {
        "7"
    } else if d == 8 {
        "8"
    } else {
        "9"
    };
    proof {
        reveal_strlit("0");
        reveal_strlit("1");
        reveal_strlit("2");
        reveal_strlit("3");
        reveal_strlit("4");
        reveal_strlit("5");
        reveal_strlit("6");
        reveal_strlit("7");
        reveal_strlit("8");
        reveal_strlit("9");
        assert(r@ =~= seq![digit_char(d as int)]);
    }
    r
}

/// Writes a number as its decimal numeral.
pub fn format_usize(n: usize) -> (r: String)
    ensures
        r@ == decimal(n as nat),
    decreases n,
{
    if n < 10 {
        digit_str(n).to_owned()
    } else {
        let front = format_usize(n / 10);
        let r = front.concat(digit_str(n % 10));
        proof {
            assert(r@ =~= decimal(n as nat));
        }
        r
    }
}

/// The sequence opens with the pattern.
pub open spec fn starts_with(s: Seq<char>, p: Seq<char>) -> bool {
    p.len() <= s.len() && s.subrange(0, p.len() as int) == p
}

/// Every occurrence of the pattern replaced by the replacement, scanning
/// left to right without overlap.
pub open spec fn spec_replace(s: Seq<char>, pat: Seq<char>, rep: Seq<char>) -> Seq<char>
    decreases s.len(),
        when pat.len() > 0
{
    if s.len() == 0 {
        s
    } else if starts_with(s, pat) {
        rep + spec_replace(s.skip(pat.len() as int), pat, rep)
    } else {
        seq![s[0]] + spec_replace(s.skip(1), pat, rep)
    }
}

/// Replaces every occurrence of a pattern in a text, scanning left to right
/// without overlap, as [`spec_replace`] describes.
pub fn replace_all(text: &str, pat: &str, rep: &str) -> (r: String)
    requires
        pat@.len() > 0,
    ensures
        r@ == spec_replace(text@, pat@, rep@),
{
    let text_len = text.unicode_len();
    let pat_len = pat.unicode_len();
    let mut out = String::new();
    let mut i: usize = 0;
    proof {
        assert(text@.skip(0) =~= text@);
        assert(out@ + spec_replace(text@, pat@, rep@) =~= spec_replace(text@, pat@, rep@));
    }
    while i < text_len
        invariant
            text_len as nat == text@.len(),
            pat_len as nat == pat@.len(),
            pat@.len() > 0,
            i <= text_len,
            spec_replace(text@, pat@, rep@) == out@ + spec_replace(
                text@.skip(i as int),
                pat@,
                rep@,
            ),
        decreases text_len - i,
    {
        let ghost rest = text@.skip(i as int);
        let mut is_match = pat_len <= text_len - i;
        if is_match {
            let mut k: usize = 0;
            while k < pat_len
                invariant
                    text_len as nat == text@.len(),
                    pat_len as nat == pat@.len(),
                    i + pat_len <= text_len,
                    k <= pat_len,
                    is_match <==> (forall|j: int| 0 <= j < k ==> text@[i + j] == pat@[j]),
                decreases pat_len - k,
            {
                if text.get_char(i + k) != pat.get_char(k) {
                    is_match = false;
                }
                k = k + 1;
            }
            proof {
                if is_match {
                    assert(rest.subrange(0, pat@.len() as int) =~= pat@);
                } else {
                    let j = choose|j: int| 0 <= j < pat@.len() && text@[i + j] != pat@[j];
                    assert(rest.subrange(0, pat@.len() as int)[j] == text@[i + j]);
                }
            }
        }
        if is_match {
            out.append(rep);
            proof {
                assert(rest.skip(pat@.len() as int) =~= text@.skip(i + pat@.len()));
            }
            i = i + pat_len;
        } else {
            let piece = text.substring_char(i, i + 1);
            out.append(piece);
            proof {
                assert(piece@ =~= seq![rest[0]]);
                assert(rest.skip(1) =~= text@.skip(i + 1 as int));
            }
            i = i + 1;
        }
    }
    proof {
        assert(text@.skip(i as int) =~= Seq::<char>::empty());
        assert(out@ + Seq::<char>::empty() =~= out@);
    }
    out
}

/// The placeholder that the substitution with the given index fills.
pub open spec fn placeholder(i: nat) -> Seq<char> {
    seq!['{'] + decimal(i) + seq!['}']
}

/// The text after the substitutions with the given index and above have
/// been spliced in, each replacing every occurrence of its placeholder, in
/// ascending order of index.
pub open spec fn splice_from(text: Seq<char>, subs: Seq<Seq<char>>, i: nat) -> Seq<char>
    decreases subs.len() - i,
        when i <= subs.len()
{
    if i >= subs.len() {
        text
    } else {
        splice_from(spec_replace(text, placeholder(i), subs[i as int]), subs, i + 1)
    }
}

/// The text with all substitutions spliced in.
pub open spec fn spliced(text: Seq<char>, subs: Seq<Seq<char>>) -> Seq<char> {
    splice_from(text, subs, 0)
}

/// The placeholder for the given index, as a string.
fn make_placeholder(i: usize) -> (r: String)
    ensures
        r@ == placeholder(i as nat),
{
    let digits = format_usize(i);
    let open_brace: &str = "{";
    let close_brace: &str = "}";
    let r = open_brace.to_owned().concat(digits.as_str()).concat(close_brace);
    proof {
        reveal_strlit("{");
        reveal_strlit("}");
        assert(r@ =~= placeholder(i as nat));
    }
    r
}

/// Splices the substitutions into the text: the substitution with index `i`
/// replaces every occurrence of the placeholder `{i}`, in ascending order
/// of `i`.
pub fn splice_substitutions(text: String, subs: &Vec<String>) -> (r: String)
    ensures
        r@ == spliced(text@, subs@.map_values(|s: String| s@)),
{
    let ghost sub_views = subs@.map_values(|s: String| s@);
    let ghost orig = text@;
    let mut cur = text;
    let mut i: usize = 0;
    while i < subs.len()
        invariant
            sub_views == subs@.map_values(|s: String| s@),
            i <= subs@.len(),
            splice_from(cur@, sub_views, i as nat) == spliced(orig, sub_views),
        decreases subs@.len() - i,
    {
        let pat = make_placeholder(i);
        cur = replace_all(cur.as_str(), pat.as_str(), subs[i].as_str());
        i = i + 1;
    }
    cur
}

} // verus!
