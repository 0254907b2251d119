//! Plain-text building blocks for the rendered configuration document:
//! comma-joined lists, decimal numerals and boolean words.

use vstd::prelude::*;

verus! {

/// The comma-joined form of a list of strings: the elements in their given
/// order, a single `,` between neighbours, nothing around them.
pub open spec fn join_commas(parts: Seq<Seq<char>>) -> Seq<char>
    decreases parts.len(),
{
    if parts.len() == 0 {
        Seq::empty()
    } else if parts.len() == 1 {
        parts[0]
    } else {
        join_commas(parts.drop_last()) + seq![','] + parts.last()
    }
}

/// Joins the strings with single commas, preserving their order.
pub fn join_with_commas(parts: &Vec<String>) -> (r: String)
    ensures
        r@ == join_commas(parts.deep_view()),
{
    let mut r = String::new();
    let mut i: usize = 0;
    while i < parts.len()
        invariant
            i <= parts.len(),
            r@ == join_commas(parts.deep_view().take(i as int)),
        decreases parts.len() - i,
    {
        if i > 0 {
            r.append(",");
        }
        r.append(parts[i].as_str());
        proof {
            reveal_strlit(",");
            let view = parts.deep_view();
            assert(view.take(i + 1).drop_last() =~= view.take(i as int));
            assert(view.take(i + 1).last() == view[i as int]);
            assert(","@ =~= seq![',']);
            assert(r@ =~= join_commas(view.take(i + 1)));
        }
        i = i + 1;
    }
    proof {
        assert(parts.deep_view().take(parts@.len() as int) =~= parts.deep_view());
    }
    r
}

/// The parts of a string between its commas, scanned left to right: the
/// empty string has one (empty) part, each `,` starts a new empty part, and
/// any other character extends the latest part.
pub open spec fn split_commas(s: Seq<char>) -> Seq<Seq<char>>
    decreases s.len(),
{
    if s.len() == 0 {
        seq![Seq::empty()]
    } else if s.last() == ',' {
        split_commas(s.drop_last()).push(Seq::empty())
    } else {
        let parts = split_commas(s.drop_last());
        parts.update(parts.len() - 1, parts.last().push(s.last()))
    }
}

/// Splitting always yields at least one part.
pub proof fn lemma_split_commas_nonempty(s: Seq<char>)
    ensures
        split_commas(s).len() >= 1,
    decreases s.len(),
{
    if s.len() > 0 {
        lemma_split_commas_nonempty(s.drop_last());
    }
}

/// A string without commas splits into exactly itself.
pub proof fn lemma_split_commas_whole(s: Seq<char>)
    requires
        !s.contains(','),
    ensures
        split_commas(s) == seq![s],
    decreases s.len(),
{
    if s.len() == 0 {
        assert(split_commas(s) =~~= seq![s]);
    } else {
        assert(s[s.len() - 1] == s.last());
        assert(s.last() != ',');
        assert forall|i: int| 0 <= i < s.drop_last().len() implies s.drop_last()[i] != ',' by {
            assert(s.drop_last()[i] == s[i]);
        }
        lemma_split_commas_whole(s.drop_last());
        assert(split_commas(s) =~~= seq![s]);
    }
}

/// Appending a comma and then a comma-free string adds exactly one part.
pub proof fn lemma_split_commas_append(s: Seq<char>, t: Seq<char>)
    requires
        !t.contains(','),
    ensures
        split_commas(s + seq![','] + t) == split_commas(s).push(t),
    decreases t.len(),
{
    if t.len() == 0 {
        let u = s + seq![','] + t;
        assert(u.last() == ',');
        assert(u.drop_last() =~= s);
        assert(split_commas(u) =~~= split_commas(s).push(t));
    } else {
        assert(t[t.len() - 1] == t.last());
        assert(t.last() != ',');
        assert forall|i: int| 0 <= i < t.drop_last().len() implies t.drop_last()[i] != ',' by {
            assert(t.drop_last()[i] == t[i]);
        }
        lemma_split_commas_append(s, t.drop_last());
        lemma_split_commas_nonempty(s);
        let u = s + seq![','] + t;
        assert(u.last() == t.last());
        assert(u.drop_last() =~= s + seq![','] + t.drop_last());
        let parts = split_commas(u.drop_last());
        assert(parts == split_commas(s).push(t.drop_last()));
        assert(parts.last() == t.drop_last());
        assert(parts.last().push(u.last()) =~= t);
        assert(split_commas(u) =~~= split_commas(s).push(t));
    }
}

/// The join-order law: joining a non-empty list of comma-free strings with
/// commas and splitting the result on commas recovers exactly the original
/// list, in its original order.
pub proof fn lemma_join_then_split(parts: Seq<Seq<char>>)
    requires
        parts.len() >= 1,
        forall|i: int| 0 <= i < parts.len() ==> !(#[trigger] parts[i]).contains(','),
    ensures
        split_commas(join_commas(parts)) == parts,
    decreases parts.len(),
{
    if parts.len() == 1 {
        lemma_split_commas_whole(parts[0]);
        assert(split_commas(join_commas(parts)) =~~= parts);
    } else {
        let head = parts.drop_last();
        assert forall|i: int| 0 <= i < head.len() implies !(#[trigger] head[i]).contains(',') by {
            assert(head[i] == parts[i]);
        }
        lemma_join_then_split(head);
        assert(!parts[parts.len() - 1].contains(','));
        lemma_split_commas_append(join_commas(head), parts.last());
        assert(split_commas(join_commas(parts)) =~~= parts);
    }
}

/// The character for a single decimal digit value.
pub open spec fn dec_digit(d: int) -> char {
    if d == 0 {
        '0'
    } else if d == 1 {
        '1'
    } else if d == 2 {
        '2'
    } else if d == 3 {
        '3'
    } else if d == 4 {
        '4'
    } else if d == 5 {
        '5'
    } else if d == 6 {
        '6'
    } else if d == 7 {
        '7'
    } else if d == 8 {
        '8'
    } else {
        '9'
    }
}

/// The usual decimal numeral for a non-negative integer: most significant
/// digit first, no leading zeros except for the single digit `0` itself.
pub open spec fn dec_rep(n: int) -> Seq<char>
    decreases n,
{
    if n < 10 {
        seq![dec_digit(n)]
    } else {
        dec_rep(n / 10) + seq![dec_digit(n % 10)]
    }
}

/// The one-character string for a single decimal digit value.
pub fn dec_digit_str(d: u16) -> (r: &'static str)
    requires
        d < 10,
    ensures
        r@ == seq![dec_digit(d as int)],
{
    if d == 0 {
        assert("0"@ =~= seq![dec_digit(0)]) by { reveal_strlit("0"); }
        "0"
    } else if d == 1 {
        assert("1"@ =~= seq![dec_digit(1)]) by { reveal_strlit("1"); }
        "1"
    } else if d == 2 {
        assert("2"@ =~= seq![dec_digit(2)]) by { reveal_strlit("2"); }
        "2"
    } else if d == 3 {
        assert("3"@ =~= seq![dec_digit(3)]) by { reveal_strlit("3"); }
        "3"
    } else if d == 4 {
        assert("4"@ =~= seq![dec_digit(4)]) by { reveal_strlit("4"); }
        "4"
    } else if d == 5 {
        assert("5"@ =~= seq![dec_digit(5)]) by { reveal_strlit("5"); }
        "5"
    } else if d == 6 {
        assert("6"@ =~= seq![dec_digit(6)]) by { reveal_strlit("6"); }
        "6"
    } else if d == 7 {
        assert("7"@ =~= seq![dec_digit(7)]) by { reveal_strlit("7"); }
        "7"
    } else if d == 8 {
        assert("8"@ =~= seq![dec_digit(8)]) by { reveal_strlit("8"); }
        "8"
    } else {
        assert("9"@ =~= seq![dec_digit(9)]) by { reveal_strlit("9"); }
        "9"
    }
}

/// The exact decimal text of a 16-bit value, with no truncation and no
/// exponent notation.
pub fn u16_dec_string(n: u16) -> (r: String)
    ensures
        r@ == dec_rep(n as int),
    decreases n,
{
    if n < 10 {
        dec_digit_str(n).to_owned()
    } else {
        let mut r = u16_dec_string(n / 10);
        r.append(dec_digit_str(n % 10));
        r
    }
}

/// The textual form of a boolean: `true` or `false`.
pub open spec fn spec_bool_str(b: bool) -> Seq<char> {
    if b {
        "true"@
    } else {
        "false"@
    }
}

/// Writes a boolean as the word `true` or `false`.
pub fn bool_str(b: bool) -> (r: &'static str)
    ensures
        r@ == spec_bool_str(b),
{
    if b {
        "true"
    } else {
        "false"
    }
}

} // verus!
