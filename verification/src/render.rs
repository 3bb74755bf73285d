//! Textual rendering of VM words for the introspection handlers: decimal
//! renderings of words, the positional register names of `Variables`, and
//! the delimited memory dump of `ReadMemory`.
use crate::protocol::VariableInfo;
use vstd::prelude::*;
use vstd::string::StringExecFns;

verus! {

/// The character of one decimal digit.
pub open spec fn digit_char(d: int) -> char {
    if d == 0 {
        '0'
    } else if d == 1 {
        '1'
    } else if d == 2 {
        '2'
    } else if d == 3 {
        '3'
    } else if d == 4 {
        '4'
    } else if d == 5 {
        '5'
    } else if d == 6 {
        '6'
    } else if d == 7 {
        '7'
    } else if d == 8 {
        '8'
    } else {
        '9'
    }
}

/// The decimal rendering of a number: most significant digit first, no sign,
/// no padding, a single `0` for zero.
pub open spec fn decimal_digits(n: nat) -> Seq<char>
    decreases n,
{
    if n < 10 {
        seq![digit_char(n as int)]
    } else {
        decimal_digits(n / 10).push(digit_char((n % 10) as int))
    }
}

/// The one-character string of a single decimal digit.
fn digit_str(d: u128) -> (r: &'static str)
    requires
        d < 10,
    ensures
        r@ == seq![digit_char(d as int)],
{
    proof {
        reveal_strlit("0");
        reveal_strlit("1");
        reveal_strlit("2");
        reveal_strlit("3");
        reveal_strlit("4");
        reveal_strlit("5");
        reveal_strlit("6");
        reveal_strlit("7");
        reveal_strlit("8");
        reveal_strlit("9");
    }
    let r = if d == 0 {
        "0"
    } else if d == 1 {
        "1"
    } else if d == 2 {
        "2"
    } else if d == 3 {
        "3"
    } else if d == 4 {
        "4"
    } else if d == 5 {
        "5"
    } else if d == 6 {
        "6"
    } else if d == 7 {
        "7"
    } else if d == 8 {
        "8"
    } else {
        "9"
    };
    proof {
        assert(r@ =~= seq![digit_char(d as int)]);
    }
    r
}

/// Renders a VM word in decimal.
pub fn render_word(n: u128) -> (r: String)
    ensures
        r@ == decimal_digits(n as nat),
    decreases n,
{
    if n < 10 {
        String::from_str(digit_str(n))
    } else {
        proof {
            assert(n / 10 < n) by (nonlinear_arith)
                requires
                    n >= 10,
            ;
        }
        let mut s = render_word(n / 10);
        s.append(digit_str(n % 10));
        s
    }
}

/// The memory dump: the decimal renderings of all words, joined by a literal
/// `.` separator.
pub open spec fn words_dump(words: Seq<u128>) -> Seq<char>
    decreases words.len(),
{
    if words.len() == 0 {
        Seq::empty()
    } else if words.len() == 1 {
        decimal_digits(words[0] as nat)
    } else {
        decimal_digits(words[0] as nat) + seq!['.'] + words_dump(words.drop_first())
    }
}

/// Renders the words from index `i` on, joined by `.`.
fn words_dump_from(words: &Vec<u128>, i: usize) -> (r: String)
    requires
        i <= words@.len(),
    ensures
        r@ == words_dump(words@.skip(i as int)),
    decreases words@.len() - i,
{
    if i == words.len() {
        let r = String::new();
        proof {
            assert(words@.skip(i as int) =~= Seq::<u128>::empty());
        }
        r
    } else if i + 1 == words.len() {
        let r = render_word(words[i]);
        proof {
            assert(words@.skip(i as int).len() == 1);
            assert(words@.skip(i as int)[0] == words@[i as int]);
        }
        r
    } else {
        let mut s = render_word(words[i]);
        s.append(".");
        let rest = words_dump_from(words, i + 1);
        s.append(rest.as_str());
        proof {
            reveal_strlit(".");
            let tail = words@.skip(i as int);
            assert(tail.len() >= 2);
            assert(tail[0] == words@[i as int]);
            assert(tail.drop_first() =~= words@.skip(i as int + 1));
            assert("."@ =~= seq!['.']);
            assert(s@ =~= words_dump(words@.skip(i as int)));
        }
        s
    }
}

/// Renders the whole memory snapshot as one delimited string of decimal
/// word values.
pub fn render_memory(words: &Vec<u128>) -> (r: String)
    ensures
        r@ == words_dump(words@),
{
    let r = words_dump_from(words, 0);
    proof {
        assert(words@.skip(0) =~= words@);
    }
    r
}

/// The positional name given to the word at index `i`.
pub open spec fn register_name(i: nat) -> Seq<char> {
    "Register "@ + decimal_digits(i)
}

/// What the `Variables` handler owes: one entry per VM word, named
/// positionally, with the word's decimal rendering as its value.
pub open spec fn variables_ok(words: Seq<u128>, v: Seq<VariableInfo>) -> bool {
    &&& v.len() == words.len()
    &&& forall|i: int|
        0 <= i < words.len() ==> (#[trigger] v[i]).name@ == register_name(i as nat)
            && v[i].value@ == decimal_digits(words[i] as nat)
}

/// Maps a snapshot of VM words to named values, one per word, named
/// positionally.
pub fn render_variables(words: &Vec<u128>) -> (r: Vec<VariableInfo>)
    ensures
        variables_ok(words@, r@),
{
    let mut r: Vec<VariableInfo> = Vec::new();
    let mut i: usize = 0;
    while i < words.len()
        invariant
            i <= words@.len(),
            r@.len() == i,
            forall|j: int|
                0 <= j < i ==> (#[trigger] r@[j]).name@ == register_name(j as nat)
                    && r@[j].value@ == decimal_digits(words@[j] as nat),
        decreases words@.len() - i,
    {
        let mut name = String::from_str("Register ");
        let index = render_word(i as u128);
        name.append(index.as_str());
        let value = render_word(words[i]);
        proof {
            assert(name@ == register_name(i as nat));
        }
        r.push(VariableInfo { name, value });
        i += 1;
    }
    r
}

} // verus!
