//! Operations on strings, each stated over the string's view as a sequence of
//! characters.

use vstd::prelude::*;
use vstd::string::*;

verus! {

/// `String::push` of the standard library appends one character and leaves the
/// rest of the string as it was.
pub assume_specification[ String::push ](s: &mut String, c: char)
    ensures
        final(s)@ == old(s)@.push(c),
;

/// The characters of `text`, in order.
pub fn chars_of(text: &str) -> (chars: Vec<char>)
    ensures
        chars@ == text@,
{
    let mut chars: Vec<char> = Vec::new();
    for c in it: text.chars()
        invariant
            chars@ == it.seq().take(it.index() as int),
    {
        chars.push(c);
    }
    chars
}

/// The string made of `chars[from..to]`.
fn string_of(chars: &Vec<char>, from: usize, to: usize) -> (text: String)
    requires
        from <= to <= chars.len(),
    ensures
        text@ == chars@.subrange(from as int, to as int),
{
    let mut text = String::new();
    let mut i: usize = from;
    while i < to
        invariant
            from <= i <= to <= chars.len(),
            text@ == chars@.subrange(from as int, i as int),
        decreases to - i,
    {
        text.push(chars[i]);
        i += 1;
    }
    text
}

/// Whether two strings hold the same characters.
pub fn str_eq(a: &str, b: &str) -> (same: bool)
    ensures
        same == (a@ == b@),
{
    a.to_owned() == b.to_owned()
}

/// Whether `text` begins with `prefix`.
pub fn starts_with(text: &str, prefix: &str) -> (found: bool)
    ensures
        found == prefix@.is_prefix_of(text@),
{
    let text_chars = chars_of(text);
    let prefix_chars = chars_of(prefix);
    if prefix_chars.len() > text_chars.len() {
        return false;
    }
    let mut i: usize = 0;
    while i < prefix_chars.len()
        invariant
            i <= prefix_chars.len() <= text_chars.len(),
            prefix_chars@ == prefix@,
            text_chars@ == text@,
            forall|j: int| 0 <= j < i ==> prefix@[j] == text@[j],
        decreases prefix_chars.len() - i,
    {
        if prefix_chars[i] != text_chars[i] {
            assert(prefix@[i as int] != text@.subrange(0, prefix@.len() as int)[i as int]);
            return false;
        }
        i += 1;
    }
    assert(prefix@ =~= text@.subrange(0, prefix@.len() as int));
    true
}

/// `text` with every occurrence of `unwanted` taken out; the other characters
/// keep their order.
pub open spec fn without_char(text: Seq<char>, unwanted: char) -> Seq<char>
    decreases text.len(),
{
    if text.len() == 0 {
        text
    } else if text.last() == unwanted {
        without_char(text.drop_last(), unwanted)
    } else {
        without_char(text.drop_last(), unwanted).push(text.last())
    }
}

/// Removes every occurrence of `unwanted` from `text`.
pub fn remove_char(text: &str, unwanted: char) -> (cleaned: String)
    ensures
        cleaned@ == without_char(text@, unwanted),
{
    let chars = chars_of(text);
    let mut cleaned = String::new();
    let mut i: usize = 0;
    while i < chars.len()
        invariant
            i <= chars.len(),
            cleaned@ == without_char(chars@.take(i as int), unwanted),
        decreases chars.len() - i,
    {
        assert(chars@.take(i + 1).drop_last() =~= chars@.take(i as int));
        if chars[i] != unwanted {
            cleaned.push(chars[i]);
        }
        i += 1;
    }
    assert(chars@.take(i as int) =~= chars@);
    cleaned
}

/// What [`without_char`] returns holds exactly the characters of the text other
/// than `unwanted`.
pub proof fn lemma_without_char_contains(text: Seq<char>, unwanted: char, c: char)
    ensures
        without_char(text, unwanted).contains(c) <==> (c != unwanted && text.contains(c)),
    decreases text.len(),
{
    let cleaned = without_char(text, unwanted);
    if text.len() > 0 {
        let front = text.drop_last();
        let front_cleaned = without_char(front, unwanted);
        lemma_without_char_contains(front, unwanted, c);
        if cleaned.contains(c) {
            let i = choose|i: int| 0 <= i < cleaned.len() && cleaned[i] == c;
            if i < front_cleaned.len() {
                assert(front_cleaned[i] == c);
                let j = choose|j: int| 0 <= j < front.len() && front[j] == c;
                assert(text[j] == c);
            } else {
                assert(text[text.len() - 1] == c);
            }
        }
        if c != unwanted && text.contains(c) {
            let j = choose|j: int| 0 <= j < text.len() && text[j] == c;
            if j < front.len() {
                assert(front[j] == c);
                let i = choose|i: int| 0 <= i < front_cleaned.len() && front_cleaned[i] == c;
                assert(cleaned[i] == c);
            } else {
                assert(cleaned[cleaned.len() - 1] == c);
            }
        }
    }
}

/// A text that holds no `unwanted` is left as it is.
pub proof fn lemma_without_char_identity(text: Seq<char>, unwanted: char)
    requires
        !text.contains(unwanted),
    ensures
        without_char(text, unwanted) == text,
    decreases text.len(),
{
    if text.len() > 0 {
        let front = text.drop_last();
        assert(text[text.len() - 1] != unwanted);
        assert forall|i: int| 0 <= i < front.len() implies front[i] != unwanted by {
            assert(text[i] == front[i]);
        }
        lemma_without_char_identity(front, unwanted);
        assert(text =~= front.push(text.last()));
    }
}

/// `text` without one leading `mark`, if it begins with one, and then without one
/// trailing `mark`, if what is left ends with one.
pub open spec fn trimmed_once(text: Seq<char>, mark: char) -> Seq<char> {
    let rest = if text.len() > 0 && text.first() == mark {
        text.drop_first()
    } else {
        text
    };
    if rest.len() > 0 && rest.last() == mark {
        rest.drop_last()
    } else {
        rest
    }
}

/// Takes one `mark` off the front of `text` and one off its end, where they are
/// there.
pub fn trim_once(text: &str, mark: char) -> (trimmed: String)
    ensures
        trimmed@ == trimmed_once(text@, mark),
{
    let chars = chars_of(text);
    let mut from: usize = 0;
    let mut to: usize = chars.len();
    if from < to && chars[from] == mark {
        from = 1;
    }
    if from < to && chars[to - 1] == mark {
        to = to - 1;
    }
    let trimmed = string_of(&chars, from, to);
    proof {
        let rest = chars@.subrange(from as int, chars@.len() as int);
        assert(rest =~= if text@.len() > 0 && text@.first() == mark {
            text@.drop_first()
        } else {
            text@
        });
        assert(trimmed@ =~= if rest.len() > 0 && rest.last() == mark {
            rest.drop_last()
        } else {
            rest
        });
    }
    trimmed
}

/// The lower-case form of an ASCII capital letter; any other character itself.
pub open spec fn ascii_lower(c: char) -> char {
    if 'A' <= c && c <= 'Z' {
        ((c as u8) + 32) as char
    } else {
        c
    }
}

/// `text` with each ASCII capital letter in lower case.
pub open spec fn ascii_lowered(text: Seq<char>) -> Seq<char> {
    text.map_values(|c: char| ascii_lower(c))
}

/// The lower-case form of `c` where it is an ASCII capital letter, else `c`.
pub fn to_ascii_lower(c: char) -> (lower: char)
    ensures
        lower == ascii_lower(c),
{
    if 'A' <= c && c <= 'Z' {
        ((c as u8) + 32u8) as char
    } else {
        c
    }
}

/// Whether two strings are equal once the case of ASCII letters is set aside.
pub fn eq_ignore_ascii_case(a: &str, b: &str) -> (same: bool)
    ensures
        same == (ascii_lowered(a@) == ascii_lowered(b@)),
{
    let a_chars = chars_of(a);
    let b_chars = chars_of(b);
    if a_chars.len() != b_chars.len() {
        assert(ascii_lowered(a@).len() != ascii_lowered(b@).len());
        return false;
    }
    let mut i: usize = 0;
    while i < a_chars.len()
        invariant
            i <= a_chars.len() == b_chars.len(),
            a_chars@ == a@,
            b_chars@ == b@,
            forall|j: int| 0 <= j < i ==> ascii_lower(a@[j]) == ascii_lower(b@[j]),
        decreases a_chars.len() - i,
    {
        if to_ascii_lower(a_chars[i]) != to_ascii_lower(b_chars[i]) {
            assert(ascii_lowered(a@)[i as int] != ascii_lowered(b@)[i as int]);
            return false;
        }
        i += 1;
    }
    assert(ascii_lowered(a@) =~= ascii_lowered(b@));
    true
}

/// The character that writes the digit `d`.
pub open spec fn digit_char(d: nat) -> char {
    ((48 + d) as u8) as char
}

/// `n` in decimal notation, without leading zeros.
pub open spec fn decimal(n: nat) -> Seq<char>
    decreases n,
{
    if n < 10 {
        seq![digit_char(n)]
    } else {
        decimal(n / 10).push(digit_char(n % 10))
    }
}

fn push_decimal(text: &mut String, n: u16)
    ensures
        final(text)@ == old(text)@ + decimal(n as nat),
    decreases n,
{
    if n >= 10 {
        push_decimal(text, n / 10);
    }
    let d: u8 = (n % 10) as u8;
    text.push((48u8 + d) as char);
    assert(text@ =~= old(text)@ + decimal(n as nat));
}

/// Writes `n` in decimal notation.
pub fn to_decimal(n: u16) -> (text: String)
    ensures
        text@ == decimal(n as nat),
{
    let mut text = String::new();
    push_decimal(&mut text, n);
    assert(Seq::<char>::empty() + decimal(n as nat) =~= decimal(n as nat));
    text
}

} // verus!
