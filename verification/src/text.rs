//! Character sequences: decimal numerals, and where one text occurs in
//! another.

use vstd::prelude::*;
use vstd::string::*;

verus! {

/// The ten decimal digits, in order.
pub open spec fn digits() -> Seq<char> {
    seq!['0', '1', '2', '3', '4', '5', '6', '7', '8', '9']
}

/// The decimal numeral of `n`: no sign, no leading zero, `"0"` for zero.
pub open spec fn decimal(n: nat) -> Seq<char>
    decreases n,
{
    if n < 10 {
        seq![digits()[n as int]]
    } else {
        decimal(n / 10).push(digits()[(n % 10) as int])
    }
}

/// The one-character string of a single digit.
fn digit_str(d: u16) -> (s: &'static str)
    requires
        d < 10,
    ensures
        s@ == seq![digits()[d as int]],
{
    proof {
        reveal_strlit("0");
        reveal_strlit("1");
        reveal_strlit("2");
        reveal_strlit("3");
        reveal_strlit("4");
        reveal_strlit("5");
        reveal_strlit("6");
        reveal_strlit("7");
        reveal_strlit("8");
        reveal_strlit("9");
    }
    let s = match d {
        0 => "0",
        1 => "1",
        2 => "2",
        3 => "3",
        4 => "4",
        5 => "5",
        6 => "6",
        7 => "7",
        8 => "8",
        _ => "9",
    };
    assert(s@ =~= seq![digits()[d as int]]);
    s
}

/// Renders `n` in decimal.
pub fn u16_to_decimal(n: u16) -> (s: String)
    ensures
        s@ == decimal(n as nat),
    decreases n,
{
    if n < 10 {
        String::from_str(digit_str(n))
    } else {
        let mut s = u16_to_decimal(n / 10);
        s.append(digit_str(n % 10));
        assert(s@ =~= decimal(n as nat));
        s
    }
}

/// Every character of a decimal numeral is a digit, and there is at least
/// one.
pub proof fn lemma_decimal_is_digits(n: nat)
    ensures
        decimal(n).len() > 0,
        forall|i: int| 0 <= i < decimal(n).len() ==> digits().contains(#[trigger] decimal(n)[i]),
    decreases n,
{
    if n < 10 {
        assert(digits()[n as int] == decimal(n)[0]);
    } else {
        lemma_decimal_is_digits(n / 10);
        assert(digits()[(n % 10) as int] == decimal(n)[decimal(n).len() - 1]);
        assert forall|i: int| 0 <= i < decimal(n).len() implies digits().contains(
            #[trigger] decimal(n)[i],
        ) by {
            if i < decimal(n).len() - 1 {
                assert(decimal(n)[i] == decimal(n / 10)[i]);
            }
        }
    }
}

/// Whether `word` stands in `text` at the index `at`.
pub open spec fn occurs_at(text: Seq<char>, word: Seq<char>, at: int) -> bool {
    0 <= at && at + word.len() <= text.len() && text.subrange(at, at + word.len()) == word
}

/// Whether `word` stands somewhere in `text`, as one piece.
pub open spec fn includes(text: Seq<char>, word: Seq<char>) -> bool {
    exists|at: int| occurs_at(text, word, at)
}

/// Whether `first` stands in `text` and, wholly behind it, `second`.
pub open spec fn stands_before(text: Seq<char>, first: Seq<char>, second: Seq<char>) -> bool {
    exists|i: int, j: int|
        #![trigger occurs_at(text, first, i), occurs_at(text, second, j)]
        occurs_at(text, first, i) && occurs_at(text, second, j) && i + first.len() <= j
}

/// What a part includes, the whole includes.
pub proof fn lemma_whole_includes(left: Seq<char>, right: Seq<char>, word: Seq<char>)
    ensures
        includes(left, word) ==> includes(left + right, word),
        includes(right, word) ==> includes(left + right, word),
{
    if includes(left, word) {
        let at = choose|at: int| occurs_at(left, word, at);
        assert((left + right).subrange(at, at + word.len()) =~= left.subrange(
            at,
            at + word.len(),
        ));
        assert(occurs_at(left + right, word, at));
    }
    if includes(right, word) {
        let at = choose|at: int| occurs_at(right, word, at);
        assert((left + right).subrange(left.len() + at, left.len() + at + word.len())
            =~= right.subrange(at, at + word.len()));
        assert(occurs_at(left + right, word, left.len() + at));
    }
}

/// Where `word` stands in a part, it stands in the whole, moved by the
/// length of what comes before the part.
pub proof fn lemma_occurrence_in_whole(
    left: Seq<char>,
    right: Seq<char>,
    word: Seq<char>,
    at: int,
)
    ensures
        occurs_at(left, word, at) ==> occurs_at(left + right, word, at),
        occurs_at(right, word, at) ==> occurs_at(left + right, word, left.len() + at),
{
    if occurs_at(left, word, at) {
        assert((left + right).subrange(at, at + word.len()) =~= left.subrange(
            at,
            at + word.len(),
        ));
    }
    if occurs_at(right, word, at) {
        assert((left + right).subrange(left.len() + at, left.len() + at + word.len())
            =~= right.subrange(at, at + word.len()));
    }
}

/// A word does not reach across a character that it does not hold. Where the
/// left part ends with such a character, or the right part starts with one,
/// the whole includes the word only if one of the parts does.
pub proof fn lemma_word_stays_in_one_part(left: Seq<char>, right: Seq<char>, word: Seq<char>)
    requires
        (left.len() > 0 && !word.contains(left.last())) || (right.len() > 0 && !word.contains(
            right[0],
        )),
    ensures
        includes(left + right, word) <==> includes(left, word) || includes(right, word),
{
    lemma_whole_includes(left, right, word);
    if includes(left + right, word) {
        let whole = left + right;
        let at = choose|at: int| occurs_at(whole, word, at);
        let found = whole.subrange(at, at + word.len());
        if at + word.len() <= left.len() {
            assert(left.subrange(at, at + word.len()) =~= found);
            assert(occurs_at(left, word, at));
        } else if at >= left.len() {
            assert(right.subrange(at - left.len(), at - left.len() + word.len()) =~= found);
            assert(occurs_at(right, word, at - left.len()));
        } else {
            if left.len() > 0 && !word.contains(left.last()) {
                let k = left.len() - 1 - at;
                assert(found[k] == whole[at + k]);
                assert(word[k] == left.last());
            } else {
                let k = left.len() - at;
                assert(found[k] == whole[at + k]);
                assert(word[k] == right[0]);
            }
            assert(false);
        }
    }
}

/// A text that lacks a character of `word` does not include `word`.
pub proof fn lemma_missing_character(text: Seq<char>, word: Seq<char>, c: char)
    requires
        word.contains(c),
        !text.contains(c),
    ensures
        !includes(text, word),
{
    if includes(text, word) {
        let at = choose|at: int| occurs_at(text, word, at);
        let k = choose|k: int| 0 <= k < word.len() && word[k] == c;
        assert(text.subrange(at, at + word.len())[k] == text[at + k]);
        assert(text[at + k] == c);
    }
}

/// Putting texts one behind the other does not depend on the grouping.
pub proof fn lemma_concat_is_associative(a: Seq<char>, b: Seq<char>, c: Seq<char>)
    ensures
        (a + b) + c == a + (b + c),
{
    assert((a + b) + c =~= a + (b + c));
}

/// The parts put one behind the other.
pub open spec fn join(parts: Seq<Seq<char>>) -> Seq<char>
    decreases parts.len(),
{
    if parts.len() == 0 {
        Seq::empty()
    } else {
        join(parts.drop_last()) + parts.last()
    }
}

/// Where the part at `k` starts in the joined text: behind all parts before
/// it.
pub open spec fn place(parts: Seq<Seq<char>>, k: int) -> int {
    join(parts.subrange(0, k)).len() as int
}

/// Joining one more part appends it.
pub proof fn lemma_join_push(parts: Seq<Seq<char>>, part: Seq<char>)
    ensures
        join(parts.push(part)) == join(parts) + part,
{
    assert(parts.push(part).drop_last() =~= parts);
}

/// Each part stands in the joined text at its place, and ends inside it.
pub proof fn lemma_part_stands_at_its_place(parts: Seq<Seq<char>>, k: int)
    requires
        0 <= k < parts.len(),
    ensures
        occurs_at(join(parts), parts[k], place(parts, k)),
    decreases parts.len(),
{
    let before = parts.drop_last();
    if k == parts.len() - 1 {
        assert(parts.subrange(0, k) =~= before);
        assert(join(parts).subrange(place(parts, k), place(parts, k) + parts[k].len())
            =~= parts[k]);
    } else {
        lemma_part_stands_at_its_place(before, k);
        assert(before.subrange(0, k) =~= parts.subrange(0, k));
        lemma_occurrence_in_whole(join(before), parts.last(), parts[k], place(before, k));
    }
}

/// The parts stand in the joined text in their order: an earlier part has
/// ended where a later one starts.
pub proof fn lemma_parts_stand_in_order(parts: Seq<Seq<char>>, j: int, k: int)
    requires
        0 <= j < k < parts.len(),
    ensures
        occurs_at(join(parts), parts[j], place(parts, j)),
        occurs_at(join(parts), parts[k], place(parts, k)),
        place(parts, j) + parts[j].len() <= place(parts, k),
        stands_before(join(parts), parts[j], parts[k]),
{
    lemma_part_stands_at_its_place(parts, j);
    lemma_part_stands_at_its_place(parts, k);
    let before = parts.subrange(0, k);
    lemma_part_stands_at_its_place(before, j);
    assert(before.subrange(0, j) =~= parts.subrange(0, j));
}

} // verus!
