//! Texts as sequences of characters: searching, trimming, filling a slot.
//!
//! The contracts speak of `Seq<char>`, the view of `str` and `String`. The
//! functions read a text once into a vector of characters and work on that.

use vstd::prelude::*;

verus! {

/// The texts of `entries`, each as its sequence of characters.
pub open spec fn texts(entries: Seq<String>) -> Seq<Seq<char>> {
    Seq::new(entries.len(), |i: int| entries[i]@)
}

/// The characters of `s`, in order.
pub fn chars_of(s: &str) -> (chars: Vec<char>)
    ensures
        chars@ == s@,
{
    let mut chars: Vec<char> = Vec::new();
    for c in it: s.chars()
        invariant
            it.seq() == s@,
            chars@ == it.seq().take(it.index() as int),
    {
        chars.push(c);
    }
    chars
}

/// `c` with the letters `A` to `Z` brought to lower case, every other
/// character as it is.
pub open spec fn folded(c: char) -> char {
    if 'A' <= c && c <= 'Z' {
        ((c as u8 + 32) as u8) as char
    } else {
        c
    }
}

/// `s` with each character folded.
pub open spec fn fold(s: Seq<char>) -> Seq<char> {
    Seq::new(s.len(), |i: int| folded(s[i]))
}

/// Whether `needle` stands in `hay` at position `at`.
pub open spec fn matches_at(hay: Seq<char>, needle: Seq<char>, at: int) -> bool {
    &&& 0 <= at
    &&& at + needle.len() <= hay.len()
    &&& hay.subrange(at, at + needle.len()) == needle
}

/// Whether `needle` stands somewhere in `hay`. The empty text stands in every
/// text.
pub open spec fn occurs(hay: Seq<char>, needle: Seq<char>) -> bool {
    exists|at: int| matches_at(hay, needle, at)
}

/// Whether `needle` stands somewhere in `hay` when the case of the letters `A`
/// to `Z` is not told apart.
pub open spec fn mentions(hay: Seq<char>, needle: Seq<char>) -> bool {
    occurs(fold(hay), fold(needle))
}

/// Folds one character.
pub fn fold_char(c: char) -> (lower: char)
    ensures
        lower == folded(c),
{
    if 'A' <= c && c <= 'Z' {
        ((c as u8) + 32) as char
    } else {
        c
    }
}

/// Folds each character of `chars`.
fn fold_chars(chars: &Vec<char>) -> (lower: Vec<char>)
    ensures
        lower@ == fold(chars@),
{
    let mut lower: Vec<char> = Vec::new();
    let mut i: usize = 0;
    while i < chars.len()
        invariant
            i <= chars.len(),
            lower@ == fold(chars@).take(i as int),
        decreases chars.len() - i,
    {
        lower.push(fold_char(chars[i]));
        i += 1;
    }
    lower
}

/// Whether `needle` stands in `hay` at `at`.
fn stands_at(hay: &Vec<char>, needle: &Vec<char>, at: usize) -> (found: bool)
    requires
        at + needle.len() <= hay.len(),
    ensures
        found == matches_at(hay@, needle@, at as int),
{
    let mut i: usize = 0;
    while i < needle.len()
        invariant
            i <= needle.len(),
            at + needle.len() <= hay.len(),
            hay@.subrange(at as int, at + i) == needle@.take(i as int),
        decreases needle.len() - i,
    {
        if hay[at + i] != needle[i] {
            assert(hay@.subrange(at as int, at + needle.len())[i as int] != needle@[i as int]);
            return false;
        }
        i += 1;
    }
    assert(needle@.take(needle.len() as int) == needle@);
    true
}

/// The first position from `from` on at which `needle` stands in `hay`.
fn first_from(hay: &Vec<char>, needle: &Vec<char>, from: usize) -> (found: Option<usize>)
    ensures
        match found {
            Some(at) => from <= at && matches_at(hay@, needle@, at as int) && forall|i: int|
                from <= i < at ==> !matches_at(hay@, needle@, i),
            None => forall|i: int| from <= i ==> !matches_at(hay@, needle@, i),
        },
{
    if needle.len() > hay.len() {
        return None;
    }
    let last: usize = hay.len() - needle.len();
    if from > last {
        return None;
    }
    let mut at: usize = from;
    loop
        invariant
            from <= at <= last,
            last == hay.len() - needle.len(),
            forall|i: int| from <= i < at ==> !matches_at(hay@, needle@, i),
        decreases last - at,
    {
        if stands_at(hay, needle, at) {
            return Some(at);
        }
        if at == last {
            return None;
        }
        at += 1;
    }
}

/// Whether `needle` stands somewhere in `hay`, the case of the letters `A` to
/// `Z` not told apart. A text that holds the letters of `needle` in another
/// case mentions it; the empty needle is mentioned by every text.
pub fn contains_ignore_case(hay: &str, needle: &str) -> (found: bool)
    ensures
        found == mentions(hay@, needle@),
{
    let hay_chars = fold_chars(&chars_of(hay));
    let needle_chars = fold_chars(&chars_of(needle));
    first_from(&hay_chars, &needle_chars, 0).is_some()
}

/// Whether `needle` stands in `hay` at `at` and nowhere after it.
pub open spec fn is_last_match(hay: Seq<char>, needle: Seq<char>, at: int) -> bool {
    &&& matches_at(hay, needle, at)
    &&& forall|later: int| at < later ==> !matches_at(hay, needle, later)
}

/// What follows the last place at which `marker` stands in `hay`; all of `hay`
/// where it stands nowhere.
pub open spec fn after_last(hay: Seq<char>, marker: Seq<char>) -> Seq<char> {
    if occurs(hay, marker) {
        let at = choose|at: int| is_last_match(hay, marker, at);
        hay.subrange(at + marker.len(), hay.len() as int)
    } else {
        hay
    }
}

/// The last position at which `needle` stands in `hay`.
fn last_match(hay: &Vec<char>, needle: &Vec<char>) -> (found: Option<usize>)
    ensures
        match found {
            Some(at) => is_last_match(hay@, needle@, at as int),
            None => !occurs(hay@, needle@),
        },
{
    if needle.len() > hay.len() {
        return None;
    }
    let mut at: usize = hay.len() - needle.len();
    loop
        invariant
            at + needle.len() <= hay.len(),
            forall|later: int| at < later ==> !matches_at(hay@, needle@, later),
        decreases at,
    {
        if stands_at(hay, needle, at) {
            return Some(at);
        }
        if at == 0 {
            return None;
        }
        at -= 1;
    }
}

/// The text that follows the last `marker` in `text`, or all of `text` where
/// it holds no `marker`.
pub fn after_last_marker(text: &str, marker: &str) -> (rest: String)
    ensures
        rest@ == after_last(text@, marker@),
{
    let chars = chars_of(text);
    let needle = chars_of(marker);
    let end: usize = chars.len();
    match last_match(&chars, &needle) {
        Some(at) => {
            proof {
                let chosen = choose|c: int| is_last_match(text@, marker@, c);
                assert(is_last_match(text@, marker@, at as int));
                assert(chosen == at);
            }
            String::from_str(text.substring_char(at + needle.len(), end))
        },
        None => String::from_str(text),
    }
}

/// Whether `c` is white space: the characters that Unicode gives the property
/// `White_Space`.
pub open spec fn is_space(c: char) -> bool {
    let code = c as u32;
    ||| 0x09 <= code <= 0x0D
    ||| code == 0x20
    ||| code == 0x85
    ||| code == 0xA0
    ||| code == 0x1680
    ||| 0x2000 <= code <= 0x200A
    ||| code == 0x2028
    ||| code == 0x2029
    ||| code == 0x202F
    ||| code == 0x205F
    ||| code == 0x3000
}

/// `s` without the white space it begins with.
pub open spec fn trim_start(s: Seq<char>) -> Seq<char>
    decreases s.len(),
{
    if s.len() > 0 && is_space(s[0]) {
        trim_start(s.drop_first())
    } else {
        s
    }
}

/// `s` without the white space it ends with.
pub open spec fn trim_end(s: Seq<char>) -> Seq<char>
    decreases s.len(),
{
    if s.len() > 0 && is_space(s.last()) {
        trim_end(s.drop_last())
    } else {
        s
    }
}

/// `s` without the white space at either end.
pub open spec fn trimmed(s: Seq<char>) -> Seq<char> {
    trim_end(trim_start(s))
}

/// Whether `c` is white space.
pub fn is_white_space(c: char) -> (space: bool)
    ensures
        space == is_space(c),
{
    let code: u32 = c as u32;
    (0x09 <= code && code <= 0x0D) || code == 0x20 || code == 0x85 || code == 0xA0 || code
        == 0x1680 || (0x2000 <= code && code <= 0x200A) || code == 0x2028 || code == 0x2029 || code
        == 0x202F || code == 0x205F || code == 0x3000
}

/// `text` without the white space at either end.
pub fn trim(text: &str) -> (inner: String)
    ensures
        inner@ == trimmed(text@),
{
    let chars = chars_of(text);
    let mut start: usize = 0;
    assert(chars@.subrange(0, chars.len() as int) == chars@);
    while start < chars.len() && is_white_space(chars[start])
        invariant
            start <= chars.len(),
            trim_start(chars@) == trim_start(chars@.subrange(start as int, chars.len() as int)),
        decreases chars.len() - start,
    {
        assert(chars@.subrange(start as int, chars.len() as int).drop_first() == chars@.subrange(
            start + 1,
            chars.len() as int,
        ));
        start += 1;
    }
    assert(trim_start(chars@) == chars@.subrange(start as int, chars.len() as int));
    let mut end: usize = chars.len();
    while end > start && is_white_space(chars[end - 1])
        invariant
            start <= end <= chars.len(),
            trimmed(chars@) == trim_end(chars@.subrange(start as int, end as int)),
        decreases end,
    {
        assert(chars@.subrange(start as int, end as int).drop_last() == chars@.subrange(
            start as int,
            end - 1,
        ));
        end -= 1;
    }
    String::from_str(text.substring_char(start, end))
}

/// `text` with `with` in the place of every `slot`, the places taken from the
/// left and none of them overlapping another. With an empty `slot` the text
/// stays as it is.
pub open spec fn substituted(text: Seq<char>, slot: Seq<char>, with: Seq<char>) -> Seq<char>
    decreases text.len(),
{
    if slot.len() == 0 || text.len() < slot.len() {
        text
    } else if text.subrange(0, slot.len() as int) == slot {
        with + substituted(text.subrange(slot.len() as int, text.len() as int), slot, with)
    } else {
        seq![text[0]] + substituted(text.drop_first(), slot, with)
    }
}

/// Fills every `slot` of `text` with `with`.
pub fn substitute(text: &str, slot: &str, with: &str) -> (filled: String)
    ensures
        filled@ == substituted(text@, slot@, with@),
{
    let chars = chars_of(text);
    let needle = chars_of(slot);
    if needle.len() == 0 || chars.len() < needle.len() {
        return String::from_str(text);
    }
    let last: usize = chars.len() - needle.len();
    let ghost whole = chars@;
    let mut filled = String::new();
    let mut run: usize = 0;
    let mut at: usize = 0;
    assert(whole.subrange(0, whole.len() as int) == whole);
    assert(filled@ + whole.subrange(0, 0) == Seq::<char>::empty());
    while at <= last
        invariant
            0 < needle.len() <= chars.len(),
            last == chars.len() - needle.len(),
            run <= at <= chars.len(),
            whole == chars@,
            whole == text@,
            needle@ == slot@,
            substituted(whole, slot@, with@) == filled@ + whole.subrange(run as int, at as int)
                + substituted(whole.subrange(at as int, whole.len() as int), slot@, with@),
        decreases chars.len() - at,
    {
        let ghost rest = whole.subrange(at as int, whole.len() as int);
        if stands_at(&chars, &needle, at) {
            assert(rest.subrange(0, needle.len() as int) == whole.subrange(
                at as int,
                at + needle.len(),
            ));
            assert(rest.subrange(needle.len() as int, rest.len() as int) == whole.subrange(
                at + needle.len(),
                whole.len() as int,
            ));
            filled.append(text.substring_char(run, at));
            filled.append(with);
            at += needle.len();
            run = at;
            assert(whole.subrange(run as int, at as int) == Seq::<char>::empty());
        } else {
            assert(rest.subrange(0, needle.len() as int) == whole.subrange(
                at as int,
                at + needle.len(),
            ));
            assert(rest.drop_first() == whole.subrange(at + 1, whole.len() as int));
            assert(whole.subrange(run as int, at as int) + seq![rest[0]] == whole.subrange(
                run as int,
                at + 1,
            ));
            at += 1;
        }
    }
    assert(whole.subrange(run as int, at as int) + whole.subrange(at as int, whole.len() as int)
        == whole.subrange(run as int, whole.len() as int));
    filled.append(text.substring_char(run, chars.len()));
    filled
}

/// The character that stands for the digit `d`, for `d` below ten.
pub open spec fn digit(d: nat) -> char {
    (('0' as u8 + d) as u8) as char
}

/// `n` written in base ten, without leading zeros.
pub open spec fn decimal(n: nat) -> Seq<char>
    decreases n,
{
    if n < 10 {
        seq![digit(n)]
    } else {
        decimal(n / 10).push(digit(n % 10))
    }
}

/// The text of one digit.
fn digit_text(d: u16) -> (text: &'static str)
    requires
        d < 10,
    ensures
        text@ == seq![digit(d as nat)],
{
    let digits = "0123456789";
    proof {
        reveal_strlit("0123456789");
    }
    digits.substring_ascii(d as usize, d as usize + 1)
}

/// Writes `n` in base ten.
pub fn to_decimal(n: u16) -> (text: String)
    ensures
        text@ == decimal(n as nat),
    decreases n,
{
    if n < 10 {
        String::from_str(digit_text(n))
    } else {
        let mut text = to_decimal(n / 10);
        text.append(digit_text(n % 10));
        text
    }
}

/// A text that holds `needle` letter for letter also mentions it.
pub proof fn lemma_holding_is_mentioning(hay: Seq<char>, needle: Seq<char>)
    requires
        occurs(hay, needle),
    ensures
        mentions(hay, needle),
{
    let at = choose|at: int| matches_at(hay, needle, at);
    assert(fold(hay).subrange(at, at + needle.len()) =~= fold(needle));
    assert(matches_at(fold(hay), fold(needle), at));
}

/// Mentioning does not depend on the case in which either text is written.
pub proof fn lemma_mentioning_ignores_case(hay: Seq<char>, needle: Seq<char>)
    ensures
        mentions(fold(hay), needle) == mentions(hay, needle),
        mentions(hay, fold(needle)) == mentions(hay, needle),
{
    assert(fold(fold(hay)) =~= fold(hay));
    assert(fold(fold(needle)) =~= fold(needle));
}

/// What follows the last marker holds no marker.
pub proof fn lemma_nothing_after_the_last(hay: Seq<char>, marker: Seq<char>)
    requires
        marker.len() > 0,
    ensures
        !occurs(after_last(hay, marker), marker),
{
    if occurs(hay, marker) {
        let first = choose|at: int| matches_at(hay, marker, at);
        lemma_some_match_is_last(hay, marker, first, hay.len() as int);
        let at = choose|at: int| is_last_match(hay, marker, at);
        let rest = after_last(hay, marker);
        if occurs(rest, marker) {
            let inner = choose|inner: int| matches_at(rest, marker, inner);
            let later = at + marker.len() + inner;
            assert(hay.subrange(later, later + marker.len()) =~= rest.subrange(
                inner,
                inner + marker.len(),
            ));
            assert(matches_at(hay, marker, later));
        }
    }
}

/// Where `needle` stands at `found`, and nowhere from `bound` on, one of its
/// places is the last.
proof fn lemma_some_match_is_last(hay: Seq<char>, needle: Seq<char>, found: int, bound: int)
    requires
        matches_at(hay, needle, found),
        found < bound,
        forall|later: int| bound <= later ==> !matches_at(hay, needle, later),
    ensures
        exists|at: int| is_last_match(hay, needle, at),
    decreases bound - found,
{
    if exists|between: int| found < between < bound && matches_at(hay, needle, between) {
        let between = choose|between: int|
            found < between < bound && matches_at(hay, needle, between);
        lemma_some_match_is_last(hay, needle, between, bound);
    } else {
        assert(is_last_match(hay, needle, found));
    }
}

/// A trimmed text neither begins nor ends with white space.
pub proof fn lemma_trimmed_has_bare_ends(s: Seq<char>)
    ensures
        trimmed(s).len() > 0 ==> !is_space(trimmed(s).first()) && !is_space(trimmed(s).last()),
{
    lemma_trim_start_begins_bare(s);
    lemma_trim_end_keeps_the_start(trim_start(s));
}

/// A text trimmed at its start is empty or begins with no white space.
proof fn lemma_trim_start_begins_bare(s: Seq<char>)
    ensures
        trim_start(s).len() > 0 ==> !is_space(trim_start(s)[0]),
    decreases s.len(),
{
    if s.len() > 0 && is_space(s[0]) {
        lemma_trim_start_begins_bare(s.drop_first());
    }
}

/// Trimming the end leaves a text that is empty or ends with no white space,
/// and that begins as the text did.
proof fn lemma_trim_end_keeps_the_start(s: Seq<char>)
    ensures
        trim_end(s).len() > 0 ==> !is_space(trim_end(s).last()) && trim_end(s)[0] == s[0],
    decreases s.len(),
{
    if s.len() > 0 && is_space(s.last()) {
        lemma_trim_end_keeps_the_start(s.drop_last());
    }
}

/// A text that holds no `slot` is left as it is.
pub proof fn lemma_nothing_to_fill(text: Seq<char>, slot: Seq<char>, with: Seq<char>)
    requires
        !occurs(text, slot),
    ensures
        substituted(text, slot, with) == text,
    decreases text.len(),
{
    if slot.len() == 0 || text.len() < slot.len() {
    } else {
        assert(!matches_at(text, slot, 0));
        let rest = text.drop_first();
        assert forall|at: int| !matches_at(rest, slot, at) by {
            if matches_at(rest, slot, at) {
                assert(text.subrange(at + 1, at + 1 + slot.len()) =~= rest.subrange(
                    at,
                    at + slot.len(),
                ));
                assert(matches_at(text, slot, at + 1));
            }
        }
        lemma_nothing_to_fill(rest, slot, with);
        assert(seq![text[0]] + rest =~= text);
    }
}

} // verus!
