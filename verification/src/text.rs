//! Text as sequences of characters: comparing, searching, joining and measuring strings.

use vstd::prelude::*;
use vstd::string::*;
use vstd::utf8::*;

verus! {

/// The characters of each string of a list.
pub open spec fn texts(list: Seq<String>) -> Seq<Seq<char>> {
    list.map_values(|s: String| s@)
}

/// The characters of a string that may be missing.
pub open spec fn text_of(text: Option<String>) -> Option<Seq<char>> {
    match text {
        Some(s) => Some(s@),
        None => None,
    }
}

/// The characters of a string that may be missing, or none.
pub open spec fn text_or_empty(text: Option<Seq<char>>) -> Seq<char> {
    match text {
        Some(s) => s,
        None => Seq::empty(),
    }
}

/// Number of bytes of a text in UTF-8.
pub open spec fn byte_len(text: Seq<char>) -> nat {
    encode_utf8(text).len()
}

/// `piece` is a run of consecutive characters of `text`.
pub open spec fn occurs_in(piece: Seq<char>, text: Seq<char>) -> bool {
    exists|i: int| occurs_at(piece, text, i)
}

/// `piece` stands in `text` from position `i` on.
pub open spec fn occurs_at(piece: Seq<char>, text: Seq<char>, i: int) -> bool {
    &&& 0 <= i <= text.len() - piece.len()
    &&& text.subrange(i, i + piece.len()) == piece
}

/// The part of `text` behind its first `mark`; nothing when `text` holds no `mark`.
pub open spec fn behind(text: Seq<char>, mark: char) -> Option<Seq<char>> {
    match text.index_of_first(mark) {
        None => None,
        Some(i) => Some(text.skip(i + 1)),
    }
}

/// The parts of `text` between its marks, the empty ones too; all of it when it holds no `mark`.
pub open spec fn pieces(text: Seq<char>, mark: char) -> Seq<Seq<char>>
    decreases text.len(),
{
    if text.len() == 0 {
        seq![text]
    } else {
        let before = pieces(text.drop_last(), mark);
        if text.last() == mark {
            before.push(Seq::empty())
        } else {
            before.drop_last().push(before.last().push(text.last()))
        }
    }
}

/// The characters of each text of a list.
pub open spec fn char_lists(list: Seq<Vec<char>>) -> Seq<Seq<char>> {
    list.map_values(|v: Vec<char>| v@)
}

/// The texts of a list one after the other, with `sep` between any two.
pub open spec fn join(list: Seq<Seq<char>>, sep: Seq<char>) -> Seq<char>
    decreases list.len(),
{
    if list.len() == 0 {
        Seq::empty()
    } else if list.len() == 1 {
        list[0]
    } else {
        join(list.drop_last(), sep) + sep + list.last()
    }
}

/// `text` without the occurrences of `piece` that a search from left to right meets.
pub open spec fn without(text: Seq<char>, piece: Seq<char>) -> Seq<char>
    decreases text.len(),
{
    if text.len() == 0 || piece.len() == 0 {
        text
    } else if piece.is_prefix_of(text) {
        without(text.skip(piece.len() as int), piece)
    } else {
        seq![text[0]] + without(text.skip(1), piece)
    }
}

/// The characters with the Unicode property `White_Space`.
pub open spec fn white_space(c: char) -> bool {
    ||| '\u{9}' <= c <= '\u{d}'
    ||| c == ' ' || c == '\u{85}' || c == '\u{a0}' || c == '\u{1680}'
    ||| '\u{2000}' <= c <= '\u{200a}'
    ||| c == '\u{2028}' || c == '\u{2029}' || c == '\u{202f}' || c == '\u{205f}' || c == '\u{3000}'
}

/// `text` holds nothing but white space.
pub open spec fn blank(text: Seq<char>) -> bool {
    forall|i: int| 0 <= i < text.len() ==> white_space(#[trigger] text[i])
}

/// The decimal digits of a number.
pub open spec fn decimal(n: nat) -> Seq<char>
    decreases n,
{
    if n < 10 {
        seq![digit(n)]
    } else {
        decimal(n / 10).push(digit(n % 10))
    }
}

/// The digit that stands for a number below ten.
pub open spec fn digit(n: nat) -> char {
    ('0' as nat + n) as char
}

/// The 32-bit two's complement number that agrees with `n` in its lowest 32 bits.
pub open spec fn wrap_i32(n: int) -> int {
    if n % 0x1_0000_0000 < 0x8000_0000 {
        n % 0x1_0000_0000
    } else {
        n % 0x1_0000_0000 - 0x1_0000_0000
    }
}

/// `char::is_whitespace` of std: true of the characters with the Unicode property `White_Space`.
pub assume_specification[ char::is_whitespace ](c: char) -> (r: bool)
    ensures
        r == white_space(c),
;

/// `String::push` of std: appends one character.
pub assume_specification[ String::push ](s: &mut String, c: char)
    ensures
        final(s)@ == old(s)@.push(c),
;

/// The characters of a string slice.
pub(crate) fn chars(s: &str) -> (r: Vec<char>)
    ensures
        r@ == s@,
{
    let mut v: Vec<char> = Vec::new();
    for c in it: s.chars()
        invariant
            v@ == it.seq().take(it.index() as int),
            it.seq() == s@,
    {
        v.push(c);
    }
    v
}

/// Number of bytes of a string slice.
pub(crate) fn len_of(s: &str) -> (r: usize)
    ensures
        r == byte_len(s@),
{
    s.as_bytes().len()
}

/// Whether two string slices hold the same text.
pub(crate) fn same(a: &str, b: &str) -> (r: bool)
    ensures
        r == (a@ == b@),
{
    let x = a.as_bytes();
    let y = b.as_bytes();
    proof {
        encode_utf8_decode_utf8(a@);
        encode_utf8_decode_utf8(b@);
    }
    if x.len() != y.len() {
        return false;
    }
    let mut i: usize = 0;
    while i < x.len()
        invariant
            i <= x@.len(),
            x@.len() == y@.len(),
            x@ == encode_utf8(a@),
            y@ == encode_utf8(b@),
            forall|j: int| 0 <= j < i ==> x@[j] == y@[j],
        decreases x@.len() - i,
    {
        if x[i] != y[i] {
            return false;
        }
        i = i + 1;
    }
    assert(x@ =~= y@);
    true
}

/// Whether the text that may be missing is there and equals `b`.
pub(crate) fn is_text(a: &Option<String>, b: &str) -> (r: bool)
    ensures
        r == (text_of(*a) == Some(b@)),
{
    match a {
        Some(s) => same(s.as_str(), b),
        None => false,
    }
}

/// Whether `piece` stands in `text` from position `at` on.
fn matches_at(text: &Vec<char>, at: usize, piece: &Vec<char>) -> (r: bool)
    requires
        at <= text@.len(),
    ensures
        r == occurs_at(piece@, text@, at as int),
{
    if piece.len() > text.len() - at {
        return false;
    }
    let mut i: usize = 0;
    while i < piece.len()
        invariant
            i <= piece@.len(),
            at + piece@.len() <= text.len(),
            forall|j: int| 0 <= j < i ==> text@[at + j] == piece@[j],
        decreases piece@.len() - i,
    {
        if text[at + i] != piece[i] {
            assert(text@.subrange(at as int, at + piece@.len())[i as int] == text@[at + i]);
            return false;
        }
        i = i + 1;
    }
    assert(text@.subrange(at as int, at + piece@.len()) =~= piece@);
    true
}

/// Whether `text` begins with `piece`.
pub(crate) fn starts_with(text: &Vec<char>, piece: &Vec<char>) -> (r: bool)
    ensures
        r == piece@.is_prefix_of(text@),
{
    matches_at(text, 0, piece)
}

/// Whether `text` holds `piece`.
pub(crate) fn contains(text: &Vec<char>, piece: &Vec<char>) -> (r: bool)
    ensures
        r == occurs_in(piece@, text@),
{
    let mut at: usize = 0;
    loop
        invariant
            at <= text@.len(),
            forall|j: int| 0 <= j < at ==> !occurs_at(piece@, text@, j),
        decreases text@.len() - at,
    {
        if matches_at(text, at, piece) {
            return true;
        }
        if at == text.len() {
            return false;
        }
        at = at + 1;
    }
}

/// Position of the first `mark` from `from` on, or the length of `text`.
fn find_from(text: &Vec<char>, from: usize, mark: char) -> (r: usize)
    requires
        from <= text@.len(),
    ensures
        from <= r <= text@.len(),
        forall|j: int| from <= j < r ==> text@[j] != mark,
        r < text@.len() ==> text@[r as int] == mark,
{
    let mut i: usize = from;
    while i < text.len()
        invariant
            from <= i <= text@.len(),
            forall|j: int| from <= j < i ==> text@[j] != mark,
        decreases text@.len() - i,
    {
        if text[i] == mark {
            return i;
        }
        i = i + 1;
    }
    i
}

/// A position that holds `mark` with none before it is the first one.
proof fn lemma_first_mark(text: Seq<char>, mark: char, i: int)
    requires
        0 <= i <= text.len(),
        forall|j: int| 0 <= j < i ==> text[j] != mark,
        i < text.len() ==> text[i] == mark,
    ensures
        text.index_of_first(mark) == if i < text.len() {
            Some(i)
        } else {
            None::<int>
        },
{
    text.index_of_first_ensures(mark);
}

/// The characters of `text` from `from` up to `to`.
fn cut(text: &Vec<char>, from: usize, to: usize) -> (r: Vec<char>)
    requires
        from <= to <= text@.len(),
    ensures
        r@ == text@.subrange(from as int, to as int),
{
    let mut r: Vec<char> = Vec::new();
    let mut i: usize = from;
    while i < to
        invariant
            from <= i <= to <= text@.len(),
            r@ == text@.subrange(from as int, i as int),
        decreases to - i,
    {
        r.push(text[i]);
        i = i + 1;
    }
    r
}

/// The part of `text` behind its first `mark`.
pub(crate) fn rest_behind(text: &Vec<char>, mark: char) -> (r: Option<Vec<char>>)
    ensures
        match r {
            Some(rest) => behind(text@, mark) == Some(rest@),
            None => behind(text@, mark) is None,
        },
{
    let first = find_from(text, 0, mark);
    proof {
        lemma_first_mark(text@, mark, first as int);
    }
    if first == text.len() {
        return None;
    }
    let rest = cut(text, first + 1, text.len());
    assert(rest@ =~= text@.skip(first + 1));
    Some(rest)
}

/// The parts of `text` between its marks.
pub(crate) fn split(text: &Vec<char>, mark: char) -> (r: Vec<Vec<char>>)
    ensures
        char_lists(r@) == pieces(text@, mark),
{
    let mut r: Vec<Vec<char>> = Vec::new();
    let mut piece: Vec<char> = Vec::new();
    let mut i: usize = 0;
    assert(piece@ =~= text@.take(0));
    assert(char_lists(r@).push(piece@) =~= pieces(text@.take(0), mark));
    while i < text.len()
        invariant
            i <= text@.len(),
            char_lists(r@).push(piece@) == pieces(text@.take(i as int), mark),
        decreases text@.len() - i,
    {
        let ghost done = r@;
        let ghost last = piece@;
        let ghost before = pieces(text@.take(i as int), mark);
        assert(text@.take(i + 1).drop_last() =~= text@.take(i as int));
        assert(before.drop_last() =~= char_lists(done));
        if text[i] == mark {
            r.push(piece);
            piece = Vec::new();
            assert(char_lists(r@) =~= char_lists(done).push(last));
        } else {
            piece.push(text[i]);
        }
        i = i + 1;
        assert(char_lists(r@).push(piece@) =~= pieces(text@.take(i as int), mark));
    }
    assert(text@.take(i as int) =~= text@);
    let ghost done = r@;
    let ghost last = piece@;
    r.push(piece);
    assert(char_lists(r@) =~= char_lists(done).push(last));
    r
}

/// A text has a first piece, which it begins with.
pub(crate) proof fn lemma_first_piece(text: Seq<char>, mark: char)
    ensures
        pieces(text, mark).len() > 0,
        pieces(text, mark)[0].is_prefix_of(text),
        pieces(text, mark).len() == 1 ==> pieces(text, mark)[0] == text,
    decreases text.len(),
{
    if text.len() > 0 {
        let rest = text.drop_last();
        lemma_first_piece(rest, mark);
        let first = pieces(rest, mark)[0];
        assert(text =~= rest.push(text.last()));
        assert(first =~= rest.subrange(0, first.len() as int));
        assert(text.subrange(0, first.len() as int) =~= first);
    }
}

/// What follows a mark does not touch the first piece.
pub(crate) proof fn lemma_first_piece_stays(text: Seq<char>, mark: char, more: Seq<char>)
    ensures
        pieces(text.push(mark) + more, mark).len() > 1,
        pieces(text.push(mark) + more, mark)[0] == pieces(text, mark)[0],
    decreases more.len(),
{
    let all = text.push(mark) + more;
    lemma_first_piece(text, mark);
    if more.len() == 0 {
        assert(all.drop_last() =~= text);
    } else {
        lemma_first_piece_stays(text, mark, more.drop_last());
        assert(all.drop_last() =~= text.push(mark) + more.drop_last());
    }
}

/// A text without a mark is the only piece of itself, and one more piece behind a mark.
pub(crate) proof fn lemma_last_piece(text: Seq<char>, mark: char, more: Seq<char>)
    requires
        !more.contains(mark),
    ensures
        pieces(more, mark) == seq![more],
        pieces(text.push(mark) + more, mark) == pieces(text, mark).push(more),
    decreases more.len(),
{
    let all = text.push(mark) + more;
    if more.len() == 0 {
        assert(all.drop_last() =~= text);
        assert(more =~= Seq::<char>::empty());
    } else {
        let rest = more.drop_last();
        assert(more[more.len() - 1] != mark);
        assert forall|i: int| 0 <= i < rest.len() implies rest[i] != mark by {
            assert(rest[i] == more[i]);
        }
        lemma_last_piece(text, mark, rest);
        assert(all.drop_last() =~= text.push(mark) + rest);
        assert(rest.push(more.last()) =~= more);
        assert(pieces(text, mark).push(rest).drop_last() =~= pieces(text, mark));
        assert(seq![rest].drop_last().push(more) =~= seq![more]);
    }
}

/// The strings of a list one after the other, with `sep` between any two.
pub(crate) fn joined(list: &Vec<String>, sep: &str) -> (r: String)
    ensures
        r@ == join(texts(list@), sep@),
{
    let mut r = String::new();
    let ghost all = texts(list@);
    let mut i: usize = 0;
    while i < list.len()
        invariant
            i <= list@.len(),
            all == texts(list@),
            r@ == join(all.take(i as int), sep@),
        decreases list@.len() - i,
    {
        if i > 0 {
            r.append(sep);
        }
        r.append(list[i].as_str());
        assert(all.take(i + 1).drop_last() =~= all.take(i as int));
        assert(all.take(i + 1).last() == list@[i as int]@);
        if i == 0 {
            assert(r@ =~= all[0]);
        }
        i = i + 1;
    }
    assert(all.take(i as int) =~= all);
    r
}

/// `text` without the occurrences of `piece` that a search from left to right meets.
pub(crate) fn removed(text: &str, piece: &str) -> (r: String)
    requires
        piece@.len() > 0,
    ensures
        r@ == without(text@, piece@),
{
    let all = chars(text);
    let part = chars(piece);
    let mut r = String::new();
    let mut i: usize = 0;
    assert(all@.skip(0) =~= all@);
    while i < all.len()
        invariant
            i <= all@.len(),
            part@.len() > 0,
            part@ == piece@,
            all@ == text@,
            r@ + without(all@.skip(i as int), part@) == without(all@, part@),
        decreases all@.len() - i,
    {
        let ghost rest = all@.skip(i as int);
        let ghost before = r@;
        if matches_at(&all, i, &part) {
            proof {
                assert(rest.subrange(0, part@.len() as int) =~= all@.subrange(
                    i as int,
                    i + part@.len(),
                ));
                assert(rest.skip(part@.len() as int) =~= all@.skip(i + part@.len()));
            }
            i = i + part.len();
        } else {
            proof {
                if part@.is_prefix_of(rest) {
                    assert(rest.subrange(0, part@.len() as int) =~= all@.subrange(
                        i as int,
                        i + part@.len(),
                    ));
                }
                assert(rest.skip(1) =~= all@.skip(i + 1));
                assert(before.push(rest[0]) + without(rest.skip(1), part@) =~= before + (
                seq![rest[0]] + without(rest.skip(1), part@)));
            }
            r.push(all[i]);
            i = i + 1;
        }
    }
    assert(all@.skip(i as int) =~= Seq::<char>::empty());
    assert(r@ + Seq::<char>::empty() =~= r@);
    r
}

/// Whether `text` holds nothing but white space.
pub(crate) fn is_blank(text: &str) -> (r: bool)
    ensures
        r == blank(text@),
{
    let all = chars(text);
    let mut i: usize = 0;
    while i < all.len()
        invariant
            i <= all@.len(),
            all@ == text@,
            forall|j: int| 0 <= j < i ==> white_space(#[trigger] all@[j]),
        decreases all@.len() - i,
    {
        if !all[i].is_whitespace() {
            return false;
        }
        i = i + 1;
    }
    true
}

/// The decimal digits of a number.
pub(crate) fn decimal_of(n: u64) -> (r: String)
    ensures
        r@ == decimal(n as nat),
    decreases n,
{
    let last: u8 = (n % 10) as u8;
    let c: char = (48u8 + last) as char;
    let mut r = if n < 10 {
        String::new()
    } else {
        decimal_of(n / 10)
    };
    r.push(c);
    assert(c == digit((n % 10) as nat));
    if n < 10 {
        assert(r@ =~= seq![digit(n as nat)]);
    }
    r
}

/// The lowest 32 bits of a number, read as a two's complement number.
pub(crate) fn low_i32(n: u64) -> (r: i32)
    ensures
        r == wrap_i32(n as int),
{
    let r = #[verifier::truncate] (n as i32);
    assert(n % 0x1_0000_0000 < 0x8000_0000 ==> r == n % 0x1_0000_0000) by (bit_vector)
        requires
            r == n as i32,
    ;
    assert(n % 0x1_0000_0000 >= 0x8000_0000 ==> r == n % 0x1_0000_0000 - 0x1_0000_0000)
        by (bit_vector)
        requires
            r == n as i32,
    ;
    r
}

/// `first` followed by `second`.
pub(crate) fn glue(first: &str, second: &str) -> (r: String)
    ensures
        r@ == first@ + second@,
{
    let mut r = String::new();
    r.append(first);
    r.append(second);
    assert(r@ =~= first@ + second@);
    r
}

/// A text that may be missing is missing in its view exactly where it is missing itself.
pub proof fn law_missing_texts(text: String)
    ensures
        text_of(Some(text)) == Some(text@),
        text_of(None::<String>) == None::<Seq<char>>,
        text_or_empty(Some(text@)) == text@,
        text_or_empty(None) == Seq::<char>::empty(),
{
}

/// The view of a list of strings has the characters of each of them at its place.
pub proof fn law_texts_keep_their_places(list: Seq<String>)
    ensures
        texts(list).len() == list.len(),
        forall|i: int| 0 <= i < list.len() ==> #[trigger] texts(list)[i] == list[i]@,
{
}

/// Cutting a number down to 32 bits leaves it in their range, changes it by a multiple of 2^32, and
/// does nothing to a number that was in their range.
pub proof fn law_wrap_i32(n: int)
    ensures
        -0x8000_0000 <= wrap_i32(n) < 0x8000_0000,
        (n - wrap_i32(n)) % 0x1_0000_0000 == 0,
        -0x8000_0000 <= n < 0x8000_0000 ==> wrap_i32(n) == n,
{
}

/// A text holds a piece exactly where it is something, the piece, and something.
pub proof fn law_occurs_in(piece: Seq<char>, text: Seq<char>)
    ensures
        occurs_in(piece, text) <==> exists|before: Seq<char>, after: Seq<char>|
            text == #[trigger] (before + piece + after),
{
    if occurs_in(piece, text) {
        let i = choose|i: int| occurs_at(piece, text, i);
        let before = text.subrange(0, i);
        let after = text.subrange(i + piece.len(), text.len() as int);
        assert(text =~= before + text.subrange(i, i + piece.len()) + after);
        assert(text == before + piece + after);
    }
    if exists|before: Seq<char>, after: Seq<char>| text == #[trigger] (before + piece + after) {
        let (before, after) = choose|before: Seq<char>, after: Seq<char>|
            text == #[trigger] (before + piece + after);
        assert(text.subrange(before.len() as int, (before.len() + piece.len()) as int) =~= piece);
        assert(occurs_at(piece, text, before.len() as int));
    }
}

/// What stands behind the first mark is what follows a run of other characters and the mark.
pub proof fn law_behind(before: Seq<char>, mark: char, rest: Seq<char>)
    requires
        !before.contains(mark),
    ensures
        behind(before.push(mark) + rest, mark) == Some(rest),
        behind(before, mark) is None,
{
    let all = before.push(mark) + rest;
    all.index_of_first_ensures(mark);
    before.index_of_first_ensures(mark);
    let at = before.len() as int;
    assert(all[at] == mark);
    let found = all.index_of_first(mark)->0;
    assert(found == at) by {
        if found < at {
            assert(before[found] == mark);
        }
    }
    assert(all.skip(at + 1) =~= rest);
}

/// A list of two or more texts is joined by its first text, the separator, and the others joined.
pub proof fn law_join(list: Seq<Seq<char>>, sep: Seq<char>)
    ensures
        list.len() == 0 ==> join(list, sep) == Seq::<char>::empty(),
        list.len() == 1 ==> join(list, sep) == list[0],
        list.len() >= 2 ==> join(list, sep) == list[0] + sep + join(list.skip(1), sep),
    decreases list.len(),
{
    if list.len() == 2 {
        assert(list.skip(1) =~= seq![list[1]]);
        assert(list.drop_last() =~= seq![list[0]]);
        assert(join(list.drop_last(), sep) == list[0]);
        assert(join(list.skip(1), sep) == list[1]);
    } else if list.len() > 2 {
        let head = list.drop_last();
        let tail = list.skip(1);
        law_join(head, sep);
        assert(head.skip(1) =~= tail.drop_last());
        assert(tail.last() == list.last());
        assert(join(tail, sep) == join(tail.drop_last(), sep) + sep + tail.last());
        assert(head[0] + sep + join(tail.drop_last(), sep) + sep + list.last() =~= list[0] + sep
            + (join(tail.drop_last(), sep) + sep + tail.last()));
    }
}

/// The pieces of a text hold no mark, and joined by the mark they are the text again.
pub proof fn law_pieces(text: Seq<char>, mark: char)
    ensures
        pieces(text, mark).len() > 0,
        forall|i: int|
            0 <= i < pieces(text, mark).len() ==> !(#[trigger] pieces(text, mark)[i]).contains(
                mark,
            ),
        join(pieces(text, mark), seq![mark]) == text,
    decreases text.len(),
{
    let all = pieces(text, mark);
    if text.len() > 0 {
        let rest = text.drop_last();
        let c = text.last();
        law_pieces(rest, mark);
        let before = pieces(rest, mark);
        assert(text =~= rest.push(c));
        if c == mark {
            assert(all.drop_last() =~= before);
            assert(join(all, seq![mark]) =~= text);
            assert forall|i: int| 0 <= i < all.len() implies !(#[trigger] all[i]).contains(mark) by {
                if i < before.len() {
                    assert(all[i] == before[i]);
                }
            }
        } else {
            assert(all.drop_last() =~= before.drop_last());
            assert(all.last() == before.last().push(c));
            if before.len() == 1 {
                assert(join(all, seq![mark]) =~= text);
            } else {
                let head = join(before.drop_last(), seq![mark]) + seq![mark];
                assert(head + before.last().push(c) =~= (head + before.last()).push(c));
            }
            assert forall|i: int| 0 <= i < all.len() implies !(#[trigger] all[i]).contains(mark) by {
                if i < before.len() - 1 {
                    assert(all[i] == before[i]);
                } else {
                    let old_last = before[before.len() - 1];
                    assert(all[i] == old_last.push(c));
                    assert forall|k: int| 0 <= k < all[i].len() implies all[i][k] != mark by {
                        if k < old_last.len() {
                            assert(old_last[k] == all[i][k]);
                        }
                    }
                }
            }
        }
    }
}

/// Taking a piece out of a text keeps what stands before its first occurrence, leaves the
/// occurrence out and goes on behind it; a text without an occurrence stays as it is.
pub proof fn law_without(before: Seq<char>, piece: Seq<char>, rest: Seq<char>)
    requires
        piece.len() > 0,
        forall|i: int| 0 <= i < before.len() ==> !occurs_at(piece, before + piece + rest, i),
    ensures
        without(before + piece + rest, piece) == before + without(rest, piece),
    decreases before.len(),
{
    let all = before + piece + rest;
    if before.len() == 0 {
        assert(all.subrange(0, piece.len() as int) =~= piece);
        assert(all.skip(piece.len() as int) =~= rest);
        assert(before + without(rest, piece) =~= without(rest, piece));
    } else {
        let tail = before.skip(1);
        let shorter = tail + piece + rest;
        assert(all.skip(1) =~= shorter);
        assert forall|i: int| 0 <= i < tail.len() implies !occurs_at(piece, shorter, i) by {
            assert(!occurs_at(piece, all, i + 1));
            if occurs_at(piece, shorter, i) {
                assert(all.subrange(i + 1, i + 1 + piece.len()) =~= shorter.subrange(
                    i,
                    i + piece.len(),
                ));
            }
        }
        law_without(tail, piece, rest);
        assert(!occurs_at(piece, all, 0));
        assert(!piece.is_prefix_of(all)) by {
            if piece.is_prefix_of(all) {
                assert(all.subrange(0, piece.len() as int) == piece);
            }
        }
        assert(seq![all[0]] + (tail + without(rest, piece)) =~= before + without(rest, piece));
    }
}

/// Taking a piece out of a text that does not hold it changes nothing.
pub proof fn law_without_absent(text: Seq<char>, piece: Seq<char>)
    requires
        !occurs_in(piece, text),
    ensures
        without(text, piece) == text,
    decreases text.len(),
{
    if text.len() > 0 && piece.len() > 0 {
        assert(!occurs_at(piece, text, 0));
        let tail = text.skip(1);
        assert forall|i: int| !occurs_at(piece, tail, i) by {
            assert(!occurs_at(piece, text, i + 1));
            if occurs_at(piece, tail, i) {
                assert(text.subrange(i + 1, i + 1 + piece.len()) =~= tail.subrange(
                    i,
                    i + piece.len(),
                ));
            }
        }
        law_without_absent(tail, piece);
        assert(!piece.is_prefix_of(text)) by {
            if piece.is_prefix_of(text) {
                assert(text.subrange(0, piece.len() as int) == piece);
            }
        }
        assert(seq![text[0]] + tail =~= text);
    }
}

/// A text is blank exactly where none of its characters is something else than white space.
pub proof fn law_blank(text: Seq<char>)
    ensures
        blank(text) <==> !(exists|c: char| #[trigger] text.contains(c) && !white_space(c)),
{
    if !blank(text) {
        let i = choose|i: int| 0 <= i < text.len() && !white_space(#[trigger] text[i]);
        assert(text.contains(text[i]));
    }
}

/// The number that a row of decimal digits stands for.
pub open spec fn number_of(digits: Seq<char>) -> int
    decreases digits.len(),
{
    if digits.len() == 0 {
        0
    } else {
        10 * number_of(digits.drop_last()) + (digits.last() as int - '0' as int)
    }
}

/// The decimal digits of a number are digits, stand for the number, and begin with a zero only for
/// zero itself.
pub proof fn law_decimal(n: nat)
    ensures
        number_of(decimal(n)) == n,
        decimal(n).len() > 0,
        forall|i: int| 0 <= i < decimal(n).len() ==> '0' <= #[trigger] decimal(n)[i] <= '9',
        decimal(n)[0] == '0' ==> n == 0,
    decreases n,
{
    if n < 10 {
        let d = decimal(n);
        assert(d.drop_last() =~= Seq::<char>::empty());
        assert(number_of(d.drop_last()) == 0);
    } else {
        law_decimal(n / 10);
        assert(decimal(n).drop_last() =~= decimal(n / 10));
    }
}

/// The length of a text in bytes is that of its UTF-8 form.
pub proof fn law_byte_len(text: Seq<char>)
    ensures
        byte_len(text) == encode_utf8(text).len(),
{
}

} // verus!
