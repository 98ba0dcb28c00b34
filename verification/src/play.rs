use vstd::prelude::*;
use rand::Rng;
use crate::text::{
    decimal_i32, has_substring, lowercased, trimmed, contains_text, lowercase, parse_i32, same_text,
    trim_text,
};
use crate::cv::{div_toward_zero, quotient_toward_zero};
use crate::faker_input::keyboard_report::KeyboardKey;
use crate::faker_input::mouse_report::{MouseButtons, MouseReport, wrap_i16, wrap_to_i16};

verus! {

/// The pieces of `s` between the occurrences of `sep`, empty pieces
/// included; there is always at least one.
pub open spec fn split_spec(s: Seq<char>, sep: char) -> Seq<Seq<char>>
    decreases s.len(),
{
    if s.len() == 0 {
        seq![Seq::<char>::empty()]
    } else {
        let rest = split_spec(s.drop_last(), sep);
        if s.last() == sep {
            rest.push(Seq::<char>::empty())
        } else {
            rest.update(rest.len() - 1, rest.last().push(s.last()))
        }
    }
}

proof fn lemma_split_nonempty(s: Seq<char>, sep: char)
    ensures
        split_spec(s, sep).len() >= 1,
    decreases s.len(),
{
    if s.len() > 0 {
        lemma_split_nonempty(s.drop_last(), sep);
    }
}

/// The characters of `s`, in order.
fn chars_of(s: &str) -> (r: Vec<char>)
    ensures
        r@ == s@,
{
    let mut out: Vec<char> = Vec::new();
    for c in it: s.chars()
        invariant
            it.seq() == s@,
            out@ == it.seq().take(it.index()),
    {
        proof {
            assert(it.seq().take(it.index() + 1) == out@.push(c));
        }
        out.push(c);
    }
    proof {
        assert(s@.take(s@.len() as int) == s@);
    }
    out
}

/// The pieces of `s` between the occurrences of `sep`, as `str::split(sep)`
/// hands them out.
pub fn split_text(s: &str, sep: char) -> (r: Vec<&str>)
    ensures
        r@.map_values(|t: &str| t@) == split_spec(s@, sep),
{
    let chars = chars_of(s);
    let mut pieces: Vec<&str> = Vec::new();
    let mut start: usize = 0;
    let mut i: usize = 0;
    proof {
        assert(s@.take(0) =~= Seq::<char>::empty());
        assert(pieces@.map_values(|t: &str| t@).push(s@.subrange(0, 0)) =~= seq![
            Seq::<char>::empty(),
        ]);
    }
    while i < chars.len()
        invariant
            chars@ == s@,
            start <= i <= chars.len(),
            split_spec(s@.take(i as int), sep) == pieces@.map_values(|t: &str| t@).push(
                s@.subrange(start as int, i as int),
            ),
        decreases chars.len() - i,
    {
        let ghost pv = pieces@.map_values(|t: &str| t@);
        let ghost cur = s@.subrange(start as int, i as int);
        proof {
            assert(s@.take(i + 1).drop_last() =~= s@.take(i as int));
            assert(s@.take(i + 1).last() == s@[i as int]);
            assert(split_spec(s@.take(i + 1), sep) == if s@[i as int] == sep {
                pv.push(cur).push(Seq::<char>::empty())
            } else {
                pv.push(cur).update(pv.len() as int, cur.push(s@[i as int]))
            });
            assert(pv.push(cur).update(pv.len() as int, cur.push(s@[i as int])) =~= pv.push(
                cur.push(s@[i as int]),
            ));
            assert(s@.subrange(i + 1, i + 1) =~= Seq::<char>::empty());
            assert(s@.subrange(start as int, i + 1) =~= cur.push(s@[i as int]));
        }
        if chars[i] == sep {
            let piece = s.substring_char(start, i);
            proof {
                assert(pieces@.push(piece).map_values(|t: &str| t@) =~= pv.push(piece@));
            }
            pieces.push(piece);
            start = i + 1;
        }
        i = i + 1;
    }
    let last = s.substring_char(start, i);
    proof {
        assert(s@.take(i as int) =~= s@);
        assert(pieces@.push(last).map_values(|t: &str| t@) =~= pieces@.map_values(|t: &str| t@).push(
            last@,
        ));
    }
    pieces.push(last);
    pieces
}

/// What one reading of the screen asks for.
pub enum OcrCommand {
    /// Click the middle of the box at `(x, y)` of size `w` by `h`.
    Click { x: i32, y: i32, w: i32, h: i32 },
    /// Type a word that contains this part.
    Word(String),
    /// Nothing to do.
    Other,
}

/// The pieces of a reading: the trimmed text split at its spaces.
pub open spec fn ocr_tokens(out: Seq<char>) -> Seq<Seq<char>> {
    split_spec(trimmed(out), ' ')
}

/// The four numbers of a click reading all parse.
pub open spec fn click_numbers_parse(t: Seq<Seq<char>>) -> bool {
    &&& t.len() >= 5
    &&& decimal_i32(t[1]) is Some
    &&& decimal_i32(t[2]) is Some
    &&& decimal_i32(t[3]) is Some
    &&& decimal_i32(t[4]) is Some
}

/// The command for a lowercased word part: none when it is empty.
pub fn word_command(word: String) -> (r: Option<OcrCommand>)
    ensures
        word@.len() == 0 ==> r is None,
        word@.len() > 0 ==> (r matches Some(OcrCommand::Word(w)) && w@ == word@),
{
    if word.as_str().is_empty() {
        None
    } else {
        Some(OcrCommand::Word(word))
    }
}

/// Reads the text that the screen reader printed: a number that says what to
/// do, then its arguments, separated by spaces. `2 x y w h` asks for a click,
/// `1 part` for a word that contains `part` (lowercased); any other number
/// asks for nothing. A reading that does not fit gives `None`.
pub fn parse_ocr_output(out: &str) -> (r: Option<OcrCommand>)
    ensures
        ({
            let t = ocr_tokens(out@);
            let op = decimal_i32(t[0]);
            match r {
                None => {
                    ||| op is None
                    ||| (op == Some(2i32) && !click_numbers_parse(t))
                    ||| (op == Some(1i32) && (t.len() < 2 || lowercased(t[1]).len() == 0))
                },
                Some(OcrCommand::Click { x, y, w, h }) => {
                    &&& op == Some(2i32)
                    &&& t.len() >= 5
                    &&& decimal_i32(t[1]) == Some(x)
                    &&& decimal_i32(t[2]) == Some(y)
                    &&& decimal_i32(t[3]) == Some(w)
                    &&& decimal_i32(t[4]) == Some(h)
                },
                Some(OcrCommand::Word(word)) => {
                    &&& op == Some(1i32)
                    &&& t.len() >= 2
                    &&& word@ == lowercased(t[1])
                    &&& word@.len() > 0
                },
                Some(OcrCommand::Other) => op is Some && op != Some(1i32) && op != Some(2i32),
            }
        }),
{
    let trimmed_out = trim_text(out);
    let tokens = split_text(trimmed_out, ' ');
    let ghost t = ocr_tokens(out@);
    proof {
        lemma_split_nonempty(trimmed_out@, ' ');
        assert(tokens@.map_values(|p: &str| p@) == t);
        assert forall|k: int| 0 <= k < tokens.len() implies #[trigger] tokens@[k]@ == t[k] by {
            assert(tokens@.map_values(|p: &str| p@)[k] == tokens@[k]@);
        }
    }
    let op = parse_i32(tokens[0])?;
    if op == 2 {
        if tokens.len() < 5 {
            return None;
        }
        let x = parse_i32(tokens[1])?;
        let y = parse_i32(tokens[2])?;
        let w = parse_i32(tokens[3])?;
        let h = parse_i32(tokens[4])?;
        Some(OcrCommand::Click { x, y, w, h })
    } else if op == 1 {
        if tokens.len() < 2 {
            return None;
        }
        let word = lowercase(tokens[1]);
        word_command(word)
    } else {
        Some(OcrCommand::Other)
    }
}

/// The texts of a list of string slices.
pub open spec fn texts(v: Seq<&str>) -> Seq<Seq<char>> {
    v.map_values(|t: &str| t@)
}

/// `word` may be played for `part`: it contains the trimmed part and has not
/// been played yet.
pub open spec fn is_candidate(word: Seq<char>, part: Seq<char>, seen: Seq<Seq<char>>) -> bool {
    has_substring(word, trimmed(part)) && !seen.contains(word)
}

/// The indices, in increasing order, of the first `n` words that may be
/// played for `part`.
pub open spec fn candidates_spec(words: Seq<Seq<char>>, part: Seq<char>, seen: Seq<Seq<char>>, n: int) -> Seq<usize>
    decreases n,
{
    if n <= 0 {
        Seq::<usize>::empty()
    } else {
        let earlier = candidates_spec(words, part, seen, n - 1);
        if is_candidate(words[n - 1], part, seen) {
            earlier.push((n - 1) as usize)
        } else {
            earlier
        }
    }
}

/// A word is offered exactly when it may be played, each at most once and in
/// the order of the list; in particular a word that was played is not offered.
pub proof fn law_candidates_are_the_playable_words(
    words: Seq<Seq<char>>,
    part: Seq<char>,
    seen: Seq<Seq<char>>,
    n: int,
)
    requires
        0 <= n <= words.len(),
        n <= usize::MAX,
    ensures
        forall|i: int| 0 <= i < n ==> (candidates_spec(words, part, seen, n).contains(i as usize)
            <==> (has_substring(words[i], trimmed(part)) && !seen.contains(words[i]))),
        forall|k: int| 0 <= k < candidates_spec(words, part, seen, n).len() ==>
            #[trigger] candidates_spec(words, part, seen, n)[k] < n,
        forall|j: int, k: int| 0 <= j < k < candidates_spec(words, part, seen, n).len() ==>
            #[trigger] candidates_spec(words, part, seen, n)[j] < #[trigger] candidates_spec(words, part, seen, n)[k],
        forall|i: int| 0 <= i < n && seen.contains(words[i]) ==>
            !candidates_spec(words, part, seen, n).contains(i as usize),
    decreases n,
{
    if n > 0 {
        law_candidates_are_the_playable_words(words, part, seen, n - 1);
        let earlier = candidates_spec(words, part, seen, n - 1);
        let now = candidates_spec(words, part, seen, n);
        assert forall|i: int| 0 <= i < n implies (now.contains(i as usize) <==> is_candidate(words[i], part, seen)) by {
            if i < n - 1 {
                if now.contains(i as usize) && !earlier.contains(i as usize) {
                    let k = choose|k: int| 0 <= k < now.len() && now[k] == i as usize;
                    assert(k == earlier.len());
                }
                if earlier.contains(i as usize) {
                    let k = choose|k: int| 0 <= k < earlier.len() && earlier[k] == i as usize;
                    assert(now[k] == i as usize);
                }
            } else {
                if now.contains(i as usize) && !is_candidate(words[i], part, seen) {
                    let k = choose|k: int| 0 <= k < now.len() && now[k] == i as usize;
                    assert(earlier[k] < n - 1);
                }
                if is_candidate(words[i], part, seen) {
                    assert(now[earlier.len() as int] == i as usize);
                }
            }
        }
    }
}

/// `word` is one of the words already played.
fn was_played(seen: &Vec<&str>, word: &str) -> (r: bool)
    ensures
        r == texts(seen@).contains(word@),
{
    let mut k: usize = 0;
    while k < seen.len()
        invariant
            k <= seen.len(),
            forall|j: int| 0 <= j < k ==> seen@[j]@ != word@,
        decreases seen.len() - k,
    {
        if same_text(seen[k], word) {
            proof {
                assert(texts(seen@)[k as int] == word@);
            }
            return true;
        }
        k = k + 1;
    }
    proof {
        if texts(seen@).contains(word@) {
            let j = choose|j: int| 0 <= j < texts(seen@).len() && texts(seen@)[j] == word@;
            assert(seen@[j]@ == word@);
        }
    }
    false
}

/// The indices, in increasing order, of the words that contain the trimmed
/// `part` and have not been played yet.
pub fn matching_words(words: &Vec<&str>, part: &str, seen: &Vec<&str>) -> (r: Vec<usize>)
    ensures
        r@ == candidates_spec(texts(words@), part@, texts(seen@), words@.len() as int),
        forall|i: int| 0 <= i < words@.len() ==> (r@.contains(i as usize) <==> (
            has_substring(words@[i]@, trimmed(part@)) && !texts(seen@).contains(words@[i]@))),
        forall|k: int| 0 <= k < r@.len() ==> #[trigger] r@[k] < words@.len(),
        forall|j: int, k: int| 0 <= j < k < r@.len() ==> #[trigger] r@[j] < #[trigger] r@[k],
{
    let needle = trim_text(part);
    let mut found: Vec<usize> = Vec::new();
    for i in 0..words.len()
        invariant
            needle@ == trimmed(part@),
            found@ == candidates_spec(texts(words@), part@, texts(seen@), i as int),
    {
        proof {
            assert(texts(words@)[i as int] == words@[i as int]@);
        }
        if contains_text(words[i], needle) && !was_played(seen, words[i]) {
            found.push(i);
        }
    }
    proof {
        law_candidates_are_the_playable_words(texts(words@), part@, texts(seen@), words@.len() as int);
        assert forall|i: int| 0 <= i < words@.len() implies (found@.contains(i as usize) <==> (
            has_substring(words@[i]@, trimmed(part@)) && !texts(seen@).contains(words@[i]@))) by {
            assert(texts(words@)[i] == words@[i]@);
        }
    }
    found
}

/// Calls `rand::Rng::gen_range` on the thread's generator, which hands out a
/// number in `low..high`; which one is left to chance.
#[verifier::external_body]
fn random_index(low: usize, high: usize) -> (r: usize)
    requires
        low < high,
    ensures
        low <= r < high,
{
    rand::thread_rng().gen_range(low..high)
}

/// The candidate that a draw of `draw` from `1..candidates.len()` picks.
pub fn candidate_at_draw(candidates: &Vec<usize>, draw: usize) -> (r: usize)
    requires
        1 <= draw < candidates.len(),
    ensures
        r == candidates@[draw as int],
{
    candidates[draw]
}

/// Picks one of the candidates at random, never the first one: the index is
/// drawn from `1..candidates.len()`.
pub fn pick_word(candidates: &Vec<usize>) -> (r: usize)
    requires
        candidates.len() >= 2,
    ensures
        exists|k: int| 1 <= k < candidates.len() && r == candidates@[k],
{
    let draw = random_index(1, candidates.len());
    candidate_at_draw(candidates, draw)
}

/// The key that types `c`, for the characters that words are made of.
pub open spec fn key_for_char_spec(c: char) -> Option<KeyboardKey> {
    match c {
        'a' => Some(KeyboardKey::A),
        'b' => Some(KeyboardKey::B),
        'c' => Some(KeyboardKey::C),
        'd' => Some(KeyboardKey::D),
        'e' => Some(KeyboardKey::E),
        'f' => Some(KeyboardKey::F),
        'g' => Some(KeyboardKey::G),
        'h' => Some(KeyboardKey::H),
        'i' => Some(KeyboardKey::I),
        'j' => Some(KeyboardKey::J),
        'k' => Some(KeyboardKey::K),
        'l' => Some(KeyboardKey::L),
        'm' => Some(KeyboardKey::M),
        'n' => Some(KeyboardKey::N),
        'o' => Some(KeyboardKey::O),
        'p' => Some(KeyboardKey::P),
        'q' => Some(KeyboardKey::Q),
        'r' => Some(KeyboardKey::R),
        's' => Some(KeyboardKey::S),
        't' => Some(KeyboardKey::T),
        'u' => Some(KeyboardKey::U),
        'v' => Some(KeyboardKey::V),
        'w' => Some(KeyboardKey::W),
        'x' => Some(KeyboardKey::X),
        'y' => Some(KeyboardKey::Y),
        'z' => Some(KeyboardKey::Z),
        ' ' => Some(KeyboardKey::Space),
        '-' => Some(KeyboardKey::Minus),
        '=' => Some(KeyboardKey::Equals),
        '\u{2b50}' => Some(KeyboardKey::Enter),
        _ => None,
    }
}

/// The key that types `c`, for the characters that words are made of.
#[verifier::when_used_as_spec(key_for_char_spec)]
pub fn key_for_char(c: char) -> (r: Option<KeyboardKey>)
    ensures
        r == key_for_char_spec(c),
{
    match c {
        'a' => Some(KeyboardKey::A),
        'b' => Some(KeyboardKey::B),
        'c' => Some(KeyboardKey::C),
        'd' => Some(KeyboardKey::D),
        'e' => Some(KeyboardKey::E),
        'f' => Some(KeyboardKey::F),
        'g' => Some(KeyboardKey::G),
        'h' => Some(KeyboardKey::H),
        'i' => Some(KeyboardKey::I),
        'j' => Some(KeyboardKey::J),
        'k' => Some(KeyboardKey::K),
        'l' => Some(KeyboardKey::L),
        'm' => Some(KeyboardKey::M),
        'n' => Some(KeyboardKey::N),
        'o' => Some(KeyboardKey::O),
        'p' => Some(KeyboardKey::P),
        'q' => Some(KeyboardKey::Q),
        'r' => Some(KeyboardKey::R),
        's' => Some(KeyboardKey::S),
        't' => Some(KeyboardKey::T),
        'u' => Some(KeyboardKey::U),
        'v' => Some(KeyboardKey::V),
        'w' => Some(KeyboardKey::W),
        'x' => Some(KeyboardKey::X),
        'y' => Some(KeyboardKey::Y),
        'z' => Some(KeyboardKey::Z),
        ' ' => Some(KeyboardKey::Space),
        '-' => Some(KeyboardKey::Minus),
        '=' => Some(KeyboardKey::Equals),
        '\u{2b50}' => Some(KeyboardKey::Enter),
        _ => None,
    }
}

/// Each lowercase letter is typed by the key of the same letter: the key's
/// usage code is 0x04 for 'a' and one more for each letter after it.
pub proof fn law_letters_type_their_own_key(c: char)
    requires
        'a' <= c <= 'z',
    ensures
        key_for_char_spec(c) is Some,
        key_for_char_spec(c).unwrap().code() as int == 0x04 + (c as int - 'a' as int),
{
}

/// Space, minus, equals and the star are typed by Space, Minus, Equals and
/// Enter; every other character that is not a lowercase letter has no key.
pub proof fn law_other_characters(c: char)
    ensures
        c == ' ' ==> key_for_char_spec(c) == Some(KeyboardKey::Space),
        c == '-' ==> key_for_char_spec(c) == Some(KeyboardKey::Minus),
        c == '=' ==> key_for_char_spec(c) == Some(KeyboardKey::Equals),
        c == '\u{2b50}' ==> key_for_char_spec(c) == Some(KeyboardKey::Enter),
        !('a' <= c <= 'z') && c != ' ' && c != '-' && c != '=' && c != '\u{2b50}' ==> key_for_char_spec(c) is None,
{
}

/// The keys that type the trimmed `word` and then Enter; or, where a
/// character has no key, the keys of the characters before it.
pub fn keystrokes(word: &str) -> (r: Result<Vec<KeyboardKey>, Vec<KeyboardKey>>)
    ensures
        ({
            let t = trimmed(word@);
            match r {
                Ok(keys) => {
                    &&& keys@.len() == t.len() + 1
                    &&& forall|i: int| 0 <= i < t.len() ==> key_for_char_spec(#[trigger] t[i]) == Some(keys@[i])
                    &&& keys@[t.len() as int] == KeyboardKey::Enter
                },
                Err(typed) => {
                    &&& typed@.len() < t.len()
                    &&& forall|i: int| 0 <= i < typed@.len() ==> key_for_char_spec(#[trigger] t[i]) == Some(typed@[i])
                    &&& key_for_char_spec(t[typed@.len() as int]) is None
                },
            }
        }),
{
    let w = trim_text(word);
    let chars = chars_of(w);
    let mut keys: Vec<KeyboardKey> = Vec::new();
    for i in 0..chars.len()
        invariant
            chars@ == trimmed(word@),
            keys@.len() == i,
            forall|j: int| 0 <= j < i ==> key_for_char_spec(#[trigger] chars@[j]) == Some(keys@[j]),
    {
        match key_for_char(chars[i]) {
            Some(k) => keys.push(k),
            None => return Err(keys),
        }
    }
    keys.push(KeyboardKey::Enter);
    Ok(keys)
}

/// The two reports of a click in the middle of the box at `(x, y)` of size
/// `w` by `h`, 50 below it: the press, which moves to that point (wrapped to
/// 16 bits) with the left button down, then the release, which stays put and
/// lets the button go.
pub fn click_reports(x: i32, y: i32, w: i32, h: i32) -> (r: (MouseReport, MouseReport))
    ensures
        r.0.x as int == wrap_i16(x + div_toward_zero(w as int, 2)),
        r.0.y as int == wrap_i16(y + div_toward_zero(h as int, 2) + 50),
        r.0.held_buttons@ == Set::<u8>::empty().insert(1u8),
        r.0.buttons == 1,
        r.0.wheel == 0,
        r.0.h_wheel == 0,
        r.1.x == 0,
        r.1.y == 0,
        r.1.held_buttons@ == Set::<u8>::empty(),
        r.1.buttons == 0,
        r.1.wheel == 0,
        r.1.h_wheel == 0,
{
    let cx = x as i64 + quotient_toward_zero(w, 2) as i64;
    let cy = y as i64 + quotient_toward_zero(h, 2) as i64 + 50;
    let mut press = MouseReport::new();
    press.x = wrap_to_i16(cx);
    press.y = wrap_to_i16(cy);
    press.button_down(MouseButtons::Left);
    let mut release = MouseReport::new();
    release.x = press.x;
    release.y = press.y;
    release.button_down(MouseButtons::Left);
    release.reset_position();
    release.button_up(MouseButtons::Left);
    proof {
        assert(press.held_buttons@ =~= Set::<u8>::empty().insert(1u8));
        assert(release.held_buttons@ =~= Set::<u8>::empty());
        assert(0u8 | 1u8 == 1u8) by (bit_vector);
        assert(1u8 & !1u8 == 0u8) by (bit_vector);
    }
    (press, release)
}

} // verus!
