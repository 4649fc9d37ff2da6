use vstd::prelude::*;

use crate::text::{is_white_space, push_char, white_space};

verus! {

/// The narrowest the inventory panel gets.
pub const INVENTORY_MIN_WIDTH: usize = 12;

/// The widest the inventory panel gets.
pub const INVENTORY_MAX_WIDTH: usize = 20;

/// Inventory labels longer than this are cut short.
pub const LABEL_MAX_LEN: usize = 20;

/// How many characters of a label that is cut short are kept.
pub const LABEL_KEPT_LEN: usize = 18;

/// Line lengths are only compared with a width below this bound.
const LENGTH_CAP: usize = 65536;

/// The words of a text: its maximal runs of characters that are not white space.
pub open spec fn words_of(s: Seq<char>) -> Seq<Seq<char>>
    decreases s.len(),
{
    if s.len() == 0 {
        Seq::empty()
    } else {
        let w = words_of(s.drop_last());
        let c = s.last();
        if white_space(c) {
            w
        } else if s.len() > 1 && !white_space(s[s.len() - 2]) {
            w.update(w.len() - 1, w.last().push(c))
        } else {
            w.push(seq![c])
        }
    }
}

/// Greedy layout of words into lines of at most `width` characters, each word
/// followed by a space: the lines already finished, and the line being filled.
/// A word that does not fit on the current line starts a new one.
pub open spec fn wrap_words(words: Seq<Seq<char>>, width: nat) -> (Seq<Seq<char>>, Seq<char>)
    decreases words.len(),
{
    if words.len() == 0 {
        (Seq::empty(), Seq::empty())
    } else {
        let (done, line) = wrap_words(words.drop_last(), width);
        let w = words.last();
        if line.len() + w.len() + 1 > width {
            (done.push(line), w.push(' '))
        } else {
            (done, line + w.push(' '))
        }
    }
}

/// The display lines of one paragraph: its wrapped lines, then an empty line.
pub open spec fn paragraph_lines(p: Seq<char>, width: nat) -> Seq<Seq<char>> {
    let (done, line) = wrap_words(words_of(p), width);
    done.push(line).push(Seq::empty())
}

/// The display lines of a list of paragraphs, in order.
pub open spec fn lines_of(ps: Seq<Seq<char>>, width: nat) -> Seq<Seq<char>>
    decreases ps.len(),
{
    if ps.len() == 0 {
        Seq::empty()
    } else {
        lines_of(ps.drop_last(), width) + paragraph_lines(ps.last(), width)
    }
}

/// The length of the longest text in the list, 0 for an empty list.
pub open spec fn longest(v: Seq<Seq<char>>) -> nat
    decreases v.len(),
{
    if v.len() == 0 {
        0
    } else {
        let m = longest(v.drop_last());
        if v.last().len() > m {
            v.last().len()
        } else {
            m
        }
    }
}

/// The width of the inventory panel: two more than its longest item, kept
/// between the narrowest and the widest width.
pub open spec fn inventory_width(v: Seq<Seq<char>>) -> nat {
    let w = longest(v) + 2;
    if w < INVENTORY_MIN_WIDTH {
        INVENTORY_MIN_WIDTH as nat
    } else if w > INVENTORY_MAX_WIDTH {
        INVENTORY_MAX_WIDTH as nat
    } else {
        w as nat
    }
}

/// The label shown for an inventory item: a long name is cut to its first
/// characters followed by `..`.
pub open spec fn item_label(item: Seq<char>) -> Seq<char> {
    if item.len() > LABEL_MAX_LEN {
        item.take(LABEL_KEPT_LEN as int) + seq!['.', '.']
    } else {
        item
    }
}

/// How many history lines show: as many as fit, or all of them.
pub open spec fn shown_count(total: nat, room: nat) -> nat {
    if room < total {
        room
    } else {
        total
    }
}

/// How many of the oldest history lines are skipped so that the window ends
/// `scroll` lines above the bottom, never before the first line.
pub open spec fn skipped_count(total: nat, scroll: nat, room: nat) -> nat {
    let k = total - scroll - shown_count(total, room);
    if k > 0 {
        k as nat
    } else {
        0
    }
}

/// The words of a text.
pub fn split_words(s: &str) -> (r: Vec<String>)
    ensures
        r@.map_values(|w: String| w@) == words_of(s@),
{
    let n = s.unicode_len();
    let mut words: Vec<String> = Vec::new();
    let mut word = String::new();
    let mut in_word = false;
    let mut i: usize = 0;
    while i < n
        invariant
            n == s@.len(),
            i <= n,
            in_word ==> i > 0 && !white_space(s@[i - 1]),
            !in_word ==> i == 0 || white_space(s@[i - 1]),
            in_word ==> word@.len() > 0,
            in_word ==> words@.map_values(|w: String| w@).push(word@) == words_of(s@.take(i as int)),
            !in_word ==> words@.map_values(|w: String| w@) == words_of(s@.take(i as int)),
        decreases n - i,
    {
        let c = s.get_char(i);
        let ghost prev = s@.take(i as int);
        assert(s@.take(i + 1).drop_last() =~= prev);
        if is_white_space(c) {
            if in_word {
                let ghost before = words@;
                let mut done = String::new();
                std::mem::swap(&mut done, &mut word);
                words.push(done);
                assert(words@.map_values(|w: String| w@) =~= before.map_values(|w: String| w@).push(
                    words@.last()@,
                ));
            }
            in_word = false;
        } else {
            if in_word {
                let ghost before = word@;
                let ghost ws = words@.map_values(|w: String| w@);
                push_char(&mut word, c);
                assert(s@.take(i + 1)[i - 1] == s@[i - 1]);
                assert(ws.push(before).update(ws.len() as int, before.push(c)) =~= ws.push(word@));
            } else {
                word = String::new();
                push_char(&mut word, c);
                assert(word@ =~= seq![c]);
            }
            in_word = true;
        }
        i = i + 1;
    }
    assert(s@.take(n as int) =~= s@);
    if in_word {
        let ghost before = words@;
        words.push(word);
        assert(words@.map_values(|w: String| w@) =~= before.map_values(|w: String| w@).push(
            words@.last()@,
        ));
    }
    words
}

/// Length of a text in characters, or `LENGTH_CAP` for a longer one.
fn capped_len(s: &str) -> (r: usize)
    ensures
        r == if s@.len() < LENGTH_CAP { s@.len() } else { LENGTH_CAP as nat },
{
    let n = s.unicode_len();
    if n < LENGTH_CAP {
        n
    } else {
        LENGTH_CAP
    }
}

/// The display lines of one paragraph laid out in `width` columns.
fn wrap_paragraph(p: &str, width: u16) -> (r: Vec<String>)
    ensures
        r@.map_values(|l: String| l@) == paragraph_lines(p@, width as nat),
{
    let words = split_words(p);
    let ghost ws = words@.map_values(|w: String| w@);
    let mut lines: Vec<String> = Vec::new();
    let mut line = String::new();
    let mut line_len: usize = 0;
    let mut k: usize = 0;
    while k < words.len()
        invariant
            k <= words.len(),
            ws == words@.map_values(|w: String| w@),
            ws == words_of(p@),
            line_len == if line@.len() < LENGTH_CAP { line@.len() } else { LENGTH_CAP as nat },
            (lines@.map_values(|l: String| l@), line@) == wrap_words(ws.take(k as int), width as nat),
        decreases words.len() - k,
    {
        let w = &words[k];
        let w_len = capped_len(w.as_str());
        assert(ws.take(k + 1).drop_last() =~= ws.take(k as int));
        assert(ws.take(k + 1).last() == w@);
        let too_long = w_len >= width as usize || line_len + 1 > width as usize - w_len;
        if too_long {
            let ghost before = lines@;
            let mut done = String::new();
            std::mem::swap(&mut done, &mut line);
            lines.push(done);
            assert(lines@.map_values(|l: String| l@) =~= before.map_values(|l: String| l@).push(
                lines@.last()@,
            ));
            line.append(w.as_str());
            push_char(&mut line, ' ');
            line_len = if w_len < LENGTH_CAP { w_len + 1 } else { LENGTH_CAP };
        } else {
            let ghost before = line@;
            line.append(w.as_str());
            push_char(&mut line, ' ');
            assert(line@ =~= before + w@.push(' '));
            line_len = line_len + w_len + 1;
        }
        k = k + 1;
    }
    assert(ws.take(k as int) =~= ws);
    let ghost before = lines@;
    lines.push(line);
    lines.push(String::new());
    assert(lines@.map_values(|l: String| l@) =~= before.map_values(|l: String| l@).push(
        lines@[lines@.len() - 2]@,
    ).push(Seq::empty()));
    lines
}

/// The display lines of the paragraphs laid out in `width` columns: each
/// paragraph's words wrapped greedily, then an empty line.
pub fn paragraph_list_to_lines(paragraphs: &Vec<String>, width: u16) -> (r: Vec<String>)
    ensures
        r@.map_values(|l: String| l@) == lines_of(
            paragraphs@.map_values(|p: String| p@),
            width as nat,
        ),
{
    let ghost ps = paragraphs@.map_values(|p: String| p@);
    let mut lines: Vec<String> = Vec::new();
    let mut i: usize = 0;
    while i < paragraphs.len()
        invariant
            i <= paragraphs.len(),
            ps == paragraphs@.map_values(|p: String| p@),
            lines@.map_values(|l: String| l@) == lines_of(ps.take(i as int), width as nat),
        decreases paragraphs.len() - i,
    {
        let mut more = wrap_paragraph(paragraphs[i].as_str(), width);
        assert(ps.take(i + 1).drop_last() =~= ps.take(i as int));
        let ghost before = lines@;
        let ghost added = more@;
        lines.append(&mut more);
        assert(lines@.map_values(|l: String| l@) =~= before.map_values(|l: String| l@)
            + added.map_values(|l: String| l@));
        i = i + 1;
    }
    assert(ps.take(i as int) =~= ps);
    lines
}

/// The width of the inventory panel for the given items.
pub fn get_inventory_width(inventory: &[String]) -> (r: u16)
    ensures
        r == inventory_width(inventory@.map_values(|s: String| s@)),
{
    let ghost v = inventory@.map_values(|s: String| s@);
    let mut longest_len: usize = 0;
    let mut i: usize = 0;
    while i < inventory.len()
        invariant
            i <= inventory@.len(),
            v == inventory@.map_values(|s: String| s@),
            longest_len == if longest(v.take(i as int)) < LENGTH_CAP {
                longest(v.take(i as int))
            } else {
                LENGTH_CAP as nat
            },
        decreases inventory@.len() - i,
    {
        assert(v.take(i + 1).drop_last() =~= v.take(i as int));
        let n = capped_len(inventory[i].as_str());
        if n > longest_len {
            longest_len = n;
        }
        i = i + 1;
    }
    assert(v.take(i as int) =~= v);
    let w = longest_len + 2;
    if w < INVENTORY_MIN_WIDTH {
        INVENTORY_MIN_WIDTH as u16
    } else if w > INVENTORY_MAX_WIDTH {
        INVENTORY_MAX_WIDTH as u16
    } else {
        w as u16
    }
}

/// The label shown for an inventory item.
pub fn inventory_label(item: &str) -> (r: String)
    ensures
        r@ == item_label(item@),
{
    if item.unicode_len() > LABEL_MAX_LEN {
        let mut label = String::from_str(item.substring_char(0, LABEL_KEPT_LEN));
        push_char(&mut label, '.');
        push_char(&mut label, '.');
        assert(label@ =~= item@.take(LABEL_KEPT_LEN as int) + seq!['.', '.']);
        label
    } else {
        String::from_str(item)
    }
}

/// The window of history lines to show, as the number of lines skipped from
/// the top and the number shown, for `total` lines, `room` rows, and a view
/// `scroll` lines above the bottom.
pub fn history_window(total: usize, scroll: usize, room: usize) -> (r: (usize, usize))
    ensures
        r.0 == skipped_count(total as nat, scroll as nat, room as nat),
        r.1 == shown_count(total as nat, room as nat),
{
    let shown = if room < total {
        room
    } else {
        total
    };
    let skipped = if scroll < total && total - scroll > shown {
        total - scroll - shown
    } else {
        0
    };
    (skipped, shown)
}

} // verus!
