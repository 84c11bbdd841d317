//! Compaction of free text into the seven bytes that one scribble-strip line of a
//! control surface can show.
//!
//! The text is filtered to ASCII letters, digits and separators, split into words,
//! camel-cased, and then the longest word is shortened one step at a time (word and
//! substring abbreviations, doubled consonants, doubled vowels, inner vowels, and as a
//! last resort its final byte) until everything fits in seven bytes.
use vstd::prelude::*;

verus! {

// ---------------------------------------------------------------------------
// Byte classes
// ---------------------------------------------------------------------------

pub open spec fn is_upper(b: u8) -> bool {
    65 <= b && b <= 90
}

pub open spec fn is_lower(b: u8) -> bool {
    97 <= b && b <= 122
}

pub open spec fn is_alpha(b: u8) -> bool {
    is_upper(b) || is_lower(b)
}

pub open spec fn is_digit(b: u8) -> bool {
    48 <= b && b <= 57
}

pub open spec fn is_alnum(b: u8) -> bool {
    is_alpha(b) || is_digit(b)
}

/// `aeiouAEIOU`
pub open spec fn is_vowel(b: u8) -> bool {
    b == 97 || b == 101 || b == 105 || b == 111 || b == 117 || b == 65 || b == 69 || b == 73
        || b == 79 || b == 85
}

/// Space, underscore, period, comma and hyphen end a word.
pub open spec fn is_separator(b: u8) -> bool {
    b == 32 || b == 95 || b == 46 || b == 44 || b == 45
}

/// `<` and `>`
pub open spec fn is_angle(b: u8) -> bool {
    b == 60 || b == 62
}

pub open spec fn to_lower(b: u8) -> u8 {
    if is_upper(b) {
        (b + 32) as u8
    } else {
        b
    }
}

pub open spec fn to_upper(b: u8) -> u8 {
    if is_lower(b) {
        (b - 32) as u8
    } else {
        b
    }
}

pub open spec fn lower_seq(s: Seq<u8>) -> Seq<u8> {
    s.map_values(|b: u8| to_lower(b))
}

// ---------------------------------------------------------------------------
// The algorithm, stated over sequences
// ---------------------------------------------------------------------------

/// Bytes that survive the first filter.
pub open spec fn kept(b: u8, keep_angle: bool) -> bool {
    is_alnum(b) || is_separator(b) || (keep_angle && is_angle(b))
}

pub open spec fn clean(s: Seq<u8>, keep_angle: bool) -> Seq<u8>
    decreases s.len(),
{
    if s.len() == 0 {
        seq![]
    } else {
        let rest = clean(s.drop_last(), keep_angle);
        if kept(s.last(), keep_angle) {
            rest.push(s.last())
        } else {
            rest
        }
    }
}

/// The ASCII bytes of `s`, in order.
pub open spec fn ascii_part(s: Seq<u8>) -> Seq<u8>
    decreases s.len(),
{
    if s.len() == 0 {
        seq![]
    } else {
        let rest = ascii_part(s.drop_last());
        if s.last() < 128 {
            rest.push(s.last())
        } else {
            rest
        }
    }
}

pub open spec fn flush(cur: Seq<u8>) -> Seq<Seq<u8>> {
    if cur.len() == 0 {
        seq![]
    } else {
        seq![cur]
    }
}

/// Words of `s` from position `i` on, `cur` being the word read so far: separators end a
/// word, and every digit is a word of its own.
pub open spec fn words_from(s: Seq<u8>, i: int, cur: Seq<u8>) -> Seq<Seq<u8>>
    decreases s.len() - i,
{
    if i < 0 || i >= s.len() {
        flush(cur)
    } else if is_separator(s[i]) {
        flush(cur) + words_from(s, i + 1, seq![])
    } else if is_digit(s[i]) {
        flush(cur) + seq![seq![s[i]]] + words_from(s, i + 1, seq![])
    } else {
        words_from(s, i + 1, cur.push(s[i]))
    }
}

pub open spec fn split_words(s: Seq<u8>) -> Seq<Seq<u8>> {
    words_from(s, 0, seq![])
}

/// The first word keeps the case of its first byte, later words start upper case; all
/// other bytes are lower case.
pub open spec fn case_word(first: bool, w: Seq<u8>) -> Seq<u8> {
    if w.len() == 0 {
        w
    } else {
        seq![if first { w[0] } else { to_upper(w[0]) }] + lower_seq(w.skip(1))
    }
}

pub open spec fn case_words(ws: Seq<Seq<u8>>) -> Seq<Seq<u8>> {
    Seq::new(ws.len(), |i: int| case_word(i == 0, ws[i]))
}

pub open spec fn concat(ws: Seq<Seq<u8>>) -> Seq<u8>
    decreases ws.len(),
{
    if ws.len() == 0 {
        seq![]
    } else {
        concat(ws.drop_last()) + ws.last()
    }
}

/// Index of the longest of the first `n` words; the last one among equals.
pub open spec fn longest_in(ws: Seq<Seq<u8>>, n: int) -> int
    decreases n,
{
    if n <= 1 {
        0
    } else {
        let j = longest_in(ws, n - 1);
        if ws[n - 1].len() >= ws[j].len() {
            n - 1
        } else {
            j
        }
    }
}

pub open spec fn longest(ws: Seq<Seq<u8>>) -> int {
    longest_in(ws, ws.len() as int)
}

pub open spec fn word_rule_count() -> int {
    15
}

/// Whole-word abbreviations, tried in order.
pub open spec fn word_rule(k: int) -> (Seq<u8>, Seq<u8>) {
    if k == 0 {
        // one -> 1
        (seq![111u8, 110, 101], seq![49u8])
    } else if k == 1 {
        // two -> 2
        (seq![116u8, 119, 111], seq![50u8])
    } else if k == 2 {
        // three -> 3
        (seq![116u8, 104, 114, 101, 101], seq![51u8])
    } else if k == 3 {
        // third -> 3rd
        (seq![116u8, 104, 105, 114, 100], seq![51u8, 114, 100])
    } else if k == 4 {
        // four -> 4
        (seq![102u8, 111, 117, 114], seq![52u8])
    } else if k == 5 {
        // five -> 5
        (seq![102u8, 105, 118, 101], seq![53u8])
    } else if k == 6 {
        // six -> 6
        (seq![115u8, 105, 120], seq![54u8])
    } else if k == 7 {
        // seven -> 7
        (seq![115u8, 101, 118, 101, 110], seq![55u8])
    } else if k == 8 {
        // eighth -> 8th
        (seq![101u8, 105, 103, 104, 116, 104], seq![56u8, 116, 104])
    } else if k == 9 {
        // eight -> 8
        (seq![101u8, 105, 103, 104, 116], seq![56u8])
    } else if k == 10 {
        // nine -> 9
        (seq![110u8, 105, 110, 101], seq![57u8])
    } else if k == 11 {
        // zero -> 0
        (seq![122u8, 101, 114, 111], seq![48u8])
    } else if k == 12 {
        // left -> L
        (seq![108u8, 101, 102, 116], seq![76u8])
    } else if k == 13 {
        // right -> R
        (seq![114u8, 105, 103, 104, 116], seq![82u8])
    } else {
        // center -> C
        (seq![99u8, 101, 110, 116, 101, 114], seq![67u8])
    }
}

pub open spec fn substr_rule_count() -> int {
    26
}

/// Abbreviations of substrings, each applied once (to its first occurrence), in order.
pub open spec fn substr_rule(k: int) -> (Seq<u8>, Seq<u8>) {
    if k == 0 {
        // two -> 2
        (seq![116u8, 119, 111], seq![50u8])
    } else if k == 1 {
        // three -> 3
        (seq![116u8, 104, 114, 101, 101], seq![51u8])
    } else if k == 2 {
        // third -> 3rd
        (seq![116u8, 104, 105, 114, 100], seq![51u8, 114, 100])
    } else if k == 3 {
        // four -> 4
        (seq![102u8, 111, 117, 114], seq![52u8])
    } else if k == 4 {
        // five -> 5
        (seq![102u8, 105, 118, 101], seq![53u8])
    } else if k == 5 {
        // six -> 6
        (seq![115u8, 105, 120], seq![54u8])
    } else if k == 6 {
        // seven -> 7
        (seq![115u8, 101, 118, 101, 110], seq![55u8])
    } else if k == 7 {
        // eighth -> 8th
        (seq![101u8, 105, 103, 104, 116, 104], seq![56u8, 116, 104])
    } else if k == 8 {
        // eight -> 8
        (seq![101u8, 105, 103, 104, 116], seq![56u8])
    } else if k == 9 {
        // nine -> 9
        (seq![110u8, 105, 110, 101], seq![57u8])
    } else if k == 10 {
        // zero -> 0
        (seq![122u8, 101, 114, 111], seq![48u8])
    } else if k == 11 {
        // harmony -> harm
        (seq![104u8, 97, 114, 109, 111, 110, 121], seq![104u8, 97, 114, 109])
    } else if k == 12 {
        // background -> bg
        (
            seq![98u8, 97, 99, 107, 103, 114, 111, 117, 110, 100],
            seq![98u8, 103],
        )
    } else if k == 13 {
        // backup -> bk
        (seq![98u8, 97, 99, 107, 117, 112], seq![98u8, 107])
    } else if k == 14 {
        // overhead -> OH
        (seq![111u8, 118, 101, 114, 104, 101, 97, 100], seq![79u8, 72])
    } else if k == 15 {
        // reverse -> rev
        (seq![114u8, 101, 118, 101, 114, 115, 101], seq![114u8, 101, 118])
    } else if k == 16 {
        // reverb -> rvb
        (seq![114u8, 101, 118, 101, 114, 98], seq![114u8, 118, 98])
    } else if k == 17 {
        // channel -> chan
        (seq![99u8, 104, 97, 110, 110, 101, 108], seq![99u8, 104, 97, 110])
    } else if k == 18 {
        // duplicate -> dup
        (seq![100u8, 117, 112, 108, 105, 99, 97, 116, 101], seq![100u8, 117, 112])
    } else if k == 19 {
        // lead -> ld
        (seq![108u8, 101, 97, 100], seq![108u8, 100])
    } else if k == 20 {
        // clean -> cln
        (seq![99u8, 108, 101, 97, 110], seq![99u8, 108, 110])
    } else if k == 21 {
        // kick -> kik
        (seq![107u8, 105, 99, 107], seq![107u8, 105, 107])
    } else if k == 22 {
        // floor -> flr
        (seq![102u8, 108, 111, 111, 114], seq![102u8, 108, 114])
    } else if k == 23 {
        // hats -> hh
        (seq![104u8, 97, 116, 115], seq![104u8, 104])
    } else if k == 24 {
        // snare -> snr
        (seq![115u8, 110, 97, 114, 101], seq![115u8, 110, 114])
    } else {
        // click -> clk
        (seq![99u8, 108, 105, 99, 107], seq![99u8, 108, 107])
    }
}

/// The abbreviation of the whole word whose lower-case form is `lw`, by the first rule
/// from `k` on that matches it.
pub open spec fn word_replace_from(lw: Seq<u8>, k: int) -> Option<Seq<u8>>
    decreases word_rule_count() - k,
{
    if k < 0 || k >= word_rule_count() {
        None
    } else if lw == word_rule(k).0 {
        Some(word_rule(k).1)
    } else {
        word_replace_from(lw, k + 1)
    }
}

/// First position at or after `p` where `needle` occurs in `hay`.
pub open spec fn find_from(hay: Seq<u8>, needle: Seq<u8>, p: int) -> Option<int>
    decreases hay.len() - p,
{
    if p < 0 || needle.len() == 0 || p + needle.len() > hay.len() {
        None
    } else if hay.subrange(p, p + needle.len()) == needle {
        Some(p)
    } else {
        find_from(hay, needle, p + 1)
    }
}

/// `s` with the `from_len` bytes at `pos` replaced by `to`, whose first byte is made upper
/// case when the byte it replaces was.
pub open spec fn replace_at(s: Seq<u8>, pos: int, from_len: int, to: Seq<u8>) -> Seq<u8> {
    let rep = if is_upper(s[pos]) {
        seq![to_upper(to[0])] + to.skip(1)
    } else {
        to
    };
    s.subrange(0, pos) + rep + s.subrange(pos + from_len, s.len() as int)
}

/// Applies the substring rules from `k` on; the flag tells whether any of them applied.
pub open spec fn substr_pass(s: Seq<u8>, k: int) -> (Seq<u8>, bool)
    decreases substr_rule_count() - k,
{
    if k < 0 || k >= substr_rule_count() {
        (s, false)
    } else {
        let rule = substr_rule(k);
        match find_from(lower_seq(s), rule.0, 0) {
            Some(pos) => {
                let r = substr_pass(replace_at(s, pos, rule.0.len() as int, rule.1), k + 1);
                (r.0, true)
            },
            None => substr_pass(s, k + 1),
        }
    }
}

pub open spec fn in_class(b: u8, vowels: bool) -> bool {
    is_alpha(b) && (if vowels {
        is_vowel(b)
    } else {
        !is_vowel(b)
    })
}

/// Drops every consonant (or vowel) that repeats, case aside, the byte kept before it.
pub open spec fn dedup_from(w: Seq<u8>, i: int, prev: Option<u8>, vowels: bool) -> Seq<u8>
    decreases w.len() - i,
{
    if i < 0 || i >= w.len() {
        seq![]
    } else if in_class(w[i], vowels) && prev == Some(to_lower(w[i])) {
        dedup_from(w, i + 1, prev, vowels)
    } else {
        seq![w[i]] + dedup_from(w, i + 1, Some(to_lower(w[i])), vowels)
    }
}

pub open spec fn dedup(w: Seq<u8>, vowels: bool) -> Seq<u8> {
    dedup_from(w, 0, None, vowels)
}

/// Index of the last vowel among the first `n` bytes that is not the first byte.
pub open spec fn last_inner_vowel(w: Seq<u8>, n: int) -> Option<int>
    decreases n,
{
    if n <= 1 {
        None
    } else if is_vowel(w[n - 1]) {
        Some(n - 1)
    } else {
        last_inner_vowel(w, n - 1)
    }
}

/// One shortening step on a word.
pub open spec fn shorten_word(w: Seq<u8>) -> Seq<u8> {
    match word_replace_from(lower_seq(w), 0) {
        Some(r) => r,
        None => {
            let sp = substr_pass(w, 0);
            if sp.1 {
                sp.0
            } else {
                let dc = dedup(w, false);
                if dc.len() < w.len() {
                    dc
                } else {
                    let dv = dedup(dc, true);
                    if dv.len() < dc.len() {
                        dv
                    } else {
                        match last_inner_vowel(dv, dv.len() as int) {
                            Some(i) => dv.remove(i),
                            None => if dv.len() > 0 {
                                dv.drop_last()
                            } else {
                                dv
                            },
                        }
                    }
                }
            }
        },
    }
}

/// Shortens the longest word, step by step, while the words take more than seven bytes.
pub open spec fn compress(ws: Seq<Seq<u8>>, fuel: nat) -> Seq<Seq<u8>>
    decreases fuel,
{
    if fuel == 0 || concat(ws).len() <= 7 {
        ws
    } else {
        let i = longest(ws);
        compress(ws.update(i, shorten_word(ws[i])), (fuel - 1) as nat)
    }
}

/// Exactly seven bytes: cut or filled with `pad`.
pub open spec fn pad7(s: Seq<u8>, pad: u8) -> Seq<u8> {
    if s.len() >= 7 {
        s.take(7)
    } else {
        s + Seq::new((7 - s.len()) as nat, |i: int| pad)
    }
}

pub open spec fn filled7(pad: u8) -> Seq<u8> {
    Seq::new(7, |i: int| pad)
}

/// The compaction of `bytes`. `keep_angle` keeps `<` and `>`; `pad` fills the result;
/// with `raw_fallback`, text made of separators only is shown as it stands, but for its
/// non-ASCII bytes, which are dropped.
pub open spec fn compact_spec(bytes: Seq<u8>, keep_angle: bool, pad: u8, raw_fallback: bool) -> Seq<
    u8,
> {
    let c = clean(bytes, keep_angle);
    let ws = split_words(c);
    if c.len() == 0 {
        filled7(pad)
    } else if ws.len() == 0 {
        if raw_fallback {
            pad7(ascii_part(bytes), pad)
        } else {
            filled7(pad)
        }
    } else {
        let cw = case_words(ws);
        pad7(concat(compress(cw, concat(cw).len())), pad)
    }
}


// ---------------------------------------------------------------------------
// Executable byte helpers
// ---------------------------------------------------------------------------

pub fn byte_is_upper(b: u8) -> (r: bool)
    ensures
        r == is_upper(b),
{
    65 <= b && b <= 90
}

pub fn byte_is_alpha(b: u8) -> (r: bool)
    ensures
        r == is_alpha(b),
{
    (65 <= b && b <= 90) || (97 <= b && b <= 122)
}

pub fn byte_is_digit(b: u8) -> (r: bool)
    ensures
        r == is_digit(b),
{
    48 <= b && b <= 57
}

pub fn byte_is_vowel(b: u8) -> (r: bool)
    ensures
        r == is_vowel(b),
{
    b == 97 || b == 101 || b == 105 || b == 111 || b == 117 || b == 65 || b == 69 || b == 73
        || b == 79 || b == 85
}

pub fn byte_is_separator(b: u8) -> (r: bool)
    ensures
        r == is_separator(b),
{
    b == 32 || b == 95 || b == 46 || b == 44 || b == 45
}

pub fn byte_to_lower(b: u8) -> (r: u8)
    ensures
        r == to_lower(b),
{
    if 65 <= b && b <= 90 {
        b + 32
    } else {
        b
    }
}

pub fn byte_to_upper(b: u8) -> (r: u8)
    ensures
        r == to_upper(b),
{
    if 97 <= b && b <= 122 {
        b - 32
    } else {
        b
    }
}

fn byte_kept(b: u8, keep_angle: bool) -> (r: bool)
    ensures
        r == kept(b, keep_angle),
{
    (65 <= b && b <= 90) || (97 <= b && b <= 122) || (48 <= b && b <= 57) || byte_is_separator(b)
        || (keep_angle && (b == 60 || b == 62))
}

/// Lower-case copy of `w[from..]`.
fn lower_from(w: &Vec<u8>, from: usize) -> (r: Vec<u8>)
    requires
        from <= w.len(),
    ensures
        r@ == lower_seq(w@.skip(from as int)),
{
    let mut r: Vec<u8> = Vec::new();
    let mut i: usize = from;
    while i < w.len()
        invariant
            from <= i <= w.len(),
            r@ == lower_seq(w@.subrange(from as int, i as int)),
        decreases w.len() - i,
    {
        r.push(byte_to_lower(w[i]));
        i = i + 1;
        assert(r@ =~= lower_seq(w@.subrange(from as int, i as int)));
    }
    assert(w@.subrange(from as int, w.len() as int) =~= w@.skip(from as int));
    r
}

fn seq_eq(a: &Vec<u8>, b: &Vec<u8>) -> (r: bool)
    ensures
        r == (a@ == b@),
{
    if a.len() != b.len() {
        return false;
    }
    let mut i: usize = 0;
    while i < a.len()
        invariant
            a.len() == b.len(),
            0 <= i <= a.len(),
            forall|j: int| 0 <= j < i ==> a@[j] == b@[j],
        decreases a.len() - i,
    {
        if a[i] != b[i] {
            return false;
        }
        i = i + 1;
    }
    assert(a@ =~= b@);
    true
}

// ---------------------------------------------------------------------------
// Cleaning and splitting
// ---------------------------------------------------------------------------

fn clean_bytes(s: &[u8], keep_angle: bool) -> (r: Vec<u8>)
    ensures
        r@ == clean(s@, keep_angle),
{
    let mut r: Vec<u8> = Vec::new();
    let mut i: usize = 0;
    while i < s.len()
        invariant
            0 <= i <= s.len(),
            r@ == clean(s@.subrange(0, i as int), keep_angle),
        decreases s.len() - i,
    {
        let b = s[i];
        assert(s@.subrange(0, i + 1).drop_last() =~= s@.subrange(0, i as int));
        if byte_kept(b, keep_angle) {
            r.push(b);
        }
        i = i + 1;
    }
    assert(s@.subrange(0, s.len() as int) =~= s@);
    r
}

pub open spec fn all_nonempty(ws: Seq<Seq<u8>>) -> bool {
    forall|k: int| 0 <= k < ws.len() ==> (#[trigger] ws[k]).len() > 0
}

pub open spec fn views(v: Seq<Vec<u8>>) -> Seq<Seq<u8>> {
    v.map_values(|w: Vec<u8>| w@)
}

proof fn lemma_all_nonempty_add(a: Seq<Seq<u8>>, b: Seq<Seq<u8>>)
    requires
        all_nonempty(a),
        all_nonempty(b),
    ensures
        all_nonempty(a + b),
{
    assert forall|k: int| 0 <= k < (a + b).len() implies (#[trigger] (a + b)[k]).len() > 0 by {
        if k < a.len() {
            assert((a + b)[k] == a[k]);
        } else {
            assert((a + b)[k] == b[k - a.len()]);
        }
    }
}

proof fn lemma_words_nonempty(s: Seq<u8>, i: int, cur: Seq<u8>)
    ensures
        all_nonempty(words_from(s, i, cur)),
    decreases s.len() - i,
{
    if i < 0 || i >= s.len() {
    } else if is_separator(s[i]) {
        lemma_words_nonempty(s, i + 1, seq![]);
        lemma_all_nonempty_add(flush(cur), words_from(s, i + 1, seq![]));
    } else if is_digit(s[i]) {
        lemma_words_nonempty(s, i + 1, seq![]);
        lemma_all_nonempty_add(flush(cur), seq![seq![s[i]]]);
        lemma_all_nonempty_add(flush(cur) + seq![seq![s[i]]], words_from(s, i + 1, seq![]));
    } else {
        lemma_words_nonempty(s, i + 1, cur.push(s[i]));
    }
}

fn split_into_words(s: &Vec<u8>) -> (r: Vec<Vec<u8>>)
    ensures
        views(r@) == split_words(s@),
        forall|k: int| 0 <= k < r.len() ==> (#[trigger] r@[k]).len() > 0,
{
    let mut r: Vec<Vec<u8>> = Vec::new();
    let mut cur: Vec<u8> = Vec::new();
    let mut i: usize = 0;
    while i < s.len()
        invariant
            0 <= i <= s.len(),
            views(r@) + words_from(s@, i as int, cur@) == split_words(s@),
        decreases s.len() - i,
    {
        let b = s[i];
        let ghost old_r = views(r@);
        let ghost old_cur = cur@;
        if byte_is_separator(b) {
            assert(words_from(s@, i as int, old_cur) == flush(old_cur) + words_from(
                s@,
                i + 1,
                seq![],
            ));
            if cur.len() > 0 {
                let w = cur;
                r.push(w);
                cur = Vec::new();
            }
            assert(views(r@) =~= old_r + flush(old_cur));
            assert(cur@ =~= Seq::<u8>::empty());
            assert(old_r + flush(old_cur) + words_from(s@, i + 1, cur@) =~= old_r + (flush(
                old_cur,
            ) + words_from(s@, i + 1, seq![])));
        } else if byte_is_digit(b) {
            assert(words_from(s@, i as int, old_cur) == flush(old_cur) + seq![seq![b]]
                + words_from(s@, i + 1, seq![]));
            if cur.len() > 0 {
                let w = cur;
                r.push(w);
                cur = Vec::new();
            }
            let mut d: Vec<u8> = Vec::new();
            d.push(b);
            r.push(d);
            assert(views(r@) =~= old_r + flush(old_cur) + seq![seq![b]]);
            assert(cur@ =~= Seq::<u8>::empty());
            assert(old_r + flush(old_cur) + seq![seq![b]] + words_from(s@, i + 1, cur@) =~= old_r
                + (flush(old_cur) + seq![seq![b]] + words_from(s@, i + 1, seq![])));
        } else {
            cur.push(b);
        }
        i = i + 1;
    }
    if cur.len() > 0 {
        let ghost old_r = views(r@);
        let w = cur;
        r.push(w);
        assert(views(r@) =~= old_r + flush(w@));
    } else {
        assert(views(r@) =~= views(r@) + flush(cur@));
    }
    proof {
        lemma_words_nonempty(s@, 0, seq![]);
        assert forall|k: int| 0 <= k < r.len() implies (#[trigger] r@[k]).len() > 0 by {
            assert(views(r@)[k] == r@[k]@);
        }
    }
    r
}


// ---------------------------------------------------------------------------
// Casing, concatenation and the longest word
// ---------------------------------------------------------------------------

fn case_all(ws: &Vec<Vec<u8>>) -> (r: Vec<Vec<u8>>)
    requires
        forall|k: int| 0 <= k < ws.len() ==> (#[trigger] ws@[k]).len() > 0,
    ensures
        views(r@) == case_words(views(ws@)),
{
    let mut r: Vec<Vec<u8>> = Vec::new();
    let mut i: usize = 0;
    while i < ws.len()
        invariant
            0 <= i <= ws.len(),
            forall|k: int| 0 <= k < ws.len() ==> (#[trigger] ws@[k]).len() > 0,
            views(r@) == case_words(views(ws@)).subrange(0, i as int),
        decreases ws.len() - i,
    {
        let w = &ws[i];
        let first = if i == 0 {
            w[0]
        } else {
            byte_to_upper(w[0])
        };
        let mut rest = lower_from(w, 1);
        let mut nw: Vec<u8> = Vec::new();
        nw.push(first);
        nw.append(&mut rest);
        proof {
            assert(views(ws@)[i as int] == w@);
            assert(nw@ =~= case_word(i == 0, w@));
        }
        let ghost old_r = views(r@);
        r.push(nw);
        assert(views(r@) =~= old_r.push(nw@));
        assert(views(r@) =~= case_words(views(ws@)).subrange(0, i + 1));
        i = i + 1;
    }
    assert(views(r@) =~= case_words(views(ws@)));
    r
}

proof fn lemma_concat_push(ws: Seq<Seq<u8>>, w: Seq<u8>)
    ensures
        concat(ws.push(w)) == concat(ws) + w,
{
    assert(ws.push(w).drop_last() =~= ws);
}

proof fn lemma_concat_len_update(ws: Seq<Seq<u8>>, i: int, w: Seq<u8>)
    requires
        0 <= i < ws.len(),
    ensures
        concat(ws.update(i, w)).len() == concat(ws).len() - ws[i].len() + w.len(),
    decreases ws.len(),
{
    if i == ws.len() - 1 {
        assert(ws.update(i, w).drop_last() =~= ws.drop_last());
    } else {
        lemma_concat_len_update(ws.drop_last(), i, w);
        assert(ws.update(i, w).drop_last() =~= ws.drop_last().update(i, w));
    }
}

proof fn lemma_concat_empty_words(ws: Seq<Seq<u8>>)
    requires
        forall|k: int| 0 <= k < ws.len() ==> (#[trigger] ws[k]).len() == 0,
    ensures
        concat(ws).len() == 0,
    decreases ws.len(),
{
    if ws.len() > 0 {
        assert forall|k: int| 0 <= k < ws.drop_last().len() implies (
        #[trigger] ws.drop_last()[k]).len() == 0 by {
            assert(ws.drop_last()[k] == ws[k]);
        }
        lemma_concat_empty_words(ws.drop_last());
    }
}

fn concat_words(ws: &Vec<Vec<u8>>) -> (r: Vec<u8>)
    ensures
        r@ == concat(views(ws@)),
{
    let mut r: Vec<u8> = Vec::new();
    let mut i: usize = 0;
    while i < ws.len()
        invariant
            0 <= i <= ws.len(),
            r@ == concat(views(ws@).subrange(0, i as int)),
        decreases ws.len() - i,
    {
        let ghost old_r = r@;
        r.extend_from_slice(ws[i].as_slice());
        proof {
            let pre = views(ws@).subrange(0, i as int);
            assert(views(ws@).subrange(0, i + 1) =~= pre.push(ws@[i as int]@));
            lemma_concat_push(pre, ws@[i as int]@);
        }
        i = i + 1;
    }
    assert(views(ws@).subrange(0, ws.len() as int) =~= views(ws@));
    r
}

proof fn lemma_longest_in(ws: Seq<Seq<u8>>, n: int)
    requires
        1 <= n <= ws.len(),
    ensures
        0 <= longest_in(ws, n) < n,
        forall|j: int| 0 <= j < n ==> (#[trigger] ws[j]).len() <= ws[longest_in(ws, n)].len(),
    decreases n,
{
    if n > 1 {
        lemma_longest_in(ws, n - 1);
    }
}

fn longest_index(ws: &Vec<Vec<u8>>) -> (r: usize)
    requires
        ws.len() > 0,
    ensures
        r as int == longest(views(ws@)),
        r < ws.len(),
{
    let mut best: usize = 0;
    let mut i: usize = 1;
    while i < ws.len()
        invariant
            1 <= i <= ws.len(),
            best as int == longest_in(views(ws@), i as int),
            best < i,
        decreases ws.len() - i,
    {
        proof {
            lemma_longest_in(views(ws@), i as int);
        }
        if ws[i].len() >= ws[best].len() {
            best = i;
        }
        i = i + 1;
    }
    best
}

// ---------------------------------------------------------------------------
// Rule tables
// ---------------------------------------------------------------------------

fn word_rule_at(k: usize) -> (r: (Vec<u8>, Vec<u8>))
    requires
        k < 15,
    ensures
        r.0@ == word_rule(k as int).0,
        r.1@ == word_rule(k as int).1,
{
    if k == 0 {
        // one -> 1
        let r = (vec![111u8, 110, 101], vec![49u8]);
        assert(r.0@ =~= seq![111u8, 110, 101] && r.1@ =~= seq![49u8]);
        r
    } else if k == 1 {
        // two -> 2
        let r = (vec![116u8, 119, 111], vec![50u8]);
        assert(r.0@ =~= seq![116u8, 119, 111] && r.1@ =~= seq![50u8]);
        r
    } else if k == 2 {
        // three -> 3
        let r = (vec![116u8, 104, 114, 101, 101], vec![51u8]);
        assert(r.0@ =~= seq![116u8, 104, 114, 101, 101] && r.1@ =~= seq![51u8]);
        r
    } else if k == 3 {
        // third -> 3rd
        let r = (vec![116u8, 104, 105, 114, 100], vec![51u8, 114, 100]);
        assert(r.0@ =~= seq![116u8, 104, 105, 114, 100] && r.1@ =~= seq![51u8, 114, 100]);
        r
    } else if k == 4 {
        // four -> 4
        let r = (vec![102u8, 111, 117, 114], vec![52u8]);
        assert(r.0@ =~= seq![102u8, 111, 117, 114] && r.1@ =~= seq![52u8]);
        r
    } else if k == 5 {
        // five -> 5
        let r = (vec![102u8, 105, 118, 101], vec![53u8]);
        assert(r.0@ =~= seq![102u8, 105, 118, 101] && r.1@ =~= seq![53u8]);
        r
    } else if k == 6 {
        // six -> 6
        let r = (vec![115u8, 105, 120], vec![54u8]);
        assert(r.0@ =~= seq![115u8, 105, 120] && r.1@ =~= seq![54u8]);
        r
    } else if k == 7 {
        // seven -> 7
        let r = (vec![115u8, 101, 118, 101, 110], vec![55u8]);
        assert(r.0@ =~= seq![115u8, 101, 118, 101, 110] && r.1@ =~= seq![55u8]);
        r
    } else if k == 8 {
        // eighth -> 8th
        let r = (vec![101u8, 105, 103, 104, 116, 104], vec![56u8, 116, 104]);
        assert(r.0@ =~= seq![101u8, 105, 103, 104, 116, 104] && r.1@ =~= seq![56u8, 116, 104]);
        r
    } else if k == 9 {
        // eight -> 8
        let r = (vec![101u8, 105, 103, 104, 116], vec![56u8]);
        assert(r.0@ =~= seq![101u8, 105, 103, 104, 116] && r.1@ =~= seq![56u8]);
        r
    } else if k == 10 {
        // nine -> 9
        let r = (vec![110u8, 105, 110, 101], vec![57u8]);
        assert(r.0@ =~= seq![110u8, 105, 110, 101] && r.1@ =~= seq![57u8]);
        r
    } else if k == 11 {
        // zero -> 0
        let r = (vec![122u8, 101, 114, 111], vec![48u8]);
        assert(r.0@ =~= seq![122u8, 101, 114, 111] && r.1@ =~= seq![48u8]);
        r
    } else if k == 12 {
        // left -> L
        let r = (vec![108u8, 101, 102, 116], vec![76u8]);
        assert(r.0@ =~= seq![108u8, 101, 102, 116] && r.1@ =~= seq![76u8]);
        r
    } else if k == 13 {
        // right -> R
        let r = (vec![114u8, 105, 103, 104, 116], vec![82u8]);
        assert(r.0@ =~= seq![114u8, 105, 103, 104, 116] && r.1@ =~= seq![82u8]);
        r
    } else {
        // center -> C
        let r = (vec![99u8, 101, 110, 116, 101, 114], vec![67u8]);
        assert(r.0@ =~= seq![99u8, 101, 110, 116, 101, 114] && r.1@ =~= seq![67u8]);
        r
    }
}

fn substr_rule_at(k: usize) -> (r: (Vec<u8>, Vec<u8>))
    requires
        k < 26,
    ensures
        r.0@ == substr_rule(k as int).0,
        r.1@ == substr_rule(k as int).1,
{
    if k == 0 {
        // two -> 2
        let r = (vec![116u8, 119, 111], vec![50u8]);
        assert(r.0@ =~= seq![116u8, 119, 111] && r.1@ =~= seq![50u8]);
        r
    } else if k == 1 {
        // three -> 3
        let r = (vec![116u8, 104, 114, 101, 101], vec![51u8]);
        assert(r.0@ =~= seq![116u8, 104, 114, 101, 101] && r.1@ =~= seq![51u8]);
        r
    } else if k == 2 {
        // third -> 3rd
        let r = (vec![116u8, 104, 105, 114, 100], vec![51u8, 114, 100]);
        assert(r.0@ =~= seq![116u8, 104, 105, 114, 100] && r.1@ =~= seq![51u8, 114, 100]);
        r
    } else if k == 3 {
        // four -> 4
        let r = (vec![102u8, 111, 117, 114], vec![52u8]);
        assert(r.0@ =~= seq![102u8, 111, 117, 114] && r.1@ =~= seq![52u8]);
        r
    } else if k == 4 {
        // five -> 5
        let r = (vec![102u8, 105, 118, 101], vec![53u8]);
        assert(r.0@ =~= seq![102u8, 105, 118, 101] && r.1@ =~= seq![53u8]);
        r
    } else if k == 5 {
        // six -> 6
        let r = (vec![115u8, 105, 120], vec![54u8]);
        assert(r.0@ =~= seq![115u8, 105, 120] && r.1@ =~= seq![54u8]);
        r
    } else if k == 6 {
        // seven -> 7
        let r = (vec![115u8, 101, 118, 101, 110], vec![55u8]);
        assert(r.0@ =~= seq![115u8, 101, 118, 101, 110] && r.1@ =~= seq![55u8]);
        r
    } else if k == 7 {
        // eighth -> 8th
        let r = (vec![101u8, 105, 103, 104, 116, 104], vec![56u8, 116, 104]);
        assert(r.0@ =~= seq![101u8, 105, 103, 104, 116, 104] && r.1@ =~= seq![56u8, 116, 104]);
        r
    } else if k == 8 {
        // eight -> 8
        let r = (vec![101u8, 105, 103, 104, 116], vec![56u8]);
        assert(r.0@ =~= seq![101u8, 105, 103, 104, 116] && r.1@ =~= seq![56u8]);
        r
    } else if k == 9 {
        // nine -> 9
        let r = (vec![110u8, 105, 110, 101], vec![57u8]);
        assert(r.0@ =~= seq![110u8, 105, 110, 101] && r.1@ =~= seq![57u8]);
        r
    } else if k == 10 {
        // zero -> 0
        let r = (vec![122u8, 101, 114, 111], vec![48u8]);
        assert(r.0@ =~= seq![122u8, 101, 114, 111] && r.1@ =~= seq![48u8]);
        r
    } else if k == 11 {
        // harmony -> harm
        let r = (vec![104u8, 97, 114, 109, 111, 110, 121], vec![104u8, 97, 114, 109]);
        assert(r.0@ =~= seq![104u8, 97, 114, 109, 111, 110, 121] && r.1@ =~= seq![104u8, 97, 114, 109]);
        r
    } else if k == 12 {
        // background -> bg
        let r = (vec![98u8, 97, 99, 107, 103, 114, 111, 117, 110, 100], vec![98u8, 103]);
        assert(r.0@ =~= seq![98u8, 97, 99, 107, 103, 114, 111, 117, 110, 100] && r.1@ =~= seq![98u8, 103]);
        r
    } else if k == 13 {
        // backup -> bk
        let r = (vec![98u8, 97, 99, 107, 117, 112], vec![98u8, 107]);
        assert(r.0@ =~= seq![98u8, 97, 99, 107, 117, 112] && r.1@ =~= seq![98u8, 107]);
        r
    } else if k == 14 {
        // overhead -> OH
        let r = (vec![111u8, 118, 101, 114, 104, 101, 97, 100], vec![79u8, 72]);
        assert(r.0@ =~= seq![111u8, 118, 101, 114, 104, 101, 97, 100] && r.1@ =~= seq![79u8, 72]);
        r
    } else if k == 15 {
        // reverse -> rev
        let r = (vec![114u8, 101, 118, 101, 114, 115, 101], vec![114u8, 101, 118]);
        assert(r.0@ =~= seq![114u8, 101, 118, 101, 114, 115, 101] && r.1@ =~= seq![114u8, 101, 118]);
        r
    } else if k == 16 {
        // reverb -> rvb
        let r = (vec![114u8, 101, 118, 101, 114, 98], vec![114u8, 118, 98]);
        assert(r.0@ =~= seq![114u8, 101, 118, 101, 114, 98] && r.1@ =~= seq![114u8, 118, 98]);
        r
    } else if k == 17 {
        // channel -> chan
        let r = (vec![99u8, 104, 97, 110, 110, 101, 108], vec![99u8, 104, 97, 110]);
        assert(r.0@ =~= seq![99u8, 104, 97, 110, 110, 101, 108] && r.1@ =~= seq![99u8, 104, 97, 110]);
        r
    } else if k == 18 {
        // duplicate -> dup
        let r = (vec![100u8, 117, 112, 108, 105, 99, 97, 116, 101], vec![100u8, 117, 112]);
        assert(r.0@ =~= seq![100u8, 117, 112, 108, 105, 99, 97, 116, 101] && r.1@ =~= seq![100u8, 117, 112]);
        r
    } else if k == 19 {
        // lead -> ld
        let r = (vec![108u8, 101, 97, 100], vec![108u8, 100]);
        assert(r.0@ =~= seq![108u8, 101, 97, 100] && r.1@ =~= seq![108u8, 100]);
        r
    } else if k == 20 {
        // clean -> cln
        let r = (vec![99u8, 108, 101, 97, 110], vec![99u8, 108, 110]);
        assert(r.0@ =~= seq![99u8, 108, 101, 97, 110] && r.1@ =~= seq![99u8, 108, 110]);
        r
    } else if k == 21 {
        // kick -> kik
        let r = (vec![107u8, 105, 99, 107], vec![107u8, 105, 107]);
        assert(r.0@ =~= seq![107u8, 105, 99, 107] && r.1@ =~= seq![107u8, 105, 107]);
        r
    } else if k == 22 {
        // floor -> flr
        let r = (vec![102u8, 108, 111, 111, 114], vec![102u8, 108, 114]);
        assert(r.0@ =~= seq![102u8, 108, 111, 111, 114] && r.1@ =~= seq![102u8, 108, 114]);
        r
    } else if k == 23 {
        // hats -> hh
        let r = (vec![104u8, 97, 116, 115], vec![104u8, 104]);
        assert(r.0@ =~= seq![104u8, 97, 116, 115] && r.1@ =~= seq![104u8, 104]);
        r
    } else if k == 24 {
        // snare -> snr
        let r = (vec![115u8, 110, 97, 114, 101], vec![115u8, 110, 114]);
        assert(r.0@ =~= seq![115u8, 110, 97, 114, 101] && r.1@ =~= seq![115u8, 110, 114]);
        r
    } else {
        // click -> clk
        let r = (vec![99u8, 108, 105, 99, 107], vec![99u8, 108, 107]);
        assert(r.0@ =~= seq![99u8, 108, 105, 99, 107] && r.1@ =~= seq![99u8, 108, 107]);
        r
    }
}

// ---------------------------------------------------------------------------
// Shortening one word
// ---------------------------------------------------------------------------

proof fn lemma_word_rules_shrink(k: int)
    requires
        0 <= k < word_rule_count(),
    ensures
        word_rule(k).1.len() < word_rule(k).0.len(),
{
}

proof fn lemma_substr_rules_shape(k: int)
    requires
        0 <= k < substr_rule_count(),
    ensures
        0 < substr_rule(k).1.len() < substr_rule(k).0.len(),
{
}

proof fn lemma_word_replace_shrinks(lw: Seq<u8>, k: int)
    requires
        word_replace_from(lw, k) is Some,
    ensures
        word_replace_from(lw, k).unwrap().len() < lw.len(),
    decreases word_rule_count() - k,
{
    if 0 <= k < word_rule_count() {
        lemma_word_rules_shrink(k);
        if lw != word_rule(k).0 {
            lemma_word_replace_shrinks(lw, k + 1);
        }
    }
}

fn replace_whole_word(w: &Vec<u8>) -> (r: Option<Vec<u8>>)
    ensures
        r is Some <==> word_replace_from(lower_seq(w@), 0) is Some,
        r is Some ==> r.unwrap()@ == word_replace_from(lower_seq(w@), 0).unwrap(),
{
    let lw = lower_from(w, 0);
    assert(w@.skip(0) =~= w@);
    let mut k: usize = 0;
    while k < 15
        invariant
            0 <= k <= 15,
            lw@ == lower_seq(w@),
            word_replace_from(lw@, 0) == word_replace_from(lw@, k as int),
        decreases 15 - k,
    {
        let rule = word_rule_at(k);
        if seq_eq(&lw, &rule.0) {
            return Some(rule.1);
        }
        k = k + 1;
    }
    None
}

proof fn lemma_find_from(hay: Seq<u8>, needle: Seq<u8>, p: int)
    requires
        find_from(hay, needle, p) is Some,
    ensures
        p <= find_from(hay, needle, p).unwrap(),
        find_from(hay, needle, p).unwrap() + needle.len() <= hay.len(),
        needle.len() > 0,
    decreases hay.len() - p,
{
    if !(p < 0 || needle.len() == 0 || p + needle.len() > hay.len()) && hay.subrange(
        p,
        p + needle.len(),
    ) != needle {
        lemma_find_from(hay, needle, p + 1);
    }
}

fn matches_at(hay: &Vec<u8>, needle: &Vec<u8>, p: usize) -> (r: bool)
    requires
        p + needle.len() <= hay.len(),
    ensures
        r == (hay@.subrange(p as int, p + needle.len()) == needle@),
{
    let mut j: usize = 0;
    while j < needle.len()
        invariant
            p + needle.len() <= hay.len(),
            0 <= j <= needle.len(),
            forall|q: int| 0 <= q < j ==> hay@[p + q] == needle@[q],
        decreases needle.len() - j,
    {
        if hay[p + j] != needle[j] {
            assert(hay@.subrange(p as int, p + needle.len())[j as int] != needle@[j as int]);
            return false;
        }
        j = j + 1;
    }
    assert(hay@.subrange(p as int, p + needle.len()) =~= needle@);
    true
}

fn find_first(hay: &Vec<u8>, needle: &Vec<u8>) -> (r: Option<usize>)
    requires
        needle.len() > 0,
    ensures
        r is Some <==> find_from(hay@, needle@, 0) is Some,
        r is Some ==> r.unwrap() as int == find_from(hay@, needle@, 0).unwrap(),
{
    if needle.len() > hay.len() {
        return None;
    }
    let mut p: usize = 0;
    while p <= hay.len() - needle.len()
        invariant
            needle.len() > 0,
            needle.len() <= hay.len(),
            0 <= p <= hay.len() - needle.len() + 1,
            find_from(hay@, needle@, 0) == find_from(hay@, needle@, p as int),
        decreases hay.len() - p,
    {
        if matches_at(hay, needle, p) {
            return Some(p);
        }
        p = p + 1;
    }
    None
}

fn replace_at_exec(s: &Vec<u8>, pos: usize, from_len: usize, to: &Vec<u8>) -> (r: Vec<u8>)
    requires
        pos + from_len <= s.len(),
        pos < s.len(),
        to.len() > 0,
    ensures
        r@ == replace_at(s@, pos as int, from_len as int, to@),
{
    let mut r: Vec<u8> = Vec::new();
    let mut i: usize = 0;
    while i < pos
        invariant
            pos < s.len(),
            0 <= i <= pos,
            r@ == s@.subrange(0, i as int),
        decreases pos - i,
    {
        r.push(s[i]);
        i = i + 1;
        assert(r@ =~= s@.subrange(0, i as int));
    }
    let upper = byte_is_upper(s[pos]);
    let mut j: usize = 0;
    let ghost rep = if is_upper(s@[pos as int]) {
        seq![to_upper(to@[0])] + to@.skip(1)
    } else {
        to@
    };
    while j < to.len()
        invariant
            0 <= j <= to.len(),
            to.len() > 0,
            upper == is_upper(s@[pos as int]),
            rep == (if is_upper(s@[pos as int]) {
                seq![to_upper(to@[0])] + to@.skip(1)
            } else {
                to@
            }),
            r@ == s@.subrange(0, pos as int) + rep.subrange(0, j as int),
        decreases to.len() - j,
    {
        let b = if j == 0 && upper {
            byte_to_upper(to[0])
        } else {
            to[j]
        };
        r.push(b);
        j = j + 1;
        assert(r@ =~= s@.subrange(0, pos as int) + rep.subrange(0, j as int));
    }
    assert(rep.subrange(0, to.len() as int) =~= rep);
    let mut q: usize = pos + from_len;
    while q < s.len()
        invariant
            pos + from_len <= q <= s.len(),
            r@ == s@.subrange(0, pos as int) + rep + s@.subrange(pos + from_len, q as int),
        decreases s.len() - q,
    {
        r.push(s[q]);
        q = q + 1;
        assert(r@ =~= s@.subrange(0, pos as int) + rep + s@.subrange(pos + from_len, q as int));
    }
    r
}

proof fn lemma_substr_pass_len(s: Seq<u8>, k: int)
    ensures
        substr_pass(s, k).0.len() <= s.len(),
        substr_pass(s, k).1 ==> substr_pass(s, k).0.len() < s.len(),
    decreases substr_rule_count() - k,
{
    if 0 <= k < substr_rule_count() {
        let rule = substr_rule(k);
        lemma_substr_rules_shape(k);
        match find_from(lower_seq(s), rule.0, 0) {
            Some(pos) => {
                lemma_find_from(lower_seq(s), rule.0, 0);
                let next = replace_at(s, pos, rule.0.len() as int, rule.1);
                assert(next.len() == s.len() - rule.0.len() + rule.1.len());
                lemma_substr_pass_len(next, k + 1);
            },
            None => {
                lemma_substr_pass_len(s, k + 1);
            },
        }
    }
}

fn substr_replace(w: &Vec<u8>) -> (r: (Vec<u8>, bool))
    ensures
        r.0@ == substr_pass(w@, 0).0,
        r.1 == substr_pass(w@, 0).1,
{
    let mut result: Vec<u8> = w.clone();
    let mut found: bool = false;
    let mut k: usize = 0;
    while k < 26
        invariant
            0 <= k <= 26,
            substr_pass(w@, 0).0 == substr_pass(result@, k as int).0,
            substr_pass(w@, 0).1 == (found || substr_pass(result@, k as int).1),
        decreases 26 - k,
    {
        let rule = substr_rule_at(k);
        let lower = lower_from(&result, 0);
        assert(result@.skip(0) =~= result@);
        proof {
            lemma_substr_rules_shape(k as int);
        }
        match find_first(&lower, &rule.0) {
            Some(pos) => {
                proof {
                    lemma_find_from(lower@, rule.0@, 0);
                }
                result = replace_at_exec(&result, pos, rule.0.len(), &rule.1);
                found = true;
            },
            None => {},
        }
        k = k + 1;
    }
    (result, found)
}

proof fn lemma_dedup_len(w: Seq<u8>, i: int, prev: Option<u8>, vowels: bool)
    requires
        0 <= i <= w.len(),
    ensures
        dedup_from(w, i, prev, vowels).len() <= w.len() - i,
    decreases w.len() - i,
{
    if i < w.len() {
        lemma_dedup_len(w, i + 1, prev, vowels);
        lemma_dedup_len(w, i + 1, Some(to_lower(w[i])), vowels);
    }
}

fn dedup_exec(w: &Vec<u8>, vowels: bool) -> (r: Vec<u8>)
    ensures
        r@ == dedup(w@, vowels),
{
    let mut r: Vec<u8> = Vec::new();
    let mut prev: Option<u8> = None;
    let mut i: usize = 0;
    while i < w.len()
        invariant
            0 <= i <= w.len(),
            r@ + dedup_from(w@, i as int, prev, vowels) == dedup(w@, vowels),
        decreases w.len() - i,
    {
        let b = w[i];
        let lb = byte_to_lower(b);
        let alpha = byte_is_alpha(b);
        let vowel = byte_is_vowel(b);
        let in_cls = alpha && (if vowels {
            vowel
        } else {
            !vowel
        });
        let same = match prev {
            Some(p) => p == lb,
            None => false,
        };
        if in_cls && same {
        } else {
            let ghost old_r = r@;
            r.push(b);
            assert(r@ + dedup_from(w@, i + 1, Some(lb), vowels) =~= old_r + (seq![b]
                + dedup_from(w@, i + 1, Some(lb), vowels)));
            prev = Some(lb);
        }
        i = i + 1;
    }
    assert(r@ + dedup_from(w@, i as int, prev, vowels) =~= r@);
    r
}

proof fn lemma_last_inner_vowel(w: Seq<u8>, n: int)
    requires
        n <= w.len(),
    ensures
        last_inner_vowel(w, n) is Some ==> 1 <= last_inner_vowel(w, n).unwrap() < n,
    decreases n,
{
    if n > 1 && !is_vowel(w[n - 1]) {
        lemma_last_inner_vowel(w, n - 1);
    }
}

fn find_last_inner_vowel(w: &Vec<u8>) -> (r: Option<usize>)
    ensures
        r is Some <==> last_inner_vowel(w@, w.len() as int) is Some,
        r is Some ==> r.unwrap() as int == last_inner_vowel(w@, w.len() as int).unwrap(),
{
    let mut n: usize = w.len();
    while n > 1
        invariant
            0 <= n <= w.len(),
            last_inner_vowel(w@, w.len() as int) == last_inner_vowel(w@, n as int),
        decreases n,
    {
        if byte_is_vowel(w[n - 1]) {
            return Some(n - 1);
        }
        n = n - 1;
    }
    None
}

proof fn lemma_shorten_shrinks(w: Seq<u8>)
    requires
        w.len() > 0,
    ensures
        shorten_word(w).len() < w.len(),
{
    match word_replace_from(lower_seq(w), 0) {
        Some(r) => {
            lemma_word_replace_shrinks(lower_seq(w), 0);
        },
        None => {
            lemma_substr_pass_len(w, 0);
            let dc = dedup(w, false);
            lemma_dedup_len(w, 0, None, false);
            lemma_dedup_len(dc, 0, None, true);
            let dv = dedup(dc, true);
            lemma_last_inner_vowel(dv, dv.len() as int);
        },
    }
}

fn shorten_word_exec(w: &Vec<u8>) -> (r: Vec<u8>)
    ensures
        r@ == shorten_word(w@),
{
    match replace_whole_word(w) {
        Some(r) => {
            return r;
        },
        None => {},
    }
    let sp = substr_replace(w);
    if sp.1 {
        return sp.0;
    }
    let dc = dedup_exec(w, false);
    if dc.len() < w.len() {
        return dc;
    }
    let mut dv = dedup_exec(&dc, true);
    if dv.len() < dc.len() {
        return dv;
    }
    match find_last_inner_vowel(&dv) {
        Some(i) => {
            proof {
                lemma_last_inner_vowel(dv@, dv.len() as int);
            }
            dv.remove(i);
        },
        None => {
            if dv.len() > 0 {
                dv.pop();
            }
        },
    }
    dv
}

// ---------------------------------------------------------------------------
// Compression loop and the whole compaction
// ---------------------------------------------------------------------------

proof fn lemma_longest_nonempty(ws: Seq<Seq<u8>>)
    requires
        concat(ws).len() > 0,
    ensures
        ws.len() > 0,
        ws[longest(ws)].len() > 0,
{
    if ws.len() == 0 {
    } else {
        lemma_longest_in(ws, ws.len() as int);
        if ws[longest(ws)].len() == 0 {
            lemma_concat_empty_words(ws);
        }
    }
}

fn compress_words(ws: Vec<Vec<u8>>) -> (r: Vec<Vec<u8>>)
    ensures
        views(r@) == compress(views(ws@), concat(views(ws@)).len()),
        concat(views(r@)).len() <= 7,
{
    let ghost init = views(ws@);
    let ghost fuel0: nat = concat(init).len();
    let mut cur = ws;
    let mut total: usize = concat_words(&cur).len();
    let ghost mut fuel: nat = fuel0;
    while total > 7
        invariant
            compress(views(cur@), fuel) == compress(init, fuel0),
            total as int == concat(views(cur@)).len(),
            total <= fuel,
        decreases total,
    {
        proof {
            lemma_longest_nonempty(views(cur@));
        }
        let i = longest_index(&cur);
        let old_len = cur[i].len();
        let new_w = shorten_word_exec(&cur[i]);
        let new_len = new_w.len();
        proof {
            assert(views(cur@)[i as int] == cur@[i as int]@);
            lemma_shorten_shrinks(cur@[i as int]@);
            lemma_concat_len_update(views(cur@), i as int, new_w@);
            lemma_concat_len_update(views(cur@), i as int, Seq::<u8>::empty());
            assert(views(cur@.update(i as int, new_w)) =~= views(cur@).update(i as int, new_w@));
        }
        cur.set(i, new_w);
        total = total - (old_len - new_len);
        proof {
            fuel = (fuel - 1) as nat;
        }
    }
    cur
}

fn ascii_bytes(s: &[u8]) -> (r: Vec<u8>)
    ensures
        r@ == ascii_part(s@),
{
    let mut r: Vec<u8> = Vec::new();
    let mut i: usize = 0;
    while i < s.len()
        invariant
            0 <= i <= s.len(),
            r@ == ascii_part(s@.subrange(0, i as int)),
        decreases s.len() - i,
    {
        let b = s[i];
        assert(s@.subrange(0, i + 1).drop_last() =~= s@.subrange(0, i as int));
        if b < 128 {
            r.push(b);
        }
        i = i + 1;
    }
    assert(s@.subrange(0, s.len() as int) =~= s@);
    r
}

fn pad7_exec(s: &[u8], pad: u8) -> (r: Vec<u8>)
    ensures
        r@ == pad7(s@, pad),
        r.len() == 7,
{
    let mut r: Vec<u8> = Vec::new();
    let mut i: usize = 0;
    while i < 7 && i < s.len()
        invariant
            0 <= i <= 7,
            i <= s.len(),
            r@ == s@.subrange(0, i as int),
        decreases 7 - i,
    {
        r.push(s[i]);
        i = i + 1;
        assert(r@ =~= s@.subrange(0, i as int));
    }
    let filled: usize = i;
    while i < 7
        invariant
            filled <= i <= 7,
            filled == (if s.len() >= 7 {
                7
            } else {
                s.len()
            }),
            r@ == s@.subrange(0, filled as int) + Seq::new((i - filled) as nat, |j: int| pad),
        decreases 7 - i,
    {
        r.push(pad);
        i = i + 1;
        assert(r@ =~= s@.subrange(0, filled as int) + Seq::new((i - filled) as nat, |j: int| pad));
    }
    if s.len() >= 7 {
        assert(r@ =~= s@.take(7));
    } else {
        assert(s@.subrange(0, filled as int) =~= s@);
    }
    r
}

fn filled_exec(pad: u8) -> (r: Vec<u8>)
    ensures
        r@ == filled7(pad),
        r.len() == 7,
{
    let r = vec![pad, pad, pad, pad, pad, pad, pad];
    assert(r@ =~= filled7(pad));
    r
}

/// The compaction of `input` (see `compact_spec`): always seven bytes.
pub fn compact_bytes(input: &[u8], keep_angle: bool, pad: u8, raw_fallback: bool) -> (r: Vec<u8>)
    ensures
        r@ == compact_spec(input@, keep_angle, pad, raw_fallback),
        r.len() == 7,
{
    let cleaned = clean_bytes(input, keep_angle);
    if cleaned.len() == 0 {
        return filled_exec(pad);
    }
    let words = split_into_words(&cleaned);
    if words.len() == 0 {
        if raw_fallback {
            let shown = ascii_bytes(input);
            return pad7_exec(shown.as_slice(), pad);
        } else {
            return filled_exec(pad);
        }
    }
    let cased = case_all(&words);
    let compressed = compress_words(cased);
    let flat = concat_words(&compressed);
    pad7_exec(flat.as_slice(), pad)
}

// ---------------------------------------------------------------------------
// Compaction yields ASCII
// ---------------------------------------------------------------------------

/// Every byte is ASCII.
pub open spec fn ascii(s: Seq<u8>) -> bool {
    forall|i: int| 0 <= i < s.len() ==> #[trigger] s[i] < 128
}

/// Every byte of `s` has property `p`.
pub open spec fn sat(s: Seq<u8>, p: spec_fn(u8) -> bool) -> bool {
    forall|i: int| 0 <= i < s.len() ==> #[trigger] p(s[i])
}

pub open spec fn all_sat(ws: Seq<Seq<u8>>, p: spec_fn(u8) -> bool) -> bool {
    forall|j: int| 0 <= j < ws.len() ==> sat(#[trigger] ws[j], p)
}

/// A byte property that every letter and digit has, and that changing case keeps.
pub open spec fn fit(p: spec_fn(u8) -> bool) -> bool {
    &&& forall|b: u8| is_alnum(b) ==> #[trigger] p(b)
    &&& forall|b: u8| #[trigger] p(b) ==> p(to_lower(b)) && p(to_upper(b))
}

proof fn lemma_clean_sat(s: Seq<u8>, keep_angle: bool)
    ensures
        sat(clean(s, keep_angle), |b: u8| b < 128),
        !keep_angle ==> forall|i: int|
            0 <= i < clean(s, keep_angle).len() ==> is_alnum(#[trigger] clean(s, keep_angle)[i])
                || is_separator(clean(s, keep_angle)[i]),
    decreases s.len(),
{
    if s.len() > 0 {
        lemma_clean_sat(s.drop_last(), keep_angle);
        let rest = clean(s.drop_last(), keep_angle);
        if kept(s.last(), keep_angle) {
            assert forall|i: int| 0 <= i < rest.push(s.last()).len() implies (|b: u8| b < 128)(
                #[trigger] rest.push(s.last())[i],
            ) && (!keep_angle ==> is_alnum(rest.push(s.last())[i]) || is_separator(rest.push(s.last())[i])) by {
                if i < rest.len() {
                    assert(rest.push(s.last())[i] == rest[i]);
                }
            }
        }
    }
}

proof fn lemma_all_sat_add(a: Seq<Seq<u8>>, b: Seq<Seq<u8>>, p: spec_fn(u8) -> bool)
    requires
        all_sat(a, p),
        all_sat(b, p),
    ensures
        all_sat(a + b, p),
{
    assert forall|j: int| 0 <= j < (a + b).len() implies sat(#[trigger] (a + b)[j], p) by {
        if j < a.len() {
            assert((a + b)[j] == a[j]);
        } else {
            assert((a + b)[j] == b[j - a.len()]);
        }
    }
}

proof fn lemma_words_sat(s: Seq<u8>, i: int, cur: Seq<u8>, p: spec_fn(u8) -> bool)
    requires
        forall|k: int| 0 <= k < s.len() ==> is_separator(#[trigger] s[k]) || p(s[k]),
        fit(p),
        sat(cur, p),
    ensures
        all_sat(words_from(s, i, cur), p),
    decreases s.len() - i,
{
    if i < 0 || i >= s.len() {
    } else if is_separator(s[i]) {
        lemma_words_sat(s, i + 1, seq![], p);
        lemma_all_sat_add(flush(cur), words_from(s, i + 1, seq![]), p);
    } else if is_digit(s[i]) {
        lemma_words_sat(s, i + 1, seq![], p);
        assert(p(s[i]));
        assert(sat(seq![s[i]], p));
        assert(all_sat(seq![seq![s[i]]], p));
        lemma_all_sat_add(flush(cur), seq![seq![s[i]]], p);
        lemma_all_sat_add(flush(cur) + seq![seq![s[i]]], words_from(s, i + 1, seq![]), p);
    } else {
        assert(p(s[i]));
        assert(sat(cur.push(s[i]), p)) by {
            assert forall|k: int| 0 <= k < cur.push(s[i]).len() implies #[trigger] p(cur.push(s[i])[k]) by {
                if k < cur.len() {
                    assert(cur.push(s[i])[k] == cur[k]);
                }
            }
        }
        lemma_words_sat(s, i + 1, cur.push(s[i]), p);
    }
}

proof fn lemma_case_words_sat(ws: Seq<Seq<u8>>, p: spec_fn(u8) -> bool)
    requires
        all_sat(ws, p),
        fit(p),
    ensures
        all_sat(case_words(ws), p),
{
    assert forall|j: int| 0 <= j < case_words(ws).len() implies sat(#[trigger] case_words(ws)[j], p) by {
        let w = ws[j];
        assert(sat(w, p));
        if w.len() > 0 {
            let c = case_word(j == 0, w);
            assert forall|k: int| 0 <= k < c.len() implies #[trigger] p(c[k]) by {
                if k > 0 {
                    assert(c[k] == to_lower(w[k]));
                    assert(p(w[k]));
                } else {
                    assert(p(w[0]));
                }
            }
        }
    }
}

proof fn lemma_word_replace_sat(lw: Seq<u8>, k: int, p: spec_fn(u8) -> bool)
    requires
        fit(p),
    ensures
        word_replace_from(lw, k) matches Some(r) ==> sat(r, p),
    decreases word_rule_count() - k,
{
    if !(k < 0 || k >= word_rule_count()) {
        let out = word_rule(k).1;
        assert forall|i: int| 0 <= i < out.len() implies #[trigger] p(out[i]) by {
            assert(is_alnum(out[i]));
        }
        if lw != word_rule(k).0 {
            lemma_word_replace_sat(lw, k + 1, p);
        }
    }
}

proof fn lemma_lower_len(s: Seq<u8>)
    ensures
        lower_seq(s).len() == s.len(),
{
}

proof fn lemma_substr_pass_sat(s: Seq<u8>, k: int, p: spec_fn(u8) -> bool)
    requires
        sat(s, p),
        fit(p),
    ensures
        sat(substr_pass(s, k).0, p),
    decreases substr_rule_count() - k,
{
    if !(k < 0 || k >= substr_rule_count()) {
        let rule = substr_rule(k);
        match find_from(lower_seq(s), rule.0, 0) {
            Some(pos) => {
                lemma_find_from(lower_seq(s), rule.0, 0);
                lemma_lower_len(s);
                lemma_substr_rules_shape(k);
                let t = replace_at(s, pos, rule.0.len() as int, rule.1);
                assert forall|i: int| 0 <= i < rule.1.len() implies #[trigger] p(rule.1[i]) by {
                    assert(is_alnum(rule.1[i]));
                }
                let rep = if is_upper(s[pos]) {
                    seq![to_upper(rule.1[0])] + rule.1.skip(1)
                } else {
                    rule.1
                };
                assert(p(rule.1[0]));
                assert forall|i: int| 0 <= i < rep.len() implies #[trigger] p(rep[i]) by {
                    if is_upper(s[pos]) && i > 0 {
                        assert(rep[i] == rule.1[i]);
                    }
                }
                assert forall|i: int| 0 <= i < t.len() implies #[trigger] p(t[i]) by {
                    if i < pos {
                        assert(t[i] == s[i]);
                    } else if i < pos + rep.len() {
                        assert(t[i] == rep[i - pos]);
                    } else {
                        assert(t[i] == s[i - pos - rep.len() + pos + rule.0.len()]);
                    }
                }
                lemma_substr_pass_sat(t, k + 1, p);
            },
            None => {
                lemma_substr_pass_sat(s, k + 1, p);
            },
        }
    }
}

proof fn lemma_dedup_sat(w: Seq<u8>, i: int, prev: Option<u8>, vowels: bool, p: spec_fn(u8) -> bool)
    requires
        sat(w, p),
    ensures
        sat(dedup_from(w, i, prev, vowels), p),
    decreases w.len() - i,
{
    if !(i < 0 || i >= w.len()) {
        if in_class(w[i], vowels) && prev == Some(to_lower(w[i])) {
            lemma_dedup_sat(w, i + 1, prev, vowels, p);
        } else {
            lemma_dedup_sat(w, i + 1, Some(to_lower(w[i])), vowels, p);
            let rest = dedup_from(w, i + 1, Some(to_lower(w[i])), vowels);
            assert forall|k: int| 0 <= k < (seq![w[i]] + rest).len() implies #[trigger] p(
                (seq![w[i]] + rest)[k],
            ) by {
                if k > 0 {
                    assert((seq![w[i]] + rest)[k] == rest[k - 1]);
                }
            }
        }
    }
}

proof fn lemma_shorten_sat(w: Seq<u8>, p: spec_fn(u8) -> bool)
    requires
        sat(w, p),
        fit(p),
    ensures
        sat(shorten_word(w), p),
{
    lemma_word_replace_sat(lower_seq(w), 0, p);
    lemma_substr_pass_sat(w, 0, p);
    lemma_dedup_sat(w, 0, None, false, p);
    let dc = dedup(w, false);
    lemma_dedup_sat(dc, 0, None, true, p);
    let dv = dedup(dc, true);
    lemma_last_inner_vowel(dv, dv.len() as int);
    match last_inner_vowel(dv, dv.len() as int) {
        Some(i) => {
            assert forall|k: int| 0 <= k < dv.remove(i).len() implies #[trigger] p(dv.remove(i)[k]) by {
                if k < i {
                    assert(dv.remove(i)[k] == dv[k]);
                } else {
                    assert(dv.remove(i)[k] == dv[k + 1]);
                }
            }
        },
        None => {
            if dv.len() > 0 {
                assert forall|k: int| 0 <= k < dv.drop_last().len() implies #[trigger] p(
                    dv.drop_last()[k],
                ) by {
                    assert(dv.drop_last()[k] == dv[k]);
                }
            }
        },
    }
}

proof fn lemma_compress_sat(ws: Seq<Seq<u8>>, fuel: nat, p: spec_fn(u8) -> bool)
    requires
        all_sat(ws, p),
        fit(p),
    ensures
        all_sat(compress(ws, fuel), p),
    decreases fuel,
{
    if !(fuel == 0 || concat(ws).len() <= 7) {
        if ws.len() == 0 {
            assert(concat(ws) =~= Seq::<u8>::empty());
        } else {
            lemma_longest_in(ws, ws.len() as int);
            let i = longest(ws);
            lemma_shorten_sat(ws[i], p);
            let next = ws.update(i, shorten_word(ws[i]));
            assert forall|j: int| 0 <= j < next.len() implies sat(#[trigger] next[j], p) by {
                if j != i {
                    assert(next[j] == ws[j]);
                }
            }
            lemma_compress_sat(next, (fuel - 1) as nat, p);
        }
    }
}

proof fn lemma_concat_sat(ws: Seq<Seq<u8>>, p: spec_fn(u8) -> bool)
    requires
        all_sat(ws, p),
    ensures
        sat(concat(ws), p),
    decreases ws.len(),
{
    if ws.len() > 0 {
        let front = ws.drop_last();
        assert(all_sat(front, p)) by {
            assert forall|j: int| 0 <= j < front.len() implies sat(#[trigger] front[j], p) by {
                assert(front[j] == ws[j]);
            }
        }
        lemma_concat_sat(front, p);
        let a = concat(front);
        let b = ws.last();
        assert(sat(b, p));
        assert forall|i: int| 0 <= i < (a + b).len() implies #[trigger] p((a + b)[i]) by {
            if i < a.len() {
                assert((a + b)[i] == a[i]);
            } else {
                assert((a + b)[i] == b[i - a.len()]);
            }
        }
    }
}

/// The words of cleaned text, cased and compressed, then joined: every byte has `p`
/// when every byte of the cleaned text is a separator or has `p`.
proof fn lemma_joined_sat(c: Seq<u8>, p: spec_fn(u8) -> bool)
    requires
        forall|k: int| 0 <= k < c.len() ==> is_separator(#[trigger] c[k]) || p(c[k]),
        fit(p),
    ensures
        sat(
            concat(compress(case_words(split_words(c)), concat(case_words(split_words(c))).len())),
            p,
        ),
{
    let ws = split_words(c);
    lemma_words_sat(c, 0, seq![], p);
    lemma_case_words_sat(ws, p);
    let cw = case_words(ws);
    lemma_compress_sat(cw, concat(cw).len(), p);
    lemma_concat_sat(compress(cw, concat(cw).len()), p);
}

proof fn lemma_pad7_ascii(s: Seq<u8>, pad: u8)
    requires
        pad < 128,
        forall|i: int| 0 <= i < s.len() && i < 7 ==> #[trigger] s[i] < 128,
    ensures
        ascii(pad7(s, pad)),
{
    let r = pad7(s, pad);
    assert forall|i: int| 0 <= i < r.len() implies #[trigger] r[i] < 128 by {
        if s.len() < 7 && i >= s.len() {
            assert(r[i] == pad);
        } else {
            assert(r[i] == s[i]);
        }
    }
}

pub proof fn lemma_compaction_len(bytes: Seq<u8>, keep_angle: bool, pad: u8, raw_fallback: bool)
    ensures
        compact_spec(bytes, keep_angle, pad, raw_fallback).len() == 7,
{
}

proof fn lemma_ascii_part(s: Seq<u8>)
    ensures
        ascii(ascii_part(s)),
    decreases s.len(),
{
    if s.len() > 0 {
        lemma_ascii_part(s.drop_last());
        let rest = ascii_part(s.drop_last());
        if s.last() < 128 {
            assert forall|i: int| 0 <= i < rest.push(s.last()).len() implies #[trigger] rest.push(
                s.last(),
            )[i] < 128 by {
                if i < rest.len() {
                    assert(rest.push(s.last())[i] == rest[i]);
                }
            }
        }
    }
}

/// Compaction gives ASCII bytes, padding included.
pub proof fn lemma_compaction_ascii(bytes: Seq<u8>, keep_angle: bool, pad: u8, raw_fallback: bool)
    requires
        pad < 128,
    ensures
        ascii(compact_spec(bytes, keep_angle, pad, raw_fallback)),
{
    let c = clean(bytes, keep_angle);
    lemma_clean_sat(bytes, keep_angle);
    assert forall|k: int| 0 <= k < c.len() implies is_separator(#[trigger] c[k]) || (|b: u8| b < 128)(c[k]) by {
        assert((|b: u8| b < 128)(c[k]));
    }
    let ws = split_words(c);
    if c.len() == 0 {
        lemma_pad7_ascii(Seq::<u8>::empty(), pad);
        assert(filled7(pad) =~= pad7(Seq::<u8>::empty(), pad));
    } else if ws.len() == 0 {
        if raw_fallback {
            lemma_ascii_part(bytes);
            lemma_pad7_ascii(ascii_part(bytes), pad);
        } else {
            lemma_pad7_ascii(Seq::<u8>::empty(), pad);
            assert(filled7(pad) =~= pad7(Seq::<u8>::empty(), pad));
        }
    } else {
        let p = |b: u8| b < 128;
        lemma_joined_sat(c, p);
        let cw = case_words(ws);
        let out = concat(compress(cw, concat(cw).len()));
        assert(sat(out, p));
        assert forall|i: int| 0 <= i < out.len() && i < 7 implies #[trigger] out[i] < 128 by {
            assert(p(out[i]));
        }
        lemma_pad7_ascii(out, pad);
    }
}

// ---------------------------------------------------------------------------
// The shape of a compaction without angle brackets
// ---------------------------------------------------------------------------

/// The first `k` of the seven bytes are letters or digits, the others zero bytes.
pub open spec fn zeros_from(r: Seq<u8>, k: int) -> bool {
    &&& 0 <= k <= 7
    &&& forall|j: int| 0 <= j < k ==> is_alnum(#[trigger] r[j])
    &&& forall|j: int| k <= j < 7 ==> #[trigger] r[j] == 0
}

/// Seven bytes: letters and digits up to some point, zero bytes from there on.
pub open spec fn alnum_then_zeros(r: Seq<u8>) -> bool {
    &&& r.len() == 7
    &&& exists|k: int| #[trigger] zeros_from(r, k)
}

/// Without angle brackets kept, a word is made of letters and digits only.
proof fn lemma_joined_alnum(bytes: Seq<u8>)
    ensures
        ({
            let c = clean(bytes, false);
            let cw = case_words(split_words(c));
            forall|i: int|
                0 <= i < concat(compress(cw, concat(cw).len())).len() ==> is_alnum(
                    #[trigger] concat(compress(cw, concat(cw).len()))[i],
                )
        }),
{
    let c = clean(bytes, false);
    lemma_clean_sat(bytes, false);
    let p = |b: u8| is_alnum(b);
    assert forall|k: int| 0 <= k < c.len() implies is_separator(#[trigger] c[k]) || p(c[k]) by {}
    lemma_joined_sat(c, p);
    let cw = case_words(split_words(c));
    let out = concat(compress(cw, concat(cw).len()));
    assert forall|i: int| 0 <= i < out.len() implies is_alnum(#[trigger] out[i]) by {
        assert(p(out[i]));
    }
}

proof fn lemma_pad7_zeros(out: Seq<u8>)
    requires
        forall|i: int| 0 <= i < out.len() ==> is_alnum(#[trigger] out[i]),
    ensures
        alnum_then_zeros(pad7(out, 0)),
{
    let r = pad7(out, 0);
    let k: int = if out.len() >= 7 { 7 } else { out.len() as int };
    assert forall|j: int| 0 <= j < k implies is_alnum(#[trigger] r[j]) by {
        assert(r[j] == out[j]);
    }
    assert forall|j: int| k <= j < 7 implies #[trigger] r[j] == 0 by {}
    assert(zeros_from(r, k));
}

/// The compaction that keeps no angle brackets and pads with zero bytes gives letters
/// and digits followed by zero bytes, whatever the input.
pub proof fn lemma_zero_padded_shape(bytes: Seq<u8>)
    ensures
        alnum_then_zeros(compact_spec(bytes, false, 0, false)),
{
    let c = clean(bytes, false);
    let ws = split_words(c);
    if c.len() == 0 || ws.len() == 0 {
        lemma_pad7_zeros(Seq::<u8>::empty());
        assert(filled7(0) =~= pad7(Seq::<u8>::empty(), 0));
    } else {
        lemma_joined_alnum(bytes);
        let cw = case_words(ws);
        lemma_pad7_zeros(concat(compress(cw, concat(cw).len())));
    }
}

/// Text without angle brackets cleans the same whether they would be kept or not.
proof fn lemma_clean_without_angles(s: Seq<u8>)
    requires
        forall|i: int| 0 <= i < s.len() ==> !is_angle(#[trigger] s[i]),
    ensures
        clean(s, true) == clean(s, false),
    decreases s.len(),
{
    if s.len() > 0 {
        lemma_clean_without_angles(s.drop_last());
        assert(!is_angle(s[s.len() - 1]));
    }
}

/// Cleaning keeps every letter and digit.
proof fn lemma_clean_keeps_alnum(s: Seq<u8>, keep_angle: bool)
    requires
        exists|i: int| 0 <= i < s.len() && is_alnum(#[trigger] s[i]),
    ensures
        exists|i: int| 0 <= i < clean(s, keep_angle).len() && is_alnum(#[trigger] clean(s, keep_angle)[i]),
    decreases s.len(),
{
    let c = clean(s, keep_angle);
    let rest = clean(s.drop_last(), keep_angle);
    if is_alnum(s.last()) {
        assert(c == rest.push(s.last()));
        assert(is_alnum(c[c.len() - 1]));
    } else {
        let i = choose|i: int| 0 <= i < s.len() && is_alnum(#[trigger] s[i]);
        assert(i < s.len() - 1);
        assert(s.drop_last()[i] == s[i]);
        lemma_clean_keeps_alnum(s.drop_last(), keep_angle);
        let j = choose|j: int| 0 <= j < rest.len() && is_alnum(#[trigger] rest[j]);
        if kept(s.last(), keep_angle) {
            assert(c[j] == rest[j]);
        }
    }
}

/// A letter or digit at or after `i` (or a word begun) makes at least one word.
proof fn lemma_words_from_nonempty(s: Seq<u8>, i: int, cur: Seq<u8>)
    requires
        0 <= i,
        cur.len() > 0 || exists|k: int| i <= k < s.len() && is_alnum(#[trigger] s[k]),
    ensures
        words_from(s, i, cur).len() > 0,
    decreases s.len() - i,
{
    if i >= s.len() {
    } else if is_separator(s[i]) {
        if cur.len() == 0 {
            let k = choose|k: int| i <= k < s.len() && is_alnum(#[trigger] s[k]);
            assert(k != i);
            lemma_words_from_nonempty(s, i + 1, seq![]);
        }
    } else if is_digit(s[i]) {
    } else {
        lemma_words_from_nonempty(s, i + 1, cur.push(s[i]));
    }
}

/// Text with a letter or digit and no angle bracket compacts to the same bytes for the
/// V1-M (angle brackets kept, space padding) and for the X-Touch (zero padding), but
/// for the padding byte.
pub proof fn lemma_compactions_agree(bytes: Seq<u8>)
    requires
        exists|i: int| 0 <= i < bytes.len() && is_alnum(#[trigger] bytes[i]),
        forall|i: int| 0 <= i < bytes.len() ==> !is_angle(#[trigger] bytes[i]),
    ensures
        ({
            let v = compact_spec(bytes, true, 32, true);
            let x = compact_spec(bytes, false, 0, false);
            &&& v.len() == 7 && x.len() == 7
            &&& forall|j: int| 0 <= j < 7 ==> #[trigger] v[j] == if x[j] == 0 { 32u8 } else { x[j] }
        }),
{
    lemma_clean_without_angles(bytes);
    lemma_clean_keeps_alnum(bytes, false);
    let c = clean(bytes, false);
    lemma_words_from_nonempty(c, 0, seq![]);
    lemma_joined_alnum(bytes);
    let cw = case_words(split_words(c));
    let out = concat(compress(cw, concat(cw).len()));
    let v = compact_spec(bytes, true, 32, true);
    let x = compact_spec(bytes, false, 0, false);
    assert(v == pad7(out, 32));
    assert(x == pad7(out, 0));
    assert forall|j: int| 0 <= j < 7 implies #[trigger] v[j] == if x[j] == 0 { 32u8 } else { x[j] } by {
        if j < out.len() {
            assert(is_alnum(out[j]));
        }
    }
}

/// A word is abbreviated as a whole, whatever its case, by a fixed table: the numbers one
/// to nine and zero become digits, "third" and "eighth" become "3rd" and "8th", and
/// "left", "right" and "center" become "L", "R" and "C".
pub proof fn law_whole_word_abbreviations(w: Seq<u8>)
    ensures
        lower_seq(w) == seq![111u8, 110, 101] ==> shorten_word(w) == seq![49u8],
        lower_seq(w) == seq![116u8, 119, 111] ==> shorten_word(w) == seq![50u8],
        lower_seq(w) == seq![116u8, 104, 114, 101, 101] ==> shorten_word(w) == seq![51u8],
        lower_seq(w) == seq![116u8, 104, 105, 114, 100] ==> shorten_word(w) == seq![51u8, 114, 100],
        lower_seq(w) == seq![102u8, 111, 117, 114] ==> shorten_word(w) == seq![52u8],
        lower_seq(w) == seq![102u8, 105, 118, 101] ==> shorten_word(w) == seq![53u8],
        lower_seq(w) == seq![115u8, 105, 120] ==> shorten_word(w) == seq![54u8],
        lower_seq(w) == seq![115u8, 101, 118, 101, 110] ==> shorten_word(w) == seq![55u8],
        lower_seq(w) == seq![101u8, 105, 103, 104, 116, 104] ==> shorten_word(w) == seq![56u8, 116, 104],
        lower_seq(w) == seq![101u8, 105, 103, 104, 116] ==> shorten_word(w) == seq![56u8],
        lower_seq(w) == seq![110u8, 105, 110, 101] ==> shorten_word(w) == seq![57u8],
        lower_seq(w) == seq![122u8, 101, 114, 111] ==> shorten_word(w) == seq![48u8],
        lower_seq(w) == seq![108u8, 101, 102, 116] ==> shorten_word(w) == seq![76u8],
        lower_seq(w) == seq![114u8, 105, 103, 104, 116] ==> shorten_word(w) == seq![82u8],
        lower_seq(w) == seq![99u8, 101, 110, 116, 101, 114] ==> shorten_word(w) == seq![67u8],
{
    reveal_with_fuel(word_replace_from, 16);
}

/// The substring abbreviations, in the order in which they are tried: the number words
/// two to nine and zero become digits ("third" and "eighth" become "3rd" and "8th"), then
/// harmony, background, backup, overhead, reverse, reverb, channel, duplicate, lead,
/// clean, kick, floor, hats, snare and click become harm, bg, bk, OH, rev, rvb, chan, dup,
/// ld, cln, kik, flr, hh, snr and clk; each is applied to its first occurrence.
pub proof fn law_substring_abbreviations()
    ensures
        substr_rule(0) == (seq![116u8, 119, 111], seq![50u8]),
        substr_rule(1) == (seq![116u8, 104, 114, 101, 101], seq![51u8]),
        substr_rule(2) == (seq![116u8, 104, 105, 114, 100], seq![51u8, 114, 100]),
        substr_rule(3) == (seq![102u8, 111, 117, 114], seq![52u8]),
        substr_rule(4) == (seq![102u8, 105, 118, 101], seq![53u8]),
        substr_rule(5) == (seq![115u8, 105, 120], seq![54u8]),
        substr_rule(6) == (seq![115u8, 101, 118, 101, 110], seq![55u8]),
        substr_rule(7) == (seq![101u8, 105, 103, 104, 116, 104], seq![56u8, 116, 104]),
        substr_rule(8) == (seq![101u8, 105, 103, 104, 116], seq![56u8]),
        substr_rule(9) == (seq![110u8, 105, 110, 101], seq![57u8]),
        substr_rule(10) == (seq![122u8, 101, 114, 111], seq![48u8]),
        substr_rule(11) == (seq![104u8, 97, 114, 109, 111, 110, 121], seq![104u8, 97, 114, 109]),
        substr_rule(12) == (seq![98u8, 97, 99, 107, 103, 114, 111, 117, 110, 100], seq![98u8, 103]),
        substr_rule(13) == (seq![98u8, 97, 99, 107, 117, 112], seq![98u8, 107]),
        substr_rule(14) == (seq![111u8, 118, 101, 114, 104, 101, 97, 100], seq![79u8, 72]),
        substr_rule(15) == (seq![114u8, 101, 118, 101, 114, 115, 101], seq![114u8, 101, 118]),
        substr_rule(16) == (seq![114u8, 101, 118, 101, 114, 98], seq![114u8, 118, 98]),
        substr_rule(17) == (seq![99u8, 104, 97, 110, 110, 101, 108], seq![99u8, 104, 97, 110]),
        substr_rule(18) == (seq![100u8, 117, 112, 108, 105, 99, 97, 116, 101], seq![100u8, 117, 112]),
        substr_rule(19) == (seq![108u8, 101, 97, 100], seq![108u8, 100]),
        substr_rule(20) == (seq![99u8, 108, 101, 97, 110], seq![99u8, 108, 110]),
        substr_rule(21) == (seq![107u8, 105, 99, 107], seq![107u8, 105, 107]),
        substr_rule(22) == (seq![102u8, 108, 111, 111, 114], seq![102u8, 108, 114]),
        substr_rule(23) == (seq![104u8, 97, 116, 115], seq![104u8, 104]),
        substr_rule(24) == (seq![115u8, 110, 97, 114, 101], seq![115u8, 110, 114]),
        substr_rule(25) == (seq![99u8, 108, 105, 99, 107], seq![99u8, 108, 107]),
{
}

} // verus!
