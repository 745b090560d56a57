//! Laws of the normal form of shortcuts.
use vstd::prelude::*;
use vstd::utf8::is_ascii_chars;
use crate::shortcut::{
    is_one_byte, join_parts, law_spacing_ignored, lemma_split_parts_nonempty, lowercased,
    normalized_key, normalized_shortcut, split_parts,
};
use crate::text::{
    ascii_lower_char, ascii_lowercase, is_trimmed, is_white_space, no_plus, trim_end, trim_start,
    trimmed,
};

verus! {

/// Lowering a character keeps it ASCII, keeps `+` and white space what they
/// are, and lowering twice is lowering once.
proof fn lemma_ascii_lower_char(c: char)
    ensures
        ('\0' <= c <= '\u{7f}') ==> ('\0' <= ascii_lower_char(c) <= '\u{7f}'),
        (ascii_lower_char(c) == '+') == (c == '+'),
        is_white_space(ascii_lower_char(c)) == is_white_space(c),
        ascii_lower_char(ascii_lower_char(c)) == ascii_lower_char(c),
{
}


/// Lowering a text keeps its length and its ASCII-ness, keeps `+`, white
/// space and trimming where they are, and lowering twice is lowering once.
proof fn lemma_ascii_lowercase(s: Seq<char>)
    ensures
        ascii_lowercase(s).len() == s.len(),
        is_ascii_chars(s) ==> is_ascii_chars(ascii_lowercase(s)),
        no_plus(s) ==> no_plus(ascii_lowercase(s)),
        is_trimmed(s) ==> is_trimmed(ascii_lowercase(s)),
        ascii_lowercase(ascii_lowercase(s)) == ascii_lowercase(s),
{
    let l = ascii_lowercase(s);
    assert forall|i: int| 0 <= i < s.len() implies {
        &&& ('\0' <= s[i] <= '\u{7f}') ==> ('\0' <= #[trigger] l[i] <= '\u{7f}')
        &&& (l[i] == '+') == (s[i] == '+')
        &&& is_white_space(l[i]) == is_white_space(s[i])
        &&& ascii_lower_char(l[i]) == l[i]
    } by {
        lemma_ascii_lower_char(s[i]);
    }
    assert(ascii_lowercase(l) =~= l);
}

/// The pieces of a text have no `+`, and are ASCII when the text is.
proof fn lemma_split_pieces(s: Seq<char>)
    ensures
        forall|i: int| 0 <= i < split_parts(s).len() ==> no_plus(#[trigger] split_parts(s)[i]),
        is_ascii_chars(s) ==> forall|i: int|
            0 <= i < split_parts(s).len() ==> is_ascii_chars(#[trigger] split_parts(s)[i]),
    decreases s.len(),
{
    if s.len() > 0 {
        let t = s.drop_last();
        lemma_split_pieces(t);
        lemma_split_parts_nonempty(t);
        if is_ascii_chars(s) {
            assert(is_ascii_chars(t)) by {
                assert forall|i: int| 0 <= i < t.len() implies '\0' <= #[trigger] t[i] <= '\u{7f}' by {
                    assert(t[i] == s[i]);
                }
            }
        }
    }
}

/// Lowering a text lowers each of its pieces.
proof fn lemma_split_lowercase(s: Seq<char>)
    ensures
        split_parts(ascii_lowercase(s)) == split_parts(s).map_values(|p: Seq<char>| ascii_lowercase(p)),
    decreases s.len(),
{
    let l = ascii_lowercase(s);
    if s.len() == 0 {
        assert(l =~= s);
        assert(split_parts(s).map_values(|p: Seq<char>| ascii_lowercase(p)) =~= seq![ascii_lowercase(Seq::<char>::empty())]);
        assert(ascii_lowercase(Seq::<char>::empty()) =~= Seq::<char>::empty());
    } else {
        let t = s.drop_last();
        lemma_split_lowercase(t);
        lemma_split_parts_nonempty(t);
        assert(l.drop_last() =~= ascii_lowercase(t));
        lemma_ascii_lower_char(s.last());
        let prev = split_parts(t);
        let mprev = prev.map_values(|p: Seq<char>| ascii_lowercase(p));
        if s.last() == '+' {
            assert(ascii_lowercase(Seq::<char>::empty()) =~= Seq::<char>::empty());
            assert(split_parts(s).map_values(|p: Seq<char>| ascii_lowercase(p)) =~= mprev.push(Seq::<char>::empty()));
        } else {
            let n: int = prev.len() - 1;
            assert(ascii_lowercase(prev.last().push(s.last())) =~= mprev.last().push(l.last()));
            assert(split_parts(s).map_values(|p: Seq<char>| ascii_lowercase(p)) =~= mprev.update(n, mprev.last().push(l.last())));
        }
    }
}

/// Lowering and trimming the front can be done in either order.
proof fn lemma_trim_start_lowercase(p: Seq<char>)
    ensures
        trim_start(ascii_lowercase(p)) == ascii_lowercase(trim_start(p)),
    decreases p.len(),
{
    if p.len() > 0 {
        lemma_ascii_lower_char(p[0]);
        assert(ascii_lowercase(p).drop_first() =~= ascii_lowercase(p.drop_first()));
        lemma_trim_start_lowercase(p.drop_first());
    }
}

/// Lowering and trimming the back can be done in either order.
proof fn lemma_trim_end_lowercase(p: Seq<char>)
    ensures
        trim_end(ascii_lowercase(p)) == ascii_lowercase(trim_end(p)),
    decreases p.len(),
{
    if p.len() > 0 {
        lemma_ascii_lower_char(p.last());
        assert(ascii_lowercase(p).drop_last() =~= ascii_lowercase(p.drop_last()));
        lemma_trim_end_lowercase(p.drop_last());
    }
}

/// What trimming the front leaves is a back part of the text, and does not
/// start with white space.
proof fn lemma_trim_start_suffix(p: Seq<char>)
    ensures
        trim_start(p).len() <= p.len(),
        trim_start(p) == p.subrange(p.len() - trim_start(p).len(), p.len() as int),
        trim_start(p).len() == 0 || !is_white_space(trim_start(p)[0]),
    decreases p.len(),
{
    if p.len() > 0 && is_white_space(p[0]) {
        lemma_trim_start_suffix(p.drop_first());
        let r = trim_start(p.drop_first());
        assert(p.drop_first().subrange(p.len() - 1 - r.len(), p.len() - 1) =~= p.subrange(
            p.len() - r.len(),
            p.len() as int,
        ));
    } else {
        assert(p.subrange(0, p.len() as int) =~= p);
    }
}

/// What trimming the back leaves is a front part of the text, and does not
/// end with white space.
proof fn lemma_trim_end_prefix(p: Seq<char>)
    ensures
        trim_end(p).len() <= p.len(),
        trim_end(p) == p.subrange(0, trim_end(p).len() as int),
        trim_end(p).len() == 0 || !is_white_space(trim_end(p).last()),
    decreases p.len(),
{
    if p.len() > 0 && is_white_space(p.last()) {
        lemma_trim_end_prefix(p.drop_last());
        let r = trim_end(p.drop_last());
        assert(p.drop_last().subrange(0, r.len() as int) =~= p.subrange(0, r.len() as int));
    } else {
        assert(p.subrange(0, p.len() as int) =~= p);
    }
}

/// A trimmed text has no white space at its ends, and no `+` nor anything
/// beyond ASCII that the text lacks.
pub(crate) proof fn lemma_trimmed(p: Seq<char>)
    ensures
        is_trimmed(trimmed(p)),
        no_plus(p) ==> no_plus(trimmed(p)),
        is_ascii_chars(p) ==> is_ascii_chars(trimmed(p)),
{
    lemma_trim_start_suffix(p);
    let ts = trim_start(p);
    lemma_trim_end_prefix(ts);
    let t = trim_end(ts);
    let k: int = p.len() - ts.len();
    assert forall|i: int| 0 <= i < t.len() implies #[trigger] t[i] == p[k + i] by {
        assert(t[i] == ts[i]);
    }
    if t.len() > 0 {
        assert(t[0] == ts[0]);
    }
}

/// A text without white space at its ends is its own trimming.
proof fn lemma_trimmed_fixed(t: Seq<char>)
    requires
        is_trimmed(t),
    ensures
        trimmed(t) == t,
{
    if t.len() > 0 {
        assert(trim_start(t) == t);
    }
}


/// A key that is already lowercase ASCII keeps its normal form when lowered.
proof fn lemma_normalized_key_lowercase(p: Seq<char>)
    requires
        is_ascii_chars(p),
    ensures
        normalized_key(ascii_lowercase(p)) == normalized_key(p),
{
    lemma_trim_start_lowercase(p);
    lemma_trim_end_lowercase(trim_start(p));
    let t = trimmed(p);
    lemma_trimmed(p);
    lemma_ascii_lowercase(t);
    lemma_ascii_lowercase(p);
    assert(trimmed(ascii_lowercase(p)) == ascii_lowercase(t));
    assert(lowercased(trimmed(ascii_lowercase(p))) == lowercased(t));
}

/// Case does not matter in an ASCII shortcut: it has the normal form of its
/// lowercase.
pub proof fn law_ascii_case_ignored(a: Seq<char>)
    requires
        is_ascii_chars(a),
    ensures
        normalized_shortcut(ascii_lowercase(a)) == normalized_shortcut(a),
{
    lemma_split_lowercase(a);
    lemma_split_pieces(a);
    let ps = split_parts(a);
    let m1 = ps.map_values(|p: Seq<char>| normalized_key(p));
    let m2 = ps.map_values(|p: Seq<char>| ascii_lowercase(p)).map_values(
        |p: Seq<char>| normalized_key(p),
    );
    assert forall|i: int| 0 <= i < m1.len() implies #[trigger] m2[i] == m1[i] by {
        lemma_normalized_key_lowercase(ps[i]);
    }
    assert(m1 =~= m2);
}

/// Two ASCII shortcuts that differ only in case have the same normal form.
pub proof fn law_ascii_case_insensitive(a: Seq<char>, b: Seq<char>)
    requires
        is_ascii_chars(a),
        is_ascii_chars(b),
        ascii_lowercase(a) == ascii_lowercase(b),
    ensures
        normalized_shortcut(a) == normalized_shortcut(b),
{
    law_ascii_case_ignored(a);
    law_ascii_case_ignored(b);
}

/// An ASCII text without white space at its ends and already lowercase is
/// its own trimmed lowercase.
proof fn lemma_lower_fixed(t: Seq<char>)
    requires
        is_ascii_chars(t),
        is_trimmed(t),
        ascii_lowercase(t) == t,
    ensures
        lowercased(trimmed(t)) == t,
{
    lemma_trimmed_fixed(t);
}

/// The normal form of an ASCII key without `+` is ASCII, has no `+`, and is
/// its own normal form.
proof fn lemma_normalized_key_fixed(p: Seq<char>)
    requires
        is_ascii_chars(p),
        no_plus(p),
    ensures
        is_ascii_chars(normalized_key(p)),
        no_plus(normalized_key(p)),
        normalized_key(normalized_key(p)) == normalized_key(p),
{
    reveal_strlit("ctrl");
    assert("ctrl"@.len() == 4);
    reveal_strlit("control");
    assert("control"@.len() == 7);
    reveal_strlit("alt");
    assert("alt"@.len() == 3);
    reveal_strlit("shift");
    assert("shift"@.len() == 5);
    reveal_strlit("cmd");
    assert("cmd"@.len() == 3);
    reveal_strlit("meta");
    assert("meta"@.len() == 4);
    reveal_strlit("super");
    assert("super"@.len() == 5);
    reveal_strlit("key");
    assert("key"@.len() == 3);
    let t = trimmed(p);
    lemma_trimmed(p);
    lemma_ascii_lowercase(t);
    let lower = ascii_lowercase(t);
    assert(lowercased(t) == lower);
    let q = normalized_key(p);
    if lower == "ctrl"@ || lower == "control"@ {
        assert(ascii_lowercase("control"@) =~= "control"@);
        lemma_lower_fixed("control"@);
    } else if lower == "alt"@ {
        assert(ascii_lowercase("alt"@) =~= "alt"@);
        lemma_lower_fixed("alt"@);
    } else if lower == "shift"@ {
        assert(ascii_lowercase("shift"@) =~= "shift"@);
        lemma_lower_fixed("shift"@);
    } else if lower == "cmd"@ || lower == "meta"@ || lower == "super"@ {
        assert(ascii_lowercase("super"@) =~= "super"@);
        lemma_lower_fixed("super"@);
    } else if lower.len() == 1 && (lower[0] as u32) < 0x80 {
        lemma_ascii_lowercase(lower);
        assert(lowercased(lower) == lower);
        assert(q == "key"@ + lower);
        assert(ascii_lowercase("key"@) =~= "key"@);
        assert(ascii_lowercase(q) =~= ascii_lowercase("key"@) + ascii_lowercase(lower));
        assert(is_ascii_chars(q));
        assert(q.last() == lower[0]);
        lemma_lower_fixed(q);
        assert(q[0] != "ctrl"@[0]);
        assert(q[0] != "meta"@[0]);
        assert(q != "ctrl"@ && q != "meta"@);
    } else {
        lemma_ascii_lowercase(t);
        lemma_lower_fixed(lower);
    }
}

/// A text without `+` is a single piece.
proof fn lemma_split_no_plus(x: Seq<char>)
    requires
        no_plus(x),
    ensures
        split_parts(x) == seq![x],
    decreases x.len(),
{
    if x.len() == 0 {
        assert(x =~= Seq::<char>::empty());
        assert(split_parts(x) =~= seq![x]);
    } else {
        let t = x.drop_last();
        lemma_split_no_plus(t);
        assert(x.last() != '+');
        assert(t.push(x.last()) =~= x);
        assert(split_parts(x) =~= seq![x]);
    }
}

/// Splitting `z`, `+`, `y` for a `y` without `+` gives the pieces of `z`
/// and then `y`.
proof fn lemma_split_append(z: Seq<char>, y: Seq<char>)
    requires
        no_plus(y),
    ensures
        split_parts(z + seq!['+'] + y) == split_parts(z).push(y),
    decreases y.len(),
{
    let w = z + seq!['+'] + y;
    if y.len() == 0 {
        assert(w.drop_last() =~= z);
        assert(w.last() == '+');
        assert(y =~= Seq::<char>::empty());
    } else {
        let y0 = y.drop_last();
        lemma_split_append(z, y0);
        assert(w.drop_last() =~= z + seq!['+'] + y0);
        assert(w.last() == y.last());
        assert(y.last() != '+');
        assert(y0.push(y.last()) =~= y);
        lemma_split_parts_nonempty(z);
        assert(split_parts(w) =~= split_parts(z).push(y));
    }
}

/// Splitting pieces without `+` that were joined with `+` gives them back.
proof fn lemma_split_join(qs: Seq<Seq<char>>)
    requires
        qs.len() >= 1,
        forall|i: int| 0 <= i < qs.len() ==> no_plus(#[trigger] qs[i]),
    ensures
        split_parts(join_parts(qs)) == qs,
    decreases qs.len(),
{
    if qs.len() == 1 {
        lemma_split_no_plus(qs[0]);
        assert(qs =~= seq![qs[0]]);
    } else {
        let init = qs.drop_last();
        lemma_split_join(init);
        assert(no_plus(qs.last()));
        lemma_split_append(join_parts(init), qs.last());
        assert(init.push(qs.last()) =~= qs);
    }
}

/// A piece of a shortcut is its own shortcut, and its normal form is the
/// normal form of that one key.
pub proof fn law_piece_normal_form(h: Seq<char>)
    ensures
        forall|i: int|
            0 <= i < split_parts(h).len() ==> normalized_shortcut(#[trigger] split_parts(h)[i])
                == normalized_key(split_parts(h)[i]),
{
    lemma_split_pieces(h);
    let ps = split_parts(h);
    assert forall|i: int| 0 <= i < ps.len() implies normalized_shortcut(#[trigger] ps[i])
        == normalized_key(ps[i]) by {
        lemma_split_no_plus(ps[i]);
        let m = split_parts(ps[i]).map_values(|p: Seq<char>| normalized_key(p));
        assert(m =~= seq![normalized_key(ps[i])]);
    }
}

/// Each `+`-separated piece is normalized on its own, and the pieces keep
/// their number and order (modifiers are neither sorted nor merged): the
/// pieces of the normal form are the normal forms of the pieces. Stated over
/// texts whose pieces' normal forms hold no `+`; `normalize_shortcut` states
/// it of every text that it is given, from what `str::to_lowercase` keeps.
pub proof fn law_pieces_normalized_alone(h: Seq<char>)
    requires
        forall|i: int|
            0 <= i < split_parts(h).len() ==> no_plus(normalized_key(#[trigger] split_parts(h)[i])),
    ensures
        split_parts(normalized_shortcut(h)) == split_parts(h).map_values(
            |p: Seq<char>| normalized_key(p),
        ),
{
    lemma_split_parts_nonempty(h);
    let ps = split_parts(h);
    let qs = ps.map_values(|p: Seq<char>| normalized_key(p));
    assert forall|i: int| 0 <= i < qs.len() implies no_plus(#[trigger] qs[i]) by {
        assert(no_plus(normalized_key(ps[i])));
    }
    lemma_split_join(qs);
}

/// In an ASCII shortcut every piece is normalized on its own, in order.
pub proof fn law_ascii_pieces_normalized_alone(h: Seq<char>)
    requires
        is_ascii_chars(h),
    ensures
        split_parts(normalized_shortcut(h)) == split_parts(h).map_values(
            |p: Seq<char>| normalized_key(p),
        ),
        forall|i: int|
            0 <= i < split_parts(h).len() ==> normalized_shortcut(#[trigger] split_parts(h)[i])
                == normalized_key(split_parts(h)[i]),
{
    lemma_split_pieces(h);
    assert forall|i: int| 0 <= i < split_parts(h).len() implies no_plus(
        normalized_key(#[trigger] split_parts(h)[i]),
    ) by {
        lemma_normalized_key_fixed(split_parts(h)[i]);
    }
    law_pieces_normalized_alone(h);
    law_piece_normal_form(h);
}

/// The normal form of an ASCII shortcut is its own normal form.
pub proof fn law_normal_form_idempotent(a: Seq<char>)
    requires
        is_ascii_chars(a),
    ensures
        normalized_shortcut(normalized_shortcut(a)) == normalized_shortcut(a),
{
    lemma_split_pieces(a);
    lemma_split_parts_nonempty(a);
    let ps = split_parts(a);
    let qs = ps.map_values(|p: Seq<char>| normalized_key(p));
    assert forall|i: int| 0 <= i < qs.len() implies no_plus(#[trigger] qs[i]) && normalized_key(qs[i])
        == qs[i] by {
        lemma_normalized_key_fixed(ps[i]);
    }
    lemma_split_join(qs);
    assert(qs.map_values(|p: Seq<char>| normalized_key(p)) =~= qs);
}

/// Every character of the text is white space.
pub open spec fn all_white_space(s: Seq<char>) -> bool {
    forall|i: int| 0 <= i < s.len() ==> is_white_space(#[trigger] s[i])
}

/// The pieces of `h`, each with `before[i]` put in front of it and
/// `after[i]` behind it.
pub open spec fn padded_parts(h: Seq<char>, before: Seq<Seq<char>>, after: Seq<Seq<char>>) -> Seq<
    Seq<char>,
> {
    Seq::new(split_parts(h).len(), |i: int| before[i] + split_parts(h)[i] + after[i])
}

/// White space in front does not survive trimming the front.
proof fn lemma_trim_start_pad(a: Seq<char>, x: Seq<char>)
    requires
        all_white_space(a),
    ensures
        trim_start(a + x) == trim_start(x),
    decreases a.len(),
{
    if a.len() == 0 {
        assert(a + x =~= x);
    } else {
        assert((a + x)[0] == a[0]);
        assert((a + x).drop_first() =~= a.drop_first() + x);
        lemma_trim_start_pad(a.drop_first(), x);
    }
}

/// White space behind does not survive trimming the back.
proof fn lemma_trim_end_pad(x: Seq<char>, b: Seq<char>)
    requires
        all_white_space(b),
    ensures
        trim_end(x + b) == trim_end(x),
    decreases b.len(),
{
    if b.len() == 0 {
        assert(x + b =~= x);
    } else {
        assert((x + b).last() == b.last());
        assert((x + b).drop_last() =~= x + b.drop_last());
        lemma_trim_end_pad(x, b.drop_last());
    }
}

/// Trimming the front of a text with white space behind it.
proof fn lemma_trim_start_append(p: Seq<char>, b: Seq<char>)
    requires
        all_white_space(b),
    ensures
        trim_start(p + b) == if trim_start(p).len() == 0 {
            Seq::<char>::empty()
        } else {
            trim_start(p) + b
        },
    decreases p.len(),
{
    if p.len() == 0 {
        assert(p + b =~= b + Seq::<char>::empty());
        lemma_trim_start_pad(b, Seq::<char>::empty());
        assert(p =~= Seq::<char>::empty());
    } else if is_white_space(p[0]) {
        assert((p + b)[0] == p[0]);
        assert((p + b).drop_first() =~= p.drop_first() + b);
        lemma_trim_start_append(p.drop_first(), b);
    } else {
        assert((p + b)[0] == p[0]);
    }
}

/// White space put around a piece does not survive trimming it.
pub proof fn lemma_trimmed_pad(a: Seq<char>, p: Seq<char>, b: Seq<char>)
    requires
        all_white_space(a),
        all_white_space(b),
    ensures
        trimmed(a + p + b) == trimmed(p),
{
    assert(a + p + b =~= a + (p + b));
    lemma_trim_start_pad(a, p + b);
    lemma_trim_start_append(p, b);
    if trim_start(p).len() > 0 {
        lemma_trim_end_pad(trim_start(p), b);
    } else {
        assert(trim_start(p) =~= Seq::<char>::empty());
    }
}

/// White space added at either end of any of the `+`-separated pieces of a
/// shortcut does not change its normal form.
pub proof fn law_padding_ignored(h: Seq<char>, before: Seq<Seq<char>>, after: Seq<Seq<char>>)
    requires
        before.len() == split_parts(h).len(),
        after.len() == split_parts(h).len(),
        forall|i: int| 0 <= i < before.len() ==> all_white_space(#[trigger] before[i]),
        forall|i: int| 0 <= i < after.len() ==> all_white_space(#[trigger] after[i]),
    ensures
        normalized_shortcut(join_parts(padded_parts(h, before, after))) == normalized_shortcut(h),
{
    lemma_split_parts_nonempty(h);
    lemma_split_pieces(h);
    let ps = split_parts(h);
    let q = padded_parts(h, before, after);
    assert(!is_white_space('+'));
    assert(q.len() == before.len());
    assert forall|i: int| 0 <= i < q.len() implies no_plus(#[trigger] q[i]) by {
        assert(0 <= i < before.len());
        assert(all_white_space(before[i]) && all_white_space(after[i]));
        assert(no_plus(ps[i]));
        assert(q[i] == before[i] + ps[i] + after[i]);
        assert forall|k: int| 0 <= k < q[i].len() implies #[trigger] q[i][k] != '+' by {
            if k < before[i].len() {
                assert(q[i][k] == before[i][k]);
            } else if k < before[i].len() + ps[i].len() {
                assert(q[i][k] == ps[i][k - before[i].len()]);
            } else {
                assert(q[i][k] == after[i][k - before[i].len() - ps[i].len()]);
            }
        }
    }
    lemma_split_join(q);
    assert forall|i: int| 0 <= i < q.len() implies trimmed(
        #[trigger] split_parts(join_parts(q))[i],
    ) == trimmed(split_parts(h)[i]) by {
        lemma_trimmed_pad(before[i], ps[i], after[i]);
    }
    law_spacing_ignored(join_parts(q), h);
}

/// Whether a lowered key is one of the modifier names that normalization
/// unifies: `ctrl`, `control`, `alt`, `shift`, `cmd`, `meta`, `super`.
pub open spec fn is_modifier_alias(l: Seq<char>) -> bool {
    ||| l == "ctrl"@
    ||| l == "control"@
    ||| l == "alt"@
    ||| l == "shift"@
    ||| l == "cmd"@
    ||| l == "meta"@
    ||| l == "super"@
}

/// What normalization makes of any key, in terms of the key trimmed and
/// lowercased as `str::to_lowercase` does it, `l`: the modifier names become
/// `control`, `alt`, `shift` and `super`; a key one byte long becomes `key`
/// followed by it in lowercase; and any other key is `l` itself.
pub proof fn law_key_normal_form(p: Seq<char>)
    ensures
        ({
            let l = lowercased(trimmed(p));
            &&& (l == "ctrl"@ || l == "control"@) ==> normalized_key(p) == "control"@
            &&& l == "alt"@ ==> normalized_key(p) == "alt"@
            &&& l == "shift"@ ==> normalized_key(p) == "shift"@
            &&& (l == "cmd"@ || l == "meta"@ || l == "super"@) ==> normalized_key(p) == "super"@
            &&& is_one_byte(l) ==> normalized_key(p) == "key"@ + lowercased(l)
            &&& (!is_modifier_alias(l) && !is_one_byte(l)) ==> normalized_key(p) == l
        }),
{
    reveal_strlit("ctrl");
    assert("ctrl"@.len() == 4);
    reveal_strlit("control");
    assert("control"@.len() == 7);
    reveal_strlit("alt");
    assert("alt"@.len() == 3);
    reveal_strlit("shift");
    assert("shift"@.len() == 5);
    reveal_strlit("cmd");
    assert("cmd"@.len() == 3);
    reveal_strlit("meta");
    assert("meta"@.len() == 4);
    reveal_strlit("super");
    assert("super"@.len() == 5);
    assert("cmd"@[0] != "alt"@[0]);
    assert("meta"@[0] != "ctrl"@[0]);
    assert("super"@[1] != "shift"@[1]);
}

/// What normalization makes of an ASCII key, in terms of the key trimmed and
/// lowered, `l`: the modifier names become `control`, `alt`, `shift` and
/// `super`; a one-character key becomes `key` followed by it; and any other
/// key is `l` itself, so that keys such as `arrowdown` and `arrowup` stay
/// apart.
pub proof fn law_ascii_key_normal_form(p: Seq<char>)
    requires
        is_ascii_chars(p),
    ensures
        ({
            let l = ascii_lowercase(trimmed(p));
            &&& (l == "ctrl"@ || l == "control"@) ==> normalized_key(p) == "control"@
            &&& l == "alt"@ ==> normalized_key(p) == "alt"@
            &&& l == "shift"@ ==> normalized_key(p) == "shift"@
            &&& (l == "cmd"@ || l == "meta"@ || l == "super"@) ==> normalized_key(p) == "super"@
            &&& l.len() == 1 ==> normalized_key(p) == "key"@ + l
            &&& (!is_modifier_alias(l) && l.len() != 1) ==> normalized_key(p) == l
        }),
{
    reveal_strlit("ctrl");
    assert("ctrl"@.len() == 4);
    reveal_strlit("control");
    assert("control"@.len() == 7);
    reveal_strlit("alt");
    assert("alt"@.len() == 3);
    reveal_strlit("shift");
    assert("shift"@.len() == 5);
    reveal_strlit("cmd");
    assert("cmd"@.len() == 3);
    reveal_strlit("meta");
    assert("meta"@.len() == 4);
    reveal_strlit("super");
    assert("super"@.len() == 5);
    let t = trimmed(p);
    lemma_trimmed(p);
    lemma_ascii_lowercase(t);
    let l = ascii_lowercase(t);
    assert(lowercased(t) == l);
    lemma_ascii_lowercase(l);
    if l.len() == 1 {
        assert('\0' <= l[0] <= '\u{7f}');
        assert(lowercased(l) == l);
    }
}

/// Two ASCII keys that are no modifier names and longer than one character
/// have different normal forms unless they are the same key up to spacing
/// and case.
pub proof fn law_ascii_distinct_keys(p: Seq<char>, q: Seq<char>)
    requires
        is_ascii_chars(p),
        is_ascii_chars(q),
        !is_modifier_alias(ascii_lowercase(trimmed(p))),
        !is_modifier_alias(ascii_lowercase(trimmed(q))),
        ascii_lowercase(trimmed(p)).len() != 1,
        ascii_lowercase(trimmed(q)).len() != 1,
    ensures
        normalized_key(p) == normalized_key(q) <==> ascii_lowercase(trimmed(p)) == ascii_lowercase(
            trimmed(q),
        ),
{
    law_ascii_key_normal_form(p);
    law_ascii_key_normal_form(q);
}

/// Two ASCII shortcuts with the same normal form have as many pieces, and
/// their pieces have the same normal forms one by one.
pub proof fn law_ascii_same_normal_form(a: Seq<char>, b: Seq<char>)
    requires
        is_ascii_chars(a),
        is_ascii_chars(b),
        normalized_shortcut(a) == normalized_shortcut(b),
    ensures
        split_parts(a).len() == split_parts(b).len(),
        forall|i: int|
            0 <= i < split_parts(a).len() ==> normalized_key(#[trigger] split_parts(a)[i])
                == normalized_key(split_parts(b)[i]),
{
    law_ascii_pieces_normalized_alone(a);
    law_ascii_pieces_normalized_alone(b);
    let ma = split_parts(a).map_values(|p: Seq<char>| normalized_key(p));
    let mb = split_parts(b).map_values(|p: Seq<char>| normalized_key(p));
    assert(ma == mb);
    assert forall|i: int| 0 <= i < split_parts(a).len() implies normalized_key(
        #[trigger] split_parts(a)[i],
    ) == normalized_key(split_parts(b)[i]) by {
        assert(ma[i] == mb[i]);
    }
}

} // verus!
