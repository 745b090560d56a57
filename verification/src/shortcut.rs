//! The normal form of a shortcut's text, by which the registry stores and
//! finds shortcuts.
use vstd::prelude::*;
use vstd::string::{StrSliceExecFns, StringExecFns};
use std::str::FromStr;
use global_hotkey::hotkey::{HotKey, HotKeyParseError};
use crate::text::{
    ascii_lowercase, chars_of, is_trimmed, no_ascii_capitals, no_plus, same_text, trim_chars,
    trimmed,
};
use crate::normal_form::{lemma_trimmed, law_pieces_normalized_alone};
use vstd::utf8::is_ascii_chars;

verus! {

/// What `str::to_lowercase` returns for a text that is not all ASCII: its
/// lowercase equivalent under the Unicode `Lowercase` property, with the
/// context rule for a final capital sigma.
pub uninterp spec fn lowercase(s: Seq<char>) -> Seq<char>;

/// The lowercase of a text as `str::to_lowercase` gives it: for ASCII text,
/// `A` to `Z` become `a` to `z` and the rest stays; other text goes by the
/// Unicode tables.
pub open spec fn lowercased(s: Seq<char>) -> Seq<char> {
    if is_ascii_chars(s) {
        ascii_lowercase(s)
    } else {
        lowercase(s)
    }
}

/// `str::to_lowercase`. Claimed: on ASCII text it lowers `A` to `Z` and keeps
/// every other character (its documentation sends to it for ASCII letters
/// "in addition to non-ASCII characters"); on other text its result is
/// `lowercase` of the argument. Of any text, the result holds no letter `A`
/// to `Z`: it is the lowercase equivalent of the text, each of those letters
/// lowercases to `a` to `z`, and no character lowercases to one of them.
/// Nor does any character lowercase to `+`, which has no case: the result of
/// a text without `+` has none. White space has no case either, and no
/// character lowercases to white space: the result of a text without white
/// space at its ends has none there. Nothing more is said of `lowercase`.
#[verifier::external_body]
pub(crate) fn to_lowercase(s: &str) -> (r: String)
    ensures
        r@ == if is_ascii_chars(s@) {
            ascii_lowercase(s@)
        } else {
            lowercase(s@)
        },
        no_ascii_capitals(r@),
        no_plus(s@) ==> no_plus(r@),
        is_trimmed(s@) ==> is_trimmed(r@),
{
    s.to_lowercase()
}

/// The pieces of `s` between the `+` signs, as `str::split('+')` gives them:
/// one more piece than `s` has `+` signs, empty pieces included.
pub open spec fn split_parts(s: Seq<char>) -> Seq<Seq<char>>
    decreases s.len(),
{
    if s.len() == 0 {
        seq![Seq::<char>::empty()]
    } else {
        let prev = split_parts(s.drop_last());
        if s.last() == '+' {
            prev.push(Seq::<char>::empty())
        } else {
            prev.update(prev.len() - 1, prev.last().push(s.last()))
        }
    }
}

/// The pieces joined with `+` between each two of them.
pub open spec fn join_parts(parts: Seq<Seq<char>>) -> Seq<char>
    decreases parts.len(),
{
    if parts.len() == 0 {
        Seq::<char>::empty()
    } else if parts.len() == 1 {
        parts[0]
    } else {
        join_parts(parts.drop_last()) + seq!['+'] + parts.last()
    }
}

/// The normal form of one key of a shortcut: trimmed and lowercased, the
/// names of the modifiers unified (`ctrl` and `control` to `control`; `cmd`,
/// `meta` and `super` to `super`), and a key whose text is one byte long
/// prefixed with `key`.
pub open spec fn normalized_key(part: Seq<char>) -> Seq<char> {
    let lower = lowercased(trimmed(part));
    if lower == "ctrl"@ || lower == "control"@ {
        "control"@
    } else if lower == "alt"@ {
        "alt"@
    } else if lower == "shift"@ {
        "shift"@
    } else if lower == "cmd"@ || lower == "meta"@ || lower == "super"@ {
        "super"@
    } else if is_one_byte(lower) {
        "key"@ + lowercased(lower)
    } else {
        lower
    }
}

/// Whether a text is one byte long in UTF-8: a single character below U+0080.
pub open spec fn is_one_byte(s: Seq<char>) -> bool {
    s.len() == 1 && (s[0] as u32) < 0x80
}

/// The normal form of a shortcut: each of its `+`-separated keys in normal
/// form, joined again with `+`.
pub open spec fn normalized_shortcut(hotkey: Seq<char>) -> Seq<char> {
    join_parts(split_parts(hotkey).map_values(|p: Seq<char>| normalized_key(p)))
}

/// Spaces around the keys do not matter: two shortcuts whose pieces are the
/// same once trimmed have the same normal form.
pub proof fn law_spacing_ignored(a: Seq<char>, b: Seq<char>)
    requires
        split_parts(a).len() == split_parts(b).len(),
        forall|i: int|
            0 <= i < split_parts(a).len() ==> trimmed(#[trigger] split_parts(a)[i]) == trimmed(
                split_parts(b)[i],
            ),
    ensures
        normalized_shortcut(a) == normalized_shortcut(b),
{
    let ma = split_parts(a).map_values(|p: Seq<char>| normalized_key(p));
    let mb = split_parts(b).map_values(|p: Seq<char>| normalized_key(p));
    assert forall|i: int| 0 <= i < ma.len() implies #[trigger] ma[i] == mb[i] by {
        assert(trimmed(split_parts(a)[i]) == trimmed(split_parts(b)[i]));
    }
    assert(ma =~= mb);
}

/// A shortcut text always has at least one piece.
pub proof fn lemma_split_parts_nonempty(s: Seq<char>)
    ensures
        split_parts(s).len() >= 1,
    decreases s.len(),
{
    if s.len() > 0 {
        lemma_split_parts_nonempty(s.drop_last());
    }
}

/// The normal form of one key.
fn normalize_key(part: &Vec<char>) -> (r: String)
    ensures
        r@ == normalized_key(part@),
        no_ascii_capitals(r@),
        no_plus(part@) ==> no_plus(r@),
        is_trimmed(r@),
{
    let trimmed_part = trim_chars(part);
    proof {
        lemma_trimmed(part@);
    }
    let lower = to_lowercase(trimmed_part.as_str());
    let l = lower.as_str();
    proof {
        reveal_strlit("control");
        reveal_strlit("alt");
        reveal_strlit("shift");
        reveal_strlit("super");
        reveal_strlit("key");
    }
    if same_text(l, "ctrl") || same_text(l, "control") {
        "control".to_owned()
    } else if same_text(l, "alt") {
        "alt".to_owned()
    } else if same_text(l, "shift") {
        "shift".to_owned()
    } else if same_text(l, "cmd") || same_text(l, "meta") || same_text(l, "super") {
        "super".to_owned()
    } else if l.unicode_len() == 1 && (l.get_char(0) as u32) < 0x80 {
        let mut r = "key".to_owned();
        let again = to_lowercase(l);
        r.append(again.as_str());
        proof {
            assert(r@ =~= "key"@ + again@);
        }
        r
    } else {
        lower
    }
}

/// What the registry of shortcuts is keyed by: the text split at each `+`,
/// each piece trimmed and lowercased, the modifier names `ctrl`/`control`,
/// `alt`, `shift` and `cmd`/`meta`/`super` unified, a one-byte key prefixed
/// with `key`, and the pieces joined again with `+`.
///
/// The normal form holds no capital letter `A` to `Z`, whatever the text.
/// Each piece is normalized on its own: the pieces of the normal form are,
/// in number and in order, the normal forms of the pieces of the text
/// (modifiers are neither sorted nor merged), each without white space at
/// its ends.
pub fn normalize_shortcut(hotkey: &str) -> (r: String)
    ensures
        r@ == normalized_shortcut(hotkey@),
        no_ascii_capitals(r@),
        split_parts(r@) == split_parts(hotkey@).map_values(|p: Seq<char>| normalized_key(p)),
        forall|i: int| 0 <= i < split_parts(r@).len() ==> is_trimmed(#[trigger] split_parts(r@)[i]),
{
    let cs = chars_of(hotkey);
    let n: usize = cs.len();
    let mut out = String::new();
    let mut cur: Vec<char> = Vec::new();
    let mut i: usize = 0;
    assert(cs@.subrange(0, 0) =~= Seq::<char>::empty());
    while i < n
        invariant
            n == cs.len(),
            cs@ == hotkey@,
            i <= n,
            split_parts(cs@.subrange(0, i as int)).last() == cur@,
            out@ == emitted(split_parts(cs@.subrange(0, i as int))),
            no_ascii_capitals(out@),
            no_plus(cur@),
            forall|j: int|
                0 <= j < split_parts(cs@.subrange(0, i as int)).len() - 1 ==> no_plus(
                    normalized_key(#[trigger] split_parts(cs@.subrange(0, i as int))[j]),
                ) && is_trimmed(normalized_key(split_parts(cs@.subrange(0, i as int))[j])),
        decreases n - i,
    {
        let ghost before = split_parts(cs@.subrange(0, i as int));
        proof {
            lemma_split_parts_nonempty(cs@.subrange(0, i as int));
            assert(cs@.subrange(0, i + 1).drop_last() =~= cs@.subrange(0, i as int));
        }
        let c = cs[i];
        if c == '+' {
            let k = normalize_key(&cur);
            proof {
                lemma_join_push(before);
            }
            let ghost prev_out = out@;
            out.append(k.as_str());
            out.push('+');
            proof {
                assert(out@ =~= prev_out + k@ + seq!['+']);
            }
            cur = Vec::new();
            proof {
                assert(split_parts(cs@.subrange(0, i + 1)).drop_last() =~= before);
                assert(cur@ =~= Seq::<char>::empty());
            }
        } else {
            cur.push(c);
            proof {
                assert(split_parts(cs@.subrange(0, i + 1)).drop_last() =~= before.drop_last());
            }
        }
        i = i + 1;
    }
    proof {
        lemma_split_parts_nonempty(cs@.subrange(0, n as int));
        assert(cs@.subrange(0, n as int) =~= hotkey@);
        lemma_join_push(split_parts(hotkey@));
    }
    let k = normalize_key(&cur);
    let ghost prev_out = out@;
    out.append(k.as_str());
    proof {
        assert(out@ =~= prev_out + k@);
        let ps = split_parts(hotkey@);
        assert forall|j: int| 0 <= j < ps.len() implies no_plus(
            normalized_key(#[trigger] ps[j]),
        ) && is_trimmed(normalized_key(ps[j])) by {
            if j < ps.len() - 1 {
                assert(ps[j] == split_parts(cs@.subrange(0, n as int))[j]);
            }
        }
        law_pieces_normalized_alone(hotkey@);
        assert(split_parts(out@) == ps.map_values(|p: Seq<char>| normalized_key(p)));
    }
    out
}

/// What the text holds once all pieces but the last are written out: their
/// normal forms, each followed by `+`.
spec fn emitted(parts: Seq<Seq<char>>) -> Seq<char> {
    if parts.len() <= 1 {
        Seq::<char>::empty()
    } else {
        join_parts(parts.drop_last().map_values(|p: Seq<char>| normalized_key(p))) + seq!['+']
    }
}

/// Writing out the last piece completes the join.
proof fn lemma_join_push(parts: Seq<Seq<char>>)
    requires
        parts.len() >= 1,
    ensures
        join_parts(parts.map_values(|p: Seq<char>| normalized_key(p))) == emitted(parts)
            + normalized_key(parts.last()),
{
    let m = parts.map_values(|p: Seq<char>| normalized_key(p));
    if parts.len() == 1 {
        assert(emitted(parts) + normalized_key(parts.last()) =~= m[0]);
    } else {
        assert(m.drop_last() =~= parts.drop_last().map_values(|p: Seq<char>| normalized_key(p)));
    }
}


/// `global_hotkey::hotkey::HotKey`: a key with its modifiers, the value that
/// the system registers as a global shortcut.
#[verifier::external_type_specification]
#[verifier::external_body]
pub struct ExHotKey(HotKey);

/// `global_hotkey::hotkey::HotKeyParseError`: why a text is no hotkey.
#[verifier::external_type_specification]
#[verifier::external_body]
pub struct ExHotKeyParseError(HotKeyParseError);

/// Whether `HotKey::from_str` accepts a text: modifiers first, then exactly
/// one key out of its table of key names, separated by `+`.
pub uninterp spec fn hotkey_accepts(text: Seq<char>) -> bool;

/// A hotkey together with the text that it was parsed from. Only
/// `parse_hotkey` makes one, so `source` is always the text that
/// `HotKey::from_str` turned into `hotkey`.
pub struct ParsedHotkey {
    hotkey: HotKey,
    source: Ghost<Seq<char>>,
}

impl ParsedHotkey {
    /// The text that the hotkey was parsed from.
    pub closed spec fn source(&self) -> Seq<char> {
        self.source@
    }

    /// The parsed hotkey.
    pub closed spec fn hotkey_value(&self) -> HotKey {
        self.hotkey
    }

    /// The parsed hotkey, to hand to the system.
    pub fn into_hotkey(self) -> (r: HotKey)
        ensures
            r == self.hotkey_value(),
    {
        self.hotkey
    }
}

/// `HotKey::from_str` of the `global-hotkey` crate. Claimed: it succeeds
/// exactly on the texts that `hotkey_accepts`, and on success the hotkey is
/// the one that `from_str` parsed from `text`, which the result records as
/// its source. Which key and modifiers that hotkey holds is left unsaid: it
/// depends on the platform (`CmdOrCtrl` is Super on macOS, Control
/// elsewhere).
#[verifier::external_body]
pub(crate) fn parse_hotkey(text: &str) -> (r: Result<ParsedHotkey, HotKeyParseError>)
    ensures
        r is Ok <==> hotkey_accepts(text@),
        r matches Ok(p) ==> p.source() == text@,
{
    match HotKey::from_str(text) {
        Ok(hotkey) => Ok(ParsedHotkey { hotkey, source: Ghost(text@) }),
        Err(e) => Err(e),
    }
}

} // verus!
