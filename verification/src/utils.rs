//! Text utilities and a basic event emitter.

use vstd::prelude::*;
use rand::Rng;
use serde_json::Value;
use crate::text::{
    ascii_lower, ascii_upper, chars_of, hex_char, is_upper_case, has_prefix, is_uppercase_char,
    is_white_space, is_whitespace_char, push_char, starts_with, string_of, to_ascii_lower,
    to_ascii_upper,
};

verus! {

/// State of `camelize` after reading `s`: the text written so far, and whether
/// the next non-white-space character is to be upper-cased.
pub open spec fn camel_state(s: Seq<char>) -> (Seq<char>, bool)
    decreases s.len(),
{
    if s.len() == 0 {
        (Seq::empty(), false)
    } else {
        let (out, upper_next) = camel_state(s.drop_last());
        let c = s.last();
        if is_white_space(c) {
            (out, true)
        } else if upper_next {
            (out.push(ascii_upper(c)), false)
        } else {
            (out.push(c), false)
        }
    }
}

/// `s` in camelCase: white space is dropped, and the character that follows a
/// run of white space is upper-cased (ASCII letters only).
pub open spec fn camelize_spec(s: Seq<char>) -> Seq<char> {
    camel_state(s).0
}

/// Converts a string with spaces into camelCase.
pub fn camelize(s: &str) -> (r: String)
    ensures
        r@ == camelize_spec(s@),
{
    let v = chars_of(s);
    let n = v.len();
    let mut out: Vec<char> = Vec::new();
    let mut uppercase_next = false;
    for i in 0..n
        invariant
            n == v@.len(),
            v@ == s@,
            (out@, uppercase_next) == camel_state(v@.take(i as int)),
    {
        let c = v[i];
        assert(v@.take(i + 1).drop_last() =~= v@.take(i as int));
        if is_whitespace_char(c) {
            uppercase_next = true;
        } else if uppercase_next {
            out.push(to_ascii_upper(c));
            uppercase_next = false;
        } else {
            out.push(c);
        }
    }
    assert(v@.take(n as int) =~= v@);
    string_of(&out)
}

/// What `uncamelize` writes for one character: an upper-case character becomes
/// the separator followed by its ASCII lower case.
pub open spec fn uncamel_piece(c: char, sep: Seq<char>) -> Seq<char> {
    if is_upper_case(c) {
        sep.push(ascii_lower(c))
    } else {
        seq![c]
    }
}

/// The text `uncamelize` builds before it drops a leading separator.
pub open spec fn uncamel_raw(s: Seq<char>, sep: Seq<char>) -> Seq<char>
    decreases s.len(),
{
    if s.len() == 0 {
        Seq::empty()
    } else {
        uncamel_raw(s.drop_last(), sep) + uncamel_piece(s.last(), sep)
    }
}

/// `s` separated at its upper-case characters by `sep`, with one leading `sep` dropped.
pub open spec fn uncamelize_spec(s: Seq<char>, sep: Seq<char>) -> Seq<char> {
    let raw = uncamel_raw(s, sep);
    if has_prefix(raw, sep) {
        raw.skip(sep.len() as int)
    } else {
        raw
    }
}

/// Converts a camelCase string into one separated by the given separator.
pub fn uncamelize(s: &str, separator: &str) -> (r: String)
    ensures
        r@ == uncamelize_spec(s@, separator@),
{
    let v = chars_of(s);
    let sep = chars_of(separator);
    let n = v.len();
    let mut out: Vec<char> = Vec::new();
    for i in 0..n
        invariant
            n == v@.len(),
            v@ == s@,
            sep@ == separator@,
            out@ == uncamel_raw(v@.take(i as int), separator@),
    {
        let c = v[i];
        assert(v@.take(i + 1).drop_last() =~= v@.take(i as int));
        if is_uppercase_char(c) {
            let ghost before = out@;
            let m = sep.len();
            for j in 0..m
                invariant
                    m == sep@.len(),
                    out@ == before + sep@.take(j as int),
            {
                out.push(sep[j]);
                assert(sep@.take(j + 1) =~= sep@.take(j as int).push(sep@[j as int]));
            }
            assert(sep@.take(m as int) =~= sep@);
            out.push(to_ascii_lower(c));
            assert(out@ =~= before + uncamel_piece(c, separator@));
        } else {
            out.push(c);
            assert(out@ =~= uncamel_raw(v@.take(i as int), separator@) + uncamel_piece(c, separator@));
        }
    }
    assert(v@.take(n as int) =~= v@);
    if starts_with(&out, separator) {
        let m = sep.len();
        let mut rest: Vec<char> = Vec::new();
        let k = out.len();
        for j in m..k
            invariant
                m == separator@.len(),
                m <= k,
                k == out@.len(),
                rest@ == out@.subrange(m as int, j as int),
        {
            rest.push(out[j]);
            assert(out@.subrange(m as int, j + 1) =~= out@.subrange(m as int, j as int).push(out@[j as int]));
        }
        assert(out@.subrange(m as int, k as int) =~= out@.skip(m as int));
        string_of(&rest)
    } else {
        string_of(&out)
    }
}

/// Whether `c` can begin a word after a space so that `camelize` and
/// `uncamelize` give it back: a lower-case ASCII letter, or a non-ASCII
/// upper-case character (which neither of them changes).
pub open spec fn is_word_head(c: char) -> bool {
    ('a' <= c && c <= 'z') || ((c as u32) >= 128 && is_upper_case(c))
}

/// Whether `s` is words separated by single spaces that `camelize` joins and
/// `uncamelize` splits again: no white space but those spaces, none at either
/// end, no upper-case character inside a word, each word after a space
/// beginning with `is_word_head`, and the first not with an ASCII capital.
pub open spec fn is_spaced_phrase(s: Seq<char>) -> bool {
    &&& forall|i: int| 0 <= i < s.len() ==> #[trigger] s[i] == ' ' || !is_white_space(s[i])
    &&& s.len() > 0 ==> s[0] != ' ' && !('A' <= s[0] && s[0] <= 'Z') && s.last() != ' '
    &&& forall|i: int| 0 <= i < s.len() - 1 && #[trigger] s[i] == ' ' ==> is_word_head(s[i + 1])
    &&& forall|i: int| 0 <= i < s.len() - 1 && #[trigger] s[i] != ' ' ==> !is_upper_case(s[i + 1])
}

/// Whether `s` is text in camelCase that `uncamelize` splits and `camelize`
/// joins again: no white space, and no ASCII capital at the start.
pub open spec fn is_camel_text(s: Seq<char>) -> bool {
    &&& forall|i: int| 0 <= i < s.len() ==> !is_white_space(#[trigger] s[i])
    &&& s.len() > 0 ==> !('A' <= s[0] && s[0] <= 'Z')
}

/// The separator that `uncamelize` writes before the first character of `s`.
spec fn leading_separator(s: Seq<char>) -> Seq<char> {
    if s.len() > 0 && is_upper_case(s[0]) {
        seq![' ']
    } else {
        Seq::empty()
    }
}

proof fn lemma_camel_state_of_phrase_prefix(s: Seq<char>)
    requires
        forall|i: int| 0 <= i < s.len() ==> #[trigger] s[i] == ' ' || !is_white_space(s[i]),
        s.len() > 0 ==> s[0] != ' ' && !('A' <= s[0] && s[0] <= 'Z'),
        forall|i: int| 0 <= i < s.len() - 1 && #[trigger] s[i] == ' ' ==> is_word_head(s[i + 1]),
        forall|i: int| 0 <= i < s.len() - 1 && #[trigger] s[i] != ' ' ==> !is_upper_case(s[i + 1]),
    ensures
        camel_state(s).1 == (s.len() > 0 && s.last() == ' '),
        uncamel_raw(camel_state(s).0, seq![' ']) == leading_separator(s) + (if camel_state(s).1 {
            s.drop_last()
        } else {
            s
        }),
    decreases s.len(),
{
    if s.len() > 0 {
        let p = s.drop_last();
        let c = s.last();
        assert forall|i: int| 0 <= i < p.len() - 1 && #[trigger] p[i] == ' ' implies is_word_head(p[i + 1]) by {
            assert(s[i] == ' ');
        }
        assert forall|i: int| 0 <= i < p.len() - 1 && #[trigger] p[i] != ' ' implies !is_upper_case(p[i + 1]) by {
            assert(s[i] != ' ');
        }
        assert forall|i: int| 0 <= i < p.len() implies #[trigger] p[i] == ' ' || !is_white_space(p[i]) by {
            assert(s[i] == ' ' || !is_white_space(s[i]));
        }
        lemma_camel_state_of_phrase_prefix(p);
        let (o, f) = camel_state(p);
        let sp = seq![' '];
        assert(s[s.len() - 1] == ' ' || !is_white_space(s[s.len() - 1]));
        if p.len() > 0 {
            assert(leading_separator(s) == leading_separator(p));
        }
        if c == ' ' {
            assert(s.len() >= 2);
            if s[s.len() - 2] == ' ' {
                assert(is_word_head(s[s.len() - 1]));
            }
            assert(p.last() == s[s.len() - 2]);
        } else if f {
            assert(s[s.len() - 2] == ' ');
            assert(is_word_head(c));
            let o2 = o.push(ascii_upper(c));
            assert(o2.drop_last() =~= o);
            assert(is_upper_case(ascii_upper(c)));
            assert(ascii_lower(ascii_upper(c)) == c);
            assert(uncamel_raw(o2, sp) == uncamel_raw(o, sp) + sp.push(c));
            assert(leading_separator(s) + p.drop_last() + sp.push(c) =~= leading_separator(s) + s);
        } else {
            let o2 = o.push(c);
            assert(o2.drop_last() =~= o);
            assert(uncamel_raw(o2, sp) == uncamel_raw(o, sp) + uncamel_piece(c, sp));
            if p.len() > 0 {
                assert(s[s.len() - 2] != ' ');
                assert(!is_upper_case(c));
                assert(leading_separator(s) + p + seq![c] =~= leading_separator(s) + s);
            } else {
                assert(ascii_lower(c) == c);
                assert(uncamel_raw(o, sp) =~= Seq::<char>::empty());
                assert(s =~= seq![c]);
                if is_upper_case(c) {
                    assert(uncamel_piece(c, sp) =~= leading_separator(s) + s);
                } else {
                    assert(uncamel_piece(c, sp) =~= leading_separator(s) + s);
                }
            }
        }
    }
}

/// Separating a camelCase phrase with spaces gives back the phrase it was made
/// from: for words separated by single spaces as `is_spaced_phrase` says,
/// `uncamelize(camelize(s), " ") == s`.
pub proof fn law_uncamelize_inverts_camelize(s: Seq<char>)
    requires
        is_spaced_phrase(s),
    ensures
        uncamelize_spec(camelize_spec(s), seq![' ']) == s,
{
    lemma_camel_state_of_phrase_prefix(s);
    let sp = seq![' '];
    let raw = uncamel_raw(camelize_spec(s), sp);
    assert(raw == leading_separator(s) + s);
    if s.len() > 0 {
        if is_upper_case(s[0]) {
            assert(raw.take(1) =~= sp);
            assert(raw.skip(1) =~= s);
        } else {
            assert(raw =~= s);
            assert(s.take(1)[0] == s[0]);
        }
    } else {
        assert(raw =~= s);
    }
}

/// For text `s` that is not empty, `uncamelize` of `s` followed by `c` is
/// `uncamelize` of `s` followed by what it writes for `c`.
proof fn lemma_uncamelize_push(s: Seq<char>, c: char)
    requires
        s.len() > 0,
    ensures
        uncamelize_spec(s.push(c), seq![' ']) == uncamelize_spec(s, seq![' ']) + uncamel_piece(
            c,
            seq![' '],
        ),
{
    let sp = seq![' '];
    let raw = uncamel_raw(s, sp);
    assert(s.push(c).drop_last() =~= s);
    let raw2 = uncamel_raw(s.push(c), sp);
    assert(raw2 == raw + uncamel_piece(c, sp));
    lemma_uncamel_raw_nonempty(s);
    assert(raw2[0] == raw[0]);
    assert(raw2.take(1) =~= seq![raw2[0]]);
    assert(raw.take(1) =~= seq![raw[0]]);
    if has_prefix(raw, sp) {
        assert(raw2.skip(1) =~= raw.skip(1) + uncamel_piece(c, sp));
    }
}

proof fn lemma_uncamel_raw_nonempty(s: Seq<char>)
    requires
        s.len() > 0,
    ensures
        uncamel_raw(s, seq![' ']).len() > 0,
    decreases s.len(),
{
    if s.len() > 1 {
        lemma_uncamel_raw_nonempty(s.drop_last());
    }
}

proof fn lemma_camel_state_of_uncamelize(s: Seq<char>)
    requires
        is_camel_text(s),
    ensures
        camel_state(uncamelize_spec(s, seq![' '])) == (s, false),
    decreases s.len(),
{
    let sp = seq![' '];
    if s.len() == 1 {
        let c = s[0];
        assert(s.drop_last() =~= Seq::<char>::empty());
        assert(s.last() == c);
        assert(uncamel_raw(s.drop_last(), sp) == Seq::<char>::empty());
        let raw = uncamel_raw(s, sp);
        assert(raw =~= uncamel_piece(c, sp));
        assert(ascii_lower(c) == c);
        assert(!is_white_space(s[0]));
        assert(raw.take(1) =~= seq![raw[0]]);
        if is_upper_case(c) {
            assert(raw.skip(1) =~= seq![c]);
        }
        assert(uncamelize_spec(s, sp) =~= seq![c]);
        let e = seq![c];
        assert(e.drop_last() =~= Seq::<char>::empty());
        assert(e.last() == c);
        assert(camel_state(e.drop_last()) == (Seq::<char>::empty(), false));
        assert(Seq::<char>::empty().push(c) =~= e);
        assert(e =~= s);
    } else if s.len() > 1 {
        let p = s.drop_last();
        let c = s.last();
        assert(is_camel_text(p)) by {
            assert forall|i: int| 0 <= i < p.len() implies !is_white_space(#[trigger] p[i]) by {
                assert(p[i] == s[i]);
            }
        }
        lemma_camel_state_of_uncamelize(p);
        lemma_uncamelize_push(p, c);
        assert(p.push(c) =~= s);
        let u = uncamelize_spec(p, sp);
        assert(!is_white_space(s[s.len() - 1]));
        if is_upper_case(c) {
            let lc = ascii_lower(c);
            let t = u + sp.push(lc);
            assert(t.drop_last() =~= u.push(' '));
            assert(u.push(' ').drop_last() =~= u);
            assert(camel_state(u.push(' ')) == (p, true));
            assert(!is_white_space(lc));
            assert(ascii_upper(lc) == c);
        } else {
            let t = u + seq![c];
            assert(t.drop_last() =~= u);
        }
    }
}

/// Camel-casing camelCase text after separating it with spaces gives the text
/// back: for text with no white space and no ASCII capital at the start, as
/// `is_camel_text` says, `camelize(uncamelize(s, " ")) == s`.
pub proof fn law_camelize_inverts_uncamelize(s: Seq<char>)
    requires
        is_camel_text(s),
    ensures
        camelize_spec(uncamelize_spec(s, seq![' '])) == s,
{
    if s.len() == 0 {
        assert(uncamel_raw(s, seq![' ']) =~= Seq::<char>::empty());
        assert(uncamelize_spec(s, seq![' ']) =~= Seq::<char>::empty());
        assert(s =~= Seq::<char>::empty());
    } else {
        lemma_camel_state_of_uncamelize(s);
    }
}

/// `camelize` leaves no white space in its result.
pub proof fn law_camelize_has_no_white_space(s: Seq<char>)
    ensures
        forall|i: int| 0 <= i < camelize_spec(s).len() ==> !is_white_space(#[trigger] camelize_spec(s)[i]),
    decreases s.len(),
{
    if s.len() > 0 {
        law_camelize_has_no_white_space(s.drop_last());
        let o = camel_state(s.drop_last()).0;
        let c = s.last();
        assert forall|i: int| 0 <= i < camelize_spec(s).len() implies !is_white_space(#[trigger] camelize_spec(s)[i]) by {
            if i < o.len() {
                assert(camelize_spec(s)[i] == o[i]);
                assert(camelize_spec(s.drop_last())[i] == o[i]);
            }
        }
    }
}

/// Reading `b` after `a`, when nothing is pending to be upper-cased after `a`,
/// writes what `a` writes followed by what `b` alone writes.
proof fn lemma_camel_state_append(a: Seq<char>, b: Seq<char>)
    requires
        !camel_state(a).1,
    ensures
        camel_state(a + b) == (camel_state(a).0 + camel_state(b).0, camel_state(b).1),
    decreases b.len(),
{
    if b.len() == 0 {
        assert(a + b =~= a);
        assert(camel_state(a).0 + Seq::<char>::empty() =~= camel_state(a).0);
    } else {
        let b2 = b.drop_last();
        lemma_camel_state_append(a, b2);
        assert((a + b).drop_last() =~= a + b2);
        assert((a + b).last() == b.last());
        let x = camel_state(a).0;
        let y = camel_state(b2).0;
        let c = b.last();
        assert((x + y).push(ascii_upper(c)) =~= x + y.push(ascii_upper(c)));
        assert((x + y).push(c) =~= x + y.push(c));
    }
}

/// Reading white space after `p` writes nothing more and leaves the next
/// character to be upper-cased.
proof fn lemma_camel_state_white_space(p: Seq<char>, w: Seq<char>)
    requires
        w.len() > 0,
        forall|i: int| 0 <= i < w.len() ==> is_white_space(#[trigger] w[i]),
    ensures
        camel_state(p + w) == (camel_state(p).0, true),
    decreases w.len(),
{
    let w2 = w.drop_last();
    assert((p + w).drop_last() =~= p + w2);
    assert((p + w).last() == w[w.len() - 1]);
    if w2.len() == 0 {
        assert(p + w2 =~= p);
    } else {
        lemma_camel_state_white_space(p, w2);
    }
}

/// `camelize` upper-cases the character after a run of white space, whatever
/// its own case, drops the white space, and leaves the text on either side as
/// `camelize` writes it alone: for `s = p + w + c + q`, with `w` white space
/// and `c` not, `camelize(s) == camelize(p) + ascii_upper(c) + camelize(q)`
/// (so `camelize("a B") == "aB"` and `camelize("a b") == "aB"`).
pub proof fn law_camelize_capitalizes_after_white_space(
    p: Seq<char>,
    w: Seq<char>,
    c: char,
    q: Seq<char>,
)
    requires
        w.len() > 0,
        forall|i: int| 0 <= i < w.len() ==> is_white_space(#[trigger] w[i]),
        !is_white_space(c),
    ensures
        camelize_spec(p + w + seq![c] + q) == camelize_spec(p) + seq![ascii_upper(c)]
            + camelize_spec(q),
{
    lemma_camel_state_white_space(p, w);
    let a = p + w + seq![c];
    assert(a.drop_last() =~= p + w);
    assert(a.last() == c);
    assert(camel_state(a) == (camelize_spec(p).push(ascii_upper(c)), false));
    lemma_camel_state_append(a, q);
    assert(camelize_spec(p).push(ascii_upper(c)) + camelize_spec(q) =~= camelize_spec(p) + seq![
        ascii_upper(c),
    ] + camelize_spec(q));
}

/// A number drawn uniformly from `0..bound` (`rand::thread_rng().gen_range`);
/// claims only that it lies in that range.
#[verifier::external_body]
fn random_below(bound: u8) -> (r: u8)
    requires
        bound > 0,
    ensures
        r < bound,
{
    rand::thread_rng().gen_range(0..bound)
}

/// Whether `c` is a lower-case hexadecimal digit.
pub open spec fn is_hex_char(c: char) -> bool {
    ('0' <= c && c <= '9') || ('a' <= c && c <= 'f')
}

/// The text of the hexadecimal digits `digits`, one character per digit.
pub fn hex_text(digits: &[u8]) -> (r: String)
    requires
        forall|i: int| 0 <= i < digits@.len() ==> digits@[i] < 16,
    ensures
        r@ == digits@.map_values(|d: u8| hex_char(d)),
{
    let mut r = String::new();
    let n = digits.len();
    for i in 0..n
        invariant
            n == digits@.len(),
            forall|i: int| 0 <= i < digits@.len() ==> digits@[i] < 16,
            r@ == digits@.take(i as int).map_values(|d: u8| hex_char(d)),
    {
        let d = digits[i];
        let c = if d < 10 { (d + 48) as char } else { (d + 87) as char };
        push_char(&mut r, c);
        assert(digits@.take(i + 1).map_values(|d: u8| hex_char(d)) =~= digits@.take(
            i as int,
        ).map_values(|d: u8| hex_char(d)).push(hex_char(d)));
    }
    assert(digits@.take(n as int) =~= digits@);
    r
}

/// Generates a random hexadecimal string of the specified length.
pub fn hex_string(len: usize) -> (r: String)
    ensures
        r@.len() == len,
        forall|i: int| 0 <= i < r@.len() ==> is_hex_char(#[trigger] r@[i]),
{
    let mut digits: Vec<u8> = Vec::new();
    for i in 0..len
        invariant
            digits@.len() == i,
            forall|j: int| 0 <= j < digits@.len() ==> digits@[j] < 16,
    {
        digits.push(random_below(16));
    }
    let r = hex_text(&digits);
    assert forall|i: int| 0 <= i < r@.len() implies is_hex_char(#[trigger] r@[i]) by {
        assert(r@[i] == hex_char(digits@[i]));
    }
    r
}

/// A simple event emitter: callbacks registered under event names.
///
/// The listeners are a list of event names, each with its callbacks, in which
/// no name occurs twice: vstd models `HashMap` only for keys with a key model
/// (integers, `bool`), not for `String`, so a map keyed by the event name
/// could carry no contract.
pub struct EventEmitter<C> {
    listeners: Vec<(String, Vec<C>)>,
}

impl<C> EventEmitter<C> {
    /// No two entries are registered under the same event name.
    #[verifier::type_invariant]
    closed spec fn names_distinct(self) -> bool {
        forall|i: int, j: int|
            0 <= i < j < self.listeners@.len() ==> self.listeners@[i].0@
                != self.listeners@[j].0@
    }

    /// The callbacks registered for `event`, in the order they were registered.
    pub closed spec fn listeners_for(self, event: Seq<char>) -> Seq<C> {
        if exists|i: int| 0 <= i < self.listeners@.len() && self.listeners@[i].0@ == event {
            let i = choose|i: int| 0 <= i < self.listeners@.len() && self.listeners@[i].0@ == event;
            self.listeners@[i].1@
        } else {
            Seq::empty()
        }
    }

    pub fn new() -> (r: Self)
        ensures
            forall|e: Seq<char>| #[trigger] r.listeners_for(e) == Seq::<C>::empty(),
    {
        EventEmitter { listeners: Vec::new() }
    }

    /// The index of the entry for `event`, if there is one.
    fn find(&self, event: &str) -> (r: Option<usize>)
        ensures
            match r {
                Some(i) => i < self.listeners@.len() && self.listeners@[i as int].0@ == event@,
                None => forall|i: int|
                    0 <= i < self.listeners@.len() ==> self.listeners@[i].0@ != event@,
            },
    {
        let key = String::from_str(event);
        let n = self.listeners.len();
        for i in 0..n
            invariant
                n == self.listeners@.len(),
                key@ == event@,
                forall|j: int| 0 <= j < i ==> self.listeners@[j].0@ != event@,
        {
            if self.listeners[i].0 == key {
                return Some(i);
            }
        }
        None
    }

    /// Registers a listener for an event.
    pub fn on(&mut self, event: &str, callback: C)
        ensures
            final(self).listeners_for(event@) == old(self).listeners_for(event@).push(callback),
            forall|e: Seq<char>|
                e != event@ ==> #[trigger] final(self).listeners_for(e) == old(self).listeners_for(e),
    {
        proof { use_type_invariant(&*self); }
        match self.find(event) {
            Some(i) => {
                let ghost old_l = self.listeners@;
                let mut l: Vec<(String, Vec<C>)> = Vec::new();
                std::mem::swap(&mut l, &mut self.listeners);
                let mut entry = l.remove(i);
                entry.1.push(callback);
                l.insert(i, entry);
                assert forall|a: int, b: int| 0 <= a < b < l@.len() implies l@[a].0@ != l@[b].0@ by {
                    assert(l@[a].0@ == old_l[a].0@ && l@[b].0@ == old_l[b].0@);
                }
                self.listeners = l;
                assert forall|e: Seq<char>| e != event@ implies #[trigger] self.listeners_for(e)
                    == old(self).listeners_for(e) by {
                    if exists|k: int| 0 <= k < old_l.len() && old_l[k].0@ == e {
                        let k = choose|k: int| 0 <= k < old_l.len() && old_l[k].0@ == e;
                        assert(self.listeners@[k] == old_l[k]);
                    }
                    if exists|k: int| 0 <= k < self.listeners@.len() && self.listeners@[k].0@ == e {
                        let k = choose|k: int| 0 <= k < self.listeners@.len() && self.listeners@[k].0@ == e;
                        assert(self.listeners@[k] == old_l[k]);
                    }
                }
                assert(self.listeners@[i as int].0@ == event@);
            },
            None => {
                let mut cbs: Vec<C> = Vec::new();
                cbs.push(callback);
                let ghost old_l = self.listeners@;
                let mut l: Vec<(String, Vec<C>)> = Vec::new();
                std::mem::swap(&mut l, &mut self.listeners);
                l.push((String::from_str(event), cbs));
                assert forall|a: int, b: int| 0 <= a < b < l@.len() implies l@[a].0@ != l@[b].0@ by {
                    if b < old_l.len() {
                        assert(l@[a] == old_l[a] && l@[b] == old_l[b]);
                    } else {
                        assert(l@[a] == old_l[a]);
                    }
                }
                self.listeners = l;
                let ghost last = (self.listeners@.len() - 1) as int;
                assert(self.listeners@[last].0@ == event@);
                assert forall|e: Seq<char>| e != event@ implies #[trigger] self.listeners_for(e)
                    == old(self).listeners_for(e) by {
                    if exists|k: int| 0 <= k < old_l.len() && old_l[k].0@ == e {
                        let k = choose|k: int| 0 <= k < old_l.len() && old_l[k].0@ == e;
                        assert(self.listeners@[k] == old_l[k]);
                    }
                    if exists|k: int| 0 <= k < self.listeners@.len() && self.listeners@[k].0@ == e {
                        let k = choose|k: int| 0 <= k < self.listeners@.len() && self.listeners@[k].0@ == e;
                        assert(self.listeners@[k] == old_l[k]);
                    }
                }
            },
        }
    }

    /// Emits an event: calls each callback registered for `event`, in
    /// registration order, with `data`.
    pub fn emit(&self, event: &str, data: Value)
        where C: Fn(&Value),
        requires
            forall|i: int| 0 <= i < self.listeners_for(event@).len() ==>
                call_requires(#[trigger] self.listeners_for(event@)[i], (&data,)),
    {
        proof { use_type_invariant(self); }
        match self.find(event) {
            Some(k) => {
                assert(self.listeners_for(event@) == self.listeners@[k as int].1@);
                let callbacks = &self.listeners[k].1;
                let n = callbacks.len();
                for i in 0..n
                    invariant
                        n == callbacks@.len(),
                        callbacks@ == self.listeners_for(event@),
                        forall|i: int| 0 <= i < self.listeners_for(event@).len() ==>
                            call_requires(#[trigger] self.listeners_for(event@)[i], (&data,)),
                {
                    (callbacks[i])(&data);
                }
            },
            None => {},
        }
    }
}

} // verus!
