//! Form data: the decoded pairs of an `application/x-www-form-urlencoded`
//! payload, and the decoder.

use vstd::prelude::*;
use crate::text::{chars_of, find_char, index_of, lemma_index_of_is, replace_char, replaced,
    split, str_eq, string_of_range, trim, trim_range};

verus! {

/// The mapping that a list of pairs denotes: a later pair replaces an
/// earlier one with the same name.
pub open spec fn assoc_map(s: Seq<(Seq<char>, Seq<char>)>) -> Map<Seq<char>, Seq<char>>
    decreases s.len(),
{
    if s.len() == 0 {
        Map::empty()
    } else {
        assoc_map(s.drop_last()).insert(s.last().0, s.last().1)
    }
}

/// The field name of one `name=value` piece: what stands before the first
/// `=`, or the whole piece if it holds none. It is taken as it is.
pub open spec fn pair_key(p: Seq<char>) -> Seq<char> {
    p.take(index_of(p, '='))
}

/// The value of one `name=value` piece: what stands behind the first `=`,
/// with `+` read as a space and then trimmed; empty if the piece holds no
/// `=`.
pub open spec fn pair_value(p: Seq<char>) -> Seq<char> {
    let i = index_of(p, '=');
    if 0 <= i < p.len() {
        trim(replace_char(p.skip(i + 1), '+', ' '))
    } else {
        Seq::empty()
    }
}

/// The mapping that a list of `name=value` pieces denotes.
pub open spec fn pieces_map(ps: Seq<Seq<char>>) -> Map<Seq<char>, Seq<char>>
    decreases ps.len(),
{
    if ps.len() == 0 {
        Map::empty()
    } else {
        pieces_map(ps.drop_last()).insert(pair_key(ps.last()), pair_value(ps.last()))
    }
}

/// The mapping that a form-encoded payload denotes: its pieces between
/// `&`, each split at its first `=`.
pub open spec fn form_map(data: Seq<char>) -> Map<Seq<char>, Seq<char>> {
    pieces_map(split(data, '&'))
}

/// A mapping from field names to values.
#[derive(Debug)]
pub struct FormData {
    pairs: Vec<(String, String)>,
}

pub closed spec fn pairs_view(pairs: Seq<(String, String)>) -> Seq<(Seq<char>, Seq<char>)> {
    Seq::new(pairs.len(), |i: int| (pairs[i].0@, pairs[i].1@))
}

proof fn lemma_assoc_lookup(s: Seq<(Seq<char>, Seq<char>)>, k: Seq<char>, i: int)
    requires
        -1 <= i < s.len(),
        i >= 0 ==> s[i].0 == k,
        forall|j: int| i < j < s.len() ==> s[j].0 != k,
    ensures
        i >= 0 ==> assoc_map(s).contains_key(k) && assoc_map(s)[k] == s[i].1,
        i < 0 ==> !assoc_map(s).contains_key(k),
    decreases s.len(),
{
    if s.len() > 0 {
        let t = s.drop_last();
        if i < s.len() - 1 {
            assert(s.last().0 != k);
            assert forall|j: int| i < j < t.len() implies t[j].0 != k by {
                assert(t[j] == s[j]);
            }
            if i >= 0 {
                assert(t[i] == s[i]);
            }
            lemma_assoc_lookup(t, k, i);
        }
    }
}

proof fn lemma_assoc_update(s: Seq<(Seq<char>, Seq<char>)>, k: Seq<char>, v: Seq<char>, i: int)
    requires
        0 <= i < s.len(),
        s[i].0 == k,
        forall|j: int| i < j < s.len() ==> s[j].0 != k,
    ensures
        assoc_map(s.update(i, (k, v))) == assoc_map(s).insert(k, v),
    decreases s.len(),
{
    let u = s.update(i, (k, v));
    let t = s.drop_last();
    if i == s.len() - 1 {
        assert(u.drop_last() == t);
        assert(assoc_map(u) == assoc_map(s).insert(k, v));
    } else {
        assert(u.drop_last() == t.update(i, (k, v)));
        assert(u.last() == s.last());
        assert(s.last().0 != k);
        assert(t[i] == s[i]);
        assert forall|j: int| i < j < t.len() implies t[j].0 != k by {
            assert(t[j] == s[j]);
        }
        lemma_assoc_update(t, k, v, i);
        assert(assoc_map(u) == assoc_map(s).insert(k, v));
    }
}

impl View for FormData {
    type V = Map<Seq<char>, Seq<char>>;

    closed spec fn view(&self) -> Map<Seq<char>, Seq<char>> {
        assoc_map(pairs_view(self.pairs@))
    }
}

impl FormData {
    /// A mapping without fields.
    pub fn new() -> (r: FormData)
        ensures
            r@ == Map::<Seq<char>, Seq<char>>::empty(),
    {
        FormData { pairs: Vec::new() }
    }

    /// The place of the pair that decides `key`, if the name occurs.
    fn position(&self, key: &str) -> (r: Option<usize>)
        ensures
            match r {
                Some(i) => i < self.pairs.len() && self.pairs@[i as int].0@ == key@,
                None => true,
            },
            forall|j: int|
                (match r {
                    Some(i) => i as int,
                    None => -1,
                }) < j < self.pairs.len() ==> self.pairs@[j].0@ != key@,
    {
        let mut i: usize = self.pairs.len();
        while i > 0
            invariant
                i <= self.pairs.len(),
                forall|j: int| i <= j < self.pairs.len() ==> self.pairs@[j].0@ != key@,
            decreases i,
        {
            i -= 1;
            if str_eq(self.pairs[i].0.as_str(), key) {
                return Some(i);
            }
        }
        None
    }

    /// Sets the field `key` to `value`, in place of an earlier value.
    pub fn insert(&mut self, key: String, value: String)
        ensures
            final(self)@ == old(self)@.insert(key@, value@),
    {
        let ghost before = pairs_view(self.pairs@);
        match self.position(key.as_str()) {
            Some(i) => {
                self.pairs.set(i, (key, value));
                proof {
                    lemma_assoc_update(before, key@, value@, i as int);
                    assert(pairs_view(self.pairs@) == before.update(i as int, (key@, value@)));
                }
            },
            None => {
                self.pairs.push((key, value));
                proof {
                    let after = pairs_view(self.pairs@);
                    assert(after.drop_last() == before);
                    assert(after.last() == (key@, value@));
                }
            },
        }
    }

    /// The value of the field `key`, if the mapping holds one.
    pub fn get(&self, key: &str) -> (r: Option<&str>)
        ensures
            match r {
                Some(v) => self@.contains_key(key@) && v@ == self@[key@],
                None => !self@.contains_key(key@),
            },
    {
        let found = self.position(key);
        proof {
            let i: int = match found {
                Some(i) => i as int,
                None => -1,
            };
            lemma_assoc_lookup(pairs_view(self.pairs@), key@, i);
        }
        match found {
            Some(i) => Some(self.pairs[i].1.as_str()),
            None => None,
        }
    }

    /// Whether the mapping holds the field `key`.
    pub fn contains_key(&self, key: &str) -> (r: bool)
        ensures
            r == self@.contains_key(key@),
    {
        self.get(key).is_some()
    }
}

/// Decodes a form-encoded payload: pieces between `&`, each split at its
/// first `=`; in a value `+` stands for a space and the white space around
/// it is dropped; a name is taken as it is; a piece without `=` has the
/// empty value; a later piece replaces an earlier one with the same name.
pub fn parse_form_data(data: &str) -> (form: FormData)
    ensures
        form@ == form_map(data@),
{
    let v = chars_of(data);
    let n = v.len();
    let mut form = FormData::new();
    let mut pos: usize = 0;
    let mut finished = false;
    let ghost mut done: Seq<Seq<char>> = Seq::empty();
    assert(v@.skip(0) == v@);
    while !finished
        invariant
            n == v.len(),
            v@ == data@,
            pos <= n,
            form@ == pieces_map(done),
            !finished ==> done + split(v@.skip(pos as int), '&') == split(v@, '&'),
            finished ==> done == split(v@, '&'),
        decreases
                (n - pos) + (if finished {
                    0int
                } else {
                    1int
                }),
    {
        let ghost rest = v@.skip(pos as int);
        let amp = find_char(&v, pos, n, '&');
        let ghost piece = v@.subrange(pos as int, amp as int);
        let eq = find_char(&v, pos, amp, '=');
        let key = string_of_range(&v, pos, eq);
        let value = if eq < amp {
            let w = replaced(&v, eq + 1, amp, '+', ' ');
            let (a, b) = trim_range(&w, 0, w.len());
            assert(w@.subrange(0, w.len() as int) == w@);
            assert(v@.subrange(eq + 1, amp as int) == piece.skip(eq - pos + 1));
            string_of_range(&w, a, b)
        } else {
            String::new()
        };
        proof {
            assert(rest.take(amp - pos) == piece);
            assert(piece.take(eq - pos) == v@.subrange(pos as int, eq as int));
            assert(key@ == pair_key(piece));
            assert(value@ == pair_value(piece));
            let next = done.push(piece);
            assert(next.drop_last() == done);
            assert(next.last() == piece);
            if amp < n {
                assert(rest.skip(amp - pos + 1) == v@.skip(amp + 1));
                assert(next + split(v@.skip(amp + 1), '&') == done + split(rest, '&'));
            } else {
                assert(next == done + split(rest, '&'));
            }
            done = next;
        }
        form.insert(key, value);
        if amp < n {
            pos = amp + 1;
        } else {
            finished = true;
        }
    }
    form
}

/// The text of one pair as a form sends it: the name, `=`, and the value
/// with `+` for each space.
pub open spec fn encode_pair(pair: (Seq<char>, Seq<char>)) -> Seq<char> {
    pair.0 + seq!['='] + replace_char(pair.1, ' ', '+')
}

/// The payload that a form sends for a list of pairs: the pairs, with `&`
/// between them.
pub open spec fn encode_form(pairs: Seq<(Seq<char>, Seq<char>)>) -> Seq<char>
    decreases pairs.len(),
{
    if pairs.len() == 0 {
        Seq::empty()
    } else if pairs.len() == 1 {
        encode_pair(pairs[0])
    } else {
        encode_pair(pairs[0]) + seq!['&'] + encode_form(pairs.drop_first())
    }
}

/// Whether a pair can be sent as it is: the name holds neither `&` nor
/// `=`, the value holds neither `&` nor `+` and has no white space at its
/// ends.
pub open spec fn is_plain_pair(pair: (Seq<char>, Seq<char>)) -> bool {
    &&& forall|i: int| 0 <= i < pair.0.len() ==> pair.0[i] != '&' && pair.0[i] != '='
    &&& forall|i: int| 0 <= i < pair.1.len() ==> pair.1[i] != '&' && pair.1[i] != '+'
    &&& trim(pair.1) == pair.1
}

/// The pairs of a list, each as a form sends it.
pub open spec fn encode_pieces(pairs: Seq<(Seq<char>, Seq<char>)>) -> Seq<Seq<char>> {
    Seq::new(pairs.len(), |i: int| encode_pair(pairs[i]))
}

proof fn lemma_pair_decodes(pair: (Seq<char>, Seq<char>))
    requires
        is_plain_pair(pair),
    ensures
        pair_key(encode_pair(pair)) == pair.0,
        pair_value(encode_pair(pair)) == pair.1,
        forall|i: int| 0 <= i < encode_pair(pair).len() ==> encode_pair(pair)[i] != '&',
{
    let e = encode_pair(pair);
    let sent = replace_char(pair.1, ' ', '+');
    assert forall|i: int| 0 <= i < e.len() implies e[i] != '&' by {
        if i < pair.0.len() {
            assert(e[i] == pair.0[i]);
        } else if i > pair.0.len() {
            assert(e[i] == sent[i - pair.0.len() - 1]);
        }
    }
    assert forall|i: int| 0 <= i < pair.0.len() implies e[i] != '=' by {
        assert(e[i] == pair.0[i]);
    }
    assert(e[pair.0.len() as int] == '=');
    lemma_index_of_is(e, '=', pair.0.len() as int);
    assert(e.take(pair.0.len() as int) == pair.0);
    assert(e.skip(pair.0.len() as int + 1) == sent);
    assert(replace_char(sent, '+', ' ') == pair.1);
}

proof fn lemma_split_encoded(pairs: Seq<(Seq<char>, Seq<char>)>)
    requires
        pairs.len() > 0,
        forall|i: int| 0 <= i < pairs.len() ==> is_plain_pair(#[trigger] pairs[i]),
    ensures
        split(encode_form(pairs), '&') == encode_pieces(pairs),
    decreases pairs.len(),
{
    let first = encode_pair(pairs[0]);
    let s = encode_form(pairs);
    lemma_pair_decodes(pairs[0]);
    if pairs.len() == 1 {
        lemma_index_of_is(first, '&', first.len() as int);
        assert(split(s, '&') == encode_pieces(pairs));
    } else {
        let rest = pairs.drop_first();
        assert forall|i: int| 0 <= i < rest.len() implies is_plain_pair(#[trigger] rest[i]) by {
            assert(rest[i] == pairs[i + 1]);
        }
        lemma_split_encoded(rest);
        assert forall|j: int| 0 <= j < first.len() implies s[j] != '&' by {
            assert(s[j] == first[j]);
        }
        assert(s[first.len() as int] == '&');
        lemma_index_of_is(s, '&', first.len() as int);
        assert(s.take(first.len() as int) == first);
        assert(s.skip(first.len() as int + 1) == encode_form(rest));
        assert(seq![first] + encode_pieces(rest) == encode_pieces(pairs)) by {
            assert forall|i: int| 0 <= i < pairs.len() implies (seq![first] + encode_pieces(
                rest,
            ))[i] == encode_pieces(pairs)[i] by {
                if i > 0 {
                    assert(rest[i - 1] == pairs[i]);
                }
            }
        }
    }
}

proof fn lemma_pieces_decode(pairs: Seq<(Seq<char>, Seq<char>)>)
    requires
        forall|i: int| 0 <= i < pairs.len() ==> is_plain_pair(#[trigger] pairs[i]),
    ensures
        pieces_map(encode_pieces(pairs)) == assoc_map(pairs),
    decreases pairs.len(),
{
    if pairs.len() > 0 {
        let front = pairs.drop_last();
        assert forall|i: int| 0 <= i < front.len() implies is_plain_pair(#[trigger] front[i]) by {
            assert(front[i] == pairs[i]);
        }
        lemma_pieces_decode(front);
        lemma_pair_decodes(pairs.last());
        assert(encode_pieces(pairs).drop_last() == encode_pieces(front));
        assert(encode_pieces(pairs).last() == encode_pair(pairs.last()));
    }
}

/// Decoding what a form sends gives the pairs back: for pairs that can be
/// sent as they are, the payload decodes to the mapping that the pairs
/// denote.
pub proof fn lemma_decode_encoded(pairs: Seq<(Seq<char>, Seq<char>)>)
    requires
        pairs.len() > 0,
        forall|i: int| 0 <= i < pairs.len() ==> is_plain_pair(#[trigger] pairs[i]),
    ensures
        form_map(encode_form(pairs)) == assoc_map(pairs),
{
    lemma_split_encoded(pairs);
    lemma_pieces_decode(pairs);
}

} // verus!
