//! What a request line says: the method, and the target taken apart into
//! path, query string and query parameters.

use crate::number::{parse_bounded, parse_unsigned};
use crate::text::{
    chars_between, chars_of, find_char, find_from, split, split_chars, split_words, text_of,
    texts, words,
};
use vstd::prelude::*;

verus! {

/// One request as the dispatcher sees it.
pub struct Request {
    pub method: String,
    pub path: String,
    /// What stands behind the first `?` of the target; empty if there is none.
    pub query: String,
    /// The query string's parameters, in the order in which they stand.
    pub params: Vec<(String, String)>,
    pub body: String,
}

/// A request as contracts see it: its texts as sequences of characters.
pub struct RequestView {
    pub method: Seq<char>,
    pub path: Seq<char>,
    pub query: Seq<char>,
    pub params: Seq<(Seq<char>, Seq<char>)>,
    pub body: Seq<char>,
}

/// The names and values that a vector of parameters holds.
pub open spec fn pairs(params: Seq<(String, String)>) -> Seq<(Seq<char>, Seq<char>)> {
    Seq::new(params.len(), |i: int| (params[i].0@, params[i].1@))
}

impl View for Request {
    type V = RequestView;

    open spec fn view(&self) -> RequestView {
        RequestView {
            method: self.method@,
            path: self.path@,
            query: self.query@,
            params: pairs(self.params@),
            body: self.body@,
        }
    }
}

/// What stands in `s` behind index `at`; nothing if `at` is the end of `s`.
pub open spec fn behind(s: Seq<char>, at: int) -> Seq<char> {
    if at < s.len() {
        s.skip(at + 1)
    } else {
        Seq::empty()
    }
}

/// The path of a target: what stands before its first `?`.
pub open spec fn path_of(target: Seq<char>) -> Seq<char> {
    target.take(find_from(target, '?', 0))
}

/// The query string of a target: what stands behind its first `?`.
pub open spec fn query_of(target: Seq<char>) -> Seq<char> {
    behind(target, find_from(target, '?', 0))
}

/// The parameter that one piece of a query string holds: the name before its
/// first `=` and the value behind it. A piece without `=` has an empty value.
pub open spec fn pair_of(piece: Seq<char>) -> (Seq<char>, Seq<char>) {
    (piece.take(find_from(piece, '=', 0)), behind(piece, find_from(piece, '=', 0)))
}

/// The parameters of a query string: one for each piece between `&`.
pub open spec fn pairs_of(query: Seq<char>) -> Seq<(Seq<char>, Seq<char>)> {
    Seq::new(split(query, '&').len(), |i: int| pair_of(split(query, '&')[i]))
}

/// The value of the parameter `name`: that of the last pair with this name.
pub open spec fn lookup(params: Seq<(Seq<char>, Seq<char>)>, name: Seq<char>) -> Option<
    Seq<char>,
>
    decreases params.len(),
{
    if params.len() == 0 {
        None
    } else if params.last().0 == name {
        Some(params.last().1)
    } else {
        lookup(params.drop_last(), name)
    }
}

/// The parameters as a map from names to values: a later pair replaces an
/// earlier one of the same name.
pub open spec fn query_map(params: Seq<(Seq<char>, Seq<char>)>) -> Map<Seq<char>, Seq<char>>
    decreases params.len(),
{
    if params.len() == 0 {
        Map::empty()
    } else {
        query_map(params.drop_last()).insert(params.last().0, params.last().1)
    }
}

/// Looking a name up gives what the map of the parameters holds for it.
pub proof fn lemma_lookup_reads_the_map(params: Seq<(Seq<char>, Seq<char>)>, name: Seq<char>)
    ensures
        lookup(params, name) == if query_map(params).contains_key(name) {
            Some(query_map(params)[name])
        } else {
            None
        },
    decreases params.len(),
{
    if params.len() > 0 {
        lemma_lookup_reads_the_map(params.drop_last(), name);
    }
}

/// What a request line and a body say, if the line has at least three words:
/// the first is the method, the second the target.
pub open spec fn request_of(line: Seq<char>, body: Seq<char>) -> Option<RequestView> {
    let w = words(line);
    if w.len() < 3 {
        None
    } else {
        Some(
            RequestView {
                method: w[0],
                path: path_of(w[1]),
                query: query_of(w[1]),
                params: pairs_of(query_of(w[1])),
                body,
            },
        )
    }
}

/// Takes a query string apart into its parameters.
pub fn parse_query(query: &Vec<char>) -> (params: Vec<(String, String)>)
    ensures
        pairs(params@) == pairs_of(query@),
{
    let pieces = split_chars(query, '&');
    let mut params: Vec<(String, String)> = Vec::new();
    let mut i: usize = 0;
    while i < pieces.len()
        invariant
            i <= pieces.len(),
            texts(pieces@) == split(query@, '&'),
            params@.len() == i,
            forall|k: int| 0 <= k < i ==> (#[trigger] pairs(params@)[k]) == pair_of(pieces@[k]@),
        decreases pieces.len() - i,
    {
        let piece = &pieces[i];
        let at = find_char(piece, '=', 0);
        let name = text_of(piece, 0, at);
        let value = if at < piece.len() {
            text_of(piece, at + 1, piece.len())
        } else {
            String::new()
        };
        let ghost before = params@;
        params.push((name, value));
        assert forall|k: int| 0 <= k < i + 1 implies (#[trigger] pairs(params@)[k]) == pair_of(
            pieces@[k]@,
        ) by {
            if k < i {
                assert(pairs(params@)[k] == pairs(before)[k]);
            }
        }
        i += 1;
    }
    params
}

/// Reads a request line: `None` if it has fewer than three words.
pub fn parse_request(request_line: &str, body: String) -> (r: Option<Request>)
    ensures
        r is Some == request_of(request_line@, body@) is Some,
        r matches Some(request) ==> Some(request@) == request_of(request_line@, body@),
{
    let line = chars_of(request_line);
    let tokens = split_words(&line);
    if tokens.len() < 3 {
        return None;
    }
    let method = text_of(&tokens[0], 0, tokens[0].len());
    let target = &tokens[1];
    let mark = find_char(target, '?', 0);
    let path = text_of(target, 0, mark);
    let query = if mark < target.len() {
        chars_between(target, mark + 1, target.len())
    } else {
        Vec::new()
    };
    let params = parse_query(&query);
    let query_text = text_of(&query, 0, query.len());
    assert(method@ == tokens@[0]@);
    assert(query_text@ == query@);
    Some(Request { method, path, query: query_text, params, body })
}

/// The value of the query parameter `name`, if the request has one.
pub fn query_param(params: &Vec<(String, String)>, name: &str) -> (value: Option<String>)
    ensures
        value is Some == lookup(pairs(params@), name@) is Some,
        value matches Some(v) ==> lookup(pairs(params@), name@) == Some(v@),
{
    let wanted = name.to_owned();
    let mut i: usize = params.len();
    assert(pairs(params@).take(i as int) == pairs(params@));
    while i > 0
        invariant
            i <= params.len(),
            wanted@ == name@,
            lookup(pairs(params@), name@) == lookup(pairs(params@).take(i as int), name@),
        decreases i,
    {
        let ghost upto = pairs(params@).take(i as int);
        assert(upto.drop_last() == pairs(params@).take(i - 1));
        if params[i - 1].0 == wanted {
            return Some(params[i - 1].1.clone());
        }
        i -= 1;
    }
    None
}

/// The user that a request names: the value of its parameter `userid`, where
/// that is an unsigned number of 32 bits.
pub open spec fn user_id_of(params: Seq<(Seq<char>, Seq<char>)>) -> Option<u32> {
    match lookup(params, "userid"@) {
        Some(value) => match parse_unsigned(value, u32::MAX as nat) {
            Some(n) => Some(n as u32),
            None => None,
        },
        None => None,
    }
}

/// The user that the request names, if it names one.
pub fn user_id(params: &Vec<(String, String)>) -> (id: Option<u32>)
    ensures
        id == user_id_of(pairs(params@)),
{
    match query_param(params, "userid") {
        Some(value) => {
            let digits = chars_of(value.as_str());
            match parse_bounded(&digits, u32::MAX as u64) {
                Some(n) => Some(n as u32),
                None => None,
            }
        },
        None => None,
    }
}

} // verus!
