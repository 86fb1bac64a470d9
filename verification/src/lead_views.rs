//! The dashboard's views of leads: the paged, searchable list grouped by
//! vertical, and the details of one lead with its pings and post.

use vstd::prelude::*;
use crate::codec::{
    base64_char, base64_decode, base64_encode, base64_standard, base64_standard_decoded,
    percent_decoded, url_decode, utf8_text,
};
use crate::text::{
    append_chars, char_to_uppercase, char_upper, chars_of, concat2, find_char, first_index_of,
    opt_view, parse_i64, parsed_i64, replace_all, replace_chars, str_eq, string_of, to_lowercase,
    trim, trim_chars, unicode_lower,
};

verus! {

broadcast use vstd::string::group_string_axioms;

/// The pieces of `s` between the separators `c`, as `str::split`.
pub open spec fn split_on(s: Seq<char>, c: char) -> Seq<Seq<char>>
    decreases s.len(),
{
    match first_index_of(s, c) {
        Some(i) => if 0 <= i < s.len() {
            seq![s.subrange(0, i)] + split_on(s.skip(i + 1), c)
        } else {
            seq![s]
        },
        None => seq![s],
    }
}

/// A text percent-decoded, or as it is when it does not decode.
pub open spec fn decoded_or_raw(s: Seq<char>) -> Seq<char> {
    match percent_decoded(s) {
        Some(d) => d,
        None => s,
    }
}

/// The key and value of one `key=value` piece: the value is what follows
/// the first `=`, empty when there is none; both are decoded.
pub open spec fn query_pair(p: Seq<char>) -> (Seq<char>, Seq<char>) {
    match first_index_of(p, '=') {
        Some(i) => (decoded_or_raw(p.subrange(0, i)), decoded_or_raw(p.skip(i + 1))),
        None => (decoded_or_raw(p), decoded_or_raw(Seq::empty())),
    }
}

/// The pairs of a query string, in order.
pub open spec fn query_pairs(q: Seq<char>) -> Seq<(Seq<char>, Seq<char>)> {
    split_on(q, '&').map_values(|p: Seq<char>| query_pair(p))
}

proof fn lemma_first_index_bounds(s: Seq<char>, c: char)
    ensures
        first_index_of(s, c) matches Some(i) ==> 0 <= i < s.len() && s[i] == c,
    decreases s.len(),
{
    if s.len() > 0 && s[0] != c {
        lemma_first_index_bounds(s.drop_first(), c);
    }
}

fn decode_or_raw(s: &[char]) -> (r: String)
    ensures
        r@ == decoded_or_raw(s@),
{
    let t = string_of(s);
    match url_decode(t.as_str()) {
        Some(d) => d,
        None => t,
    }
}

fn pair_of(p: &[char]) -> (r: (String, String))
    ensures
        (r.0@, r.1@) == query_pair(p@),
{
    match find_char(p, '=') {
        Some(i) => {
            let mut k: Vec<char> = Vec::new();
            let mut v: Vec<char> = Vec::new();
            let n = p.len();
            for j in 0..i
                invariant
                    i < n,
                    n == p@.len(),
                    k@ == p@.subrange(0, j as int),
            {
                k.push(p[j]);
                assert(p@.subrange(0, j + 1) == p@.subrange(0, j as int).push(p@[j as int]));
            }
            for j in i + 1..n
                invariant
                    i < n,
                    n == p@.len(),
                    v@ == p@.subrange(i + 1, j as int),
            {
                v.push(p[j]);
                assert(p@.subrange(i + 1, j + 1) == p@.subrange(i + 1, j as int).push(p@[j as int]));
            }
            assert(p@.subrange(i + 1, n as int) =~= p@.skip(i + 1));
            (decode_or_raw(&k), decode_or_raw(&v))
        },
        None => {
            proof {
                reveal_strlit("");
            }
            let e: Vec<char> = Vec::new();
            assert(e@ =~= Seq::<char>::empty());
            (decode_or_raw(p), decode_or_raw(&e))
        },
    }
}

/// The pairs of a query string (see `query_pairs`).
pub fn parse_query(q: &str) -> (r: Vec<(String, String)>)
    ensures
        r@.map_values(|x: (String, String)| (x.0@, x.1@)) == query_pairs(q@),
{
    let cs = chars_of(q);
    let n = cs.len();
    let mut out: Vec<(String, String)> = Vec::new();
    let mut start: usize = 0;
    let mut piece: Vec<char> = Vec::new();
    let mut i: usize = 0;
    assert(cs@.skip(0) =~= cs@);
    assert(piece@ =~= cs@.subrange(0, 0));
    assert(out@.map_values(|x: (String, String)| (x.0@, x.1@)) + split_on(cs@, '&').map_values(
        |p: Seq<char>| query_pair(p),
    ) =~= query_pairs(q@));
    // The pieces are produced one at a time; `rest` is what is left to split.
    while i < n
        invariant
            start <= i <= n,
            n == cs@.len(),
            cs@ == q@,
            piece@ == cs@.subrange(start as int, i as int),
            forall|k: int| start <= k < i ==> cs@[k] != '&',
            out@.map_values(|x: (String, String)| (x.0@, x.1@)) + split_on(
                cs@.skip(start as int),
                '&',
            ).map_values(|p: Seq<char>| query_pair(p)) == query_pairs(q@),
        decreases n - i,
    {
        if cs[i] == '&' {
            let ghost rest = cs@.skip(start as int);
            proof {
                assert(rest.subrange(0, (i - start) as int) =~= piece@);
                assert forall|k: int| 0 <= k < i - start implies rest[k] != '&' by {
                    assert(rest[k] == cs@[start + k]);
                }
                assert(rest[(i - start) as int] == '&');
                crate::text::lemma_first_index_found(rest, '&', (i - start) as int);
                assert(rest.skip((i - start) + 1) =~= cs@.skip(i + 1));
                assert(split_on(rest, '&') == seq![piece@] + split_on(cs@.skip(i + 1), '&'));
                assert(split_on(rest, '&').map_values(|p: Seq<char>| query_pair(p)) =~= seq![
                    query_pair(piece@),
                ] + split_on(cs@.skip(i + 1), '&').map_values(|p: Seq<char>| query_pair(p)));
            }
            let ghost before = out@;
            let pr = pair_of(&piece);
            out.push(pr);
            assert(out@.map_values(|x: (String, String)| (x.0@, x.1@)) =~= before.map_values(
                |x: (String, String)| (x.0@, x.1@),
            ).push(query_pair(piece@)));
            piece = Vec::new();
            start = i + 1;
            assert(piece@ =~= cs@.subrange(start as int, start as int));
        } else {
            piece.push(cs[i]);
            assert(cs@.subrange(start as int, i + 1) == cs@.subrange(start as int, i as int).push(
                cs@[i as int],
            ));
        }
        i = i + 1;
    }
    let ghost rest = cs@.skip(start as int);
    proof {
        assert(rest =~= piece@);
        assert forall|k: int| 0 <= k < rest.len() implies rest[k] != '&' by {
            assert(rest[k] == cs@[start + k]);
        }
        crate::text::lemma_first_index_none(rest, '&');
        assert(split_on(rest, '&') == seq![rest]);
        assert(split_on(rest, '&').map_values(|p: Seq<char>| query_pair(p)) =~= seq![
            query_pair(piece@),
        ]);
    }
    let ghost before = out@;
    let pr = pair_of(&piece);
    out.push(pr);
    assert(out@.map_values(|x: (String, String)| (x.0@, x.1@)) =~= before.map_values(
        |x: (String, String)| (x.0@, x.1@),
    ).push(query_pair(piece@)));
    out
}

/// The value of the last pair with key `key` (later pairs override
/// earlier ones).
pub open spec fn last_value(pairs: Seq<(Seq<char>, Seq<char>)>, key: Seq<char>) -> Option<Seq<char>>
    decreases pairs.len(),
{
    if pairs.len() == 0 {
        None
    } else if pairs.last().0 == key {
        Some(pairs.last().1)
    } else {
        last_value(pairs.drop_last(), key)
    }
}

/// The value a query string gives for `key` (see `last_value`).
pub fn query_param(pairs: &Vec<(String, String)>, key: &str) -> (r: Option<String>)
    ensures
        opt_view(r) == last_value(pairs@.map_values(|x: (String, String)| (x.0@, x.1@)), key@),
{
    let ghost pv = pairs@.map_values(|x: (String, String)| (x.0@, x.1@));
    let mut i = pairs.len();
    assert(pv.take(i as int) =~= pv);
    while i > 0
        invariant
            i <= pairs@.len(),
            pv == pairs@.map_values(|x: (String, String)| (x.0@, x.1@)),
            last_value(pv, key@) == last_value(pv.take(i as int), key@),
        decreases i,
    {
        let ghost pre = pv.take(i as int);
        assert(pre.drop_last() =~= pv.take(i - 1));
        if str_eq(pairs[i - 1].0.as_str(), key) {
            return Some(pairs[i - 1].1.clone());
        }
        i = i - 1;
    }
    None
}

/// The page, the page size and the row offset of a lead list.
pub struct Pagination {
    pub page: i64,
    pub per_page: i64,
    /// `None` where `(page - 1) * per_page` does not fit in an `i64` (the
    /// multiplication overflows there).
    pub offset: Option<i64>,
}

/// The page asked for: the parameter when it parses, 1 otherwise, and at
/// least 1.
pub open spec fn page_of(p: Option<Seq<char>>) -> int {
    let v = match p {
        Some(s) => match parsed_i64(s) {
            Some(v) => v,
            None => 1,
        },
        None => 1,
    };
    if v < 1 {
        1
    } else {
        v
    }
}

/// The page size: the parameter when it parses, 100 otherwise, kept
/// between 1 and 100.
pub open spec fn per_page_of(p: Option<Seq<char>>) -> int {
    let v = match p {
        Some(s) => match parsed_i64(s) {
            Some(v) => v,
            None => 100,
        },
        None => 100,
    };
    if v < 1 {
        1
    } else if v > 100 {
        100
    } else {
        v
    }
}

pub open spec fn str_opt(o: Option<&str>) -> Option<Seq<char>> {
    match o {
        Some(s) => Some(s@),
        None => None,
    }
}

/// The pagination of a lead list from its `page` and `per_page`
/// parameters.
pub fn pagination(page: Option<&str>, per_page: Option<&str>) -> (r: Pagination)
    ensures
        r.page == page_of(str_opt(page)),
        r.per_page == per_page_of(str_opt(per_page)),
        match r.offset {
            Some(o) => o == (r.page - 1) * r.per_page,
            None => (r.page - 1) * r.per_page > i64::MAX,
        },
{
    let p0 = match page {
        Some(s) => match parse_i64(s) {
            Some(v) => v,
            None => 1,
        },
        None => 1,
    };
    let p = if p0 < 1 {
        1
    } else {
        p0
    };
    let q0 = match per_page {
        Some(s) => match parse_i64(s) {
            Some(v) => v,
            None => 100,
        },
        None => 100,
    };
    let q = if q0 < 1 {
        1
    } else if q0 > 100 {
        100
    } else {
        q0
    };
    let offset = (p - 1).checked_mul(q);
    Pagination { page: p, per_page: q, offset }
}

/// The number of pages `total` leads fill at `per_page` a page.
pub fn total_pages(total: i64, per_page: i64) -> (r: i64)
    requires
        total >= 0,
        1 <= per_page,
    ensures
        r as int * per_page >= total,
        (r as int - 1) * per_page < total || r == 0,
        r >= 0,
{
    let q = total / per_page;
    assert(q * per_page + total % per_page == total) by (nonlinear_arith)
        requires
            per_page >= 1,
            q == total / per_page,
    ;
    assert(0 <= total % per_page < per_page) by (nonlinear_arith)
        requires
            per_page >= 1,
    ;
    assert(q >= 0) by (nonlinear_arith)
        requires
            per_page >= 1,
            total >= 0,
            q == total / per_page,
    ;
    assert(q * per_page <= total);
    assert(q <= q * per_page) by (nonlinear_arith)
        requires
            per_page >= 1,
            q >= 0,
    ;
    let r = if total % per_page == 0 {
        q
    } else {
        q + 1
    };
    assert((r as int - 1) * per_page == r as int * per_page - per_page) by (nonlinear_arith);
    assert(r as int * per_page == q * per_page + (r - q) * per_page) by (nonlinear_arith);
    r
}

/// The search term of a lead list: the `search` parameter trimmed and
/// lower-cased, when the trimmed text is at least 3 bytes long.
pub open spec fn search_term_of(s: Option<Seq<char>>) -> Option<Seq<char>> {
    match s {
        Some(t) => if vstd::utf8::encode_utf8(trim(t)).len() >= 3 {
            Some(unicode_lower(trim(t)))
        } else {
            None
        },
        None => None,
    }
}

/// The search term of a lead list (see `search_term_of`).
pub fn search_term(search: Option<&str>) -> (r: Option<String>)
    ensures
        opt_view(r) == search_term_of(str_opt(search)),
{
    match search {
        Some(s) => {
            let tc = trim_chars(&chars_of(s));
            if crate::text::utf8_len_at_least(tc.as_slice(), 3) {
                Some(to_lowercase(string_of(tc.as_slice()).as_str()))
            } else {
                None
            }
        },
        None => None,
    }
}

/// The `LIKE` pattern of a search term.
pub fn search_pattern(term: &str) -> (r: String)
    ensures
        r@ == "%"@ + term@ + "%"@,
{
    crate::text::concat3("%", term, "%")
}

/// The slug a lead is grouped under: its vertical's, or "unknown".
pub fn slug_or_unknown(slug: Option<String>) -> (r: String)
    ensures
        r@ == match opt_view(slug) {
            Some(s) => s,
            None => "unknown"@,
        },
{
    match slug {
        Some(s) => s,
        None => String::from_str("unknown"),
    }
}

/// The display name of a vertical: its slug with the first character
/// upper-cased.
pub open spec fn display_name(slug: Seq<char>) -> Seq<char> {
    if slug.len() == 0 {
        Seq::empty()
    } else {
        char_upper(slug[0]) + slug.drop_first()
    }
}

/// The display name of a vertical (see `display_name`). The rest of the
/// slug is taken from byte 1, so a slug whose first character is not
/// ASCII is refused.
pub fn vertical_display_name(slug: &str) -> (r: String)
    requires
        slug@.len() == 0 || (slug@[0] as u32) < 128,
    ensures
        r@ == display_name(slug@),
{
    let cs = chars_of(slug);
    if cs.len() == 0 {
        return String::new();
    }
    let first = char_to_uppercase(cs[0]);
    let mut rest: Vec<char> = Vec::new();
    let n = cs.len();
    for i in 1..n
        invariant
            n == cs@.len(),
            n >= 1,
            rest@ == cs@.subrange(1, i as int),
    {
        rest.push(cs[i]);
        assert(cs@.subrange(1, i + 1) == cs@.subrange(1, i as int).push(cs@[i as int]));
    }
    assert(cs@.subrange(1, n as int) =~= cs@.drop_first());
    concat2(first.as_str(), string_of(rest.as_slice()).as_str())
}

/// The groups of leads by vertical slug after the first `n` leads: each
/// slug once, in order of first appearance, with the indices of its
/// leads in order.
pub open spec fn groups_upto(slugs: Seq<Seq<char>>, n: nat) -> Seq<(Seq<char>, Seq<int>)>
    decreases n,
{
    if n == 0 {
        Seq::empty()
    } else {
        let g = groups_upto(slugs, (n - 1) as nat);
        let s = slugs[n - 1];
        match group_index(g, s) {
            Some(j) => g.update(j, (s, g[j].1.push(n - 1))),
            None => g.push((s, seq![n - 1])),
        }
    }
}

/// The position of the group of slug `s`.
pub open spec fn group_index(g: Seq<(Seq<char>, Seq<int>)>, s: Seq<char>) -> Option<int> {
    if exists|j: int| 0 <= j < g.len() && #[trigger] g[j].0 == s {
        Some(choose|j: int| 0 <= j < g.len() && #[trigger] g[j].0 == s)
    } else {
        None
    }
}

pub open spec fn groups_view(v: Seq<(String, Vec<usize>)>) -> Seq<(Seq<char>, Seq<int>)> {
    v.map_values(|x: (String, Vec<usize>)| (x.0@, x.1@.map_values(|k: usize| k as int)))
}

/// Whether the groups name distinct slugs.
pub open spec fn distinct_slugs(g: Seq<(Seq<char>, Seq<int>)>) -> bool {
    forall|a: int, b: int| 0 <= a < b < g.len() ==> #[trigger] g[a].0 != #[trigger] g[b].0
}

proof fn lemma_groups_distinct(slugs: Seq<Seq<char>>, n: nat)
    requires
        n <= slugs.len(),
    ensures
        distinct_slugs(groups_upto(slugs, n)),
    decreases n,
{
    if n > 0 {
        lemma_groups_distinct(slugs, (n - 1) as nat);
        let g = groups_upto(slugs, (n - 1) as nat);
        let s = slugs[n - 1];
        match group_index(g, s) {
            Some(j) => {
                let j2 = choose|j: int| 0 <= j < g.len() && #[trigger] g[j].0 == s;
                let h = g.update(j2, (s, g[j2].1.push(n - 1)));
                assert forall|a: int, b: int| 0 <= a < b < h.len() implies #[trigger] h[a].0
                    != #[trigger] h[b].0 by {
                    assert(h[a].0 == g[a].0);
                    assert(h[b].0 == g[b].0);
                }
            },
            None => {
                let h = g.push((s, seq![n - 1]));
                assert forall|a: int, b: int| 0 <= a < b < h.len() implies #[trigger] h[a].0
                    != #[trigger] h[b].0 by {
                    if b == g.len() {
                        assert(h[a].0 == g[a].0);
                    } else {
                        assert(h[a].0 == g[a].0);
                        assert(h[b].0 == g[b].0);
                    }
                }
            },
        }
    }
}

/// The leads grouped by vertical slug (see `groups_upto`).
pub fn group_by_slug(slugs: &Vec<String>) -> (r: Vec<(String, Vec<usize>)>)
    ensures
        groups_view(r@) == groups_upto(slugs@.map_values(|s: String| s@), slugs@.len()),
{
    let ghost sv = slugs@.map_values(|s: String| s@);
    let mut g: Vec<(String, Vec<usize>)> = Vec::new();
    let n = slugs.len();
    assert(groups_view(g@) =~= groups_upto(sv, 0));
    for i in 0..n
        invariant
            n == slugs@.len(),
            sv == slugs@.map_values(|s: String| s@),
            groups_view(g@) == groups_upto(sv, i as nat),
    {
        proof {
            lemma_groups_distinct(sv, i as nat);
        }
        let ghost gv = groups_view(g@);
        let ghost s = sv[i as int];
        let mut found: Option<usize> = None;
        let m = g.len();
        for j in 0..m
            invariant
                m == g@.len(),
                gv == groups_view(g@),
                s == sv[i as int],
                sv == slugs@.map_values(|s: String| s@),
                i < n,
                n == slugs@.len(),
                match found {
                    Some(k) => k < j && gv[k as int].0 == s,
                    None => forall|k: int| 0 <= k < j ==> gv[k].0 != s,
                },
        {
            if found.is_none() && str_eq(g[j].0.as_str(), slugs[i].as_str()) {
                found = Some(j);
            }
        }
        match found {
            Some(k) => {
                proof {
                    let j2 = choose|j: int| 0 <= j < gv.len() && #[trigger] gv[j].0 == s;
                    assert(gv[k as int].0 == s);
                    if j2 != k as int {
                        if j2 < k as int {
                            assert(gv[j2].0 != gv[k as int].0);
                        } else {
                            assert(gv[k as int].0 != gv[j2].0);
                        }
                    }
                }
                let ghost old_g = g@;
                let mut entry = g.remove(k);
                assert(entry == old_g[k as int]);
                entry.1.push(i);
                let ghost e2 = entry;
                g.insert(k, entry);
                assert(g@ =~= old_g.update(k as int, e2));
                assert(e2.1@.map_values(|x: usize| x as int) =~= old_g[k as int].1@.map_values(
                    |x: usize| x as int,
                ).push(i as int));
                assert(groups_view(g@) =~= gv.update(k as int, (s, gv[k as int].1.push(i as int))));
            },
            None => {
                let ghost before = g@;
                let mut ix: Vec<usize> = Vec::new();
                ix.push(i);
                let name = slugs[i].clone();
                assert(name@ == s);
                assert(ix@.map_values(|x: usize| x as int) =~= seq![i as int]);
                g.push((name, ix));
                assert(groups_view(g@) =~= gv.push((s, seq![i as int])));
            },
        }
    }
    g
}

/// What the details show for an encrypted PII field.
pub open spec fn pii_shown(key_available: bool, encrypted: Option<Seq<char>>, decrypted: Option<Seq<char>>) -> Option<
    Seq<char>,
> {
    match encrypted {
        None => None,
        Some(e) => if e.len() == 0 {
            None
        } else if key_available {
            decrypted
        } else {
            Some("[Encrypted - decryption key unavailable]"@)
        },
    }
}

/// What the details show for an encrypted PII field: nothing when it is
/// absent or empty; with the key, what decrypting it gave (`decrypted`,
/// `None` when that failed); without it, a placeholder.
pub fn pii_value(key_available: bool, encrypted: Option<&str>, decrypted: Option<String>) -> (r: Option<String>)
    ensures
        opt_view(r) == pii_shown(key_available, str_opt(encrypted), opt_view(decrypted)),
{
    match encrypted {
        None => None,
        Some(e) => if e.is_empty() {
            None
        } else if key_available {
            decrypted
        } else {
            Some(String::from_str("[Encrypted - decryption key unavailable]"))
        },
    }
}

/// The end of the last `_C` within the first `n` characters of `s`, or 0.
pub open spec fn last_sep_end(s: Seq<char>, n: nat) -> int
    decreases n,
{
    if n < 2 || n > s.len() {
        0
    } else if s[n - 2] == '_' && s[n - 1] == 'C' {
        n as int
    } else {
        last_sep_end(s, (n - 1) as nat)
    }
}

/// What follows the last `_C` of `s` (all of `s` when it has none), as
/// the first item of `rsplit("_C")`.
pub open spec fn after_last_sep(s: Seq<char>) -> Seq<char> {
    s.skip(last_sep_end(s, s.len()))
}

/// The ping-payload key a buyer response's ping id leads to: the id
/// without its `FP_` prefix, cut after its last `_C`, base64-decoded as
/// UTF-8 text with `|accepted` turned into `|pending`, and encoded again
/// behind `FP_`.
pub open spec fn pending_key_of(pid: Seq<char>) -> Option<Seq<char>> {
    if pid.len() < 3 || pid.take(3) != "FP_"@ {
        None
    } else {
        match base64_standard_decoded(after_last_sep(pid.skip(3))) {
            None => None,
            Some(bytes) => if !vstd::utf8::valid_utf8(bytes) {
                None
            } else {
                Some(
                    "FP_"@ + base64_standard(
                        vstd::utf8::encode_utf8(
                            replace_all(vstd::utf8::decode_utf8(bytes), "|accepted"@, "|pending"@),
                        ),
                    ),
                )
            },
        }
    }
}

proof fn lemma_last_sep_end_bounds(s: Seq<char>, n: nat)
    ensures
        0 <= last_sep_end(s, n) <= s.len(),
        last_sep_end(s, n) <= n,
    decreases n,
{
    if n >= 2 && n <= s.len() && !(s[n - 2] == '_' && s[n - 1] == 'C') {
        lemma_last_sep_end_bounds(s, (n - 1) as nat);
    }
}

proof fn lemma_no_underscore_no_sep(s: Seq<char>, n: nat)
    requires
        forall|i: int| 0 <= i < s.len() ==> #[trigger] s[i] != '_',
    ensures
        last_sep_end(s, n) == 0,
    decreases n,
{
    if n >= 2 && n <= s.len() {
        assert(s[n - 2] != '_');
        lemma_no_underscore_no_sep(s, (n - 1) as nat);
    }
}

fn after_last_sep_of(s: &Vec<char>) -> (r: Vec<char>)
    ensures
        r@ == after_last_sep(s@),
{
    let n = s.len();
    let mut start: usize = 0;
    if n >= 2 {
        for k in 0..n - 1
            invariant
                n >= 2,
                n == s@.len(),
                start == last_sep_end(s@, (k + 1) as nat),
        {
            if s[k] == '_' && s[k + 1] == 'C' {
                start = k + 2;
            }
        }
    }
    proof {
        lemma_last_sep_end_bounds(s@, n as nat);
    }
    let mut r: Vec<char> = Vec::new();
    let mut j = start;
    while j < n
        invariant
            start <= j <= n,
            n == s@.len(),
            r@ == s@.subrange(start as int, j as int),
        decreases n - j,
    {
        r.push(s[j]);
        assert(s@.subrange(start as int, j + 1) == s@.subrange(start as int, j as int).push(s@[j as int]));
        j = j + 1;
    }
    assert(r@ =~= s@.skip(start as int));
    r
}

/// The ping-payload key a buyer response's ping id leads to (see
/// `pending_key_of`). For an id made as `FP_` and the base64 text of a
/// UTF-8 text `t`, that key is `FP_` and the base64 text of `t` with
/// `|accepted` turned into `|pending`.
pub fn pending_key(pid: &str) -> (r: Option<String>)
    ensures
        opt_view(r) == pending_key_of(pid@),
        forall|t: Seq<char>|
            pid@ == "FP_"@ + base64_standard(vstd::utf8::encode_utf8(t)) && (forall|i: int|
                0 <= i < base64_standard(vstd::utf8::encode_utf8(t)).len() ==> #[trigger] base64_char(
                    base64_standard(vstd::utf8::encode_utf8(t))[i],
                )) ==> opt_view(r) == Some(
                "FP_"@ + base64_standard(
                    vstd::utf8::encode_utf8(replace_all(t, "|accepted"@, "|pending"@)),
                ),
            ),
{
    proof {
        reveal_strlit("FP_");
        reveal_strlit("|accepted");
    }
    let cs = chars_of(pid);
    if cs.len() < 3 || cs[0] != 'F' || cs[1] != 'P' || cs[2] != '_' {
        proof {
            if pid@.len() >= 3 && pid@.take(3) == "FP_"@ {
                assert(pid@.take(3)[0] == 'F');
                assert(pid@.take(3)[1] == 'P');
                assert(pid@.take(3)[2] == '_');
            }
            assert forall|t: Seq<char>|
                pid@ == "FP_"@ + base64_standard(vstd::utf8::encode_utf8(t)) implies false by {
                assert(pid@[0] == 'F');
                assert(pid@[1] == 'P');
                assert(pid@[2] == '_');
            }
        }
        return None;
    }
    assert(pid@.take(3) =~= "FP_"@);
    let mut rest: Vec<char> = Vec::new();
    let n = cs.len();
    for j in 3..n
        invariant
            n == cs@.len(),
            n >= 3,
            rest@ == cs@.subrange(3, j as int),
    {
        rest.push(cs[j]);
        assert(cs@.subrange(3, j + 1) == cs@.subrange(3, j as int).push(cs@[j as int]));
    }
    assert(rest@ =~= pid@.skip(3));
    let base = after_last_sep_of(&rest);
    let base_text = string_of(base.as_slice());
    let ghost law = forall|t: Seq<char>|
        pid@ == "FP_"@ + base64_standard(vstd::utf8::encode_utf8(t)) && (forall|i: int|
            0 <= i < base64_standard(vstd::utf8::encode_utf8(t)).len() ==> #[trigger] base64_char(
                base64_standard(vstd::utf8::encode_utf8(t))[i],
            )) ==> after_last_sep(pid@.skip(3)) == base64_standard(vstd::utf8::encode_utf8(t));
    assert(law) by {
        assert forall|t: Seq<char>|
            pid@ == "FP_"@ + base64_standard(vstd::utf8::encode_utf8(t)) && (forall|i: int|
                0 <= i < base64_standard(vstd::utf8::encode_utf8(t)).len() ==> #[trigger] base64_char(
                    base64_standard(vstd::utf8::encode_utf8(t))[i],
                )) implies after_last_sep(pid@.skip(3)) == base64_standard(vstd::utf8::encode_utf8(t)) by {
            let e = base64_standard(vstd::utf8::encode_utf8(t));
            assert(pid@.skip(3) =~= e);
            assert forall|i: int| 0 <= i < e.len() implies #[trigger] e[i] != '_' by {
                assert(base64_char(e[i]));
            }
            lemma_no_underscore_no_sep(e, e.len());
            assert(e.skip(0) =~= e);
        }
    }
    match base64_decode(base_text.as_str()) {
        None => {
            proof {
                assert forall|t: Seq<char>|
                    pid@ == "FP_"@ + base64_standard(vstd::utf8::encode_utf8(t)) && (forall|i: int|
                        0 <= i < base64_standard(vstd::utf8::encode_utf8(t)).len() ==> #[trigger] base64_char(
                            base64_standard(vstd::utf8::encode_utf8(t))[i],
                        )) implies false by {
                    assert(base64_standard(vstd::utf8::encode_utf8(t)) != base_text@);
                }
            }
            None
        },
        Some(bytes) => {
            let ghost bv = bytes@;
            match utf8_text(bytes) {
                None => {
                    proof {
                        assert forall|t: Seq<char>|
                            pid@ == "FP_"@ + base64_standard(vstd::utf8::encode_utf8(t)) && (forall|
                                i: int,
                            |
                                0 <= i < base64_standard(vstd::utf8::encode_utf8(t)).len()
                                    ==> #[trigger] base64_char(
                                    base64_standard(vstd::utf8::encode_utf8(t))[i],
                                )) implies false by {
                            assert(vstd::utf8::encode_utf8(t) == bv);
                            vstd::utf8::encode_utf8_valid_utf8(t);
                        }
                    }
                    None
                },
                Some(text) => {
                    let replaced = replace_chars(
                        chars_of(text.as_str()).as_slice(),
                        chars_of("|accepted").as_slice(),
                        chars_of("|pending").as_slice(),
                    );
                    let rs = string_of(replaced.as_slice());
                    let enc = base64_encode(rs.as_str().as_bytes());
                    proof {
                        assert forall|t: Seq<char>|
                            pid@ == "FP_"@ + base64_standard(vstd::utf8::encode_utf8(t)) && (forall|
                                i: int,
                            |
                                0 <= i < base64_standard(vstd::utf8::encode_utf8(t)).len()
                                    ==> #[trigger] base64_char(
                                    base64_standard(vstd::utf8::encode_utf8(t))[i],
                                )) implies text@ == t by {
                            assert(vstd::utf8::encode_utf8(t) == bv);
                            vstd::utf8::encode_utf8_decode_utf8(t);
                        }
                    }
                    Some(concat2("FP_", enc.as_str()))
                },
            }
        },
    }
}

/// The ping payload key `keys` hold for `k`: whether a payload is stored
/// under it, when the key is there.
pub open spec fn lookup(keys: Seq<(Seq<char>, bool)>, k: Seq<char>) -> Option<bool>
    decreases keys.len(),
{
    if keys.len() == 0 {
        None
    } else if keys[0].0 == k {
        Some(keys[0].1)
    } else {
        lookup(keys.drop_first(), k)
    }
}

/// Which stored request payload a ping shows: `Some(key)` for the payload
/// stored under `key`, `None` for the lead's original request payload.
/// The ping id is looked up as it is; only when it is not a key at all is
/// its pending key looked up. A key whose payload could not be read
/// falls back to the original payload.
pub open spec fn payload_key_of(ping_id: Option<Seq<char>>, keys: Seq<(Seq<char>, bool)>) -> Option<Seq<char>> {
    match ping_id {
        None => None,
        Some(pid) => match lookup(keys, pid) {
            Some(has) => if has {
                Some(pid)
            } else {
                None
            },
            None => match pending_key_of(pid) {
                Some(k) => match lookup(keys, k) {
                    Some(true) => Some(k),
                    _ => None,
                },
                None => None,
            },
        },
    }
}

fn lookup_key(keys: &Vec<(String, bool)>, k: &str) -> (r: Option<bool>)
    ensures
        r == lookup(keys@.map_values(|x: (String, bool)| (x.0@, x.1)), k@),
{
    let ghost kv = keys@.map_values(|x: (String, bool)| (x.0@, x.1));
    let n = keys.len();
    assert(kv.skip(0) =~= kv);
    for i in 0..n
        invariant
            n == keys@.len(),
            kv == keys@.map_values(|x: (String, bool)| (x.0@, x.1)),
            lookup(kv, k@) == lookup(kv.skip(i as int), k@),
    {
        assert(kv.skip(i as int).drop_first() =~= kv.skip(i + 1));
        if str_eq(keys[i].0.as_str(), k) {
            return Some(keys[i].1);
        }
    }
    None
}

/// Which stored request payload a ping shows (see `payload_key_of`);
/// `keys` are the stored ping ids, each with whether its payload could be
/// read.
pub fn request_payload_key(ping_id: Option<&str>, keys: &Vec<(String, bool)>) -> (r: Option<String>)
    ensures
        opt_view(r) == payload_key_of(str_opt(ping_id), keys@.map_values(|x: (String, bool)| (x.0@, x.1))),
{
    match ping_id {
        None => None,
        Some(pid) => match lookup_key(keys, pid) {
            Some(has) => if has {
                Some(String::from_str(pid))
            } else {
                None
            },
            None => match pending_key(pid) {
                Some(k) => match lookup_key(keys, k.as_str()) {
                    Some(true) => Some(k),
                    _ => None,
                },
                None => None,
            },
        },
    }
}

/// Whether a ping won: its buyer and campaign are the lead's winning ones,
/// both known.
pub open spec fn ping_won(
    winning_buyer: Option<u128>,
    winning_campaign: Option<u128>,
    buyer: Option<u128>,
    campaign: Option<u128>,
) -> bool {
    winning_buyer is Some && winning_campaign is Some && buyer == winning_buyer && campaign
        == winning_campaign
}

/// Whether a ping won (see `ping_won`) and its status letter, W or L.
pub fn ping_result(
    winning_buyer: Option<u128>,
    winning_campaign: Option<u128>,
    buyer: Option<u128>,
    campaign: Option<u128>,
) -> (r: (bool, &'static str))
    ensures
        r.0 == ping_won(winning_buyer, winning_campaign, buyer, campaign),
        r.1@ == if r.0 {
            "W"@
        } else {
            "L"@
        },
{
    let won = winning_buyer.is_some() && winning_campaign.is_some() && buyer == winning_buyer
        && campaign == winning_campaign;
    (won, if won {
        "W"
    } else {
        "L"
    })
}

/// Where the pings of the details come from.
pub enum PingSource {
    /// The buyer responses that carry a ping id.
    BuyerResponses,
    /// The stored ping payloads, for leads without such responses.
    PingPayloads,
    /// Neither: no pings.
    Nothing,
}

/// Pings come from the buyer responses with a ping id when there are any,
/// else from the stored ping payloads when there are any.
pub fn ping_source(responses_with_ping_id: usize, ping_payload_rows: usize) -> (r: PingSource)
    ensures
        responses_with_ping_id > 0 ==> r is BuyerResponses,
        responses_with_ping_id == 0 && ping_payload_rows > 0 ==> r is PingPayloads,
        responses_with_ping_id == 0 && ping_payload_rows == 0 ==> r is Nothing,
{
    if responses_with_ping_id > 0 {
        PingSource::BuyerResponses
    } else if ping_payload_rows > 0 {
        PingSource::PingPayloads
    } else {
        PingSource::Nothing
    }
}

/// The first post id among buyer responses, in order.
pub open spec fn first_post_id(ids: Seq<Option<Seq<char>>>) -> Option<Seq<char>>
    decreases ids.len(),
{
    if ids.len() == 0 {
        None
    } else {
        match ids[0] {
            Some(p) => Some(p),
            None => first_post_id(ids.drop_first()),
        }
    }
}

/// The post of a lead: its own post id, else the first one a buyer
/// response has.
pub fn lead_post_id(own_post_id: Option<String>, response_post_ids: &Vec<Option<String>>) -> (r: Option<String>)
    ensures
        opt_view(r) == match opt_view(own_post_id) {
            Some(p) => Some(p),
            None => first_post_id(response_post_ids@.map_values(|o: Option<String>| opt_view(o))),
        },
{
    match own_post_id {
        Some(p) => Some(p),
        None => {
            let ghost iv = response_post_ids@.map_values(|o: Option<String>| opt_view(o));
            let n = response_post_ids.len();
            assert(iv.skip(0) =~= iv);
            for i in 0..n
                invariant
                    n == response_post_ids@.len(),
                    iv == response_post_ids@.map_values(|o: Option<String>| opt_view(o)),
                    own_post_id is None,
                    first_post_id(iv) == first_post_id(iv.skip(i as int)),
            {
                assert(iv.skip(i as int).drop_first() =~= iv.skip(i + 1));
                assert(iv.skip(i as int)[0] == iv[i as int]);
                match &response_post_ids[i] {
                    Some(p) => {
                        assert(iv[i as int] == Some(p@));
                        assert(first_post_id(iv.skip(i as int)) == Some(p@));
                        return Some(p.clone());
                    },
                    None => {},
                }
            }
            assert(iv.skip(n as int) =~= Seq::<Option<Seq<char>>>::empty());
            None
        },
    }
}

/// The first occurrence of a character, when there is one, lies inside the
/// text and holds that character.
pub proof fn lemma_first_index_in_range(s: Seq<char>, c: char)
    ensures
        first_index_of(s, c) matches Some(i) ==> 0 <= i < s.len() && s[i] == c,
{
    lemma_first_index_bounds(s, c);
}

/// Every lead list is on a page from 1 on, and holds from 1 to 100 leads
/// a page, whatever the parameters say.
pub proof fn law_pagination_bounds(page: Option<Seq<char>>, per_page: Option<Seq<char>>)
    ensures
        page_of(page) >= 1,
        1 <= per_page_of(per_page) <= 100,
        per_page is None ==> per_page_of(per_page) == 100,
        page is None ==> page_of(page) == 1,
{
}

/// Whether lead `k` is in one of the groups.
pub open spec fn grouped(g: Seq<(Seq<char>, Seq<int>)>, k: int) -> bool {
    exists|j: int, m: int| 0 <= j < g.len() && 0 <= m < g[j].1.len() && #[trigger] g[j].1[m] == k
}

/// Grouping by vertical puts every lead in a group, and each group holds
/// only leads of its slug.
pub proof fn law_groups_partition_leads(slugs: Seq<Seq<char>>, n: nat)
    requires
        n <= slugs.len(),
    ensures
        forall|k: int| 0 <= k < n ==> #[trigger] grouped(groups_upto(slugs, n), k),
        forall|j: int, m: int|
            0 <= j < groups_upto(slugs, n).len() && 0 <= m < groups_upto(slugs, n)[j].1.len()
                ==> {
                let k = #[trigger] groups_upto(slugs, n)[j].1[m];
                &&& 0 <= k < n
                &&& slugs[k] == groups_upto(slugs, n)[j].0
            },
    decreases n,
{
    if n > 0 {
        law_groups_partition_leads(slugs, (n - 1) as nat);
        let g = groups_upto(slugs, (n - 1) as nat);
        let s = slugs[n - 1];
        let h = groups_upto(slugs, n);
        match group_index(g, s) {
            Some(j2) => {
                assert(0 <= j2 < g.len());
                assert(h == g.update(j2, (s, g[j2].1.push(n - 1))));
                assert forall|k: int| 0 <= k < n implies #[trigger] grouped(h, k) by {
                    if k == n - 1 {
                        assert(h[j2].1[g[j2].1.len() as int] == k);
                    } else {
                        assert(grouped(g, k));
                        let (j, m) = choose|j: int, m: int|
                            0 <= j < g.len() && 0 <= m < g[j].1.len() && #[trigger] g[j].1[m] == k;
                        if j == j2 {
                            assert(h[j].1[m] == k);
                        } else {
                            assert(h[j].1[m] == k);
                        }
                    }
                }
                assert forall|j: int, m: int|
                    0 <= j < h.len() && 0 <= m < h[j].1.len() implies {
                    let k = #[trigger] h[j].1[m];
                    &&& 0 <= k < n
                    &&& slugs[k] == h[j].0
                } by {
                    if j == j2 && m == g[j2].1.len() {
                    } else {
                        assert(h[j].1[m] == g[j].1[m]);
                    }
                }
            },
            None => {
                assert(h == g.push((s, seq![n - 1])));
                assert forall|k: int| 0 <= k < n implies #[trigger] grouped(h, k) by {
                    if k == n - 1 {
                        assert(h[g.len() as int].1[0] == k);
                    } else {
                        assert(grouped(g, k));
                        let (j, m) = choose|j: int, m: int|
                            0 <= j < g.len() && 0 <= m < g[j].1.len() && #[trigger] g[j].1[m] == k;
                        assert(h[j].1[m] == k);
                    }
                }
                assert forall|j: int, m: int|
                    0 <= j < h.len() && 0 <= m < h[j].1.len() implies {
                    let k = #[trigger] h[j].1[m];
                    &&& 0 <= k < n
                    &&& slugs[k] == h[j].0
                } by {
                    if j < g.len() {
                        assert(h[j] == g[j]);
                    }
                }
            },
        }
    }
}

} // verus!
