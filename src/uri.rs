//! Merging of override options into a connection string.
use vstd::prelude::*;
use vstd::string::*;
use crate::schema_version::{count_char, count_of};

verus! {

/// The first position in `from..end` where `s` holds `c`, or `end`.
pub open spec fn find_in(s: Seq<char>, from: int, end: int, c: char) -> int
    decreases end - from,
{
    if from >= end {
        end
    } else if s[from] == c {
        from
    } else {
        find_in(s, from + 1, end, c)
    }
}

/// The keys of an option list.
pub open spec fn option_keys(opts: Seq<(String, String)>) -> Seq<Seq<char>> {
    opts.map_values(|p: (String, String)| p.0@)
}

/// The `&`-separated options of `s[start..end]` whose key (the text before
/// the first `=`) is not in `keys`, each followed by `&`.
pub open spec fn kept_options(s: Seq<char>, start: int, end: int, keys: Seq<Seq<char>>) -> Seq<char>
    decreases end - start,
{
    let seg_end = find_in(s, start, end, '&');
    let key = s.subrange(start, find_in(s, start, seg_end, '='));
    let piece = if keys.contains(key) {
        Seq::<char>::empty()
    } else {
        s.subrange(start, seg_end) + "&"@
    };
    if start <= seg_end < end {
        piece + kept_options(s, seg_end + 1, end, keys)
    } else {
        piece
    }
}

/// The base options that `kept_options` keeps, each as its key and its
/// whole `key=value` text, in order.
pub open spec fn kept_pairs(s: Seq<char>, start: int, end: int, keys: Seq<Seq<char>>) -> Seq<(Seq<char>, Seq<char>)>
    decreases end - start,
{
    let seg_end = find_in(s, start, end, '&');
    let key = s.subrange(start, find_in(s, start, seg_end, '='));
    let piece = if keys.contains(key) {
        Seq::<(Seq<char>, Seq<char>)>::empty()
    } else {
        seq![(key, s.subrange(start, seg_end))]
    };
    if start <= seg_end < end {
        piece + kept_pairs(s, seg_end + 1, end, keys)
    } else {
        piece
    }
}

/// The option texts of `pairs`, each followed by `&`.
pub open spec fn joined(pairs: Seq<(Seq<char>, Seq<char>)>) -> Seq<char>
    decreases pairs.len(),
{
    if pairs.len() == 0 {
        Seq::<char>::empty()
    } else {
        pairs[0].1 + "&"@ + joined(pairs.drop_first())
    }
}

/// The kept base options of a connection string, as in `retained_options`.
pub open spec fn retained_pairs(s: Seq<char>, keys: Seq<Seq<char>>) -> Seq<(Seq<char>, Seq<char>)> {
    let q1 = find_in(s, 0, s.len() as int, '?');
    if q1 < s.len() {
        kept_pairs(s, q1 + 1, find_in(s, q1 + 1, s.len() as int, '?'), keys)
    } else {
        Seq::<(Seq<char>, Seq<char>)>::empty()
    }
}

/// No two overrides share a key.
pub open spec fn keys_distinct(opts: Seq<(String, String)>) -> bool {
    forall|i: int, j: int|
        0 <= i < j < opts.len() ==> #[trigger] option_keys(opts)[i] != #[trigger] option_keys(opts)[j]
}

proof fn lemma_kept_pairs(s: Seq<char>, start: int, end: int, keys: Seq<Seq<char>>)
    ensures
        kept_options(s, start, end, keys) == joined(kept_pairs(s, start, end, keys)),
        forall|i: int|
            0 <= i < kept_pairs(s, start, end, keys).len() ==> !keys.contains(
                #[trigger] kept_pairs(s, start, end, keys)[i].0,
            ),
    decreases end - start,
{
    let seg_end = find_in(s, start, end, '&');
    let key = s.subrange(start, find_in(s, start, seg_end, '='));
    let pairs = kept_pairs(s, start, end, keys);
    if start <= seg_end < end {
        lemma_kept_pairs(s, seg_end + 1, end, keys);
        let rest = kept_pairs(s, seg_end + 1, end, keys);
        if keys.contains(key) {
            assert(pairs =~= rest);
        } else {
            let one = seq![(key, s.subrange(start, seg_end))];
            assert(pairs == one + rest);
            assert((one + rest).drop_first() =~= rest);
            assert forall|i: int| 0 <= i < pairs.len() implies !keys.contains(#[trigger] pairs[i].0) by {
                if i > 0 {
                    assert(pairs[i] == rest[i - 1]);
                }
            }
        }
    } else {
        if !keys.contains(key) {
            let one = seq![(key, s.subrange(start, seg_end))];
            assert(one.drop_first() =~= Seq::<(Seq<char>, Seq<char>)>::empty());
            assert(joined(one) == s.subrange(start, seg_end) + "&"@ + joined(one.drop_first()));
            assert(joined(one) =~= s.subrange(start, seg_end) + "&"@);
        }
    }
}

/// Merging emits each key once: the merged options are the kept base
/// options, none of which has a key that an override has, followed by the
/// overrides, whose keys are distinct.
pub proof fn merge_emits_overridden_keys_once(s: Seq<char>, opts: Seq<(String, String)>)
    requires
        keys_distinct(opts),
    ensures
        retained_options(s, option_keys(opts)) == joined(retained_pairs(s, option_keys(opts))),
        forall|i: int|
            0 <= i < retained_pairs(s, option_keys(opts)).len() ==> !option_keys(opts).contains(
                #[trigger] retained_pairs(s, option_keys(opts))[i].0,
            ),
        merged_uri(s, opts) == (uri_prefix(s) + joined(retained_pairs(s, option_keys(opts)))
            + appended_options(opts)).drop_last(),
{
    let q1 = find_in(s, 0, s.len() as int, '?');
    if q1 < s.len() {
        lemma_kept_pairs(s, q1 + 1, find_in(s, q1 + 1, s.len() as int, '?'), option_keys(opts));
    }
}

/// `v` without its leading `"` characters.
pub open spec fn strip_leading_quotes(v: Seq<char>) -> Seq<char>
    decreases v.len(),
{
    if v.len() > 0 && v[0] == '"' {
        strip_leading_quotes(v.drop_first())
    } else {
        v
    }
}

/// `v` without its trailing `"` characters.
pub open spec fn strip_trailing_quotes(v: Seq<char>) -> Seq<char>
    decreases v.len(),
{
    if v.len() > 0 && v.last() == '"' {
        strip_trailing_quotes(v.drop_last())
    } else {
        v
    }
}

pub open spec fn unquoted(v: Seq<char>) -> Seq<char> {
    strip_trailing_quotes(strip_leading_quotes(v))
}

/// Each override as `key=value&`, in order, with the value unquoted.
pub open spec fn appended_options(opts: Seq<(String, String)>) -> Seq<char>
    decreases opts.len(),
{
    if opts.len() == 0 {
        Seq::<char>::empty()
    } else {
        appended_options(opts.drop_last()) + opts.last().0@ + "="@ + unquoted(opts.last().1@) + "&"@
    }
}

/// The part of the connection string before the first `?`, with a `/`
/// added when it holds fewer than three, followed by `?`.
pub open spec fn uri_prefix(s: Seq<char>) -> Seq<char> {
    let head = s.subrange(0, find_in(s, 0, s.len() as int, '?'));
    (if count_char(head, '/') < 3 {
        head + "/"@
    } else {
        head
    }) + "?"@
}

/// The base options that no override replaces, each followed by `&`. Only
/// the text between the first and the second `?` is read as options.
pub open spec fn retained_options(s: Seq<char>, keys: Seq<Seq<char>>) -> Seq<char> {
    let q1 = find_in(s, 0, s.len() as int, '?');
    if q1 < s.len() {
        kept_options(s, q1 + 1, find_in(s, q1 + 1, s.len() as int, '?'), keys)
    } else {
        Seq::<char>::empty()
    }
}

/// The merged connection string, with its final separator dropped.
pub open spec fn merged_uri(s: Seq<char>, opts: Seq<(String, String)>) -> Seq<char> {
    let all = uri_prefix(s) + retained_options(s, option_keys(opts)) + appended_options(opts);
    all.subrange(0, all.len() - 1)
}

/// The first position in `from..end` where `s` holds `c`, or `end`.
fn find_char(s: &str, from: usize, end: usize, c: char) -> (r: usize)
    requires
        from <= end <= s@.len(),
    ensures
        r == find_in(s@, from as int, end as int, c),
        from <= r <= end,
{
    let mut i = from;
    while i < end
        invariant
            from <= i <= end,
            end <= s@.len(),
            find_in(s@, from as int, end as int, c) == find_in(s@, i as int, end as int, c),
        decreases end - i,
    {
        if s.get_char(i) == c {
            return i;
        }
        i = i + 1;
    }
    i
}

/// Whether `opts` has an option named `key`.
fn has_key(opts: &Vec<(String, String)>, key: &String) -> (r: bool)
    ensures
        r == option_keys(opts@).contains(key@),
{
    let mut j: usize = 0;
    while j < opts.len()
        invariant
            j <= opts.len(),
            forall|k: int| 0 <= k < j ==> opts@[k].0@ != key@,
        decreases opts.len() - j,
    {
        if opts[j].0 == *key {
            assert(option_keys(opts@)[j as int] == key@);
            return true;
        }
        j = j + 1;
    }
    assert(!option_keys(opts@).contains(key@)) by {
        if option_keys(opts@).contains(key@) {
            let k = choose|k: int| 0 <= k < option_keys(opts@).len() && option_keys(opts@)[k] == key@;
            assert(opts@[k].0@ == key@);
        }
    }
    false
}

/// `v` with its leading and trailing `"` characters removed.
fn unquote(v: &str) -> (r: &str)
    ensures
        r@ == unquoted(v@),
{
    let n = v.unicode_len();
    let mut lo: usize = 0;
    assert(v@.subrange(0, n as int) =~= v@);
    while lo < n && v.get_char(lo) == '"'
        invariant
            lo <= n == v@.len(),
            strip_leading_quotes(v@) == strip_leading_quotes(v@.subrange(lo as int, n as int)),
        decreases n - lo,
    {
        assert(v@.subrange(lo as int, n as int).drop_first() =~= v@.subrange(lo + 1, n as int));
        lo = lo + 1;
    }
    let mut hi: usize = n;
    while hi > lo && v.get_char(hi - 1) == '"'
        invariant
            lo <= hi <= n == v@.len(),
            strip_leading_quotes(v@) == v@.subrange(lo as int, n as int),
            unquoted(v@) == strip_trailing_quotes(v@.subrange(lo as int, hi as int)),
        decreases hi - lo,
    {
        assert(v@.subrange(lo as int, hi as int).drop_last() =~= v@.subrange(lo as int, hi - 1));
        hi = hi - 1;
    }
    v.substring_char(lo, hi)
}

/// Merges override options into a connection string. Base options whose key
/// is overridden are dropped, the others are kept in order, and every
/// override is appended as `key=value` with its value unquoted. Each option
/// pair holds a key and the textual form of its value; no two share a key,
/// as in a document. Without overrides the
/// connection string is returned as it is.
pub fn merge_uri_options(given_uri: &str, uri_options: Option<&Vec<(String, String)>>) -> (r: String)
    requires
        uri_options matches Some(opts) ==> keys_distinct(opts@),
    ensures
        uri_options is None ==> r@ == given_uri@,
        uri_options matches Some(opts) ==> r@ == merged_uri(given_uri@, opts@),
{
    let opts = match uri_options {
        Some(opts) => opts,
        None => return String::from_str(given_uri),
    };
    let ghost s = given_uri@;
    let n = given_uri.unicode_len();
    let q1 = find_char(given_uri, 0, n, '?');
    let head = given_uri.substring_char(0, q1);
    let mut uri = String::from_str(head);
    if count_of(head, '/') < 3 {
        uri.append("/");
    }
    uri.append("?");
    assert(uri@ == uri_prefix(s));
    if q1 < n {
        let qend = find_char(given_uri, q1 + 1, n, '?');
        let mut pos: usize = q1 + 1;
        loop
            invariant_except_break
                uri@ + kept_options(s, pos as int, qend as int, option_keys(opts@)) == uri_prefix(s)
                    + retained_options(s, option_keys(opts@)),
            invariant
                q1 + 1 <= pos <= qend <= n == s.len(),
                given_uri@ == s,
            ensures
                uri@ == uri_prefix(s) + retained_options(s, option_keys(opts@)),
            decreases qend - pos,
        {
            let seg_end = find_char(given_uri, pos, qend, '&');
            let key_end = find_char(given_uri, pos, seg_end, '=');
            let key = String::from_str(given_uri.substring_char(pos, key_end));
            let ghost piece = if option_keys(opts@).contains(key@) {
                Seq::<char>::empty()
            } else {
                s.subrange(pos as int, seg_end as int) + "&"@
            };
            let ghost before = uri@;
            if !has_key(opts, &key) {
                uri.append(given_uri.substring_char(pos, seg_end));
                uri.append("&");
            }
            assert(uri@ == before + piece);
            if seg_end < qend {
                assert(before + kept_options(s, pos as int, qend as int, option_keys(opts@)) =~= uri@
                    + kept_options(s, seg_end + 1, qend as int, option_keys(opts@)));
                pos = seg_end + 1;
            } else {
                assert(uri@ =~= before + kept_options(s, pos as int, qend as int, option_keys(opts@)));
                assert(uri@ =~= uri_prefix(s) + retained_options(s, option_keys(opts@)));
                break;
            }
        }
    } else {
        assert(uri@ =~= uri_prefix(s) + retained_options(s, option_keys(opts@)));
    }
    proof {
        reveal_strlit("?");
        assert(uri_prefix(s).len() >= 1);
    }
    let ghost kept = uri@;
    let mut j: usize = 0;
    assert(opts@.subrange(0, 0) =~= Seq::<(String, String)>::empty());
    while j < opts.len()
        invariant
            j <= opts.len(),
            uri@ == kept + appended_options(opts@.subrange(0, j as int)),
        decreases opts.len() - j,
    {
        assert(opts@.subrange(0, j + 1).drop_last() =~= opts@.subrange(0, j as int));
        uri.append(opts[j].0.as_str());
        uri.append("=");
        uri.append(unquote(opts[j].1.as_str()));
        uri.append("&");
        j = j + 1;
    }
    assert(opts@.subrange(0, opts@.len() as int) =~= opts@);
    let len = uri.as_str().unicode_len();
    String::from_str(uri.as_str().substring_char(0, len - 1))
}

} // verus!
