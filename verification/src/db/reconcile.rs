//! Reconciliation: what has to go and what has to come so that a stored
//! collection holds exactly what was submitted.

use vstd::prelude::*;

verus! {

/// The items of `s` that do not occur in `t`, each of them once, in the order
/// in which they first occur in `s`.
pub open spec fn absent_from(s: Seq<i32>, t: Seq<i32>) -> Seq<i32>
    decreases s.len(),
{
    if s.len() == 0 {
        Seq::empty()
    } else {
        let before = absent_from(s.drop_last(), t);
        if t.contains(s.last()) || before.contains(s.last()) {
            before
        } else {
            before.push(s.last())
        }
    }
}

/// Whether one of the submitted URLs reads `url`.
pub open spec fn lists_url(urls: Seq<String>, url: Seq<char>) -> bool {
    exists|j: int| 0 <= j < urls.len() && (#[trigger] urls[j])@ == url
}

/// Whether one of the stored URL rows reads `url`.
pub open spec fn stores_url(rows: Seq<(i32, String)>, url: Seq<char>) -> bool {
    exists|j: int| 0 <= j < rows.len() && (#[trigger] rows[j]).1@ == url
}

/// The ids of the stored URL rows whose URL was not submitted, each of them
/// once, in the order in which they first occur among the rows.
pub open spec fn stale_url_rows(rows: Seq<(i32, String)>, urls: Seq<String>) -> Seq<i32>
    decreases rows.len(),
{
    if rows.len() == 0 {
        Seq::empty()
    } else {
        let before = stale_url_rows(rows.drop_last(), urls);
        if lists_url(urls, rows.last().1@) || before.contains(rows.last().0) {
            before
        } else {
            before.push(rows.last().0)
        }
    }
}

/// The submitted URLs that no stored row holds, each of them once, in the
/// order in which they were first submitted.
pub open spec fn missing_urls(urls: Seq<String>, rows: Seq<(i32, String)>) -> Seq<String>
    decreases urls.len(),
{
    if urls.len() == 0 {
        Seq::empty()
    } else {
        let before = missing_urls(urls.drop_last(), rows);
        if stores_url(rows, urls.last()@) || lists_url(before, urls.last()@) {
            before
        } else {
            before.push(urls.last())
        }
    }
}

/// Whether one of the stored URL rows has the given id and a URL that was not
/// submitted.
pub open spec fn is_stale(rows: Seq<(i32, String)>, urls: Seq<String>, row_id: i32) -> bool {
    exists|i: int|
        0 <= i < rows.len() && (#[trigger] rows[i]).0 == row_id && !lists_url(urls, rows[i].1@)
}

/// An item is at the end of a list or in what is before its end.
pub proof fn lemma_contains_last_or_before(s: Seq<i32>, x: i32)
    requires
        s.len() > 0,
    ensures
        s.contains(x) <==> s.last() == x || s.drop_last().contains(x),
{
    let r = s.drop_last();
    assert(s[s.len() - 1] == s.last());
    if s.contains(x) {
        let i = choose|i: int| 0 <= i < s.len() && s[i] == x;
        if i < s.len() - 1 {
            assert(r[i] == x);
        }
    }
    if r.contains(x) {
        let i = choose|i: int| 0 <= i < r.len() && r[i] == x;
        assert(s[i] == x);
    }
}

/// An item is in a list with one more item exactly if it is that item or in
/// the list.
pub proof fn lemma_push_contains(s: Seq<i32>, last: i32, x: i32)
    ensures
        s.push(last).contains(x) <==> last == x || s.contains(x),
{
    let all = s.push(last);
    assert(all.drop_last() =~= s);
    assert(all.last() == last);
    lemma_contains_last_or_before(all, x);
}

/// An item is among those absent from `t` exactly if it is in `s` and not in
/// `t`.
pub proof fn lemma_absent_from_contains(s: Seq<i32>, t: Seq<i32>, x: i32)
    ensures
        absent_from(s, t).contains(x) <==> s.contains(x) && !t.contains(x),
    decreases s.len(),
{
    if s.len() > 0 {
        let r = s.drop_last();
        let before = absent_from(r, t);
        lemma_absent_from_contains(r, t, x);
        lemma_absent_from_contains(r, t, s.last());
        lemma_contains_last_or_before(s, x);
        lemma_push_contains(before, s.last(), x);
    }
}

/// No item is twice among those absent from `t`.
pub proof fn lemma_absent_from_distinct(s: Seq<i32>, t: Seq<i32>)
    ensures
        absent_from(s, t).no_duplicates(),
    decreases s.len(),
{
    if s.len() > 0 {
        lemma_absent_from_distinct(s.drop_last(), t);
    }
}

/// Where everything stored was submitted and everything submitted is stored,
/// nothing is absent either way.
pub proof fn lemma_absent_from_covered(s: Seq<i32>, t: Seq<i32>)
    requires
        forall|x: i32| s.contains(x) ==> t.contains(x),
    ensures
        absent_from(s, t) == Seq::<i32>::empty(),
    decreases s.len(),
{
    if s.len() > 0 {
        let r = s.drop_last();
        assert(s[s.len() - 1] == s.last());
        assert forall|x: i32| r.contains(x) implies t.contains(x) by {
            let i = choose|i: int| 0 <= i < r.len() && r[i] == x;
            assert(s[i] == x);
        }
        lemma_absent_from_covered(r, t);
    }
}

/// A URL is at the end of a list or in what is before its end.
pub proof fn lemma_lists_last_or_before(urls: Seq<String>, url: Seq<char>)
    requires
        urls.len() > 0,
    ensures
        lists_url(urls, url) <==> urls.last()@ == url || lists_url(urls.drop_last(), url),
{
    let r = urls.drop_last();
    assert(urls[urls.len() - 1] == urls.last());
    if lists_url(urls, url) {
        let j = choose|j: int| 0 <= j < urls.len() && (#[trigger] urls[j])@ == url;
        if j < urls.len() - 1 {
            assert(r[j] == urls[j]);
        }
    }
    if lists_url(r, url) {
        let j = choose|j: int| 0 <= j < r.len() && (#[trigger] r[j])@ == url;
        assert(urls[j] == r[j]);
    }
}

/// The row ids found stale are those of the rows whose URL was not
/// submitted.
pub proof fn lemma_stale_contains(rows: Seq<(i32, String)>, urls: Seq<String>, row_id: i32)
    ensures
        stale_url_rows(rows, urls).contains(row_id) <==> is_stale(rows, urls, row_id),
    decreases rows.len(),
{
    if rows.len() > 0 {
        let r = rows.drop_last();
        let last = rows.last();
        let before = stale_url_rows(r, urls);
        lemma_stale_contains(r, urls, row_id);
        lemma_stale_contains(r, urls, last.0);
        lemma_push_contains(before, last.0, row_id);
        assert(rows[rows.len() - 1] == last);
        if is_stale(r, urls, row_id) {
            let i = choose|i: int|
                0 <= i < r.len() && (#[trigger] r[i]).0 == row_id && !lists_url(urls, r[i].1@);
            assert(rows[i] == r[i]);
        }
        if is_stale(r, urls, last.0) {
            let i = choose|i: int|
                0 <= i < r.len() && (#[trigger] r[i]).0 == last.0 && !lists_url(urls, r[i].1@);
            assert(rows[i] == r[i]);
        }
        if is_stale(rows, urls, row_id) {
            let i = choose|i: int|
                0 <= i < rows.len() && (#[trigger] rows[i]).0 == row_id && !lists_url(
                    urls,
                    rows[i].1@,
                );
            if i < rows.len() - 1 {
                assert(r[i] == rows[i]);
            }
        }
    }
}

/// No row id is found stale twice.
pub proof fn lemma_stale_distinct(rows: Seq<(i32, String)>, urls: Seq<String>)
    ensures
        stale_url_rows(rows, urls).no_duplicates(),
    decreases rows.len(),
{
    if rows.len() > 0 {
        lemma_stale_distinct(rows.drop_last(), urls);
    }
}

/// The URLs found missing are the submitted ones that no stored row holds.
pub proof fn lemma_missing_lists(urls: Seq<String>, rows: Seq<(i32, String)>, url: Seq<char>)
    ensures
        lists_url(missing_urls(urls, rows), url) <==> lists_url(urls, url) && !stores_url(
            rows,
            url,
        ),
    decreases urls.len(),
{
    if urls.len() > 0 {
        let r = urls.drop_last();
        let last = urls.last();
        let before = missing_urls(r, rows);
        lemma_missing_lists(r, rows, url);
        lemma_missing_lists(r, rows, last@);
        lemma_lists_last_or_before(urls, url);
        let all = before.push(last);
        assert(all.drop_last() =~= before);
        assert(all.last() == last);
        lemma_lists_last_or_before(all, url);
    }
}

/// No URL is found missing twice.
pub proof fn lemma_missing_distinct(urls: Seq<String>, rows: Seq<(i32, String)>)
    ensures
        forall|i: int, j: int|
            0 <= i < j < missing_urls(urls, rows).len() ==> (#[trigger] missing_urls(
                urls,
                rows,
            )[i])@ != (#[trigger] missing_urls(urls, rows)[j])@,
    decreases urls.len(),
{
    if urls.len() > 0 {
        let before = missing_urls(urls.drop_last(), rows);
        lemma_missing_distinct(urls.drop_last(), rows);
        let found = missing_urls(urls, rows);
        if found != before {
            assert forall|i: int, j: int| 0 <= i < j < found.len() implies (#[trigger] found[i])@
                != (#[trigger] found[j])@ by {
                if j == found.len() - 1 {
                    assert(found[i] == before[i]);
                } else {
                    assert(found[i] == before[i]);
                    assert(found[j] == before[j]);
                }
            }
        }
    }
}

/// Where every stored row holds a submitted URL, no row is stale.
pub proof fn lemma_no_stale_rows(rows: Seq<(i32, String)>, urls: Seq<String>)
    requires
        forall|i: int| 0 <= i < rows.len() ==> lists_url(urls, (#[trigger] rows[i]).1@),
    ensures
        stale_url_rows(rows, urls) == Seq::<i32>::empty(),
    decreases rows.len(),
{
    if rows.len() > 0 {
        let r = rows.drop_last();
        assert(rows[rows.len() - 1] == rows.last());
        assert forall|i: int| 0 <= i < r.len() implies lists_url(urls, (#[trigger] r[i]).1@) by {
            assert(r[i] == rows[i]);
        }
        lemma_no_stale_rows(r, urls);
    }
}

/// Where every submitted URL is held by a stored row, no URL is missing.
pub proof fn lemma_no_missing_urls(urls: Seq<String>, rows: Seq<(i32, String)>)
    requires
        forall|j: int| 0 <= j < urls.len() ==> stores_url(rows, (#[trigger] urls[j])@),
    ensures
        missing_urls(urls, rows) == Seq::<String>::empty(),
    decreases urls.len(),
{
    if urls.len() > 0 {
        let r = urls.drop_last();
        assert(urls[urls.len() - 1] == urls.last());
        assert forall|j: int| 0 <= j < r.len() implies stores_url(rows, (#[trigger] r[j])@) by {
            assert(r[j] == urls[j]);
        }
        lemma_no_missing_urls(r, rows);
    }
}

/// Tells whether a list of ids holds a given id.
pub fn contains_id(ids: &Vec<i32>, id: i32) -> (found: bool)
    ensures
        found == ids@.contains(id),
{
    let mut i: usize = 0;
    while i < ids.len()
        invariant
            i <= ids.len(),
            forall|k: int| 0 <= k < i ==> ids@[k] != id,
        decreases ids.len() - i,
    {
        if ids[i] == id {
            return true;
        }
        i += 1;
    }
    false
}

/// The ids of `s` that do not occur in `t`, each of them once, in the order
/// in which they first occur in `s`.
pub fn ids_absent_from(s: &Vec<i32>, t: &Vec<i32>) -> (absent: Vec<i32>)
    ensures
        absent@ == absent_from(s@, t@),
{
    let mut absent: Vec<i32> = Vec::new();
    let mut i: usize = 0;
    while i < s.len()
        invariant
            i <= s.len(),
            absent@ == absent_from(s@.take(i as int), t@),
        decreases s.len() - i,
    {
        proof {
            assert(s@.take(i + 1).drop_last() =~= s@.take(i as int));
        }
        if !contains_id(t, s[i]) && !contains_id(&absent, s[i]) {
            absent.push(s[i]);
        }
        i += 1;
    }
    proof {
        assert(s@.take(s.len() as int) =~= s@);
    }
    absent
}

/// Tells whether one of the submitted URLs reads `url`.
pub fn url_listed(urls: &Vec<String>, url: &String) -> (found: bool)
    ensures
        found == lists_url(urls@, url@),
{
    let mut i: usize = 0;
    while i < urls.len()
        invariant
            i <= urls.len(),
            forall|k: int| 0 <= k < i ==> (#[trigger] urls@[k])@ != url@,
        decreases urls.len() - i,
    {
        if urls[i] == *url {
            return true;
        }
        i += 1;
    }
    false
}

/// Tells whether one of the stored URL rows reads `url`.
pub fn url_stored(rows: &Vec<(i32, String)>, url: &String) -> (found: bool)
    ensures
        found == stores_url(rows@, url@),
{
    let mut i: usize = 0;
    while i < rows.len()
        invariant
            i <= rows.len(),
            forall|k: int| 0 <= k < i ==> (#[trigger] rows@[k]).1@ != url@,
        decreases rows.len() - i,
    {
        if rows[i].1 == *url {
            return true;
        }
        i += 1;
    }
    false
}

/// The ids of the stored URL rows whose URL was not submitted, each of them
/// once.
pub fn stale_rows(rows: &Vec<(i32, String)>, urls: &Vec<String>) -> (stale: Vec<i32>)
    ensures
        stale@ == stale_url_rows(rows@, urls@),
{
    let mut stale: Vec<i32> = Vec::new();
    let mut i: usize = 0;
    while i < rows.len()
        invariant
            i <= rows.len(),
            stale@ == stale_url_rows(rows@.take(i as int), urls@),
        decreases rows.len() - i,
    {
        proof {
            assert(rows@.take(i + 1).drop_last() =~= rows@.take(i as int));
        }
        if !url_listed(urls, &rows[i].1) && !contains_id(&stale, rows[i].0) {
            stale.push(rows[i].0);
        }
        i += 1;
    }
    proof {
        assert(rows@.take(rows.len() as int) =~= rows@);
    }
    stale
}

/// The submitted URLs that no stored row holds, each of them once.
pub fn urls_to_add(urls: &Vec<String>, rows: &Vec<(i32, String)>) -> (missing: Vec<String>)
    ensures
        missing@ == missing_urls(urls@, rows@),
{
    let mut missing: Vec<String> = Vec::new();
    let mut i: usize = 0;
    while i < urls.len()
        invariant
            i <= urls.len(),
            missing@ == missing_urls(urls@.take(i as int), rows@),
        decreases urls.len() - i,
    {
        proof {
            assert(urls@.take(i + 1).drop_last() =~= urls@.take(i as int));
        }
        if !url_stored(rows, &urls[i]) && !url_listed(&missing, &urls[i]) {
            missing.push(urls[i].clone());
        }
        i += 1;
    }
    proof {
        assert(urls@.take(urls.len() as int) =~= urls@);
    }
    missing
}

} // verus!
