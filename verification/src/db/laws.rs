//! What holds of every upsert, proved against the model of the database.

use vstd::prelude::*;

use crate::db::reconcile::{
    absent_from, is_stale, lemma_absent_from_contains, lemma_absent_from_covered,
    lemma_absent_from_distinct, lemma_missing_distinct, lemma_missing_lists,
    lemma_no_missing_urls, lemma_no_stale_rows, lemma_stale_contains, lemma_stale_distinct,
    lists_url, missing_urls, stale_url_rows, stores_url,
};
use crate::db::statement::{Answer, Statement, Step};
use crate::db::store::{
    awaits, can_insert, faithful, new_key, run, unused_key, Outcome, Store,
};
use crate::db::upsert_entry::{
    advance_spec, follow, person_plan, person_start, phrase_plan, phrase_start, request_start,
    tag_deletion, tag_insertion, tag_start, url_deletion, url_insertion, GoodPhrase,
    GoodPhraseRequest, GoodPhraseTag, Person, Stage,
};
use crate::models::{GoodPhraseAndTag, PersonUrl};
use crate::time::Timestamp;

verus! {

/// Running two lists of statements one after the other is running their
/// concatenation.
pub proof fn lemma_apply_all_concat(store: Store, a: Seq<Statement>, b: Seq<Statement>)
    ensures
        store.apply_all(a + b) == store.apply_all(a).apply_all(b),
        store.accepts_all(a + b) == (store.accepts_all(a) && store.apply_all(a).accepts_all(b)),
    decreases a.len(),
{
    if a.len() == 0 {
        assert(a + b =~= b);
    } else {
        assert((a + b)[0] == a[0]);
        assert((a + b).drop_first() =~= a.drop_first() + b);
        lemma_apply_all_concat(store.effect(a[0]), a.drop_first(), b);
    }
}

/// A run that is busy with a list of statements and ends well has seen each
/// of them go through, and leaves what they leave.
pub proof fn lemma_run_applies(
    rest: Seq<Statement>,
    stmt: Statement,
    store: Store,
    answers: Seq<Answer>,
)
    requires
        !stmt.is_query(),
        forall|i: int| 0 <= i < rest.len() ==> !(#[trigger] rest[i]).is_query(),
        run(Stage::Applying { rest }, stmt, store, answers) is Committed,
    ensures
        store.accepts_all(seq![stmt] + rest),
        run(Stage::Applying { rest }, stmt, store, answers)->Committed_0 == store.apply_all(
            seq![stmt] + rest,
        ),
    decreases rest.len(),
{
    let all = seq![stmt] + rest;
    assert(all[0] == stmt);
    assert(all.drop_first() =~= rest);
    let answer = answers[0];
    assert(answer == Answer::Done);
    assert(store.answers(stmt, answer));
    assert(store.accepts(stmt));
    if rest.len() == 0 {
        assert(store.effect(stmt).apply_all(rest) == store.effect(stmt));
        assert(store.effect(stmt).accepts_all(rest));
    } else {
        let tail = rest.drop_first();
        assert forall|i: int| 0 <= i < tail.len() implies !(#[trigger] tail[i]).is_query() by {
            assert(tail[i] == rest[i + 1]);
        }
        lemma_run_applies(tail, rest[0], store.effect(stmt), answers.drop_first());
        assert(seq![rest[0]] + tail =~= rest);
    }
}

/// Taking the association of a phrase with a tag away leaves every other
/// association as it was.
pub proof fn lemma_delete_tag(store: Store, id: i32, tag_id: i32, p: i32, t: i32)
    ensures
        store.effect(tag_deletion(id, tag_id)).associates(p, t) <==> store.associates(p, t) && !(p
            == id && t == tag_id),
{
    let after = store.effect(tag_deletion(id, tag_id));
    if store.associates(p, t) && !(p == id && t == tag_id) {
        let k = choose|k: i32|
            #![trigger store.phrase_tags[k]]
            store.phrase_tags.contains_key(k) && store.phrase_tags[k].good_phrase_id == p
                && store.phrase_tags[k].good_phrase_tag_id == t;
        assert(after.phrase_tags.contains_key(k) && after.phrase_tags[k].good_phrase_id == p
            && after.phrase_tags[k].good_phrase_tag_id == t);
    }
    if after.associates(p, t) {
        let k = choose|k: i32|
            #![trigger after.phrase_tags[k]]
            after.phrase_tags.contains_key(k) && after.phrase_tags[k].good_phrase_id == p
                && after.phrase_tags[k].good_phrase_tag_id == t;
        assert(store.phrase_tags.contains_key(k) && store.phrase_tags[k].good_phrase_id == p
            && store.phrase_tags[k].good_phrase_tag_id == t);
    }
}

/// Associating a phrase with a tag adds that association and leaves every
/// other as it was.
pub proof fn lemma_insert_tag(store: Store, id: i32, tag_id: i32, now: Timestamp, p: i32, t: i32)
    requires
        store.accepts(tag_insertion(id, tag_id, now)),
    ensures
        store.effect(tag_insertion(id, tag_id, now)).associates(p, t) <==> store.associates(p, t)
            || (p == id && t == tag_id),
{
    let after = store.effect(tag_insertion(id, tag_id, now));
    let fresh = unused_key(store.phrase_tags);
    assert(!store.phrase_tags.contains_key(fresh));
    assert(after.phrase_tags.contains_key(fresh));
    if store.associates(p, t) {
        let k = choose|k: i32|
            #![trigger store.phrase_tags[k]]
            store.phrase_tags.contains_key(k) && store.phrase_tags[k].good_phrase_id == p
                && store.phrase_tags[k].good_phrase_tag_id == t;
        assert(k != fresh);
        assert(after.phrase_tags.contains_key(k) && after.phrase_tags[k].good_phrase_id == p
            && after.phrase_tags[k].good_phrase_tag_id == t);
    }
    if p == id && t == tag_id {
        assert(after.phrase_tags[fresh].good_phrase_id == p);
        assert(after.phrase_tags[fresh].good_phrase_tag_id == t);
    }
    if after.associates(p, t) {
        let k = choose|k: i32|
            #![trigger after.phrase_tags[k]]
            after.phrase_tags.contains_key(k) && after.phrase_tags[k].good_phrase_id == p
                && after.phrase_tags[k].good_phrase_tag_id == t;
        if k != fresh {
            assert(store.phrase_tags.contains_key(k) && store.phrase_tags[k].good_phrase_id == p
                && store.phrase_tags[k].good_phrase_tag_id == t);
        }
    }
}

/// A run of tag deletions takes exactly the named associations of the phrase
/// away, and touches no table but that of the associations.
pub proof fn lemma_delete_tags(store: Store, id: i32, gone: Seq<i32>, p: i32, t: i32)
    ensures
        ({
            let after = store.apply_all(Seq::new(gone.len(), |i: int| tag_deletion(id, gone[i])));
            &&& after.associates(p, t) <==> store.associates(p, t) && !(p == id && gone.contains(t))
            &&& after.phrases == store.phrases
            &&& after.persons == store.persons
            &&& after.person_urls == store.person_urls
            &&& after.tags == store.tags
            &&& after.requests == store.requests
        }),
    decreases gone.len(),
{
    let stmts = Seq::new(gone.len(), |i: int| tag_deletion(id, gone[i]));
    if gone.len() > 0 {
        let tail = gone.drop_first();
        assert(stmts.drop_first() =~= Seq::new(tail.len(), |i: int| tag_deletion(id, tail[i])));
        assert(stmts[0] == tag_deletion(id, gone[0]));
        lemma_delete_tag(store, id, gone[0], p, t);
        lemma_delete_tags(store.effect(stmts[0]), id, tail, p, t);
        if gone.contains(t) {
            let i = choose|i: int| 0 <= i < gone.len() && gone[i] == t;
            if i > 0 {
                assert(tail[i - 1] == t);
            }
        }
        if tail.contains(t) {
            let i = choose|i: int| 0 <= i < tail.len() && tail[i] == t;
            assert(gone[i + 1] == t);
        }
    }
}

/// A run of tag insertions adds exactly the named associations to the
/// phrase, and touches no table but that of the associations.
pub proof fn lemma_insert_tags(
    store: Store,
    id: i32,
    fresh: Seq<i32>,
    now: Timestamp,
    p: i32,
    t: i32,
)
    requires
        store.accepts_all(Seq::new(fresh.len(), |i: int| tag_insertion(id, fresh[i], now))),
    ensures
        ({
            let after = store.apply_all(
                Seq::new(fresh.len(), |i: int| tag_insertion(id, fresh[i], now)),
            );
            &&& after.associates(p, t) <==> store.associates(p, t) || (p == id && fresh.contains(t))
            &&& after.phrases == store.phrases
            &&& after.persons == store.persons
            &&& after.person_urls == store.person_urls
            &&& after.tags == store.tags
            &&& after.requests == store.requests
        }),
    decreases fresh.len(),
{
    let stmts = Seq::new(fresh.len(), |i: int| tag_insertion(id, fresh[i], now));
    if fresh.len() > 0 {
        let tail = fresh.drop_first();
        assert(stmts.drop_first() =~= Seq::new(
            tail.len(),
            |i: int| tag_insertion(id, tail[i], now),
        ));
        assert(stmts[0] == tag_insertion(id, fresh[0], now));
        lemma_insert_tag(store, id, fresh[0], now, p, t);
        lemma_insert_tags(store.effect(stmts[0]), id, tail, now, p, t);
        if fresh.contains(t) {
            let i = choose|i: int| 0 <= i < fresh.len() && fresh[i] == t;
            if i > 0 {
                assert(tail[i - 1] == t);
            }
        }
        if tail.contains(t) {
            let i = choose|i: int| 0 <= i < tail.len() && tail[i] == t;
            assert(fresh[i + 1] == t);
        }
    }
}

/// The statements planned for the tags of a phrase leave the phrase with
/// exactly the submitted tags, given that the tags taken as stored are the
/// stored ones.  The tags of other phrases and all other tables stay as they
/// are.
pub proof fn lemma_phrase_plan_reconciles(
    store: Store,
    id: i32,
    current: Seq<i32>,
    tag_ids: Seq<i32>,
    now: Timestamp,
    p: i32,
    t: i32,
)
    requires
        forall|x: i32|
            #![trigger current.contains(x)]
            #![trigger store.associates(id, x)]
            current.contains(x) <==> store.associates(id, x),
        store.accepts_all(phrase_plan(id, current, tag_ids, now)),
    ensures
        ({
            let after = store.apply_all(phrase_plan(id, current, tag_ids, now));
            &&& after.associates(id, t) <==> tag_ids.contains(t)
            &&& p != id ==> (after.associates(p, t) <==> store.associates(p, t))
            &&& after.phrases == store.phrases
            &&& after.persons == store.persons
            &&& after.person_urls == store.person_urls
            &&& after.tags == store.tags
            &&& after.requests == store.requests
        }),
{
    let gone = absent_from(current, tag_ids);
    let fresh = absent_from(tag_ids, current);
    let deletions = Seq::new(gone.len(), |i: int| tag_deletion(id, gone[i]));
    let insertions = Seq::new(fresh.len(), |i: int| tag_insertion(id, fresh[i], now));
    lemma_apply_all_concat(store, deletions, insertions);
    let mid = store.apply_all(deletions);
    lemma_delete_tags(store, id, gone, id, t);
    lemma_delete_tags(store, id, gone, p, t);
    lemma_insert_tags(mid, id, fresh, now, id, t);
    lemma_insert_tags(mid, id, fresh, now, p, t);
    lemma_absent_from_contains(current, tag_ids, t);
    lemma_absent_from_contains(tag_ids, current, t);
}

/// The id under which the phrase of an upsert is stored: the one submitted,
/// or the one that the database gives to the new row.
pub open spec fn phrase_id_of(msg: GoodPhrase, store: Store) -> i32 {
    new_key(store.phrases, msg.good_phrase_id)
}

/// The id under which the person of an upsert is stored: the one submitted,
/// or the one that the database gives to the new row.
pub open spec fn person_id_of(msg: Person, store: Store) -> i32 {
    new_key(store.persons, msg.person_id)
}

/// Every statement planned for the tags of a phrase changes rows.
pub proof fn lemma_phrase_plan_writes(
    id: i32,
    current: Seq<i32>,
    tag_ids: Seq<i32>,
    now: Timestamp,
)
    ensures
        forall|i: int|
            0 <= i < phrase_plan(id, current, tag_ids, now).len() ==> !(#[trigger] phrase_plan(
                id,
                current,
                tag_ids,
                now,
            )[i]).is_query(),
{
}

/// From the question for the stored tags on, a run that ends well leaves the
/// phrase with exactly the submitted tags and everything else as it was.
pub proof fn lemma_run_from_tags(
    id: i32,
    tag_ids: Seq<i32>,
    now: Timestamp,
    store: Store,
    answers: Seq<Answer>,
    p: i32,
    t: i32,
)
    requires
        run(
            Stage::PhraseTags { id, tag_ids, now },
            Statement::SelectTagIdsOfPhrase { good_phrase_id: id },
            store,
            answers,
        ) is Committed,
    ensures
        ({
            let after = run(
                Stage::PhraseTags { id, tag_ids, now },
                Statement::SelectTagIdsOfPhrase { good_phrase_id: id },
                store,
                answers,
            )->Committed_0;
            &&& after.associates(id, t) <==> tag_ids.contains(t)
            &&& p != id ==> (after.associates(p, t) <==> store.associates(p, t))
            &&& (forall|x: i32| #[trigger] store.associates(id, x) <==> tag_ids.contains(x))
                ==> after.phrase_tags == store.phrase_tags
            &&& after.phrases == store.phrases
            &&& after.persons == store.persons
            &&& after.person_urls == store.person_urls
            &&& after.tags == store.tags
            &&& after.requests == store.requests
        }),
{
    let stage = Stage::PhraseTags { id, tag_ids, now };
    let stmt = Statement::SelectTagIdsOfPhrase { good_phrase_id: id };
    let answer = answers[0];
    assert(answer is TagIds);
    assert(store.answers(stmt, answer));
    let current = answer->TagIds_0@;
    let plan = phrase_plan(id, current, tag_ids, now);
    assert(advance_spec(stage, answer) == follow(plan));
    assert(store.effect(stmt) == store);
    lemma_phrase_plan_writes(id, current, tag_ids, now);
    if plan.len() > 0 {
        let tail = plan.drop_first();
        assert forall|i: int| 0 <= i < tail.len() implies !(#[trigger] tail[i]).is_query() by {
            assert(tail[i] == plan[i + 1]);
        }
        assert(run(Stage::Applying { rest: tail }, plan[0], store, answers.drop_first())
            is Committed);
        lemma_run_applies(tail, plan[0], store, answers.drop_first());
        assert(seq![plan[0]] + tail =~= plan);
    }
    assert forall|x: i32|
        #![trigger current.contains(x)]
        #![trigger store.associates(id, x)]
        current.contains(x) <==> store.associates(id, x) by {}
    lemma_phrase_plan_reconciles(store, id, current, tag_ids, now, p, t);
    if forall|x: i32| #[trigger] store.associates(id, x) <==> tag_ids.contains(x) {
        assert forall|x: i32| current.contains(x) implies tag_ids.contains(x) by {}
        assert forall|x: i32| tag_ids.contains(x) implies current.contains(x) by {}
        lemma_absent_from_covered(current, tag_ids);
        lemma_absent_from_covered(tag_ids, current);
        assert(plan =~= Seq::<Statement>::empty());
    }
}

/// After the upsert of a phrase, the tags stored for the phrase are exactly
/// the submitted ones, whatever was stored before; the tags of every other
/// phrase and the other tables are as they were.  Where the phrase is new, it
/// is stored under an id that no phrase had, and that id is the one its tags
/// are stored under.
pub proof fn law_phrase_tags_match_submission(
    store: Store,
    msg: GoodPhrase,
    now: Timestamp,
    answers: Seq<Answer>,
)
    requires
        run(phrase_start(msg, now).0, phrase_start(msg, now).1, store, answers) is Committed,
    ensures
        ({
            let after = run(
                phrase_start(msg, now).0,
                phrase_start(msg, now).1,
                store,
                answers,
            )->Committed_0;
            let id = phrase_id_of(msg, store);
            &&& after.tags_of(id) == msg.tag_ids@.to_set()
            &&& forall|p: i32| p != id ==> after.tags_of(p) == store.tags_of(p)
            &&& msg.good_phrase_id is None ==> !store.phrases.contains_key(id)
            &&& after.phrases == store.effect(phrase_start(msg, now).1).phrases
            &&& msg.good_phrase_id is None ==> after.phrases.contains_key(id)
            &&& after.persons == store.persons
            &&& after.person_urls == store.person_urls
            &&& after.tags == store.tags
            &&& after.requests == store.requests
        }),
{
    let start = phrase_start(msg, now);
    let after = run(start.0, start.1, store, answers)->Committed_0;
    let id = phrase_id_of(msg, store);
    let tag_ids = msg.tag_ids@;
    let written = store.effect(start.1);
    let first = answers[0];
    assert(first == Answer::Done);
    assert(store.answers(start.1, first));
    assert(written.phrase_tags == store.phrase_tags);
    let select = Statement::SelectTagIdsOfPhrase { good_phrase_id: id };
    let stage = Stage::PhraseTags { id, tag_ids, now };
    let rest = if msg.good_phrase_id is Some {
        answers.drop_first()
    } else {
        answers.drop_first().drop_first()
    };
    if msg.good_phrase_id is Some {
        assert(run(start.0, start.1, store, answers) == run(stage, select, written, rest));
    } else {
        let second = answers.drop_first()[0];
        let waiting = Stage::PhraseRowid { tag_ids, now };
        assert(run(start.0, start.1, store, answers) == run(
            waiting,
            Statement::LastInsertRowid,
            written,
            answers.drop_first(),
        ));
        assert(second == Answer::Rowid(written.last_rowid));
        assert(written.last_rowid == id);
        assert(written.effect(Statement::LastInsertRowid) == written);
        assert(run(waiting, Statement::LastInsertRowid, written, answers.drop_first()) == run(
            stage,
            select,
            written,
            rest,
        ));
    }
    assert(after == run(stage, select, written, rest)->Committed_0);
    assert forall|t: i32| after.associates(id, t) <==> tag_ids.contains(t) by {
        lemma_run_from_tags(id, tag_ids, now, written, rest, id, t);
    }
    assert(after.tags_of(id) =~= tag_ids.to_set());
    assert forall|p: i32| p != id implies after.tags_of(p) == store.tags_of(p) by {
        assert forall|t: i32| after.associates(p, t) <==> store.associates(p, t) by {
            lemma_run_from_tags(id, tag_ids, now, written, rest, p, t);
        }
        assert(after.tags_of(p) =~= store.tags_of(p));
    }
    lemma_run_from_tags(id, tag_ids, now, written, rest, id, 0);
}

/// Submitting the same tags again changes no association: where the tags
/// stored for a phrase are the submitted ones already, the upsert leaves the
/// table of associations untouched.
pub proof fn law_phrase_resubmission_changes_nothing(
    store: Store,
    msg: GoodPhrase,
    now: Timestamp,
    answers: Seq<Answer>,
)
    requires
        msg.good_phrase_id is Some,
        store.tags_of(msg.good_phrase_id->0) == msg.tag_ids@.to_set(),
        run(phrase_start(msg, now).0, phrase_start(msg, now).1, store, answers) is Committed,
    ensures
        run(
            phrase_start(msg, now).0,
            phrase_start(msg, now).1,
            store,
            answers,
        )->Committed_0.phrase_tags == store.phrase_tags,
{
    let start = phrase_start(msg, now);
    let id = msg.good_phrase_id->0;
    let tag_ids = msg.tag_ids@;
    let written = store.effect(start.1);
    assert(answers[0] == Answer::Done);
    assert(written.phrase_tags == store.phrase_tags);
    let select = Statement::SelectTagIdsOfPhrase { good_phrase_id: id };
    let stage = Stage::PhraseTags { id, tag_ids, now };
    assert(run(start.0, start.1, store, answers) == run(
        stage,
        select,
        written,
        answers.drop_first(),
    ));
    assert forall|x: i32| #[trigger] written.associates(id, x) <==> tag_ids.contains(x) by {
        assert(store.tags_of(id).contains(x) == tag_ids.to_set().contains(x));
    }
    lemma_run_from_tags(id, tag_ids, now, written, answers.drop_first(), id, 0);
}

/// Submitting a phrase without tags takes every association of the phrase
/// away.
pub proof fn law_phrase_without_tags_has_none(
    store: Store,
    msg: GoodPhrase,
    now: Timestamp,
    answers: Seq<Answer>,
)
    requires
        msg.tag_ids@.len() == 0,
        run(phrase_start(msg, now).0, phrase_start(msg, now).1, store, answers) is Committed,
    ensures
        run(phrase_start(msg, now).0, phrase_start(msg, now).1, store, answers)->Committed_0.tags_of(
            phrase_id_of(msg, store),
        ) == Set::<i32>::empty(),
{
    law_phrase_tags_match_submission(store, msg, now, answers);
    assert(msg.tag_ids@.to_set() =~= Set::<i32>::empty());
}

/// A failure of any statement ends an upsert at once, with that failure, so
/// that nothing of it is kept.
pub proof fn law_failure_rolls_back(stage: Stage, failure: crate::db::DbFailure)
    ensures
        advance_spec(stage, Answer::Failed(failure)).1 == Step::Finish(
            Err(crate::db::Error::Db(failure)),
        ),
        advance_spec(stage, Answer::Failed(failure)).0 == Stage::Finished,
{
}

/// The submission of a phrase request adds the request and changes nothing
/// else: no phrase, no tag, no association, no person and no URL is touched.
pub proof fn law_request_leaves_phrases_alone(
    store: Store,
    msg: GoodPhraseRequest,
    answers: Seq<Answer>,
)
    requires
        run(Stage::Single, request_start(msg), store, answers) is Committed,
    ensures
        ({
            let after = run(Stage::Single, request_start(msg), store, answers)->Committed_0;
            let id = unused_key(store.requests);
            &&& after.phrases == store.phrases
            &&& after.phrase_tags == store.phrase_tags
            &&& after.tags == store.tags
            &&& after.persons == store.persons
            &&& after.person_urls == store.person_urls
            &&& !store.requests.contains_key(id)
            &&& after.requests.contains_key(id)
            &&& after.requests.remove(id) == store.requests
        }),
{
    let stmt = request_start(msg);
    assert(answers[0] == Answer::Done);
    assert(store.answers(stmt, answers[0]));
    let id = unused_key(store.requests);
    let after = store.effect(stmt);
    assert(after.requests.remove(id) =~= store.requests);
}

/// A run of URL row deletions takes exactly the named rows away, and touches
/// no other table.
pub proof fn lemma_delete_url_rows(
    store: Store,
    gone: Seq<i32>,
    p: i32,
    k: i32,
    u: Seq<char>,
)
    ensures
        ({
            let after = store.apply_all(Seq::new(gone.len(), |i: int| url_deletion(gone[i])));
            &&& after.holds_url_row(p, k, u) <==> store.holds_url_row(p, k, u) && !gone.contains(k)
            &&& after.phrases == store.phrases
            &&& after.phrase_tags == store.phrase_tags
            &&& after.persons == store.persons
            &&& after.tags == store.tags
            &&& after.requests == store.requests
        }),
    decreases gone.len(),
{
    let stmts = Seq::new(gone.len(), |i: int| url_deletion(gone[i]));
    if gone.len() > 0 {
        let tail = gone.drop_first();
        assert(stmts.drop_first() =~= Seq::new(tail.len(), |i: int| url_deletion(tail[i])));
        assert(stmts[0] == url_deletion(gone[0]));
        lemma_delete_url_rows(store.effect(stmts[0]), tail, p, k, u);
        if gone.contains(k) {
            let i = choose|i: int| 0 <= i < gone.len() && gone[i] == k;
            if i > 0 {
                assert(tail[i - 1] == k);
            }
        }
        if tail.contains(k) {
            let i = choose|i: int| 0 <= i < tail.len() && tail[i] == k;
            assert(gone[i + 1] == k);
        }
    }
}

/// A run of URL insertions gives the person exactly the named URLs in
/// addition, and touches no other table.
pub proof fn lemma_insert_urls(
    store: Store,
    id: i32,
    fresh: Seq<String>,
    now: Timestamp,
    p: i32,
    u: Seq<char>,
)
    requires
        store.accepts_all(Seq::new(fresh.len(), |i: int| url_insertion(id, fresh[i], now))),
    ensures
        ({
            let after = store.apply_all(
                Seq::new(fresh.len(), |i: int| url_insertion(id, fresh[i], now)),
            );
            &&& after.has_url(p, u) <==> store.has_url(p, u) || (p == id && lists_url(fresh, u))
            &&& after.phrases == store.phrases
            &&& after.phrase_tags == store.phrase_tags
            &&& after.persons == store.persons
            &&& after.tags == store.tags
            &&& after.requests == store.requests
        }),
    decreases fresh.len(),
{
    let stmts = Seq::new(fresh.len(), |i: int| url_insertion(id, fresh[i], now));
    if fresh.len() > 0 {
        let tail = fresh.drop_first();
        assert(stmts.drop_first() =~= Seq::new(
            tail.len(),
            |i: int| url_insertion(id, tail[i], now),
        ));
        assert(stmts[0] == url_insertion(id, fresh[0], now));
        let mid = store.effect(stmts[0]);
        let key = unused_key(store.person_urls);
        assert(!store.person_urls.contains_key(key));
        lemma_insert_urls(mid, id, tail, now, p, u);
        if store.has_url(p, u) {
            let k = choose|k: i32| #[trigger] store.holds_url_row(p, k, u);
            assert(mid.holds_url_row(p, k, u));
        }
        if p == id && fresh[0]@ == u {
            assert(mid.holds_url_row(p, key, u));
        }
        if mid.has_url(p, u) {
            let k = choose|k: i32| #[trigger] mid.holds_url_row(p, k, u);
            if k != key {
                assert(store.holds_url_row(p, k, u));
            }
        }
        if lists_url(fresh, u) {
            let j = choose|j: int| 0 <= j < fresh.len() && (#[trigger] fresh[j])@ == u;
            if j > 0 {
                assert(tail[j - 1] == fresh[j]);
            }
        }
        if lists_url(tail, u) {
            let j = choose|j: int| 0 <= j < tail.len() && (#[trigger] tail[j])@ == u;
            assert(fresh[j + 1] == tail[j]);
        }
    }
}

/// Whether a list of URL rows is what the store holds for the person: each
/// listed row is a row of the person, and each row of the person is listed.
pub open spec fn lists_rows_of(store: Store, id: i32, rows: Seq<(i32, String)>) -> bool {
    &&& forall|i: int|
        0 <= i < rows.len() ==> store.holds_url_row(id, (#[trigger] rows[i]).0, rows[i].1@)
    &&& forall|k: i32, u: Seq<char>| #[trigger]
        store.holds_url_row(id, k, u) ==> exists|i: int|
            0 <= i < rows.len() && (#[trigger] rows[i]).0 == k
}

/// The statements planned for the URLs of a person leave the person with
/// exactly the submitted URLs, given that the rows taken as stored are the
/// stored ones.  The URLs of other persons and all other tables stay as they
/// are.
pub proof fn lemma_person_plan_reconciles(
    store: Store,
    id: i32,
    rows: Seq<(i32, String)>,
    urls: Seq<String>,
    now: Timestamp,
    p: i32,
    u: Seq<char>,
)
    requires
        lists_rows_of(store, id, rows),
        store.accepts_all(person_plan(id, rows, urls, now)),
    ensures
        ({
            let after = store.apply_all(person_plan(id, rows, urls, now));
            &&& after.has_url(id, u) <==> lists_url(urls, u)
            &&& p != id ==> (after.has_url(p, u) <==> store.has_url(p, u))
            &&& after.phrases == store.phrases
            &&& after.phrase_tags == store.phrase_tags
            &&& after.persons == store.persons
            &&& after.tags == store.tags
            &&& after.requests == store.requests
        }),
{
    let gone = stale_url_rows(rows, urls);
    let fresh = missing_urls(urls, rows);
    let deletions = Seq::new(gone.len(), |i: int| url_deletion(gone[i]));
    let insertions = Seq::new(fresh.len(), |i: int| url_insertion(id, fresh[i], now));
    lemma_apply_all_concat(store, deletions, insertions);
    let mid = store.apply_all(deletions);
    let after = mid.apply_all(insertions);
    lemma_insert_urls(mid, id, fresh, now, id, u);
    lemma_insert_urls(mid, id, fresh, now, p, u);
    lemma_missing_lists(urls, rows, u);
    // What the deletions leave of the person's URLs is what was submitted.
    if mid.has_url(id, u) {
        let k = choose|k: i32| #[trigger] mid.holds_url_row(id, k, u);
        lemma_delete_url_rows(store, gone, id, k, u);
        assert(store.holds_url_row(id, k, u));
        let i = choose|i: int| 0 <= i < rows.len() && (#[trigger] rows[i]).0 == k;
        assert(store.holds_url_row(id, rows[i].0, rows[i].1@));
        lemma_stale_contains(rows, urls, k);
        assert(lists_url(urls, u));
    }
    if lists_url(urls, u) && stores_url(rows, u) {
        let i = choose|i: int| 0 <= i < rows.len() && (#[trigger] rows[i]).1@ == u;
        let k = rows[i].0;
        assert(store.holds_url_row(id, k, u));
        lemma_stale_contains(rows, urls, k);
        if is_stale(rows, urls, k) {
            let j = choose|j: int|
                0 <= j < rows.len() && (#[trigger] rows[j]).0 == k && !lists_url(urls, rows[j].1@);
            assert(store.holds_url_row(id, rows[j].0, rows[j].1@));
        }
        lemma_delete_url_rows(store, gone, id, k, u);
        assert(mid.holds_url_row(id, k, u));
    }
    if p != id {
        if store.has_url(p, u) {
            let k = choose|k: i32| #[trigger] store.holds_url_row(p, k, u);
            lemma_stale_contains(rows, urls, k);
            if is_stale(rows, urls, k) {
                let j = choose|j: int|
                    0 <= j < rows.len() && (#[trigger] rows[j]).0 == k && !lists_url(
                        urls,
                        rows[j].1@,
                    );
                assert(store.holds_url_row(id, rows[j].0, rows[j].1@));
            }
            lemma_delete_url_rows(store, gone, p, k, u);
            assert(mid.holds_url_row(p, k, u));
        }
        if mid.has_url(p, u) {
            let k = choose|k: i32| #[trigger] mid.holds_url_row(p, k, u);
            lemma_delete_url_rows(store, gone, p, k, u);
            assert(store.holds_url_row(p, k, u));
        }
    }
    lemma_delete_url_rows(store, gone, id, 0, u);
}

/// The URLs that a list of submitted URLs holds.
pub open spec fn submitted_urls(urls: Seq<String>) -> Set<Seq<char>> {
    Set::new(|u: Seq<char>| lists_url(urls, u))
}

/// Every statement planned for the URLs of a person changes rows.
pub proof fn lemma_person_plan_writes(
    id: i32,
    rows: Seq<(i32, String)>,
    urls: Seq<String>,
    now: Timestamp,
)
    ensures
        forall|i: int|
            0 <= i < person_plan(id, rows, urls, now).len() ==> !(#[trigger] person_plan(
                id,
                rows,
                urls,
                now,
            )[i]).is_query(),
{
}

/// From the question for the stored URL rows on, a run that ends well leaves
/// the person with exactly the submitted URLs and everything else as it was.
pub proof fn lemma_run_from_urls(
    id: i32,
    urls: Seq<String>,
    now: Timestamp,
    store: Store,
    answers: Seq<Answer>,
    p: i32,
    u: Seq<char>,
)
    requires
        run(
            Stage::PersonUrls { id, urls, now },
            Statement::SelectUrlsOfPerson { person_id: id },
            store,
            answers,
        ) is Committed,
    ensures
        ({
            let after = run(
                Stage::PersonUrls { id, urls, now },
                Statement::SelectUrlsOfPerson { person_id: id },
                store,
                answers,
            )->Committed_0;
            &&& after.has_url(id, u) <==> lists_url(urls, u)
            &&& p != id ==> (after.has_url(p, u) <==> store.has_url(p, u))
            &&& store.urls_of(id) == submitted_urls(urls) ==> after.person_urls
                == store.person_urls
            &&& after.phrases == store.phrases
            &&& after.phrase_tags == store.phrase_tags
            &&& after.persons == store.persons
            &&& after.tags == store.tags
            &&& after.requests == store.requests
        }),
{
    let stage = Stage::PersonUrls { id, urls, now };
    let stmt = Statement::SelectUrlsOfPerson { person_id: id };
    let answer = answers[0];
    assert(answer is PersonUrls);
    assert(store.answers(stmt, answer));
    let rows = answer->PersonUrls_0@;
    let plan = person_plan(id, rows, urls, now);
    assert(advance_spec(stage, answer) == follow(plan));
    assert(store.effect(stmt) == store);
    assert(lists_rows_of(store, id, rows));
    lemma_person_plan_writes(id, rows, urls, now);
    if plan.len() > 0 {
        let tail = plan.drop_first();
        assert forall|i: int| 0 <= i < tail.len() implies !(#[trigger] tail[i]).is_query() by {
            assert(tail[i] == plan[i + 1]);
        }
        assert(run(Stage::Applying { rest: tail }, plan[0], store, answers.drop_first())
            is Committed);
        lemma_run_applies(tail, plan[0], store, answers.drop_first());
        assert(seq![plan[0]] + tail =~= plan);
    }
    lemma_person_plan_reconciles(store, id, rows, urls, now, p, u);
    if store.urls_of(id) == submitted_urls(urls) {
        assert forall|i: int| 0 <= i < rows.len() implies lists_url(
            urls,
            (#[trigger] rows[i]).1@,
        ) by {
            let v = rows[i].1@;
            assert(store.holds_url_row(id, rows[i].0, v));
            assert(store.has_url(id, v));
            assert(store.urls_of(id).contains(v));
            assert(submitted_urls(urls).contains(v));
        }
        assert forall|j: int| 0 <= j < urls.len() implies stores_url(
            rows,
            (#[trigger] urls[j])@,
        ) by {
            let v = urls[j]@;
            assert(lists_url(urls, v));
            assert(submitted_urls(urls).contains(v));
            assert(store.urls_of(id).contains(v));
            assert(store.has_url(id, v));
            let k = choose|k: i32| #[trigger] store.holds_url_row(id, k, v);
            let i = choose|i: int| 0 <= i < rows.len() && (#[trigger] rows[i]).0 == k;
            assert(store.holds_url_row(id, rows[i].0, rows[i].1@));
            assert(rows[i].1@ == v);
        }
        lemma_no_stale_rows(rows, urls);
        lemma_no_missing_urls(urls, rows);
        assert(plan =~= Seq::<Statement>::empty());
    }
}

/// After the upsert of a person, the URLs stored for the person are exactly
/// the submitted ones, whatever was stored before; the URLs of every other
/// person and the other tables are as they were.  Where the person is new, it
/// is stored under an id that no person had, and that id is the one its URLs
/// are stored under.
pub proof fn law_person_urls_match_submission(
    store: Store,
    msg: Person,
    now: Timestamp,
    answers: Seq<Answer>,
)
    requires
        run(person_start(msg, now).0, person_start(msg, now).1, store, answers) is Committed,
    ensures
        ({
            let after = run(
                person_start(msg, now).0,
                person_start(msg, now).1,
                store,
                answers,
            )->Committed_0;
            let id = person_id_of(msg, store);
            &&& after.urls_of(id) == submitted_urls(msg.url@)
            &&& forall|p: i32| p != id ==> after.urls_of(p) == store.urls_of(p)
            &&& msg.person_id is None ==> !store.persons.contains_key(id)
            &&& after.persons == store.effect(person_start(msg, now).1).persons
            &&& msg.person_id is None ==> after.persons.contains_key(id)
            &&& after.phrases == store.phrases
            &&& after.phrase_tags == store.phrase_tags
            &&& after.tags == store.tags
            &&& after.requests == store.requests
        }),
{
    let start = person_start(msg, now);
    let after = run(start.0, start.1, store, answers)->Committed_0;
    let id = person_id_of(msg, store);
    let urls = msg.url@;
    let written = store.effect(start.1);
    let first = answers[0];
    assert(first == Answer::Done);
    assert(store.answers(start.1, first));
    assert(written.person_urls == store.person_urls);
    let select = Statement::SelectUrlsOfPerson { person_id: id };
    let stage = Stage::PersonUrls { id, urls, now };
    let rest = if msg.person_id is Some {
        answers.drop_first()
    } else {
        answers.drop_first().drop_first()
    };
    if msg.person_id is Some {
        assert(run(start.0, start.1, store, answers) == run(stage, select, written, rest));
    } else {
        let second = answers.drop_first()[0];
        let waiting = Stage::PersonRowid { urls, now };
        assert(run(start.0, start.1, store, answers) == run(
            waiting,
            Statement::LastInsertRowid,
            written,
            answers.drop_first(),
        ));
        assert(second == Answer::Rowid(written.last_rowid));
        assert(written.last_rowid == id);
        assert(written.effect(Statement::LastInsertRowid) == written);
        assert(run(waiting, Statement::LastInsertRowid, written, answers.drop_first()) == run(
            stage,
            select,
            written,
            rest,
        ));
    }
    assert(after == run(stage, select, written, rest)->Committed_0);
    assert forall|u: Seq<char>| after.has_url(id, u) <==> lists_url(urls, u) by {
        lemma_run_from_urls(id, urls, now, written, rest, id, u);
    }
    assert(after.urls_of(id) =~= submitted_urls(urls));
    assert forall|p: i32| p != id implies after.urls_of(p) == store.urls_of(p) by {
        assert forall|u: Seq<char>| after.has_url(p, u) <==> store.has_url(p, u) by {
            lemma_run_from_urls(id, urls, now, written, rest, p, u);
            assert(written.has_url(p, u) == store.has_url(p, u)) by {
                if written.has_url(p, u) {
                    let k = choose|k: i32| #[trigger] written.holds_url_row(p, k, u);
                    assert(store.holds_url_row(p, k, u));
                }
                if store.has_url(p, u) {
                    let k = choose|k: i32| #[trigger] store.holds_url_row(p, k, u);
                    assert(written.holds_url_row(p, k, u));
                }
            }
        }
        assert(after.urls_of(p) =~= store.urls_of(p));
    }
    lemma_run_from_urls(id, urls, now, written, rest, id, Seq::<char>::empty());
}

/// Submitting the same URLs again changes no URL row: where the URLs stored
/// for a person are the submitted ones already, the upsert leaves the table
/// of URLs untouched.
pub proof fn law_person_resubmission_changes_nothing(
    store: Store,
    msg: Person,
    now: Timestamp,
    answers: Seq<Answer>,
)
    requires
        msg.person_id is Some,
        store.urls_of(msg.person_id->0) == submitted_urls(msg.url@),
        run(person_start(msg, now).0, person_start(msg, now).1, store, answers) is Committed,
    ensures
        run(
            person_start(msg, now).0,
            person_start(msg, now).1,
            store,
            answers,
        )->Committed_0.person_urls == store.person_urls,
{
    let start = person_start(msg, now);
    let id = msg.person_id->0;
    let urls = msg.url@;
    let written = store.effect(start.1);
    assert(answers[0] == Answer::Done);
    assert(written.person_urls == store.person_urls);
    let select = Statement::SelectUrlsOfPerson { person_id: id };
    let stage = Stage::PersonUrls { id, urls, now };
    assert(run(start.0, start.1, store, answers) == run(
        stage,
        select,
        written,
        answers.drop_first(),
    ));
    assert(written.urls_of(id) =~= store.urls_of(id)) by {
        assert forall|u: Seq<char>| written.has_url(id, u) <==> store.has_url(id, u) by {
            if written.has_url(id, u) {
                let k = choose|k: i32| #[trigger] written.holds_url_row(id, k, u);
                assert(store.holds_url_row(id, k, u));
            }
            if store.has_url(id, u) {
                let k = choose|k: i32| #[trigger] store.holds_url_row(id, k, u);
                assert(written.holds_url_row(id, k, u));
            }
        }
    }
    lemma_run_from_urls(id, urls, now, written, answers.drop_first(), id, Seq::<char>::empty());
}

/// Submitting a person without URLs takes every URL of the person away.
pub proof fn law_person_without_urls_has_none(
    store: Store,
    msg: Person,
    now: Timestamp,
    answers: Seq<Answer>,
)
    requires
        msg.url@.len() == 0,
        run(person_start(msg, now).0, person_start(msg, now).1, store, answers) is Committed,
    ensures
        run(person_start(msg, now).0, person_start(msg, now).1, store, answers)->Committed_0.urls_of(
            person_id_of(msg, store),
        ) == Set::<Seq<char>>::empty(),
{
    lemma_nothing_listed(msg);
    law_person_urls_match_submission(store, msg, now, answers);
    assert(submitted_urls(msg.url@) =~= Set::<Seq<char>>::empty());
}

/// An empty list of URLs lists none.
proof fn lemma_nothing_listed(msg: Person)
    requires
        msg.url@.len() == 0,
    ensures
        forall|u: Seq<char>| !lists_url(msg.url@, u),
{
}

/// A new phrase is stored under an id that no phrase had before, and its
/// tags are stored under that very id.
pub proof fn law_new_phrase_gets_fresh_id(
    store: Store,
    msg: GoodPhrase,
    now: Timestamp,
    answers: Seq<Answer>,
)
    requires
        msg.good_phrase_id is None,
        run(phrase_start(msg, now).0, phrase_start(msg, now).1, store, answers) is Committed,
    ensures
        ({
            let after = run(
                phrase_start(msg, now).0,
                phrase_start(msg, now).1,
                store,
                answers,
            )->Committed_0;
            let id = unused_key(store.phrases);
            &&& !store.phrases.contains_key(id)
            &&& after.phrases.contains_key(id)
            &&& after.phrases[id].title == msg.title
            &&& after.phrases[id].phrase == msg.phrase
            &&& after.phrases.remove(id) == store.phrases
            &&& after.tags_of(id) == msg.tag_ids@.to_set()
        }),
{
    law_phrase_tags_match_submission(store, msg, now, answers);
    let id = unused_key(store.phrases);
    let written = store.effect(phrase_start(msg, now).1);
    assert(written.phrases.remove(id) =~= store.phrases);
}

/// A new person is stored under an id that no person had before, and its
/// URLs are stored under that very id.
pub proof fn law_new_person_gets_fresh_id(
    store: Store,
    msg: Person,
    now: Timestamp,
    answers: Seq<Answer>,
)
    requires
        msg.person_id is None,
        run(person_start(msg, now).0, person_start(msg, now).1, store, answers) is Committed,
    ensures
        ({
            let after = run(
                person_start(msg, now).0,
                person_start(msg, now).1,
                store,
                answers,
            )->Committed_0;
            let id = unused_key(store.persons);
            &&& !store.persons.contains_key(id)
            &&& after.persons.contains_key(id)
            &&& after.persons[id].display_name == msg.display_name
            &&& after.persons.remove(id) == store.persons
            &&& after.urls_of(id) == submitted_urls(msg.url@)
        }),
{
    law_person_urls_match_submission(store, msg, now, answers);
    let id = unused_key(store.persons);
    let written = store.effect(person_start(msg, now).1);
    assert(written.persons.remove(id) =~= store.persons);
}

/// The tag that a statement associates a phrase with, if it is such a
/// statement.
pub open spec fn inserted_tag(stmt: Statement) -> Option<i32> {
    match stmt {
        Statement::InsertPhraseTag(row) => Some(row.good_phrase_tag_id),
        _ => None,
    }
}

/// The tag whose association a statement takes away, if it is such a
/// statement.
pub open spec fn deleted_tag(stmt: Statement) -> Option<i32> {
    match stmt {
        Statement::DeletePhraseTag { good_phrase_tag_id, .. } => Some(good_phrase_tag_id),
        _ => None,
    }
}

/// The URL that a statement adds to a person, if it is such a statement.
pub open spec fn inserted_url(stmt: Statement) -> Option<Seq<char>> {
    match stmt {
        Statement::InsertPersonUrl(row) => Some(row.url@),
        _ => None,
    }
}

/// The URL row that a statement takes away, if it is such a statement.
pub open spec fn deleted_url_row(stmt: Statement) -> Option<i32> {
    match stmt {
        Statement::DeletePersonUrl { person_url_id } => Some(person_url_id),
        _ => None,
    }
}

/// The items absent from `t` are the difference of the two as sets, each
/// item once.
pub proof fn law_absent_from_is_the_difference(s: Seq<i32>, t: Seq<i32>)
    ensures
        absent_from(s, t).no_duplicates(),
        absent_from(s, t).to_set() == s.to_set().difference(t.to_set()),
        absent_from(s, t).len() == s.to_set().difference(t.to_set()).len(),
{
    let found = absent_from(s, t);
    lemma_absent_from_distinct(s, t);
    assert forall|x: i32| found.to_set().contains(x) <==> s.to_set().difference(
        t.to_set(),
    ).contains(x) by {
        lemma_absent_from_contains(s, t, x);
    }
    assert(found.to_set() =~= s.to_set().difference(t.to_set()));
    found.unique_seq_to_set();
}

/// The plan for the tags of a phrase is the least that does it.  Each of its
/// statements takes one association of the phrase away or adds one.  A tag
/// is taken away exactly if it is stored and was not submitted, and added
/// exactly if it was submitted and is not stored; however often a tag was
/// submitted or is stored, no two statements of the plan name the same tag.
/// So the plan has one deletion for each tag of stored-minus-submitted, one
/// insertion for each tag of submitted-minus-stored, and nothing else.
pub proof fn law_phrase_plan_is_minimal(
    id: i32,
    current: Seq<i32>,
    tag_ids: Seq<i32>,
    now: Timestamp,
)
    ensures
        ({
            let plan = phrase_plan(id, current, tag_ids, now);
            let gone = current.to_set().difference(tag_ids.to_set());
            let fresh = tag_ids.to_set().difference(current.to_set());
            &&& plan.len() == gone.len() + fresh.len()
            &&& forall|i: int|
                0 <= i < plan.len() ==> {
                    ||| deleted_tag(#[trigger] plan[i]) is Some && plan[i] == tag_deletion(
                        id,
                        deleted_tag(plan[i])->0,
                    ) && gone.contains(deleted_tag(plan[i])->0)
                    ||| inserted_tag(plan[i]) is Some && plan[i] == tag_insertion(
                        id,
                        inserted_tag(plan[i])->0,
                        now,
                    ) && fresh.contains(inserted_tag(plan[i])->0)
                }
            &&& forall|i: int, j: int|
                0 <= i < plan.len() && 0 <= j < plan.len() && i != j ==> {
                    &&& inserted_tag(#[trigger] plan[i]) is Some ==> inserted_tag(plan[i])
                        != inserted_tag(#[trigger] plan[j])
                    &&& deleted_tag(plan[i]) is Some ==> deleted_tag(plan[i]) != deleted_tag(
                        plan[j],
                    )
                }
            &&& forall|t: i32| #[trigger]
                fresh.contains(t) ==> plan.contains(tag_insertion(id, t, now))
            &&& forall|t: i32| #[trigger] gone.contains(t) ==> plan.contains(tag_deletion(id, t))
        }),
{
    let plan = phrase_plan(id, current, tag_ids, now);
    let del = absent_from(current, tag_ids);
    let ins = absent_from(tag_ids, current);
    let gone = current.to_set().difference(tag_ids.to_set());
    let fresh = tag_ids.to_set().difference(current.to_set());
    law_absent_from_is_the_difference(current, tag_ids);
    law_absent_from_is_the_difference(tag_ids, current);
    assert forall|i: int| 0 <= i < plan.len() implies {
        ||| deleted_tag(#[trigger] plan[i]) is Some && plan[i] == tag_deletion(
            id,
            deleted_tag(plan[i])->0,
        ) && gone.contains(deleted_tag(plan[i])->0)
        ||| inserted_tag(plan[i]) is Some && plan[i] == tag_insertion(
            id,
            inserted_tag(plan[i])->0,
            now,
        ) && fresh.contains(inserted_tag(plan[i])->0)
    } by {
        if i < del.len() {
            assert(plan[i] == tag_deletion(id, del[i]));
            assert(del.to_set().contains(del[i]));
        } else {
            assert(plan[i] == tag_insertion(id, ins[i - del.len()], now));
            assert(ins.to_set().contains(ins[i - del.len()]));
        }
    }
    assert forall|i: int, j: int|
        0 <= i < plan.len() && 0 <= j < plan.len() && i != j implies {
        &&& inserted_tag(#[trigger] plan[i]) is Some ==> inserted_tag(plan[i]) != inserted_tag(
            #[trigger] plan[j],
        )
        &&& deleted_tag(plan[i]) is Some ==> deleted_tag(plan[i]) != deleted_tag(plan[j])
    } by {
        if i < del.len() {
            assert(plan[i] == tag_deletion(id, del[i]));
        } else {
            assert(plan[i] == tag_insertion(id, ins[i - del.len()], now));
        }
        if j < del.len() {
            assert(plan[j] == tag_deletion(id, del[j]));
        } else {
            assert(plan[j] == tag_insertion(id, ins[j - del.len()], now));
        }
    }
    assert forall|t: i32| #[trigger] fresh.contains(t) implies plan.contains(
        tag_insertion(id, t, now),
    ) by {
        assert(ins.to_set().contains(t));
        let k = choose|k: int| 0 <= k < ins.len() && ins[k] == t;
        assert(plan[del.len() + k] == tag_insertion(id, t, now));
    }
    assert forall|t: i32| #[trigger] gone.contains(t) implies plan.contains(
        tag_deletion(id, t),
    ) by {
        assert(del.to_set().contains(t));
        let k = choose|k: int| 0 <= k < del.len() && del[k] == t;
        assert(plan[k] == tag_deletion(id, t));
    }
}

/// The plan for the URLs of a person is the least that does it.  Each of its
/// statements takes one URL row away or adds one URL to the person.  A row
/// is taken away exactly if it is a stored row whose URL was not submitted,
/// and a URL is added exactly if it was submitted and no stored row holds
/// it; however often a URL was submitted, no two statements of the plan add
/// the same URL or take the same row away.
pub proof fn law_person_plan_is_minimal(
    id: i32,
    rows: Seq<(i32, String)>,
    urls: Seq<String>,
    now: Timestamp,
)
    ensures
        ({
            let plan = person_plan(id, rows, urls, now);
            &&& forall|i: int|
                0 <= i < plan.len() ==> {
                    ||| deleted_url_row(#[trigger] plan[i]) is Some && plan[i] == url_deletion(
                        deleted_url_row(plan[i])->0,
                    ) && is_stale(rows, urls, deleted_url_row(plan[i])->0)
                    ||| plan[i] is InsertPersonUrl && plan[i] == url_insertion(
                        id,
                        plan[i]->InsertPersonUrl_0.url,
                        now,
                    ) && lists_url(urls, inserted_url(plan[i])->0) && !stores_url(
                        rows,
                        inserted_url(plan[i])->0,
                    )
                }
            &&& forall|i: int, j: int|
                0 <= i < plan.len() && 0 <= j < plan.len() && i != j ==> {
                    &&& inserted_url(#[trigger] plan[i]) is Some ==> inserted_url(plan[i])
                        != inserted_url(#[trigger] plan[j])
                    &&& deleted_url_row(plan[i]) is Some ==> deleted_url_row(plan[i])
                        != deleted_url_row(plan[j])
                }
            &&& forall|u: Seq<char>|
                lists_url(urls, u) && !stores_url(rows, u) ==> exists|i: int|
                    0 <= i < plan.len() && inserted_url(#[trigger] plan[i]) == Some(u)
            &&& forall|k: i32| #[trigger]
                is_stale(rows, urls, k) ==> plan.contains(url_deletion(k))
        }),
{
    let plan = person_plan(id, rows, urls, now);
    let del = stale_url_rows(rows, urls);
    let ins = missing_urls(urls, rows);
    lemma_stale_distinct(rows, urls);
    lemma_missing_distinct(urls, rows);
    assert forall|i: int| 0 <= i < plan.len() implies {
        ||| deleted_url_row(#[trigger] plan[i]) is Some && plan[i] == url_deletion(
            deleted_url_row(plan[i])->0,
        ) && is_stale(rows, urls, deleted_url_row(plan[i])->0)
        ||| plan[i] is InsertPersonUrl && plan[i] == url_insertion(
            id,
            plan[i]->InsertPersonUrl_0.url,
            now,
        ) && lists_url(urls, inserted_url(plan[i])->0) && !stores_url(
            rows,
            inserted_url(plan[i])->0,
        )
    } by {
        if i < del.len() {
            assert(plan[i] == url_deletion(del[i]));
            assert(del.contains(del[i]));
            lemma_stale_contains(rows, urls, del[i]);
        } else {
            let k = i - del.len();
            assert(plan[i] == url_insertion(id, ins[k], now));
            assert(lists_url(ins, ins[k]@));
            lemma_missing_lists(urls, rows, ins[k]@);
        }
    }
    assert forall|i: int, j: int|
        0 <= i < plan.len() && 0 <= j < plan.len() && i != j implies {
        &&& inserted_url(#[trigger] plan[i]) is Some ==> inserted_url(plan[i]) != inserted_url(
            #[trigger] plan[j],
        )
        &&& deleted_url_row(plan[i]) is Some ==> deleted_url_row(plan[i]) != deleted_url_row(
            plan[j],
        )
    } by {
        if i < del.len() {
            assert(plan[i] == url_deletion(del[i]));
        } else {
            assert(plan[i] == url_insertion(id, ins[i - del.len()], now));
        }
        if j < del.len() {
            assert(plan[j] == url_deletion(del[j]));
        } else {
            assert(plan[j] == url_insertion(id, ins[j - del.len()], now));
        }
        if i >= del.len() && j >= del.len() {
            let a = i - del.len();
            let b = j - del.len();
            if a < b {
                assert(ins[a]@ != ins[b]@);
            } else {
                assert(ins[b]@ != ins[a]@);
            }
        }
    }
    assert forall|u: Seq<char>| lists_url(urls, u) && !stores_url(rows, u) implies exists|i: int|
        0 <= i < plan.len() && inserted_url(#[trigger] plan[i]) == Some(u) by {
        lemma_missing_lists(urls, rows, u);
        let k = choose|k: int| 0 <= k < ins.len() && (#[trigger] ins[k])@ == u;
        assert(plan[del.len() + k] == url_insertion(id, ins[k], now));
        assert(inserted_url(plan[del.len() + k]) == Some(u));
    }
    assert forall|k: i32| #[trigger] is_stale(rows, urls, k) implies plan.contains(
        url_deletion(k),
    ) by {
        lemma_stale_contains(rows, urls, k);
        let n = choose|n: int| 0 <= n < del.len() && del[n] == k;
        assert(plan[n] == url_deletion(k));
    }
}

/// An upsert that waits for the statement that is running is committed
/// exactly if the database plays its part: where no answer is a failure,
/// each is true of the store and the answers end with the upsert, the run
/// ends `Committed`; and no other run does.
pub proof fn lemma_faithful_run_commits(
    stage: Stage,
    stmt: Statement,
    store: Store,
    answers: Seq<Answer>,
)
    requires
        awaits(stage, stmt),
    ensures
        run(stage, stmt, store, answers) is Committed <==> faithful(stage, stmt, store, answers),
    decreases answers.len(),
{
    if answers.len() > 0 {
        let answer = answers[0];
        let next = advance_spec(stage, answer);
        if !(answer is Failed) && store.answers(stmt, answer) {
            match stage {
                Stage::PhraseTags { id, tag_ids, now } => {
                    let plan = phrase_plan(id, answer->TagIds_0@, tag_ids, now);
                    lemma_phrase_plan_writes(id, answer->TagIds_0@, tag_ids, now);
                    assert(next == follow(plan));
                    if plan.len() > 0 {
                        let tail = plan.drop_first();
                        assert forall|i: int| 0 <= i < tail.len() implies !(
                        #[trigger] tail[i]).is_query() by {
                            assert(tail[i] == plan[i + 1]);
                        }
                    }
                },
                Stage::PersonUrls { id, urls, now } => {
                    let plan = person_plan(id, answer->PersonUrls_0@, urls, now);
                    lemma_person_plan_writes(id, answer->PersonUrls_0@, urls, now);
                    assert(next == follow(plan));
                    if plan.len() > 0 {
                        let tail = plan.drop_first();
                        assert forall|i: int| 0 <= i < tail.len() implies !(
                        #[trigger] tail[i]).is_query() by {
                            assert(tail[i] == plan[i + 1]);
                        }
                    }
                },
                Stage::Applying { rest } => {
                    assert(next == follow(rest));
                    if rest.len() > 0 {
                        let tail = rest.drop_first();
                        assert forall|i: int| 0 <= i < tail.len() implies !(
                        #[trigger] tail[i]).is_query() by {
                            assert(tail[i] == rest[i + 1]);
                        }
                    }
                },
                _ => {},
            }
            match next.1 {
                Step::Run(following) => {
                    assert(awaits(next.0, following));
                    lemma_faithful_run_commits(
                        next.0,
                        following,
                        store.effect(stmt),
                        answers.drop_first(),
                    );
                },
                Step::Finish(result) => {
                    assert(result is Ok);
                },
            }
        }
    }
}

/// The upsert of a phrase is committed exactly if the database plays its
/// part: no answer a failure, each true of the store, and as many as the
/// upsert asks for.
pub proof fn law_phrase_upsert_commits(
    store: Store,
    msg: GoodPhrase,
    now: Timestamp,
    answers: Seq<Answer>,
)
    ensures
        run(phrase_start(msg, now).0, phrase_start(msg, now).1, store, answers) is Committed
            <==> faithful(phrase_start(msg, now).0, phrase_start(msg, now).1, store, answers),
{
    lemma_faithful_run_commits(phrase_start(msg, now).0, phrase_start(msg, now).1, store, answers);
}

/// The upsert of a person is committed exactly if the database plays its
/// part.
pub proof fn law_person_upsert_commits(
    store: Store,
    msg: Person,
    now: Timestamp,
    answers: Seq<Answer>,
)
    ensures
        run(person_start(msg, now).0, person_start(msg, now).1, store, answers) is Committed
            <==> faithful(person_start(msg, now).0, person_start(msg, now).1, store, answers),
{
    lemma_faithful_run_commits(person_start(msg, now).0, person_start(msg, now).1, store, answers);
}

/// The upsert of a tag is committed exactly if the database plays its part:
/// its one statement goes through, and one true answer says so.
pub proof fn law_tag_upsert_commits(
    store: Store,
    msg: GoodPhraseTag,
    now: Timestamp,
    answers: Seq<Answer>,
)
    ensures
        run(Stage::Single, tag_start(msg, now), store, answers) is Committed <==> (answers
            == seq![Answer::Done] && store.accepts(tag_start(msg, now))),
{
    let stmt = tag_start(msg, now);
    lemma_faithful_run_commits(Stage::Single, stmt, store, answers);
    if answers.len() == 1 {
        assert(answers =~= seq![answers[0]]);
    }
}

/// The submission of a phrase request is committed exactly if the database
/// plays its part: its one statement goes through, and one true answer says
/// so.
pub proof fn law_request_commits(store: Store, msg: GoodPhraseRequest, answers: Seq<Answer>)
    ensures
        run(Stage::Single, request_start(msg), store, answers) is Committed <==> (answers
            == seq![Answer::Done] && store.accepts(request_start(msg))),
{
    let stmt = request_start(msg);
    lemma_faithful_run_commits(Stage::Single, stmt, store, answers);
    if answers.len() == 1 {
        assert(answers =~= seq![answers[0]]);
    }
}

/// A run of tag deletions takes away the association rows of the phrase with
/// the named tags and no other row, and changes no row that stays.
pub proof fn lemma_delete_tags_rows(store: Store, id: i32, gone: Seq<i32>, k: i32)
    ensures
        ({
            let after = store.apply_all(Seq::new(gone.len(), |i: int| tag_deletion(id, gone[i])));
            &&& after.phrase_tags.contains_key(k) <==> store.phrase_tags.contains_key(k) && !(
            store.phrase_tags[k].good_phrase_id == id && gone.contains(
                store.phrase_tags[k].good_phrase_tag_id,
            ))
            &&& after.phrase_tags.contains_key(k) ==> after.phrase_tags[k] == store.phrase_tags[k]
        }),
    decreases gone.len(),
{
    let stmts = Seq::new(gone.len(), |i: int| tag_deletion(id, gone[i]));
    if gone.len() > 0 {
        let tail = gone.drop_first();
        assert(stmts.drop_first() =~= Seq::new(tail.len(), |i: int| tag_deletion(id, tail[i])));
        assert(stmts[0] == tag_deletion(id, gone[0]));
        lemma_delete_tags_rows(store.effect(stmts[0]), id, tail, k);
        if store.phrase_tags.contains_key(k) {
            let t = store.phrase_tags[k].good_phrase_tag_id;
            if gone.contains(t) {
                let i = choose|i: int| 0 <= i < gone.len() && gone[i] == t;
                if i > 0 {
                    assert(tail[i - 1] == t);
                }
            }
            if tail.contains(t) {
                let i = choose|i: int| 0 <= i < tail.len() && tail[i] == t;
                assert(gone[i + 1] == t);
            }
        }
    }
}

/// A run of tag insertions changes no row that is there, and adds one row
/// for each named tag: a row of the phrase, made at the given time.
pub proof fn lemma_insert_tags_rows(
    store: Store,
    id: i32,
    fresh: Seq<i32>,
    now: Timestamp,
    k: i32,
    other: i32,
)
    requires
        fresh.no_duplicates(),
        store.accepts_all(Seq::new(fresh.len(), |i: int| tag_insertion(id, fresh[i], now))),
    ensures
        ({
            let after = store.apply_all(
                Seq::new(fresh.len(), |i: int| tag_insertion(id, fresh[i], now)),
            );
            &&& store.phrase_tags.contains_key(k) ==> after.phrase_tags.contains_key(k)
                && after.phrase_tags[k] == store.phrase_tags[k]
            &&& after.phrase_tags.contains_key(k) && !store.phrase_tags.contains_key(k) ==> {
                &&& fresh.contains(after.phrase_tags[k].good_phrase_tag_id)
                &&& after.phrase_tags[k] == (GoodPhraseAndTag {
                    good_phrase_and_tag_id: k,
                    created_at: now,
                    modified_at: now,
                    good_phrase_id: id,
                    good_phrase_tag_id: after.phrase_tags[k].good_phrase_tag_id,
                })
            }
            &&& after.phrase_tags.contains_key(k) && !store.phrase_tags.contains_key(k)
                && after.phrase_tags.contains_key(other) && !store.phrase_tags.contains_key(other)
                && k != other ==> after.phrase_tags[k].good_phrase_tag_id
                != after.phrase_tags[other].good_phrase_tag_id
        }),
    decreases fresh.len(),
{
    let stmts = Seq::new(fresh.len(), |i: int| tag_insertion(id, fresh[i], now));
    if fresh.len() > 0 {
        let tail = fresh.drop_first();
        assert(stmts.drop_first() =~= Seq::new(
            tail.len(),
            |i: int| tag_insertion(id, tail[i], now),
        ));
        assert(stmts[0] == tag_insertion(id, fresh[0], now));
        let mid = store.effect(stmts[0]);
        let key = unused_key(store.phrase_tags);
        assert(!store.phrase_tags.contains_key(key));
        assert forall|i: int, j: int|
            0 <= i < tail.len() && 0 <= j < tail.len() && i != j implies tail[i] != tail[j] by {
            assert(tail[i] == fresh[i + 1]);
            assert(tail[j] == fresh[j + 1]);
        }
        assert(!tail.contains(fresh[0])) by {
            if tail.contains(fresh[0]) {
                let i = choose|i: int| 0 <= i < tail.len() && tail[i] == fresh[0];
                assert(fresh[i + 1] == tail[i]);
            }
        }
        assert forall|t: i32| tail.contains(t) implies fresh.contains(t) by {
            let i = choose|i: int| 0 <= i < tail.len() && tail[i] == t;
            assert(fresh[i + 1] == t);
        }
        lemma_insert_tags_rows(mid, id, tail, now, k, other);
        lemma_insert_tags_rows(mid, id, tail, now, other, k);
        lemma_insert_tags_rows(mid, id, tail, now, key, key);
        assert(fresh[0] == fresh[0] && fresh.contains(fresh[0]));
    }
}

/// What the plan for the tags of a phrase does to the rows: it leaves every
/// row of another phrase and every row of a submitted tag as it is, takes
/// the rows of the tags that were not submitted away, and adds one row, made
/// at the given time, for each submitted tag that was not stored.
pub proof fn lemma_phrase_plan_rows(
    store: Store,
    id: i32,
    current: Seq<i32>,
    tag_ids: Seq<i32>,
    now: Timestamp,
    k: i32,
    other: i32,
)
    requires
        forall|x: i32|
            #![trigger current.contains(x)]
            #![trigger store.associates(id, x)]
            current.contains(x) <==> store.associates(id, x),
        store.accepts_all(phrase_plan(id, current, tag_ids, now)),
    ensures
        ({
            let after = store.apply_all(phrase_plan(id, current, tag_ids, now));
            let kept = after.phrase_tags.contains_key(k) && store.phrase_tags.contains_key(k)
                && after.phrase_tags[k] == store.phrase_tags[k];
            let added = after.phrase_tags.contains_key(k) && tag_ids.contains(
                after.phrase_tags[k].good_phrase_tag_id,
            ) && !store.associates(id, after.phrase_tags[k].good_phrase_tag_id)
                && after.phrase_tags[k] == (GoodPhraseAndTag {
                good_phrase_and_tag_id: k,
                created_at: now,
                modified_at: now,
                good_phrase_id: id,
                good_phrase_tag_id: after.phrase_tags[k].good_phrase_tag_id,
            });
            &&& store.phrase_tags.contains_key(k) && (store.phrase_tags[k].good_phrase_id != id
                || tag_ids.contains(store.phrase_tags[k].good_phrase_tag_id)) ==> kept
            &&& after.phrase_tags.contains_key(k) ==> kept || added
            &&& store.phrase_tags.contains_key(k) && store.phrase_tags[k].good_phrase_id == id
                && !tag_ids.contains(store.phrase_tags[k].good_phrase_tag_id) ==> !kept
            &&& after.phrase_tags.contains_key(k) && after.phrase_tags.contains_key(other) && k
                != other && after.phrase_tags[k].good_phrase_id == id
                && after.phrase_tags[other].good_phrase_id == id
                && after.phrase_tags[k].good_phrase_tag_id
                == after.phrase_tags[other].good_phrase_tag_id ==> store.associates(
                id,
                after.phrase_tags[k].good_phrase_tag_id,
            )
        }),
{
    let gone = absent_from(current, tag_ids);
    let fresh = absent_from(tag_ids, current);
    let deletions = Seq::new(gone.len(), |i: int| tag_deletion(id, gone[i]));
    let insertions = Seq::new(fresh.len(), |i: int| tag_insertion(id, fresh[i], now));
    lemma_apply_all_concat(store, deletions, insertions);
    let mid = store.apply_all(deletions);
    let after = mid.apply_all(insertions);
    lemma_absent_from_distinct(tag_ids, current);
    lemma_delete_tags_rows(store, id, gone, k);
    lemma_delete_tags_rows(store, id, gone, other);
    lemma_insert_tags_rows(mid, id, fresh, now, k, other);
    lemma_insert_tags_rows(mid, id, fresh, now, other, k);
    if store.phrase_tags.contains_key(k) {
        let t = store.phrase_tags[k].good_phrase_tag_id;
        lemma_absent_from_contains(current, tag_ids, t);
        if store.phrase_tags[k].good_phrase_id == id {
            assert(store.associates(id, t));
        }
    }
    if after.phrase_tags.contains_key(k) {
        let t = after.phrase_tags[k].good_phrase_tag_id;
        lemma_absent_from_contains(tag_ids, current, t);
        if mid.phrase_tags.contains_key(k) && after.phrase_tags[k].good_phrase_id == id {
            assert(store.associates(id, t));
        }
    }
    if after.phrase_tags.contains_key(other) {
        let t = after.phrase_tags[other].good_phrase_tag_id;
        lemma_absent_from_contains(tag_ids, current, t);
        if mid.phrase_tags.contains_key(other) && after.phrase_tags[other].good_phrase_id == id {
            assert(store.associates(id, t));
        }
    }
}

/// The tag ids that the database gave as stored in a run of a phrase upsert.
pub open spec fn tags_answered(msg: GoodPhrase, answers: Seq<Answer>) -> Seq<i32> {
    if msg.good_phrase_id is Some {
        answers[1]->TagIds_0@
    } else {
        answers[2]->TagIds_0@
    }
}

/// A committed run of a phrase upsert writes the phrase row and then carries
/// out the plan for the tags that the database gave as stored, which are
/// the stored ones.
pub proof fn lemma_phrase_run_is_plan(
    store: Store,
    msg: GoodPhrase,
    now: Timestamp,
    answers: Seq<Answer>,
)
    requires
        run(phrase_start(msg, now).0, phrase_start(msg, now).1, store, answers) is Committed,
    ensures
        ({
            let after = run(
                phrase_start(msg, now).0,
                phrase_start(msg, now).1,
                store,
                answers,
            )->Committed_0;
            let id = phrase_id_of(msg, store);
            let written = store.effect(phrase_start(msg, now).1);
            let plan = phrase_plan(id, tags_answered(msg, answers), msg.tag_ids@, now);
            &&& written.phrase_tags == store.phrase_tags
            &&& forall|x: i32|
                #![trigger tags_answered(msg, answers).contains(x)]
                #![trigger written.associates(id, x)]
                tags_answered(msg, answers).contains(x) <==> written.associates(id, x)
            &&& written.accepts_all(plan)
            &&& after == written.apply_all(plan)
        }),
{
    let start = phrase_start(msg, now);
    let id = phrase_id_of(msg, store);
    let tag_ids = msg.tag_ids@;
    let written = store.effect(start.1);
    assert(answers[0] == Answer::Done);
    assert(store.answers(start.1, answers[0]));
    let select = Statement::SelectTagIdsOfPhrase { good_phrase_id: id };
    let stage = Stage::PhraseTags { id, tag_ids, now };
    let rest = if msg.good_phrase_id is Some {
        answers.drop_first()
    } else {
        answers.drop_first().drop_first()
    };
    if msg.good_phrase_id is Some {
        assert(run(start.0, start.1, store, answers) == run(stage, select, written, rest));
        assert(rest[0] == answers[1]);
    } else {
        let waiting = Stage::PhraseRowid { tag_ids, now };
        assert(run(start.0, start.1, store, answers) == run(
            waiting,
            Statement::LastInsertRowid,
            written,
            answers.drop_first(),
        ));
        assert(answers.drop_first()[0] == Answer::Rowid(written.last_rowid));
        assert(written.effect(Statement::LastInsertRowid) == written);
        assert(run(waiting, Statement::LastInsertRowid, written, answers.drop_first()) == run(
            stage,
            select,
            written,
            rest,
        ));
        assert(rest[0] == answers[2]);
    }
    let answer = rest[0];
    assert(answer is TagIds);
    assert(written.answers(select, answer));
    let current = answer->TagIds_0@;
    let plan = phrase_plan(id, current, tag_ids, now);
    assert(advance_spec(stage, answer) == follow(plan));
    assert(written.effect(select) == written);
    lemma_phrase_plan_writes(id, current, tag_ids, now);
    if plan.len() > 0 {
        let tail = plan.drop_first();
        assert forall|i: int| 0 <= i < tail.len() implies !(#[trigger] tail[i]).is_query() by {
            assert(tail[i] == plan[i + 1]);
        }
        assert(run(Stage::Applying { rest: tail }, plan[0], written, rest.drop_first())
            is Committed);
        lemma_run_applies(tail, plan[0], written, rest.drop_first());
        assert(seq![plan[0]] + tail =~= plan);
    }
}

/// The upsert of a phrase touches only what differs.  Every association row
/// of another phrase, and every row of the phrase whose tag was submitted
/// again, stays under its id as it was.  The rows of the phrase whose tag
/// was not submitted are gone.  Every other row that is there afterwards is
/// a new row of the phrase, made at the time of the upsert, for a tag that
/// was submitted and not stored; and there is one such row for each such
/// tag, however often the tag was submitted.
pub proof fn law_phrase_upsert_touches_only_what_differs(
    store: Store,
    msg: GoodPhrase,
    now: Timestamp,
    answers: Seq<Answer>,
)
    requires
        run(phrase_start(msg, now).0, phrase_start(msg, now).1, store, answers) is Committed,
    ensures
        ({
            let after = run(
                phrase_start(msg, now).0,
                phrase_start(msg, now).1,
                store,
                answers,
            )->Committed_0;
            let id = phrase_id_of(msg, store);
            let tag_ids = msg.tag_ids@;
            &&& forall|k: i32|
                store.phrase_tags.contains_key(k) && ((#[trigger] store.phrase_tags[k]).good_phrase_id
                    != id || tag_ids.contains(store.phrase_tags[k].good_phrase_tag_id))
                    ==> after.phrase_tags.contains_key(k) && after.phrase_tags[k]
                    == store.phrase_tags[k]
            &&& forall|k: i32|
                store.phrase_tags.contains_key(k) && (#[trigger] store.phrase_tags[k]).good_phrase_id
                    == id && !tag_ids.contains(store.phrase_tags[k].good_phrase_tag_id) ==> !(
                after.phrase_tags.contains_key(k) && after.phrase_tags[k] == store.phrase_tags[k])
            &&& forall|k: i32|
                after.phrase_tags.contains_key(k) ==> {
                    ||| store.phrase_tags.contains_key(k) && (#[trigger] after.phrase_tags[k])
                        == store.phrase_tags[k]
                    ||| tag_ids.contains(after.phrase_tags[k].good_phrase_tag_id)
                        && !store.associates(id, after.phrase_tags[k].good_phrase_tag_id)
                        && after.phrase_tags[k] == (GoodPhraseAndTag {
                        good_phrase_and_tag_id: k,
                        created_at: now,
                        modified_at: now,
                        good_phrase_id: id,
                        good_phrase_tag_id: after.phrase_tags[k].good_phrase_tag_id,
                    })
                }
            &&& forall|k: i32, other: i32|
                after.phrase_tags.contains_key(k) && after.phrase_tags.contains_key(other) && k
                    != other && (#[trigger] after.phrase_tags[k]).good_phrase_id == id && (
                #[trigger] after.phrase_tags[other]).good_phrase_id == id
                    && after.phrase_tags[k].good_phrase_tag_id
                    == after.phrase_tags[other].good_phrase_tag_id ==> store.associates(
                    id,
                    after.phrase_tags[k].good_phrase_tag_id,
                )
            &&& forall|t: i32|
                tag_ids.contains(t) && !(#[trigger] store.associates(id, t)) ==> exists|k: i32|
                    after.phrase_tags.contains_key(k) && #[trigger] after.phrase_tags[k]
                        == (GoodPhraseAndTag {
                        good_phrase_and_tag_id: k,
                        created_at: now,
                        modified_at: now,
                        good_phrase_id: id,
                        good_phrase_tag_id: t,
                    })
        }),
{
    let after = run(phrase_start(msg, now).0, phrase_start(msg, now).1, store, answers)->Committed_0;
    let id = phrase_id_of(msg, store);
    let tag_ids = msg.tag_ids@;
    let written = store.effect(phrase_start(msg, now).1);
    let current = tags_answered(msg, answers);
    lemma_phrase_run_is_plan(store, msg, now, answers);
    assert forall|x: i32| written.associates(id, x) == store.associates(id, x) by {}
    assert forall|k: i32|
        store.phrase_tags.contains_key(k) && ((#[trigger] store.phrase_tags[k]).good_phrase_id
            != id || tag_ids.contains(
            store.phrase_tags[k].good_phrase_tag_id,
        )) implies after.phrase_tags.contains_key(k) && after.phrase_tags[k]
        == store.phrase_tags[k] by {
        lemma_phrase_plan_rows(written, id, current, tag_ids, now, k, k);
    }
    assert forall|k: i32|
        store.phrase_tags.contains_key(k) && (#[trigger] store.phrase_tags[k]).good_phrase_id == id
            && !tag_ids.contains(store.phrase_tags[k].good_phrase_tag_id) implies !(
    after.phrase_tags.contains_key(k) && after.phrase_tags[k] == store.phrase_tags[k]) by {
        lemma_phrase_plan_rows(written, id, current, tag_ids, now, k, k);
    }
    assert forall|k: i32| after.phrase_tags.contains_key(k) implies {
        ||| store.phrase_tags.contains_key(k) && (#[trigger] after.phrase_tags[k])
            == store.phrase_tags[k]
        ||| tag_ids.contains(after.phrase_tags[k].good_phrase_tag_id) && !store.associates(
            id,
            after.phrase_tags[k].good_phrase_tag_id,
        ) && after.phrase_tags[k] == (GoodPhraseAndTag {
            good_phrase_and_tag_id: k,
            created_at: now,
            modified_at: now,
            good_phrase_id: id,
            good_phrase_tag_id: after.phrase_tags[k].good_phrase_tag_id,
        })
    } by {
        lemma_phrase_plan_rows(written, id, current, tag_ids, now, k, k);
        assert(written.associates(id, after.phrase_tags[k].good_phrase_tag_id)
            == store.associates(id, after.phrase_tags[k].good_phrase_tag_id));
    }
    assert forall|k: i32, other: i32|
        after.phrase_tags.contains_key(k) && after.phrase_tags.contains_key(other) && k != other
            && (#[trigger] after.phrase_tags[k]).good_phrase_id == id && (
        #[trigger] after.phrase_tags[other]).good_phrase_id == id
            && after.phrase_tags[k].good_phrase_tag_id
            == after.phrase_tags[other].good_phrase_tag_id implies store.associates(
        id,
        after.phrase_tags[k].good_phrase_tag_id,
    ) by {
        lemma_phrase_plan_rows(written, id, current, tag_ids, now, k, other);
        assert(written.associates(id, after.phrase_tags[k].good_phrase_tag_id)
            == store.associates(id, after.phrase_tags[k].good_phrase_tag_id));
    }
    law_phrase_tags_match_submission(store, msg, now, answers);
    assert forall|t: i32| tag_ids.contains(t) && !(#[trigger] store.associates(id, t)) implies exists|
        k: i32,
    |
        after.phrase_tags.contains_key(k) && #[trigger] after.phrase_tags[k] == (GoodPhraseAndTag {
            good_phrase_and_tag_id: k,
            created_at: now,
            modified_at: now,
            good_phrase_id: id,
            good_phrase_tag_id: t,
        }) by {
        assert(tag_ids.to_set().contains(t));
        assert(after.tags_of(id).contains(t));
        assert(after.associates(id, t));
        let k = choose|k: i32|
            #![trigger after.phrase_tags[k]]
            after.phrase_tags.contains_key(k) && after.phrase_tags[k].good_phrase_id == id
                && after.phrase_tags[k].good_phrase_tag_id == t;
        lemma_phrase_plan_rows(written, id, current, tag_ids, now, k, k);
        if store.phrase_tags.contains_key(k) && after.phrase_tags[k] == store.phrase_tags[k] {
            assert(store.associates(id, t));
        }
    }
}

pub proof fn lemma_delete_url_rows_keep(store: Store, gone: Seq<i32>, k: i32)
    ensures
        ({
            let after = store.apply_all(Seq::new(gone.len(), |i: int| url_deletion(gone[i])));
            &&& after.person_urls.contains_key(k) <==> store.person_urls.contains_key(k)
                && !gone.contains(k)
            &&& after.person_urls.contains_key(k) ==> after.person_urls[k] == store.person_urls[k]
        }),
    decreases gone.len(),
{
    let stmts = Seq::new(gone.len(), |i: int| url_deletion(gone[i]));
    if gone.len() > 0 {
        let tail = gone.drop_first();
        assert(stmts.drop_first() =~= Seq::new(tail.len(), |i: int| url_deletion(tail[i])));
        assert(stmts[0] == url_deletion(gone[0]));
        lemma_delete_url_rows_keep(store.effect(stmts[0]), tail, k);
        if gone.contains(k) {
            let i = choose|i: int| 0 <= i < gone.len() && gone[i] == k;
            if i > 0 {
                assert(tail[i - 1] == k);
            }
        }
        if tail.contains(k) {
            let i = choose|i: int| 0 <= i < tail.len() && tail[i] == k;
            assert(gone[i + 1] == k);
        }
    }
}

/// A run of URL insertions changes no row that is there, and adds one row
/// for each named URL: a row of the person, made at the given time.
pub proof fn lemma_insert_urls_rows(
    store: Store,
    id: i32,
    fresh: Seq<String>,
    now: Timestamp,
    k: i32,
    other: i32,
)
    requires
        forall|i: int, j: int|
            0 <= i < j < fresh.len() ==> (#[trigger] fresh[i])@ != (#[trigger] fresh[j])@,
        store.accepts_all(Seq::new(fresh.len(), |i: int| url_insertion(id, fresh[i], now))),
    ensures
        ({
            let after = store.apply_all(
                Seq::new(fresh.len(), |i: int| url_insertion(id, fresh[i], now)),
            );
            &&& store.person_urls.contains_key(k) ==> after.person_urls.contains_key(k)
                && after.person_urls[k] == store.person_urls[k]
            &&& after.person_urls.contains_key(k) && !store.person_urls.contains_key(k) ==> {
                &&& lists_url(fresh, after.person_urls[k].url@)
                &&& after.person_urls[k].person_url_id == k
                &&& after.person_urls[k].person_id == id
                &&& after.person_urls[k].created_at == now
                &&& after.person_urls[k].modified_at == now
            }
            &&& after.person_urls.contains_key(k) && !store.person_urls.contains_key(k)
                && after.person_urls.contains_key(other) && !store.person_urls.contains_key(other)
                && k != other ==> after.person_urls[k].url@ != after.person_urls[other].url@
        }),
    decreases fresh.len(),
{
    let stmts = Seq::new(fresh.len(), |i: int| url_insertion(id, fresh[i], now));
    if fresh.len() > 0 {
        let tail = fresh.drop_first();
        assert(stmts.drop_first() =~= Seq::new(
            tail.len(),
            |i: int| url_insertion(id, tail[i], now),
        ));
        assert(stmts[0] == url_insertion(id, fresh[0], now));
        let mid = store.effect(stmts[0]);
        let key = unused_key(store.person_urls);
        assert(!store.person_urls.contains_key(key));
        assert forall|i: int, j: int| 0 <= i < j < tail.len() implies (#[trigger] tail[i])@ != (
        #[trigger] tail[j])@ by {
            assert(tail[i] == fresh[i + 1]);
            assert(tail[j] == fresh[j + 1]);
        }
        assert(!lists_url(tail, fresh[0]@)) by {
            if lists_url(tail, fresh[0]@) {
                let j = choose|j: int| 0 <= j < tail.len() && (#[trigger] tail[j])@ == fresh[0]@;
                assert(fresh[j + 1] == tail[j]);
            }
        }
        assert forall|u: Seq<char>| lists_url(tail, u) implies lists_url(fresh, u) by {
            let j = choose|j: int| 0 <= j < tail.len() && (#[trigger] tail[j])@ == u;
            assert(fresh[j + 1] == tail[j]);
        }
        assert(lists_url(fresh, fresh[0]@));
        lemma_insert_urls_rows(mid, id, tail, now, k, other);
        lemma_insert_urls_rows(mid, id, tail, now, other, k);
        lemma_insert_urls_rows(mid, id, tail, now, key, key);
    }
}

/// What the plan for the URLs of a person does to the rows: it leaves every
/// row of another person and every row of a submitted URL as it is, takes
/// the rows of the URLs that were not submitted away, and adds one row, made
/// at the given time, for each submitted URL that was not stored.
pub proof fn lemma_person_plan_rows(
    store: Store,
    id: i32,
    rows: Seq<(i32, String)>,
    urls: Seq<String>,
    now: Timestamp,
    k: i32,
    other: i32,
)
    requires
        lists_rows_of(store, id, rows),
        store.accepts_all(person_plan(id, rows, urls, now)),
    ensures
        ({
            let after = store.apply_all(person_plan(id, rows, urls, now));
            let kept = after.person_urls.contains_key(k) && store.person_urls.contains_key(k)
                && after.person_urls[k] == store.person_urls[k];
            let added = after.person_urls.contains_key(k) && lists_url(
                urls,
                after.person_urls[k].url@,
            ) && !store.has_url(id, after.person_urls[k].url@) && after.person_urls[k].person_id
                == id && after.person_urls[k].person_url_id == k && after.person_urls[k].created_at
                == now && after.person_urls[k].modified_at == now;
            &&& store.person_urls.contains_key(k) && (store.person_urls[k].person_id != id
                || lists_url(urls, store.person_urls[k].url@)) ==> kept
            &&& after.person_urls.contains_key(k) ==> kept || added
            &&& store.person_urls.contains_key(k) && store.person_urls[k].person_id == id
                && !lists_url(urls, store.person_urls[k].url@) ==> !kept
            &&& after.person_urls.contains_key(k) && after.person_urls.contains_key(other) && k
                != other && after.person_urls[k].person_id == id
                && after.person_urls[other].person_id == id && after.person_urls[k].url@
                == after.person_urls[other].url@ ==> store.has_url(id, after.person_urls[k].url@)
        }),
{
    let gone = stale_url_rows(rows, urls);
    let fresh = missing_urls(urls, rows);
    let deletions = Seq::new(gone.len(), |i: int| url_deletion(gone[i]));
    let insertions = Seq::new(fresh.len(), |i: int| url_insertion(id, fresh[i], now));
    lemma_apply_all_concat(store, deletions, insertions);
    let mid = store.apply_all(deletions);
    let after = mid.apply_all(insertions);
    lemma_missing_distinct(urls, rows);
    lemma_delete_url_rows_keep(store, gone, k);
    lemma_delete_url_rows_keep(store, gone, other);
    lemma_insert_urls_rows(mid, id, fresh, now, k, other);
    lemma_insert_urls_rows(mid, id, fresh, now, other, k);
    lemma_stale_contains(rows, urls, k);
    if is_stale(rows, urls, k) {
        let i = choose|i: int|
            0 <= i < rows.len() && (#[trigger] rows[i]).0 == k && !lists_url(urls, rows[i].1@);
        assert(store.holds_url_row(id, rows[i].0, rows[i].1@));
    }
    if store.person_urls.contains_key(k) && store.person_urls[k].person_id == id {
        let u = store.person_urls[k].url@;
        assert(store.holds_url_row(id, k, u));
        let i = choose|i: int| 0 <= i < rows.len() && (#[trigger] rows[i]).0 == k;
        assert(store.holds_url_row(id, rows[i].0, rows[i].1@));
        assert(store.has_url(id, u));
    }
    if store.person_urls.contains_key(other) && store.person_urls[other].person_id == id {
        assert(store.holds_url_row(id, other, store.person_urls[other].url@));
        assert(store.has_url(id, store.person_urls[other].url@));
    }
    if after.person_urls.contains_key(k) {
        let u = after.person_urls[k].url@;
        lemma_missing_lists(urls, rows, u);
        if store.has_url(id, u) {
            let held = choose|held: i32| #[trigger] store.holds_url_row(id, held, u);
            let i = choose|i: int| 0 <= i < rows.len() && (#[trigger] rows[i]).0 == held;
            assert(store.holds_url_row(id, rows[i].0, rows[i].1@));
            assert(stores_url(rows, u));
        }
    }
}

/// The URL rows that the database gave as stored in a run of a person
/// upsert.
pub open spec fn urls_answered(msg: Person, answers: Seq<Answer>) -> Seq<(i32, String)> {
    if msg.person_id is Some {
        answers[1]->PersonUrls_0@
    } else {
        answers[2]->PersonUrls_0@
    }
}

/// A committed run of a person upsert writes the person row and then carries
/// out the plan for the URL rows that the database gave as stored, which are
/// the stored ones.
pub proof fn lemma_person_run_is_plan(
    store: Store,
    msg: Person,
    now: Timestamp,
    answers: Seq<Answer>,
)
    requires
        run(person_start(msg, now).0, person_start(msg, now).1, store, answers) is Committed,
    ensures
        ({
            let after = run(
                person_start(msg, now).0,
                person_start(msg, now).1,
                store,
                answers,
            )->Committed_0;
            let id = person_id_of(msg, store);
            let written = store.effect(person_start(msg, now).1);
            let plan = person_plan(id, urls_answered(msg, answers), msg.url@, now);
            &&& written.person_urls == store.person_urls
            &&& lists_rows_of(written, id, urls_answered(msg, answers))
            &&& written.accepts_all(plan)
            &&& after == written.apply_all(plan)
        }),
{
    let start = person_start(msg, now);
    let id = person_id_of(msg, store);
    let urls = msg.url@;
    let written = store.effect(start.1);
    assert(answers[0] == Answer::Done);
    assert(store.answers(start.1, answers[0]));
    let select = Statement::SelectUrlsOfPerson { person_id: id };
    let stage = Stage::PersonUrls { id, urls, now };
    let rest = if msg.person_id is Some {
        answers.drop_first()
    } else {
        answers.drop_first().drop_first()
    };
    if msg.person_id is Some {
        assert(run(start.0, start.1, store, answers) == run(stage, select, written, rest));
        assert(rest[0] == answers[1]);
    } else {
        let waiting = Stage::PersonRowid { urls, now };
        assert(run(start.0, start.1, store, answers) == run(
            waiting,
            Statement::LastInsertRowid,
            written,
            answers.drop_first(),
        ));
        assert(answers.drop_first()[0] == Answer::Rowid(written.last_rowid));
        assert(written.effect(Statement::LastInsertRowid) == written);
        assert(run(waiting, Statement::LastInsertRowid, written, answers.drop_first()) == run(
            stage,
            select,
            written,
            rest,
        ));
        assert(rest[0] == answers[2]);
    }
    let answer = rest[0];
    assert(answer is PersonUrls);
    assert(written.answers(select, answer));
    let rows = answer->PersonUrls_0@;
    let plan = person_plan(id, rows, urls, now);
    assert(advance_spec(stage, answer) == follow(plan));
    assert(written.effect(select) == written);
    assert(lists_rows_of(written, id, rows));
    lemma_person_plan_writes(id, rows, urls, now);
    if plan.len() > 0 {
        let tail = plan.drop_first();
        assert forall|i: int| 0 <= i < tail.len() implies !(#[trigger] tail[i]).is_query() by {
            assert(tail[i] == plan[i + 1]);
        }
        assert(run(Stage::Applying { rest: tail }, plan[0], written, rest.drop_first())
            is Committed);
        lemma_run_applies(tail, plan[0], written, rest.drop_first());
        assert(seq![plan[0]] + tail =~= plan);
    }
}

/// The upsert of a person touches only what differs.  Every URL row of
/// another person, and every row of the person whose URL was submitted
/// again, stays under its id as it was.  The rows of the person whose URL
/// was not submitted are gone.  Every other row that is there afterwards is
/// a new row of the person, made at the time of the upsert, for a URL that
/// was submitted and not stored; and there is one such row for each such
/// URL, however often the URL was submitted.
pub proof fn law_person_upsert_touches_only_what_differs(
    store: Store,
    msg: Person,
    now: Timestamp,
    answers: Seq<Answer>,
)
    requires
        run(person_start(msg, now).0, person_start(msg, now).1, store, answers) is Committed,
    ensures
        ({
            let after = run(
                person_start(msg, now).0,
                person_start(msg, now).1,
                store,
                answers,
            )->Committed_0;
            let id = person_id_of(msg, store);
            let urls = msg.url@;
            &&& forall|k: i32|
                store.person_urls.contains_key(k) && ((#[trigger] store.person_urls[k]).person_id
                    != id || lists_url(urls, store.person_urls[k].url@))
                    ==> after.person_urls.contains_key(k) && after.person_urls[k]
                    == store.person_urls[k]
            &&& forall|k: i32|
                store.person_urls.contains_key(k) && (#[trigger] store.person_urls[k]).person_id
                    == id && !lists_url(urls, store.person_urls[k].url@) ==> !(
                after.person_urls.contains_key(k) && after.person_urls[k] == store.person_urls[k])
            &&& forall|k: i32|
                after.person_urls.contains_key(k) ==> {
                    ||| store.person_urls.contains_key(k) && (#[trigger] after.person_urls[k])
                        == store.person_urls[k]
                    ||| lists_url(urls, after.person_urls[k].url@) && !store.has_url(
                        id,
                        after.person_urls[k].url@,
                    ) && after.person_urls[k].person_id == id
                        && after.person_urls[k].person_url_id == k
                        && after.person_urls[k].created_at == now
                        && after.person_urls[k].modified_at == now
                }
            &&& forall|k: i32, other: i32|
                after.person_urls.contains_key(k) && after.person_urls.contains_key(other) && k
                    != other && (#[trigger] after.person_urls[k]).person_id == id && (
                #[trigger] after.person_urls[other]).person_id == id && after.person_urls[k].url@
                    == after.person_urls[other].url@ ==> store.has_url(
                    id,
                    after.person_urls[k].url@,
                )
            &&& forall|u: Seq<char>|
                lists_url(urls, u) && !(#[trigger] store.has_url(id, u)) ==> exists|k: i32|
                    after.person_urls.contains_key(k) && (#[trigger] after.person_urls[k]).url@
                        == u && after.person_urls[k].person_id == id
                        && after.person_urls[k].person_url_id == k
                        && after.person_urls[k].created_at == now
                        && after.person_urls[k].modified_at == now
        }),
{
    let after = run(person_start(msg, now).0, person_start(msg, now).1, store, answers)->Committed_0;
    let id = person_id_of(msg, store);
    let urls = msg.url@;
    let written = store.effect(person_start(msg, now).1);
    let rows = urls_answered(msg, answers);
    lemma_person_run_is_plan(store, msg, now, answers);
    assert forall|u: Seq<char>| written.has_url(id, u) == store.has_url(id, u) by {
        if written.has_url(id, u) {
            let k = choose|k: i32| #[trigger] written.holds_url_row(id, k, u);
            assert(store.holds_url_row(id, k, u));
        }
        if store.has_url(id, u) {
            let k = choose|k: i32| #[trigger] store.holds_url_row(id, k, u);
            assert(written.holds_url_row(id, k, u));
        }
    }
    assert forall|k: i32|
        store.person_urls.contains_key(k) && ((#[trigger] store.person_urls[k]).person_id != id
            || lists_url(urls, store.person_urls[k].url@)) implies after.person_urls.contains_key(k)
        && after.person_urls[k] == store.person_urls[k] by {
        lemma_person_plan_rows(written, id, rows, urls, now, k, k);
    }
    assert forall|k: i32|
        store.person_urls.contains_key(k) && (#[trigger] store.person_urls[k]).person_id == id
            && !lists_url(urls, store.person_urls[k].url@) implies !(
    after.person_urls.contains_key(k) && after.person_urls[k] == store.person_urls[k]) by {
        lemma_person_plan_rows(written, id, rows, urls, now, k, k);
    }
    assert forall|k: i32| after.person_urls.contains_key(k) implies {
        ||| store.person_urls.contains_key(k) && (#[trigger] after.person_urls[k])
            == store.person_urls[k]
        ||| lists_url(urls, after.person_urls[k].url@) && !store.has_url(
            id,
            after.person_urls[k].url@,
        ) && after.person_urls[k].person_id == id && after.person_urls[k].person_url_id == k
            && after.person_urls[k].created_at == now && after.person_urls[k].modified_at == now
    } by {
        lemma_person_plan_rows(written, id, rows, urls, now, k, k);
        assert(written.has_url(id, after.person_urls[k].url@) == store.has_url(
            id,
            after.person_urls[k].url@,
        ));
    }
    assert forall|k: i32, other: i32|
        after.person_urls.contains_key(k) && after.person_urls.contains_key(other) && k != other
            && (#[trigger] after.person_urls[k]).person_id == id && (
        #[trigger] after.person_urls[other]).person_id == id && after.person_urls[k].url@
            == after.person_urls[other].url@ implies store.has_url(
        id,
        after.person_urls[k].url@,
    ) by {
        lemma_person_plan_rows(written, id, rows, urls, now, k, other);
        assert(written.has_url(id, after.person_urls[k].url@) == store.has_url(
            id,
            after.person_urls[k].url@,
        ));
    }
    law_person_urls_match_submission(store, msg, now, answers);
    assert forall|u: Seq<char>| lists_url(urls, u) && !(#[trigger] store.has_url(id, u)) implies exists|
        k: i32,
    |
        after.person_urls.contains_key(k) && (#[trigger] after.person_urls[k]).url@ == u
            && after.person_urls[k].person_id == id && after.person_urls[k].person_url_id == k
            && after.person_urls[k].created_at == now && after.person_urls[k].modified_at == now by {
        assert(submitted_urls(urls).contains(u));
        assert(after.urls_of(id).contains(u));
        assert(after.has_url(id, u));
        let k = choose|k: i32| #[trigger] after.holds_url_row(id, k, u);
        lemma_person_plan_rows(written, id, rows, urls, now, k, k);
        if store.person_urls.contains_key(k) && after.person_urls[k] == store.person_urls[k] {
            assert(store.holds_url_row(id, k, u));
        }
    }
}

} // verus!
