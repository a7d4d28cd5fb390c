use vstd::prelude::*;
use crate::chars::{chars_of, trim, trimmed};
use crate::json::{items_model, Json, JsonModel, ObjectBuilder};
use crate::text::str_equal;

verus! {

/// How many URLs the history keeps.
pub const HISTORY_LIMIT: usize = 20;

/// One entry of the history: the URL and when it was used.
pub open spec fn entry_model(url: Seq<char>, timestamp: Seq<char>) -> JsonModel {
    JsonModel::Object(
        Seq::empty().push(("url"@, JsonModel::Text(url))).push(
            ("timestamp"@, JsonModel::Text(timestamp)),
        ),
    )
}

/// Whether an entry is kept when `url` is used again: every entry but
/// those that name this very URL.
pub open spec fn is_other(entry: JsonModel, url: Seq<char>) -> bool {
    entry.text_field("url"@) != Some(url)
}

/// The history after `url` was used at `timestamp`: the new entry first,
/// then the entries of other URLs in their order, and no more than
/// `HISTORY_LIMIT` entries in all.
pub open spec fn remembered(history: Seq<JsonModel>, url: Seq<char>, timestamp: Seq<char>) -> Seq<
    JsonModel,
> {
    let all = Seq::empty().push(entry_model(url, timestamp)) + history.filter(
        |e: JsonModel| is_other(e, url),
    );
    if all.len() > HISTORY_LIMIT {
        all.take(HISTORY_LIMIT as int)
    } else {
        all
    }
}

/// The history after `url` was used at `timestamp`.
pub fn remember_url(history: &Vec<Json>, url: &str, timestamp: &str) -> (out: Vec<Json>)
    ensures
        items_model(out@) == remembered(items_model(history@), url@, timestamp@),
        out@.len() <= HISTORY_LIMIT,
{
    let ghost old_entries = items_model(history@);
    let ghost keep = |e: JsonModel| is_other(e, url@);
    let entry = ObjectBuilder::new().with("url", Json::text(url)).with(
        "timestamp",
        Json::text(timestamp),
    ).build();
    let ghost first = Seq::empty().push(entry@);
    let mut out: Vec<Json> = Vec::new();
    out.push(entry);
    let mut i: usize = 0;
    proof {
        reveal(Seq::filter);
        assert(old_entries.take(0) =~= Seq::<JsonModel>::empty());
        assert(items_model(out@) =~= first + old_entries.take(0).filter(keep));
    }
    while i < history.len() && out.len() < HISTORY_LIMIT
        invariant
            0 <= i <= history.len(),
            old_entries == items_model(history@),
            keep == (|e: JsonModel| is_other(e, url@)),
            first == Seq::empty().push(entry_model(url@, timestamp@)),
            items_model(out@) == first + old_entries.take(i as int).filter(keep),
            out@.len() <= HISTORY_LIMIT,
        decreases history.len() - i,
    {
        let ghost before = items_model(out@);
        let other = match history[i].get("url") {
            Some(v) => match v.as_str() {
                Some(u) => !str_equal(u, url),
                None => true,
            },
            None => true,
        };
        if other {
            out.push(history[i].duplicate());
        }
        proof {
            reveal(Seq::filter);
            assert(old_entries.take(i + 1).drop_last() =~= old_entries.take(i as int));
            assert(old_entries.take(i + 1).last() == history@[i as int]@);
            assert(other == keep(history@[i as int]@));
            if other {
                assert(items_model(out@) =~= before.push(history@[i as int]@));
            }
            assert(items_model(out@) =~= first + old_entries.take(i + 1).filter(keep));
        }
        i += 1;
    }
    proof {
        let kept = old_entries.filter(keep);
        let all = first + kept;
        if i == history.len() {
            assert(old_entries.take(i as int) =~= old_entries);
        } else {
            // The limit is reached: what is left of the history cannot
            // come before what was kept already.
            let seen = old_entries.take(i as int).filter(keep);
            assert(old_entries =~= old_entries.take(i as int) + old_entries.skip(i as int));
            Seq::filter_distributes_over_add(
                old_entries.take(i as int),
                old_entries.skip(i as int),
                keep,
            );
            assert(kept == seen + old_entries.skip(i as int).filter(keep));
            assert(all.take(HISTORY_LIMIT as int) =~= first + seen);
        }
    }
    out
}

/// The URL that was used last: that of the first entry of the history,
/// where there is an entry and it names a URL.
pub open spec fn last_used(history: Seq<JsonModel>) -> Option<Seq<char>> {
    if history.len() == 0 {
        None
    } else {
        history[0].text_field("url"@)
    }
}

/// The URL that was used last.
pub fn last_used_url(history: &Vec<Json>) -> (out: Option<String>)
    ensures
        match out {
            Some(u) => last_used(items_model(history@)) == Some(u@),
            None => last_used(items_model(history@)) is None,
        },
{
    if history.len() == 0 {
        return None;
    }
    match history[0].get("url") {
        Some(v) => match v.as_str() {
            Some(u) => Some(String::from_str(u)),
            None => None,
        },
        None => None,
    }
}

/// The URL to keep as the current one when the user has entered `url`:
/// none where the entry is empty or white space only.
pub fn current_url(url: String) -> (out: Option<String>)
    ensures
        match out {
            Some(u) => u == url && trimmed(url@).len() > 0,
            None => trimmed(url@).len() == 0,
        },
{
    if trim(&chars_of(url.as_str())).len() == 0 {
        None
    } else {
        Some(url)
    }
}

} // verus!
