use vstd::prelude::*;

use crate::manager::{command_of, dispatch_outcome, unknown_command_text};
use crate::model::{DatabaseCommand, ValueModel};
use crate::parser::{envelope, index_marker, request_outcome, ParseErrorModel, ParseModel, parse_error_text};
use crate::response::{page_for, status_text, Page};
use crate::text::{contains_seq, split_on};

verus! {

pub type Store = Map<Seq<char>, ValueModel>;

proof fn lemma_command_names()
    ensures
        command_of("GET"@) == Some(DatabaseCommand::GET),
        command_of("SET"@) == Some(DatabaseCommand::SET),
        command_of("UPDATE"@) == Some(DatabaseCommand::UPDATE),
        command_of("DELETE"@) == Some(DatabaseCommand::DELETE),
{
    reveal_strlit("GET");
    reveal_strlit("SET");
    reveal_strlit("UPDATE");
    reveal_strlit("DELETE");
    assert("SET"@[0] != "GET"@[0]);
    assert("UPDATE"@.len() != "GET"@.len() && "UPDATE"@.len() != "SET"@.len());
    assert("DELETE"@[0] != "UPDATE"@[0]);
}

/// A SET of `v` under `k`, followed by a GET of `k`, gives back `v`.
pub proof fn law_set_then_get(m: Store, k: Seq<char>, v: ValueModel, get_value: Option<ValueModel>)
    ensures
        dispatch_outcome(
            dispatch_outcome(m, ParseModel::Parsed("SET"@, k, Some(v))).1,
            ParseModel::Parsed("GET"@, k, get_value),
        ).0.value == Some(v),
{
    lemma_command_names();
}

/// An UPDATE of `v` under `k`, followed by a GET of `k`, gives back `v`,
/// whether or not `k` was present before.
pub proof fn law_update_then_get(m: Store, k: Seq<char>, v: ValueModel, get_value: Option<ValueModel>)
    ensures
        dispatch_outcome(
            dispatch_outcome(m, ParseModel::Parsed("UPDATE"@, k, Some(v))).1,
            ParseModel::Parsed("GET"@, k, get_value),
        ).0.value == Some(v),
{
    lemma_command_names();
}

/// A DELETE of an absent key gives back no value and leaves the store as it was.
pub proof fn law_delete_absent(m: Store, k: Seq<char>, v: Option<ValueModel>)
    requires
        !m.contains_key(k),
    ensures
        dispatch_outcome(m, ParseModel::Parsed("DELETE"@, k, v)).0.value is None,
        dispatch_outcome(m, ParseModel::Parsed("DELETE"@, k, v)).1 == m,
{
    lemma_command_names();
    assert(m.remove(k) =~= m);
}

/// A DELETE of a present key gives back the value it held, and a GET of the
/// key after it gives back no value.
pub proof fn law_delete_present(
    m: Store,
    k: Seq<char>,
    v: Option<ValueModel>,
    get_value: Option<ValueModel>,
)
    requires
        m.contains_key(k),
    ensures
        dispatch_outcome(m, ParseModel::Parsed("DELETE"@, k, v)).0.value == Some(m[k]),
        dispatch_outcome(
            dispatch_outcome(m, ParseModel::Parsed("DELETE"@, k, v)).1,
            ParseModel::Parsed("GET"@, k, get_value),
        ).0.value is None,
{
    lemma_command_names();
}

/// A request whose body is empty, and which is no index request, fails with
/// the empty-body error, is answered with a bad request that says
/// "Empty body!", and leaves the store as it was.
pub proof fn law_empty_body(m: Store, req: Seq<char>)
    requires
        envelope(req) matches Some((h, b)) && b.len() == 0 && !contains_seq(
            split_on(h, '\n')[0],
            index_marker(),
        ),
    ensures
        request_outcome(req) == ParseModel::Error(ParseErrorModel::EmptyBody),
        dispatch_outcome(m, request_outcome(req)).0.error == Some("Empty body!"@),
        page_for(dispatch_outcome(m, request_outcome(req)).0) == Page::BadRequest,
        status_text(page_for(dispatch_outcome(m, request_outcome(req)).0))
            == "HTTP/1.1 400 BAD REQUEST"@,
        dispatch_outcome(m, request_outcome(req)).1 == m,
{
    assert(parse_error_text(ParseErrorModel::EmptyBody) == "Empty body!"@);
}

/// A command text that names no command is answered with a bad request that
/// says "Command not found", and leaves the store as it was.
pub proof fn law_unknown_command(m: Store, c: Seq<char>, k: Seq<char>, v: Option<ValueModel>)
    requires
        command_of(c) is None,
    ensures
        dispatch_outcome(m, ParseModel::Parsed(c, k, v)).0.error == Some("Command not found"@),
        page_for(dispatch_outcome(m, ParseModel::Parsed(c, k, v)).0) == Page::BadRequest,
        dispatch_outcome(m, ParseModel::Parsed(c, k, v)).1 == m,
{
    assert(unknown_command_text() == "Command not found"@);
}

/// A request whose first header line holds `GET /` is answered with the index
/// page and status 200, whatever its body, and leaves the store as it was.
pub proof fn law_index_request(m: Store, req: Seq<char>)
    requires
        envelope(req) matches Some((h, b)) && contains_seq(split_on(h, '\n')[0], index_marker()),
    ensures
        request_outcome(req) == ParseModel::Skip,
        page_for(dispatch_outcome(m, request_outcome(req)).0) == Page::Index,
        status_text(page_for(dispatch_outcome(m, request_outcome(req)).0)) == "HTTP/1.1 200 OK"@,
        dispatch_outcome(m, request_outcome(req)).1 == m,
{
}

/// The store after a SET of `vals[i]` under `keys[i]` for each `i` in turn.
pub open spec fn after_sets(m: Store, keys: Seq<Seq<char>>, vals: Seq<ValueModel>) -> Store
    decreases keys.len(),
{
    if keys.len() == 0 || vals.len() == 0 {
        m
    } else {
        dispatch_outcome(
            after_sets(m, keys.drop_last(), vals.drop_last()),
            ParseModel::Parsed("SET"@, keys.last(), Some(vals.last())),
        ).1
    }
}

proof fn lemma_after_sets(m: Store, keys: Seq<Seq<char>>, vals: Seq<ValueModel>)
    requires
        keys.len() == vals.len(),
        keys.no_duplicates(),
    ensures
        forall|i: int|
            0 <= i < keys.len() ==> #[trigger] after_sets(m, keys, vals).contains_key(keys[i])
                && after_sets(m, keys, vals)[keys[i]] == vals[i],
    decreases keys.len(),
{
    lemma_command_names();
    if keys.len() > 0 {
        let n = keys.len() - 1;
        lemma_after_sets(m, keys.drop_last(), vals.drop_last());
        let prev = after_sets(m, keys.drop_last(), vals.drop_last());
        assert(after_sets(m, keys, vals) == prev.insert(keys[n], vals[n]));
        assert forall|i: int| 0 <= i < keys.len() implies #[trigger] after_sets(
            m,
            keys,
            vals,
        ).contains_key(keys[i]) && after_sets(m, keys, vals)[keys[i]] == vals[i] by {
            if i < n {
                assert(keys.drop_last()[i] == keys[i]);
                assert(vals.drop_last()[i] == vals[i]);
                assert(keys[i] != keys[n]);
                assert(prev.contains_key(keys.drop_last()[i]));
            }
        }
    }
}

/// Writes on distinct keys do not interfere: once each client's SET has been
/// carried out, in whatever order, a GET by any of them gives back the value
/// it wrote, and the GETs leave the store as it is.
pub proof fn law_distinct_writes(
    m: Store,
    keys: Seq<Seq<char>>,
    vals: Seq<ValueModel>,
    i: int,
    get_value: Option<ValueModel>,
)
    requires
        keys.len() == vals.len(),
        keys.no_duplicates(),
        0 <= i < keys.len(),
    ensures
        dispatch_outcome(
            after_sets(m, keys, vals),
            ParseModel::Parsed("GET"@, keys[i], get_value),
        ).0.value == Some(vals[i]),
        dispatch_outcome(
            after_sets(m, keys, vals),
            ParseModel::Parsed("GET"@, keys[i], get_value),
        ).1 == after_sets(m, keys, vals),
{
    lemma_command_names();
    lemma_after_sets(m, keys, vals);
}

} // verus!
