//! Choices made over the database catalog: which tables are instrumented
//! and which triggers the teardown removes.

use vstd::prelude::*;
use crate::ident::{is_valid_identifier, valid_identifier, is_ident_char};
use crate::sql::{
    Action, action_word, trigger_name, trigger_prefix, log_table_name, drop_trigger_sql,
    drop_log_table_sql, drop_trigger_statement, drop_log_table_statement,
};
use crate::text::{starts_with, has_prefix, same_text};

verus! {

/// A table of the catalog that belongs to the user: neither one of the
/// engine's own (`sqlite_...`) nor the log table.
pub open spec fn is_user_table(name: Seq<char>) -> bool {
    !starts_with(name, "sqlite_"@) && name != log_table_name()
}

/// The user tables among `names`, in their order.
pub open spec fn user_tables_of(names: Seq<Seq<char>>) -> Seq<Seq<char>>
    decreases names.len(),
{
    if names.len() == 0 {
        Seq::empty()
    } else {
        let prev = user_tables_of(names.drop_last());
        if is_user_table(names.last()) { prev.push(names.last()) } else { prev }
    }
}

/// A trigger that the capture installed: its name carries the capture
/// prefix and follows the identifier grammar.
pub open spec fn is_capture_trigger(name: Seq<char>) -> bool {
    starts_with(name, trigger_prefix()) && valid_identifier(name)
}

/// The statements that remove the capture triggers among `names`, in their order.
pub open spec fn trigger_drops(names: Seq<Seq<char>>) -> Seq<Seq<char>>
    decreases names.len(),
{
    if names.len() == 0 {
        Seq::empty()
    } else {
        let prev = trigger_drops(names.drop_last());
        if is_capture_trigger(names.last()) {
            prev.push(drop_trigger_sql(names.last()))
        } else {
            prev
        }
    }
}

/// The teardown: first the log table goes, then every capture trigger.
pub open spec fn cleanup_sql(trigger_names: Seq<Seq<char>>) -> Seq<Seq<char>> {
    seq![drop_log_table_sql()] + trigger_drops(trigger_names)
}

/// Tells whether the catalog table `name` is a user table.
pub fn is_user_table_name(name: &str) -> (r: bool)
    ensures
        r == is_user_table(name@),
{
    !has_prefix(name, "sqlite_") && !same_text(name, "change_stream_log")
}

/// Keeps the user tables of the catalog's table names `names`, in order.
pub fn get_user_tables(names: &Vec<String>) -> (r: Vec<String>)
    ensures
        r.deep_view() == user_tables_of(names.deep_view()),
{
    let ghost all = names.deep_view();
    let mut r: Vec<String> = Vec::new();
    let mut i: usize = 0;
    while i < names.len()
        invariant
            all == names.deep_view(),
            i <= names.len(),
            r.deep_view() == user_tables_of(all.subrange(0, i as int)),
        decreases names.len() - i,
    {
        let ghost before = all.subrange(0, i as int);
        let ghost after = all.subrange(0, i + 1);
        assert(after.drop_last() =~= before);
        assert(after.last() == names[i as int]@);
        if is_user_table_name(names[i].as_str()) {
            let ghost old_r = r.deep_view();
            r.push(names[i].clone());
            assert(r.deep_view() =~= old_r.push(names[i as int]@));
        }
        i = i + 1;
    }
    assert(all.subrange(0, names.len() as int) =~= all);
    r
}

/// Tells whether the trigger `name` was installed by the capture.
pub fn is_capture_trigger_name(name: &str) -> (r: bool)
    ensures
        r == is_capture_trigger(name@),
{
    has_prefix(name, "change_stream_") && is_valid_identifier(name)
}

/// Builds the teardown from the names of all triggers in the catalog: the
/// log table is dropped, then each capture trigger; other triggers stay.
pub fn cleanup(trigger_names: &Vec<String>) -> (r: Vec<String>)
    ensures
        r.deep_view() == cleanup_sql(trigger_names.deep_view()),
{
    let ghost all = trigger_names.deep_view();
    let mut r: Vec<String> = Vec::new();
    r.push(drop_log_table_statement());
    let mut i: usize = 0;
    while i < trigger_names.len()
        invariant
            all == trigger_names.deep_view(),
            i <= trigger_names.len(),
            r.deep_view() == cleanup_sql(all.subrange(0, i as int)),
        decreases trigger_names.len() - i,
    {
        let ghost before = all.subrange(0, i as int);
        let ghost after = all.subrange(0, i + 1);
        assert(after.drop_last() =~= before);
        assert(after.last() == trigger_names[i as int]@);
        if is_capture_trigger_name(trigger_names[i].as_str()) {
            let ghost old_r = r.deep_view();
            let stmt = drop_trigger_statement(trigger_names[i].as_str());
            r.push(stmt);
            assert(r.deep_view() =~= old_r.push(drop_trigger_sql(trigger_names[i as int]@)));
            assert(cleanup_sql(after) =~= cleanup_sql(before).push(drop_trigger_sql(after.last())));
        }
        i = i + 1;
    }
    assert(all.subrange(0, trigger_names.len() as int) =~= all);
    r
}

/// The trigger that the capture installs for any action on a valid table
/// is recognised as a capture trigger.
pub proof fn lemma_installed_trigger_is_capture(table: Seq<char>, action: Action)
    requires
        valid_identifier(table),
    ensures
        is_capture_trigger(trigger_name(table, action)),
{
    reveal_strlit("change_stream_");
    reveal_strlit("_");
    reveal_strlit("insert");
    reveal_strlit("update");
    reveal_strlit("delete");
    let n = trigger_name(table, action);
    assert(n.subrange(0, 14) =~= trigger_prefix());
    assert forall|i: int| 0 <= i < n.len() implies #[trigger] is_ident_char(n[i]) by {
        if 14 <= i < 14 + table.len() {
            assert(n[i] == table[i - 14]);
        }
    }
}

/// Cleanup completeness: once the catalog lists a trigger that the capture
/// installed on a valid table, the teardown drops it.
pub proof fn lemma_cleanup_drops_installed(names: Seq<Seq<char>>, table: Seq<char>, action: Action)
    requires
        valid_identifier(table),
        names.contains(trigger_name(table, action)),
    ensures
        cleanup_sql(names).contains(drop_trigger_sql(trigger_name(table, action))),
{
    lemma_installed_trigger_is_capture(table, action);
    lemma_drops_capture(names, trigger_name(table, action));
    let d = drop_trigger_sql(trigger_name(table, action));
    let k = choose|k: int| 0 <= k < trigger_drops(names).len() && trigger_drops(names)[k] == d;
    assert(cleanup_sql(names)[k + 1] == d);
}

/// Every capture trigger among `names` has its drop statement in the teardown.
pub proof fn lemma_drops_capture(names: Seq<Seq<char>>, name: Seq<char>)
    requires
        is_capture_trigger(name),
        names.contains(name),
    ensures
        trigger_drops(names).contains(drop_trigger_sql(name)),
    decreases names.len(),
{
    if names.last() == name {
        assert(trigger_drops(names).last() == drop_trigger_sql(name));
        assert(trigger_drops(names)[trigger_drops(names).len() - 1] == drop_trigger_sql(name));
    } else {
        let k = choose|k: int| 0 <= k < names.len() && names[k] == name;
        assert(names.drop_last()[k] == name);
        lemma_drops_capture(names.drop_last(), name);
        let prev = trigger_drops(names.drop_last());
        let j = choose|j: int| 0 <= j < prev.len() && prev[j] == drop_trigger_sql(name);
        assert(trigger_drops(names)[j] == drop_trigger_sql(name));
    }
}

/// Distinct tables or actions give distinct trigger names, so installation
/// never makes two triggers share a name.
pub proof fn lemma_trigger_names_distinct(t1: Seq<char>, a1: Action, t2: Seq<char>, a2: Action)
    requires
        trigger_name(t1, a1) == trigger_name(t2, a2),
    ensures
        t1 == t2,
        a1 == a2,
{
    reveal_strlit("change_stream_");
    reveal_strlit("_");
    reveal_strlit("insert");
    reveal_strlit("update");
    reveal_strlit("delete");
    let n = trigger_name(t1, a1);
    let m = trigger_name(t2, a2);
    assert(n.len() == 21 + t1.len());
    assert(m.len() == 21 + t2.len());
    assert forall|i: int| 0 <= i < t1.len() implies t1[i] == t2[i] by {
        assert(n[14 + i] == t1[i]);
        assert(m[14 + i] == t2[i]);
    }
    assert(t1 =~= t2);
    let k: int = 15 + t1.len() as int;
    assert(n[k] == action_word(a1)[0]);
    assert(m[k] == action_word(a2)[0]);
}

} // verus!
