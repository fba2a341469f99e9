use vstd::prelude::*;

verus! {

/// The column names joined with `", "`, in catalog-declared order.
pub open spec fn joined_columns(cols: Seq<String>) -> Seq<char>
    decreases cols.len(),
{
    if cols.len() == 0 {
        Seq::empty()
    } else if cols.len() == 1 {
        cols[0]@
    } else {
        joined_columns(cols.drop_last()) + seq![',', ' '] + cols.last()@
    }
}

/// The statement that switches row-level security on for the table.
pub open spec fn enable_rls_text(t: Seq<char>) -> Seq<char> {
    "alter table "@ + t + " enable row level security;"@
}

/// The statement that removes the action's policy if it exists, so that
/// reapplying the whole sequence never fails on a pre-existing policy.
pub open spec fn drop_policy_text(t: Seq<char>, a: Seq<char>) -> Seq<char> {
    "drop policy if exists oso_"@ + a + "_policy on "@ + t + ";"@
}

/// The predicate clause keyword for an action: row candidates of an insert
/// are checked on the way in, every other action filters visible rows.
pub open spec fn guard_text(a: Seq<char>) -> Seq<char> {
    if a == "insert"@ {
        "with check"@
    } else {
        "using"@
    }
}

/// The statement that installs the action's policy. Its predicate delegates
/// to the decision entry point, handing it the session's authenticated
/// subject, the literal action name, and the candidate row rebuilt from the
/// embedded column list as a typed row reference.
pub open spec fn create_policy_text(t: Seq<char>, cols: Seq<String>, a: Seq<char>) -> Seq<char> {
    "create policy oso_"@ + a + "_policy on "@ + t + " for "@ + a + " "@ + guard_text(a)
        + " (oso_is_allowed(current_user::text, '"@ + a + "', row("@ + joined_columns(cols)
        + ")::"@ + t + "));"@
}

/// The action name at position `k` of the fixed action order.
pub open spec fn action_text(k: int) -> Seq<char> {
    if k == 0 {
        "insert"@
    } else if k == 1 {
        "select"@
    } else if k == 2 {
        "update"@
    } else {
        "delete"@
    }
}

/// The full statement sequence wiring a table into row-level security: one
/// enable statement, then a drop and a create of one policy per action.
pub open spec fn policy_sql(t: Seq<char>, cols: Seq<String>) -> Seq<Seq<char>> {
    seq![
        enable_rls_text(t),
        drop_policy_text(t, action_text(0)),
        drop_policy_text(t, action_text(1)),
        drop_policy_text(t, action_text(2)),
        drop_policy_text(t, action_text(3)),
        create_policy_text(t, cols, action_text(0)),
        create_policy_text(t, cols, action_text(1)),
        create_policy_text(t, cols, action_text(2)),
        create_policy_text(t, cols, action_text(3)),
    ]
}

fn join_columns(cols: &Vec<String>) -> (r: String)
    ensures
        r@ == joined_columns(cols@),
{
    let mut s = String::new();
    let mut i: usize = 0;
    while i < cols.len()
        invariant
            i <= cols@.len(),
            s@ == joined_columns(cols@.take(i as int)),
        decreases cols@.len() - i,
    {
        if i > 0 {
            s.append(", ");
        }
        s.append(cols[i].as_str());
        proof {
            reveal_strlit(", ");
            assert(", "@ =~= seq![',', ' ']);
            assert(cols@.take(i + 1 as int).drop_last() =~= cols@.take(i as int));
            assert(cols@.take(i + 1 as int).last() == cols@[i as int]);
            if i == 0 {
                assert(s@ =~= joined_columns(cols@.take(1int)));
            }
        }
        i = i + 1;
    }
    proof {
        assert(cols@.take(cols@.len() as int) =~= cols@);
    }
    s
}

fn enable_rls(table: &str) -> (r: String)
    ensures
        r@ == enable_rls_text(table@),
{
    let mut s = String::from_str("alter table ");
    s.append(table);
    s.append(" enable row level security;");
    s
}

fn drop_policy(table: &str, action: &str) -> (r: String)
    ensures
        r@ == drop_policy_text(table@, action@),
{
    let mut s = String::from_str("drop policy if exists oso_");
    s.append(action);
    s.append("_policy on ");
    s.append(table);
    s.append(";");
    s
}

fn create_policy(table: &str, cols: &Vec<String>, action: &str, with_check: bool) -> (r: String)
    requires
        with_check == (action@ == "insert"@),
    ensures
        r@ == create_policy_text(table@, cols@, action@),
{
    let guard: &str = if with_check {
        "with check"
    } else {
        "using"
    };
    proof {
        assert(guard@ == guard_text(action@));
    }
    let mut s = String::from_str("create policy oso_");
    s.append(action);
    s.append("_policy on ");
    s.append(table);
    s.append(" for ");
    s.append(action);
    s.append(" ");
    s.append(guard);
    s.append(" (oso_is_allowed(current_user::text, '");
    s.append(action);
    s.append("', row(");
    let joined = join_columns(cols);
    s.append(joined.as_str());
    s.append(")::");
    s.append(table);
    s.append("));");
    s
}

/// Generates the ordered SQL statement sequence that wires a table into
/// row-level security: enable row-level security, drop each action's policy
/// if it exists, then create one policy per action whose predicate delegates
/// to the decision entry point. The output is a pure function of the table
/// name and its column names, so repeated generation yields the identical
/// sequence, and it is safe to execute repeatedly on the same table.
pub fn generate_policy_sql(table: &str, cols: &Vec<String>) -> (r: Vec<String>)
    ensures
        r@.len() == policy_sql(table@, cols@).len(),
        forall|i: int| 0 <= i < r@.len() ==> r@[i]@ == policy_sql(table@, cols@)[i],
{
    proof {
        reveal_strlit("insert");
        reveal_strlit("select");
        reveal_strlit("update");
        reveal_strlit("delete");
        assert("select"@[0] != "insert"@[0]);
        assert("update"@[0] != "insert"@[0]);
        assert("delete"@[0] != "insert"@[0]);
    }
    let mut out: Vec<String> = Vec::new();
    out.push(enable_rls(table));
    out.push(drop_policy(table, "insert"));
    out.push(drop_policy(table, "select"));
    out.push(drop_policy(table, "update"));
    out.push(drop_policy(table, "delete"));
    out.push(create_policy(table, cols, "insert", true));
    out.push(create_policy(table, cols, "select", false));
    out.push(create_policy(table, cols, "update", false));
    out.push(create_policy(table, cols, "delete", false));
    out
}

/// Law: the generated sequence is structured so that executing it twice
/// leaves the database in the same end state. The sequence is a pure
/// function of its inputs; enabling row-level security is idempotent; and
/// every create-policy statement is preceded, within the same sequence, by
/// the drop of exactly that policy, so a policy left by an earlier run never
/// makes a later run fail or diverge.
pub proof fn lemma_policy_sql_idempotent_structure(t: Seq<char>, cols: Seq<String>)
    ensures
        policy_sql(t, cols).len() == 9,
        policy_sql(t, cols)[0] == enable_rls_text(t),
        forall|k: int|
            0 <= k < 4 ==> policy_sql(t, cols)[1 + k] == drop_policy_text(t, action_text(k)),
        forall|k: int|
            0 <= k < 4 ==> policy_sql(t, cols)[5 + k] == create_policy_text(
                t,
                cols,
                action_text(k),
            ),
{
}

} // verus!
