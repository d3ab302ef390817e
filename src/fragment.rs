use vstd::prelude::*;

use crate::decimal::{append_int, dec_int, dec_nat, lemma_dec_nat_digits};

verus! {

/// A value bound to a positional placeholder of a statement.
#[derive(Clone, Copy, Debug, PartialEq, Eq)]
pub enum SqlParam {
    Int32(i32),
    Int64(i64),
}

/// Statement text with `$1, $2, ...` placeholders and the values bound to them,
/// in placeholder order.
#[derive(Debug)]
pub struct QueryFragment {
    pub sql: String,
    pub params: Vec<SqlParam>,
    /// Whether an ordering clause has been appended; nothing may follow it but a window.
    pub ordered: bool,
    /// Whether a window has been appended after the ordering clause; nothing may follow it.
    pub windowed: bool,
}

/// The number of placeholder markers (`$`) in `s`.
pub open spec fn placeholder_count(s: Seq<char>) -> nat
    decreases s.len(),
{
    if s.len() == 0 {
        0
    } else {
        placeholder_count(s.drop_last()) + if s.last() == '$' {
            1nat
        } else {
            0nat
        }
    }
}

/// Text that holds no placeholder marker.
pub open spec fn marker_free(s: Seq<char>) -> bool {
    !s.contains('$')
}

/// The placeholder for the `n`-th bound value.
pub open spec fn placeholder(n: nat) -> Seq<char> {
    seq!['$'] + dec_nat(n)
}

/// The text appended by a predicate on the next placeholder of a fragment
/// that already binds `bound` values.
pub open spec fn predicate_text(clause: Seq<char>, bound: nat) -> Seq<char> {
    " AND "@ + clause + placeholder(bound + 1)
}

/// The text appended by an ordering clause.
pub open spec fn order_text(column: Seq<char>) -> Seq<char> {
    " ORDER BY "@ + column
}

/// The text that wraps a statement into the query counting its rows.
pub open spec fn count_prefix() -> Seq<char> {
    "SELECT COUNT(*) FROM ("@
}

pub open spec fn count_suffix() -> Seq<char> {
    ") AS subquery"@
}

/// The statement counting the rows of `sql`.
pub open spec fn count_sql(sql: Seq<char>) -> Seq<char> {
    count_prefix() + sql + count_suffix()
}

/// The window clause appended to a fragment that binds `bound` values:
/// the limit and the offset take the next two placeholders.
pub open spec fn window_text(bound: nat) -> Seq<char> {
    " LIMIT "@ + placeholder(bound + 1) + " OFFSET "@ + placeholder(bound + 2)
}

/// Text that ends with an ordering clause on a column.
pub open spec fn ends_with_order(s: Seq<char>) -> bool {
    exists|prefix: Seq<char>, column: Seq<char>|
        marker_free(column) && #[trigger] (prefix + order_text(column)) == s
}

/// Text that ends with an ordering clause and then the window clause for a
/// fragment that bound `bound` values before it.
pub open spec fn ends_with_window(s: Seq<char>, bound: nat) -> bool {
    exists|ordered_text: Seq<char>|
        #[trigger] ends_with_order(ordered_text) && ordered_text + window_text(bound) == s
}

pub proof fn lemma_placeholder_count_concat(a: Seq<char>, b: Seq<char>)
    ensures
        placeholder_count(a + b) == placeholder_count(a) + placeholder_count(b),
    decreases b.len(),
{
    if b.len() == 0 {
        assert(a + b =~= a);
    } else {
        lemma_placeholder_count_concat(a, b.drop_last());
        assert((a + b).drop_last() =~= a + b.drop_last());
        assert((a + b).last() == b.last());
    }
}

pub proof fn lemma_marker_free_count(s: Seq<char>)
    requires
        marker_free(s),
    ensures
        placeholder_count(s) == 0,
    decreases s.len(),
{
    if s.len() > 0 {
        assert(marker_free(s.drop_last())) by {
            if s.drop_last().contains('$') {
                let k = choose|k: int| 0 <= k < s.drop_last().len() && s.drop_last()[k] == '$';
                assert(s[k] == '$');
            }
        }
        lemma_marker_free_count(s.drop_last());
        assert(s[s.len() - 1] != '$');
    }
}

pub proof fn lemma_placeholder_count_one(n: nat)
    ensures
        placeholder_count(placeholder(n)) == 1,
{
    lemma_dec_nat_digits(n);
    assert(marker_free(dec_nat(n))) by {
        if dec_nat(n).contains('$') {
            let k = choose|k: int| 0 <= k < dec_nat(n).len() && dec_nat(n)[k] == '$';
            assert('0' <= dec_nat(n)[k] <= '9');
        }
    }
    lemma_marker_free_count(dec_nat(n));
    lemma_placeholder_count_concat(seq!['$'], dec_nat(n));
    assert(seq!['$'].drop_last() =~= Seq::<char>::empty());
    assert(placeholder_count(seq!['$']) == 1) by {
        reveal_with_fuel(placeholder_count, 2);
    }
}

fn copy_params(v: &Vec<SqlParam>) -> (r: Vec<SqlParam>)
    ensures
        r@ == v@,
{
    let mut r: Vec<SqlParam> = Vec::new();
    for i in 0..v.len()
        invariant
            r@ == v@.subrange(0, i as int),
    {
        r.push(v[i]);
        assert(r@ =~= v@.subrange(0, i + 1));
    }
    assert(r@ =~= v@);
    r
}

fn append_placeholder(out: &mut String, n: usize)
    ensures
        final(out)@ == old(out)@ + placeholder(n as nat),
{
    proof {
        reveal_strlit("$");
    }
    out.append("$");
    append_int(out, n as i128);
    assert(old(out)@ + seq!['$'] + dec_int(n as int) =~= old(out)@ + placeholder(n as nat));
}

impl QueryFragment {
    /// Every placeholder of the text has its bound value.
    pub open spec fn wf(&self) -> bool {
        &&& placeholder_count(self.sql@) == self.params@.len()
        &&& self.windowed ==> self.ordered && self.params@.len() >= 2 && ends_with_window(
            self.sql@,
            (self.params@.len() - 2) as nat,
        )
        &&& (self.ordered && !self.windowed) ==> ends_with_order(self.sql@)
    }

    /// A fragment that starts as `base` and binds nothing.
    pub fn new(base: &str) -> (r: QueryFragment)
        requires
            marker_free(base@),
        ensures
            r.wf(),
            r.sql@ == base@,
            r.params@.len() == 0,
            !r.ordered,
            !r.windowed,
    {
        proof {
            lemma_marker_free_count(base@);
        }
        QueryFragment {
            sql: String::from_str(base),
            params: Vec::new(),
            ordered: false,
            windowed: false,
        }
    }

    /// A scan of every row of `table`, anchored by an always-true condition so
    /// that each predicate can be joined with `AND`.
    pub fn scan(table: &str) -> (r: QueryFragment)
        requires
            marker_free(table@),
        ensures
            r.wf(),
            r.sql@ == "SELECT * FROM "@ + table@ + " WHERE 1=1"@,
            r.params@.len() == 0,
            !r.ordered,
            !r.windowed,
    {
        proof {
            reveal_strlit("SELECT * FROM ");
            reveal_strlit(" WHERE 1=1");
            lemma_marker_free_count("SELECT * FROM "@);
            lemma_marker_free_count(" WHERE 1=1"@);
            lemma_marker_free_count(table@);
            lemma_placeholder_count_concat("SELECT * FROM "@, table@);
            lemma_placeholder_count_concat("SELECT * FROM "@ + table@, " WHERE 1=1"@);
        }
        let mut sql = String::from_str("SELECT * FROM ");
        sql.append(table);
        sql.append(" WHERE 1=1");
        QueryFragment { sql, params: Vec::new(), ordered: false, windowed: false }
    }

    /// Joins `clause` with `AND` and binds `value` to the placeholder that
    /// follows it.
    pub fn append_predicate(&mut self, clause: &str, value: SqlParam)
        requires
            old(self).wf(),
            !old(self).ordered,
            marker_free(clause@),
            old(self).params@.len() < usize::MAX,
        ensures
            final(self).wf(),
            final(self).sql@ == old(self).sql@ + predicate_text(clause@, old(self).params@.len()),
            final(self).params@ == old(self).params@.push(value),
            !final(self).ordered,
            !final(self).windowed,
    {
        let ghost before = self.sql@;
        proof {
            reveal_strlit(" AND ");
            lemma_marker_free_count(" AND "@);
            lemma_marker_free_count(clause@);
            lemma_placeholder_count_one((self.params@.len() + 1) as nat);
            lemma_placeholder_count_concat(before, " AND "@);
            lemma_placeholder_count_concat(before + " AND "@, clause@);
            lemma_placeholder_count_concat(
                before + " AND "@ + clause@,
                placeholder((self.params@.len() + 1) as nat),
            );
        }
        self.sql.append(" AND ");
        self.sql.append(clause);
        let n = self.params.len() + 1;
        append_placeholder(&mut self.sql, n);
        self.params.push(value);
        assert(self.sql@ =~= before + predicate_text(clause@, old(self).params@.len()));
    }

    /// Appends the ordering clause on `column`; it comes once, after every predicate.
    pub fn append_order(&mut self, column: &str)
        requires
            old(self).wf(),
            !old(self).ordered,
            marker_free(column@),
        ensures
            final(self).wf(),
            final(self).sql@ == old(self).sql@ + order_text(column@),
            final(self).params@ == old(self).params@,
            final(self).ordered,
            !final(self).windowed,
    {
        let ghost before = self.sql@;
        proof {
            reveal_strlit(" ORDER BY ");
            lemma_marker_free_count(" ORDER BY "@);
            lemma_marker_free_count(column@);
            lemma_placeholder_count_concat(before, " ORDER BY "@);
            lemma_placeholder_count_concat(before + " ORDER BY "@, column@);
        }
        self.sql.append(" ORDER BY ");
        self.sql.append(column);
        self.ordered = true;
        assert(self.sql@ =~= before + order_text(column@));
        assert(ends_with_order(self.sql@)) by {
            assert(before + order_text(column@) == self.sql@);
        }
    }

    /// A fragment with the same text, bound values and ordering.
    pub fn duplicate(&self) -> (r: QueryFragment)
        ensures
            r.sql@ == self.sql@,
            r.params@ == self.params@,
            r.ordered == self.ordered,
            r.windowed == self.windowed,
    {
        QueryFragment {
            sql: String::from_str(self.sql.as_str()),
            params: copy_params(&self.params),
            ordered: self.ordered,
            windowed: self.windowed,
        }
    }

    /// The query counting the rows of this fragment, with the same bound values;
    /// its own text ends with no ordering clause.
    pub fn count_query(&self) -> (r: QueryFragment)
        requires
            self.wf(),
        ensures
            r.wf(),
            r.sql@ == count_sql(self.sql@),
            r.params@ == self.params@,
            !r.ordered,
            !r.windowed,
    {
        proof {
            reveal_strlit("SELECT COUNT(*) FROM (");
            reveal_strlit(") AS subquery");
            lemma_marker_free_count(count_prefix());
            lemma_marker_free_count(count_suffix());
            lemma_placeholder_count_concat(count_prefix(), self.sql@);
            lemma_placeholder_count_concat(count_prefix() + self.sql@, count_suffix());
        }
        let mut sql = String::from_str("SELECT COUNT(*) FROM (");
        sql.append(self.sql.as_str());
        sql.append(") AS subquery");
        QueryFragment { sql, params: copy_params(&self.params), ordered: false, windowed: false }
    }

    /// This fragment restricted to `limit` rows after skipping `offset`, both
    /// bound; only an ordered fragment gives the same rows on every call.
    pub fn windowed(&self, limit: i64, offset: i64) -> (r: QueryFragment)
        requires
            self.wf(),
            self.ordered,
            !self.windowed,
            self.params@.len() + 2 <= usize::MAX,
        ensures
            r.wf(),
            r.sql@ == self.sql@ + window_text(self.params@.len()),
            r.params@ == self.params@.push(SqlParam::Int64(limit)).push(SqlParam::Int64(offset)),
            r.ordered,
            r.windowed,
    {
        let n = self.params.len();
        let ghost bound = n as nat;
        proof {
            reveal_strlit(" LIMIT ");
            reveal_strlit(" OFFSET ");
            lemma_marker_free_count(" LIMIT "@);
            lemma_marker_free_count(" OFFSET "@);
            lemma_placeholder_count_one(bound + 1);
            lemma_placeholder_count_one(bound + 2);
            lemma_placeholder_count_concat(self.sql@, " LIMIT "@);
            lemma_placeholder_count_concat(self.sql@ + " LIMIT "@, placeholder(bound + 1));
            lemma_placeholder_count_concat(
                self.sql@ + " LIMIT "@ + placeholder(bound + 1),
                " OFFSET "@,
            );
            lemma_placeholder_count_concat(
                self.sql@ + " LIMIT "@ + placeholder(bound + 1) + " OFFSET "@,
                placeholder(bound + 2),
            );
        }
        let mut sql = String::from_str(self.sql.as_str());
        sql.append(" LIMIT ");
        append_placeholder(&mut sql, n + 1);
        sql.append(" OFFSET ");
        append_placeholder(&mut sql, n + 2);
        let mut params = copy_params(&self.params);
        params.push(SqlParam::Int64(limit));
        params.push(SqlParam::Int64(offset));
        assert(sql@ =~= self.sql@ + window_text(bound));
        assert(ends_with_window(sql@, bound));
        QueryFragment { sql, params, ordered: true, windowed: true }
    }
}

} // verus!
