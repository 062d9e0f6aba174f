use vstd::prelude::*;
use crate::text::push_char;

verus! {

/// Seconds between two background retry rounds.
pub const RETRY_INTERVAL_SECS: u64 = 10;

/// Some destination accepted the event.
pub open spec fn accepted_somewhere(sent: Seq<bool>) -> bool {
    sent.contains(true)
}

/// Whether any send of an event succeeded.
pub fn delivered(sent: &Vec<bool>) -> (res: bool)
    ensures
        res == accepted_somewhere(sent@),
        res <==> exists|k: int| 0 <= k < sent@.len() && sent@[k],
{
    let mut i: usize = 0;
    while i < sent.len()
        invariant
            i <= sent@.len(),
            forall|k: int| 0 <= k < i ==> !sent@[k],
        decreases sent@.len() - i,
    {
        if sent[i] {
            assert(sent@[i as int] == true);
            return true;
        }
        i = i + 1;
    }
    assert(!sent@.contains(true)) by {
        if sent@.contains(true) {
            let k: int = choose|k: int| 0 <= k < sent@.len() && sent@[k] == true;
            assert(!sent@[k]);
        }
    }
    false
}

/// The identifiers to delete after one more row: the row's identifier is
/// added when its event was readable and some destination accepted it.
pub open spec fn record_step(ids: Seq<i64>, db_id: i64, sent: Option<Seq<bool>>) -> Seq<i64> {
    match sent {
        Some(s) => if accepted_somewhere(s) { ids.push(db_id) } else { ids },
        None => ids,
    }
}

/// The identifiers to delete after a whole round over these rows, in order:
/// each row is its identifier and, when its event was readable, the outcome
/// of each send.
pub open spec fn round_ids(rows: Seq<(i64, Option<Seq<bool>>)>) -> Seq<i64>
    decreases rows.len(),
{
    if rows.len() == 0 {
        Seq::empty()
    } else {
        let last = rows.last();
        record_step(round_ids(rows.drop_last()), last.0, last.1)
    }
}

/// The placeholder list `?,?,…,?` with `n` question marks.
pub open spec fn placeholders(n: nat) -> Seq<char>
    decreases n,
{
    if n == 0 {
        Seq::empty()
    } else if n == 1 {
        seq!['?']
    } else {
        placeholders((n - 1) as nat) + seq![',', '?']
    }
}

/// The statement that deletes `n` pending events by identifier.
pub open spec fn delete_statement(n: nat) -> Seq<char> {
    "DELETE FROM pending_events WHERE id IN ("@ + placeholders(n) + seq![')']
}

/// A delete to run at the end of a round: the statement and the identifiers
/// bound to it, in order.
pub struct PendingDeletion {
    pub sql: String,
    pub ids: Vec<i64>,
}

/// The events delivered so far in one retry round.
pub struct RetryRound {
    delivered_ids: Vec<i64>,
}

impl View for RetryRound {
    type V = Seq<i64>;

    closed spec fn view(&self) -> Seq<i64> {
        self.delivered_ids@
    }
}

/// Builds the delete statement for `n` identifiers.
pub fn delete_sql(n: usize) -> (sql: String)
    requires
        n >= 1,
    ensures
        sql@ == delete_statement(n as nat),
{
    let mut sql = String::from_str("DELETE FROM pending_events WHERE id IN (");
    let ghost head = "DELETE FROM pending_events WHERE id IN ("@;
    push_char(&mut sql, '?');
    assert(sql@ =~= head + placeholders(1));
    let mut i: usize = 1;
    while i < n
        invariant
            1 <= i <= n,
            sql@ == head + placeholders(i as nat),
        decreases n - i,
    {
        push_char(&mut sql, ',');
        push_char(&mut sql, '?');
        assert(sql@ =~= head + placeholders((i + 1) as nat));
        i = i + 1;
    }
    push_char(&mut sql, ')');
    assert(sql@ =~= delete_statement(n as nat));
    sql
}

impl RetryRound {
    /// A round that has delivered nothing yet.
    pub fn new() -> (r: RetryRound)
        ensures
            r@ == Seq::<i64>::empty(),
    {
        RetryRound { delivered_ids: Vec::new() }
    }

    /// Notes the outcome for one pending row: `None` when its event could not
    /// be read back (it is skipped and stays pending), else whether each send
    /// succeeded.
    pub fn record(&mut self, db_id: i64, sent: Option<&Vec<bool>>)
        ensures
            final(self)@ == record_step(
                old(self)@,
                db_id,
                match sent {
                    Some(v) => Some(v@),
                    None => None,
                },
            ),
    {
        match sent {
            Some(v) => {
                if delivered(v) {
                    self.delivered_ids.push(db_id);
                }
            },
            None => {},
        }
    }

    /// Ends the round: the delete to run, or `None` when nothing was
    /// delivered.
    pub fn finish(self) -> (d: Option<PendingDeletion>)
        ensures
            d is None <==> self@.len() == 0,
            d matches Some(p) ==> p.ids@ == self@ && p.sql@ == delete_statement(self@.len()),
    {
        if self.delivered_ids.len() == 0 {
            return None;
        }
        let sql = delete_sql(self.delivered_ids.len());
        Some(PendingDeletion { sql, ids: self.delivered_ids })
    }
}

/// The sends of one readable pending event: it is offered to every enabled
/// destination, one after the other in the order they were read, and a
/// success does not stop the offers to the rest.
pub struct RowOffer {
    destinations: usize,
    sent: Vec<bool>,
}

impl View for RowOffer {
    type V = (nat, Seq<bool>);

    /// The number of destinations, and the outcome of each send made so far.
    closed spec fn view(&self) -> (nat, Seq<bool>) {
        (self.destinations as nat, self.sent@)
    }
}

impl RowOffer {
    /// An event about to be offered to `destinations` destinations.
    pub fn new(destinations: usize) -> (o: RowOffer)
        ensures
            o@ == (destinations as nat, Seq::<bool>::empty()),
    {
        RowOffer { destinations, sent: Vec::new() }
    }

    /// The index of the destination to send to next: each one in turn, and
    /// `None` once every destination has had its send.
    pub fn next_destination(&self) -> (next: Option<usize>)
        ensures
            self@.1.len() < self@.0 ==> next == Some(self@.1.len() as usize),
            self@.1.len() >= self@.0 ==> next is None,
    {
        if self.sent.len() < self.destinations {
            Some(self.sent.len())
        } else {
            None
        }
    }

    /// Notes the outcome of the send to the destination `next_destination`
    /// named.
    pub fn record_send(&mut self, delivered: bool)
        requires
            old(self)@.1.len() < old(self)@.0,
        ensures
            final(self)@ == (old(self)@.0, old(self)@.1.push(delivered)),
    {
        self.sent.push(delivered);
    }

    /// The outcome of every send, in destination order, once all were made.
    pub fn outcomes(self) -> (sent: Vec<bool>)
        requires
            self@.1.len() == self@.0,
        ensures
            sent@ == self@.1,
            sent@.len() == self@.0,
    {
        self.sent
    }
}

impl RetryRound {
    /// Starts one pending row: an event that cannot be read back is skipped
    /// (no send, and it stays pending), so only a readable one goes on to
    /// its destinations.
    pub fn begin_row(&mut self, db_id: i64, readable: bool) -> (deliver: bool)
        ensures
            deliver == readable,
            !readable ==> final(self)@ == record_step(old(self)@, db_id, None),
            readable ==> final(self)@ == old(self)@,
    {
        if !readable {
            self.record(db_id, None);
        }
        readable
    }
}

/// An event counts as delivered exactly when at least one of its sends
/// succeeded, whatever the other sends gave.
pub proof fn law_delivered_iff_some_send_succeeded(sent: Seq<bool>)
    ensures
        accepted_somewhere(sent) <==> exists|k: int| 0 <= k < sent.len() && sent[k],
{
    if exists|k: int| 0 <= k < sent.len() && sent[k] {
        let k: int = choose|k: int| 0 <= k < sent.len() && sent[k];
        assert(sent[k] == true);
    }
}

/// One more row changes the round's deletions only by that row: its
/// identifier is appended exactly when its event was readable and some send
/// succeeded, and nothing changes otherwise.
pub proof fn law_round_grows_by_the_delivered_row(rows: Seq<(i64, Option<Seq<bool>>)>, db_id: i64, sent: Option<Seq<bool>>)
    ensures
        (sent matches Some(s) && exists|k: int| 0 <= k < s.len() && s[k])
            ==> round_ids(rows.push((db_id, sent))) == round_ids(rows).push(db_id),
        !(sent matches Some(s) && exists|k: int| 0 <= k < s.len() && s[k])
            ==> round_ids(rows.push((db_id, sent))) == round_ids(rows),
{
    let all = rows.push((db_id, sent));
    assert(all.drop_last() =~= rows);
    assert(all.last() == (db_id, sent));
    if let Some(s) = sent {
        law_delivered_iff_some_send_succeeded(s);
    }
}

/// A round never deletes more events than it saw rows.
pub proof fn law_round_deletes_at_most_one_per_row(rows: Seq<(i64, Option<Seq<bool>>)>)
    ensures
        round_ids(rows).len() <= rows.len(),
    decreases rows.len(),
{
    if rows.len() > 0 {
        law_round_deletes_at_most_one_per_row(rows.drop_last());
    }
}

/// After a round, a pending event is deleted exactly when it was readable
/// and at least one destination accepted it; the identifiers come in the
/// order of the rows.
pub proof fn law_round_deletes_exactly_the_delivered(rows: Seq<(i64, Option<Seq<bool>>)>, id: i64)
    ensures
        round_ids(rows).contains(id) <==> exists|i: int|
            0 <= i < rows.len() && (#[trigger] rows[i]).0 == id && (rows[i].1 matches Some(s) && accepted_somewhere(s)),
    decreases rows.len(),
{
    if rows.len() > 0 {
        let prefix = rows.drop_last();
        law_round_deletes_exactly_the_delivered(prefix, id);
        let last = rows.last();
        let prev = round_ids(prefix);
        if round_ids(rows).contains(id) {
            if !prev.contains(id) {
                let k: int = choose|k: int| 0 <= k < round_ids(rows).len() && round_ids(rows)[k] == id;
                assert(k == prev.len());
                assert(rows[rows.len() - 1] == last);
            } else {
                let i: int = choose|i: int|
                    0 <= i < prefix.len() && (#[trigger] prefix[i]).0 == id && (prefix[i].1 matches Some(s) && accepted_somewhere(s));
                assert(rows[i] == prefix[i]);
            }
        }
        if exists|i: int| 0 <= i < rows.len() && (#[trigger] rows[i]).0 == id && (rows[i].1 matches Some(s) && accepted_somewhere(s)) {
            let i: int = choose|i: int| 0 <= i < rows.len() && (#[trigger] rows[i]).0 == id && (rows[i].1 matches Some(s) && accepted_somewhere(s));
            if i < rows.len() - 1 {
                assert(prefix[i] == rows[i]);
                let k: int = choose|k: int| 0 <= k < prev.len() && prev[k] == id;
                assert(round_ids(rows)[k] == id);
            } else {
                assert(round_ids(rows) == prev.push(id));
                assert(round_ids(rows)[prev.len() as int] == id);
            }
        }
    }
}

/// The delete statement has one placeholder per identifier it deletes.
pub proof fn law_one_placeholder_per_identifier(n: nat)
    ensures
        placeholders(n).filter(|c: char| c == '?').len() == n,
    decreases n,
{
    reveal(Seq::filter);
    if n == 0 {
        assert(placeholders(n).filter(|c: char| c == '?') =~= Seq::<char>::empty());
    } else if n == 1 {
        assert(placeholders(1) =~= seq!['?']);
        assert(seq!['?'].drop_last() =~= Seq::<char>::empty());
        assert(Seq::<char>::empty().filter(|c: char| c == '?') =~= Seq::<char>::empty());
    } else {
        law_one_placeholder_per_identifier((n - 1) as nat);
        let p = placeholders((n - 1) as nat);
        Seq::filter_distributes_over_add(p, seq![',', '?'], |c: char| c == '?');
        let tail = seq![',', '?'];
        assert(tail.drop_last() =~= seq![',']);
        assert(seq![','].drop_last() =~= Seq::<char>::empty());
        assert(Seq::<char>::empty().filter(|c: char| c == '?') =~= Seq::<char>::empty());
        assert(seq![','].filter(|c: char| c == '?') =~= Seq::<char>::empty());
        assert(tail.filter(|c: char| c == '?').len() == 1);
    }
}

} // verus!
