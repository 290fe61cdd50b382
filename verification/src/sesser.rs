//! Sesser: named tables of generated values (session tokens, API keys), each value
//! valid until its expiry instant.
use rand::distributions::{Alphanumeric, DistString};
use tokio::time::Instant;
use vstd::prelude::*;

use crate::assoc::Assoc;
use crate::clock::{elapsed_nanos, instant_now};
use crate::crypto::{hex_encode, sha256};

verus! {

/// An ASCII letter or digit.
pub open spec fn is_alphanumeric(c: char) -> bool {
    ||| 48 <= c as int <= 57
    ||| 65 <= c as int <= 90
    ||| 97 <= c as int <= 122
}

/// What a value is generated from: 32 ASCII letters and digits.
pub open spec fn is_seed(s: Seq<char>) -> bool {
    &&& s.len() == 32
    &&& forall|i: int| 0 <= i < 32 ==> is_alphanumeric(#[trigger] s[i])
}

/// The value generated from a text: the lower-case hex SHA-256 of its UTF-8 bytes.
pub open spec fn token_of(data: Seq<char>) -> Seq<char> {
    crate::crypto::lower_hex(crate::crypto::sha256_digest(vstd::utf8::encode_utf8(data)))
}

/// The expiry, in nanoseconds of the store's clock, of a value made at `now`
/// that lasts `secs` seconds.
pub open spec fn expiry(now: u128, secs: u64) -> int {
    now + secs * 1_000_000_000
}

/// A reading of the store's clock: nanoseconds, at most what a `Duration` holds.
pub open spec fn is_clock_reading(t: int) -> bool {
    0 <= t <= crate::clock::max_duration_nanos()
}

/// The tables of a store: table name to (value to expiry).
pub type Tables = Map<Seq<char>, Map<Seq<char>, u128>>;

/// `value` is in `table` and has not expired at `now`.
pub open spec fn is_live(m: Tables, table: Seq<char>, value: Seq<char>, now: int) -> bool {
    &&& m.dom().contains(table)
    &&& m[table].dom().contains(value)
    &&& m[table][value] > now
}

/// `m` with `value` set to expire at `expires` in `table`.
pub open spec fn with_value(m: Tables, table: Seq<char>, value: Seq<char>, expires: u128) -> Tables {
    m.insert(table, m[table].insert(value, expires))
}

/// `m` without `value` in `table` (unchanged when there is no such table).
pub open spec fn without_value(m: Tables, table: Seq<char>, value: Seq<char>) -> Tables {
    if m.dom().contains(table) {
        m.insert(table, m[table].remove(value))
    } else {
        m
    }
}

/// `m` with every value that expired before `now` dropped.
pub open spec fn unexpired(m: Tables, now: int) -> Tables {
    m.map_values(|t: Map<Seq<char>, u128>| crate::assoc::at_least(t, now))
}

/// The values of a table, or none when there is no such table.
pub open spec fn values_of(m: Tables, table: Seq<char>) -> Set<Seq<char>> {
    if m.dom().contains(table) {
        m[table].dom()
    } else {
        Set::empty()
    }
}

/// `len` random ASCII letters and digits from `rand`'s `Alphanumeric`
/// distribution (`DistString::sample_string` on the thread-local generator).
///
/// Trusted: the text has exactly `len` characters, each one of `A-Z`, `a-z`,
/// `0-9`; which ones is left to chance.
#[verifier::external_body]
pub(crate) fn random_string(len: usize) -> (s: String)
    ensures
        s@.len() == len,
        forall|i: int| 0 <= i < len ==> is_alphanumeric(#[trigger] s@[i]),
{
    Alphanumeric.sample_string(&mut rand::thread_rng(), len)
}

/// A fresh seed: 32 random letters and digits.
pub(crate) fn random_seed() -> (s: String)
    ensures
        is_seed(s@),
{
    random_string(32)
}

/// The lower-case hex SHA-256 of the UTF-8 bytes of `data`.
pub(crate) fn sha2_hash(data: &str) -> (h: String)
    ensures
        h@ == token_of(data@),
        h@.len() == 64,
{
    let digest = sha256(data.as_bytes());
    proof {
        crate::crypto::lemma_lower_hex_len(digest@);
    }
    hex_encode(digest.as_slice())
}

/// A store of tables of generated values with expiry instants.
#[derive(Debug)]
pub struct Sesser {
    tables: Assoc<Assoc<u128>>,
    epoch: Instant,
    latest: u128,
}

impl Clone for Sesser {
    /// A copy of the tables, counting expiries from the same instant.
    fn clone(&self) -> (s: Self)
        ensures
            s@ == self@,
            s.latest_reading() == self.latest_reading(),
    {
        proof {
            use_type_invariant(self);
        }
        let s = Sesser { tables: self.tables.clone(), epoch: self.epoch, latest: self.latest };
        assert forall|k: Seq<char>| #[trigger] s.tables@.dom().contains(k) implies s.tables@[k]@ == self.tables@[k]@ by {
            assert(cloned::<Assoc<u128>>(self.tables@[k], s.tables@[k]));
            assert(s.tables@[k]@.dom() == self.tables@[k]@.dom());
            assert(s.tables@[k]@ =~= self.tables@[k]@);
        }
        assert(s@ =~= self@);
        s
    }
}

impl View for Sesser {
    type V = Tables;

    closed spec fn view(&self) -> Tables {
        self.tables@.map_values(|t: Assoc<u128>| t@)
    }
}

impl Sesser {
    /// The latest clock reading is one a clock can give.
    #[verifier::type_invariant]
    spec fn latest_is_reading(self) -> bool {
        self.latest <= crate::clock::max_duration_nanos()
    }

    /// The latest reading of the store's clock that the store has acted on
    /// (when it generated a value or dropped expired ones); 0 at first.
    pub closed spec fn latest_reading(self) -> u128 {
        self.latest
    }

    pub fn new() -> (s: Self)
        ensures
            s@ == Map::<Seq<char>, Map<Seq<char>, u128>>::empty(),
            s.latest_reading() == 0,
    {
        let s = Sesser { tables: Assoc::new(), epoch: instant_now(), latest: 0 };
        assert(s@ =~= Map::<Seq<char>, Map<Seq<char>, u128>>::empty());
        s
    }

    /// Nanoseconds since this store was made, by the monotonic clock, and never
    /// earlier than a reading the store has acted on.
    fn now(&self) -> (t: u128)
        ensures
            t <= crate::clock::max_duration_nanos(),
            t >= self.latest_reading(),
    {
        proof {
            use_type_invariant(self);
        }
        let elapsed = elapsed_nanos(&self.epoch);
        if elapsed >= self.latest {
            elapsed
        } else {
            self.latest
        }
    }

    /// Makes `table_name` an empty table, emptying it if it exists.
    pub fn create_table(&mut self, table_name: &str)
        ensures
            final(self)@ == old(self)@.insert(table_name@, Map::<Seq<char>, u128>::empty()),
            final(self).latest_reading() == old(self).latest_reading(),
    {
        proof {
            use_type_invariant(&*self);
        }
        let mut tables: Assoc<Assoc<u128>> = Assoc::new();
        std::mem::swap(&mut tables, &mut self.tables);
        let t: Assoc<u128> = Assoc::new();
        tables.insert(table_name.to_owned(), t);
        self.tables = tables;
        assert(self@ =~= old(self)@.insert(table_name@, Map::<Seq<char>, u128>::empty()));
    }

    pub fn check_table_exists(&self, table_name: &str) -> (r: bool)
        ensures
            r == self@.dom().contains(table_name@),
    {
        self.tables.contains_key(&table_name.to_owned())
    }

    pub fn drop_table(&mut self, table_name: &str)
        ensures
            final(self)@ == old(self)@.remove(table_name@),
            final(self).latest_reading() == old(self).latest_reading(),
    {
        proof {
            use_type_invariant(&*self);
        }
        let mut tables: Assoc<Assoc<u128>> = Assoc::new();
        std::mem::swap(&mut tables, &mut self.tables);
        let _ = tables.remove(&table_name.to_owned());
        self.tables = tables;
        assert(self@ =~= old(self)@.remove(table_name@));
    }

    /// Adds to `table_name` the value generated from `seed`, to expire `expiration`
    /// seconds after `now`, and returns it; returns an empty text and changes
    /// nothing when there is no such table.
    pub fn generate_value_at(&mut self, table_name: &str, expiration: u64, seed: &str, now: u128) -> (value: String)
        requires
            expiry(now, expiration) <= u128::MAX,
        ensures
            old(self)@.dom().contains(table_name@) ==> {
                &&& value@ == token_of(seed@)
                &&& value@.len() == 64
                &&& final(self)@ == with_value(old(self)@, table_name@, value@, expiry(now, expiration) as u128)
            },
            !old(self)@.dom().contains(table_name@) ==> value@ == Seq::<char>::empty() && final(self)@ == old(self)@,
            final(self).latest_reading() == old(self).latest_reading(),
    {
        proof {
            use_type_invariant(&*self);
        }
        let name = table_name.to_owned();
        let mut tables: Assoc<Assoc<u128>> = Assoc::new();
        std::mem::swap(&mut tables, &mut self.tables);
        match tables.remove(&name) {
            Some(mut table) => {
                let value = sha2_hash(seed);
                let expires: u128 = now + (expiration as u128) * 1_000_000_000;
                table.insert(value.clone(), expires);
                tables.insert(name, table);
                self.tables = tables;
                assert(self@ =~= with_value(old(self)@, table_name@, value@, expires));
                value
            },
            None => {
                self.tables = tables;
                assert(self@ =~= old(self)@);
                String::new()
            },
        }
    }

    /// Adds to `table_name` a value generated from 32 random letters and digits,
    /// to expire `expiration` seconds from now, and returns it; returns an empty
    /// text and changes nothing when there is no such table. "Now" is a reading
    /// of the clock no earlier than any the store acted on before, and becomes
    /// the latest one; so the value is live from then until its expiry.
    pub fn generate_value(&mut self, table_name: &str, expiration: u64) -> (value: String)
        ensures
            old(self)@.dom().contains(table_name@) ==> {
                &&& value@.len() == 64
                &&& exists|seed: Seq<char>, now: u128| #![trigger token_of(seed), expiry(now, expiration)] {
                    &&& is_clock_reading(now as int)
                    &&& now >= old(self).latest_reading()
                    &&& final(self).latest_reading() == now
                    &&& is_seed(seed)
                    &&& value@ == token_of(seed)
                    &&& final(self)@ == with_value(old(self)@, table_name@, value@, expiry(now, expiration) as u128)
                }
                &&& final(self).latest_reading() >= old(self).latest_reading()
                &&& forall|t: int| final(self).latest_reading() <= t < final(self).latest_reading() + expiration * 1_000_000_000
                    ==> #[trigger] is_live(final(self)@, table_name@, value@, t)
            },
            !old(self)@.dom().contains(table_name@) ==> value@ == Seq::<char>::empty() && final(self)@ == old(self)@
                && final(self).latest_reading() == old(self).latest_reading(),
    {
        proof {
            use_type_invariant(&*self);
        }
        if self.check_table_exists(table_name) {
            let seed = random_seed();
            let now = self.now();
            let value = self.generate_value_at(table_name, expiration, seed.as_str(), now);
            self.latest = now;
            assert(is_clock_reading(now as int) && now >= old(self).latest_reading() && self.latest_reading() == now
                && is_seed(seed@) && value@ == token_of(seed@) && self@ == with_value(
                old(self)@,
                table_name@,
                value@,
                expiry(now, expiration) as u128,
            ));
            value
        } else {
            String::new()
        }
    }

    /// The values of `table_name`, each once, in no particular order; none when
    /// there is no such table.
    pub fn list_values(&self, table_name: &str) -> (values: Vec<String>)
        ensures
            values@.map_values(|s: String| s@).no_duplicates(),
            values@.map_values(|s: String| s@).to_set() == values_of(self@, table_name@),
    {
        match self.tables.get(&table_name.to_owned()) {
            Some(table) => {
                table.keys()
            },
            None => {
                let values: Vec<String> = Vec::new();
                assert(values@.map_values(|s: String| s@).to_set() =~= Set::<Seq<char>>::empty());
                values
            },
        }
    }

    /// Whether `key_val` is in `table_name` and expires after `now`.
    pub fn check_value_exists_at(&self, table_name: &str, key_val: &str, now: u128) -> (r: bool)
        ensures
            r == is_live(self@, table_name@, key_val@, now as int),
    {
        match self.tables.get(&table_name.to_owned()) {
            Some(table) => match table.get(&key_val.to_owned()) {
                Some(expires) => *expires > now,
                None => false,
            },
            None => false,
        }
    }

    /// Whether `key_val` is in `table_name` and has not expired yet. The check is
    /// made at a reading of the clock no earlier than any the store acted on, so
    /// a value whose expiry is not after such a reading is never reported live.
    pub fn check_value_exists(&self, table_name: &str, key_val: &str) -> (r: bool)
        ensures
            exists|now: u128| is_clock_reading(now as int) && now >= self.latest_reading()
                && r == is_live(self@, table_name@, key_val@, now as int),
            r ==> self@.dom().contains(table_name@) && self@[table_name@].dom().contains(key_val@),
            r ==> self@[table_name@][key_val@] > self.latest_reading(),
    {
        let now = self.now();
        let r = self.check_value_exists_at(table_name, key_val, now);
        assert(is_clock_reading(now as int) && now >= self.latest_reading()
            && r == is_live(self@, table_name@, key_val@, now as int));
        r
    }

    /// Removes `key_val` from `table_name`, if both are there.
    pub fn remove_value(&mut self, table_name: &str, key_val: &str)
        ensures
            final(self)@ == without_value(old(self)@, table_name@, key_val@),
            final(self).latest_reading() == old(self).latest_reading(),
    {
        proof {
            use_type_invariant(&*self);
        }
        let name = table_name.to_owned();
        let mut tables: Assoc<Assoc<u128>> = Assoc::new();
        std::mem::swap(&mut tables, &mut self.tables);
        match tables.remove(&name) {
            Some(mut table) => {
                let _ = table.remove(&key_val.to_owned());
                tables.insert(name, table);
                self.tables = tables;
                assert(self@ =~= without_value(old(self)@, table_name@, key_val@));
            },
            None => {
                self.tables = tables;
                assert(self@ =~= old(self)@);
            },
        }
    }

    /// Drops from every table the values that expired before `now`.
    pub fn filter_expired_at(&mut self, now: u128)
        ensures
            final(self)@ == unexpired(old(self)@, now as int),
            final(self).latest_reading() == old(self).latest_reading(),
    {
        proof {
            use_type_invariant(&*self);
        }
        let mut tables: Assoc<Assoc<u128>> = Assoc::new();
        std::mem::swap(&mut tables, &mut self.tables);
        tables.retain_all_at_least(now);
        self.tables = tables;
        assert(self@ =~= unexpired(old(self)@, now as int));
    }

    /// Drops from every table the values that have expired, as of a reading of
    /// the clock no earlier than any the store acted on before, which becomes
    /// the latest one.
    pub fn filter_expired(&mut self)
        ensures
            exists|now: u128| is_clock_reading(now as int) && now >= old(self).latest_reading()
                && final(self).latest_reading() == now && final(self)@ == unexpired(old(self)@, now as int),
    {
        proof {
            use_type_invariant(&*self);
        }
        let now = self.now();
        self.filter_expired_at(now);
        self.latest = now;
        assert(is_clock_reading(now as int) && now >= old(self).latest_reading() && self.latest_reading() == now
            && self@ == unexpired(old(self)@, now as int));
    }
}

/// Law: a value that `generate_value` made at reading `made` to last `secs`
/// seconds is reported live by a check at any later reading `now` (every check
/// reads the clock no earlier than the store's latest reading, which is `made`
/// right after generating) exactly while `now` is before `made + secs` seconds;
/// so with `secs > 0` a check made at once finds it live.
pub proof fn lemma_check_after_generate(m: Tables, table: Seq<char>, value: Seq<char>, made: u128, secs: u64, now: int)
    requires
        m.dom().contains(table),
        expiry(made, secs) <= u128::MAX,
        made <= now,
    ensures
        is_live(with_value(m, table, value, expiry(made, secs) as u128), table, value, now) <==> now < expiry(made, secs),
        secs > 0 && now == made ==> is_live(with_value(m, table, value, expiry(made, secs) as u128), table, value, now),
{
}

/// Law: a check made at a reading no earlier than `latest` never reports live
/// a value whose expiry is not after `latest`; so once the store has acted on a
/// reading, values that expired by then stay dead.
pub proof fn lemma_expired_by_latest_stays_dead(m: Tables, table: Seq<char>, value: Seq<char>, latest: int, now: int)
    requires
        latest <= now,
        m.dom().contains(table) && m[table].dom().contains(value) ==> m[table][value] <= latest,
    ensures
        !is_live(m, table, value, now),
{
}

/// Law: a value added to an existing table is live from when it is made until
/// its expiry, and not from then on.
pub proof fn lemma_value_live_until_expiry(m: Tables, table: Seq<char>, value: Seq<char>, expires: u128, now: int)
    requires
        m.dom().contains(table),
    ensures
        is_live(with_value(m, table, value, expires), table, value, now) <==> now < expires,
{
}

/// Law: a value added to an existing table is among the values listed for it.
pub proof fn lemma_value_listed_after_add(m: Tables, table: Seq<char>, value: Seq<char>, expires: u128)
    requires
        m.dom().contains(table),
    ensures
        values_of(with_value(m, table, value, expires), table) == values_of(m, table).insert(value),
{
    assert(values_of(with_value(m, table, value, expires), table) =~= values_of(m, table).insert(value));
}

/// Law: a removed value is not live at any time, and is no longer listed.
pub proof fn lemma_removed_value_gone(m: Tables, table: Seq<char>, value: Seq<char>, now: int)
    ensures
        !is_live(without_value(m, table, value), table, value, now),
        values_of(without_value(m, table, value), table) == values_of(m, table).remove(value),
{
    assert(values_of(without_value(m, table, value), table) =~= values_of(m, table).remove(value));
}

/// Law: dropping the values that expired before `cutoff` changes no answer about
/// liveness at `cutoff` or later.
pub proof fn lemma_filter_keeps_later_answers(m: Tables, table: Seq<char>, value: Seq<char>, cutoff: int, now: int)
    requires
        cutoff <= now,
    ensures
        is_live(unexpired(m, cutoff), table, value, now) == is_live(m, table, value, now),
{
}

/// Law: adding or removing a value in one table leaves every other table as it was.
pub proof fn lemma_other_tables_untouched(m: Tables, table: Seq<char>, other: Seq<char>, value: Seq<char>, expires: u128)
    requires
        other != table,
    ensures
        with_value(m, table, value, expires).dom().contains(other) == m.dom().contains(other),
        with_value(m, table, value, expires)[other] == m[other],
        without_value(m, table, value).dom().contains(other) == m.dom().contains(other),
        without_value(m, table, value)[other] == m[other],
{
}

/// Law: nothing is live in a table that does not exist; a table that was just
/// made exists and holds nothing; a dropped table no longer exists.
pub proof fn lemma_table_lifecycle(m: Tables, table: Seq<char>, value: Seq<char>, now: int)
    ensures
        !m.dom().contains(table) ==> !is_live(m, table, value, now),
        m.insert(table, Map::empty()).dom().contains(table),
        values_of(m.insert(table, Map::empty()), table) == Set::<Seq<char>>::empty(),
        !m.remove(table).dom().contains(table),
{
}

/// One change to a store's tables, as the store's methods make it.
pub enum StoreChange {
    /// A value added to a table with its expiry (`generate_value`).
    Add(Seq<char>, Seq<char>, u128),
    /// A value removed from a table (`remove_value`).
    Remove(Seq<char>, Seq<char>),
    /// The values that expired before an instant dropped (`filter_expired`).
    Filter(int),
    /// A table made empty (`create_table`).
    Create(Seq<char>),
    /// A table dropped (`drop_table`).
    Drop(Seq<char>),
}

/// The tables after one change.
pub open spec fn apply_change(m: Tables, c: StoreChange) -> Tables {
    match c {
        StoreChange::Add(t, v, e) => if m.dom().contains(t) { with_value(m, t, v, e) } else { m },
        StoreChange::Remove(t, v) => without_value(m, t, v),
        StoreChange::Filter(cutoff) => unexpired(m, cutoff),
        StoreChange::Create(t) => m.insert(t, Map::empty()),
        StoreChange::Drop(t) => m.remove(t),
    }
}

/// The tables after a run of changes, first to last.
pub open spec fn apply_changes(m: Tables, cs: Seq<StoreChange>) -> Tables
    decreases cs.len(),
{
    if cs.len() == 0 {
        m
    } else {
        apply_change(apply_changes(m, cs.drop_last()), cs.last())
    }
}

/// The change leaves `value` of `table` alone as far as liveness at `now` goes:
/// it neither re-adds nor removes that value, neither re-creates nor drops that
/// table, and drops expired values only as of an instant up to `now`.
pub open spec fn spares(c: StoreChange, table: Seq<char>, value: Seq<char>, now: int) -> bool {
    match c {
        StoreChange::Add(t, v, _) => !(t == table && v == value),
        StoreChange::Remove(t, v) => !(t == table && v == value),
        StoreChange::Filter(cutoff) => cutoff <= now,
        StoreChange::Create(t) => t != table,
        StoreChange::Drop(t) => t != table,
    }
}

/// `value` is in `table` with expiry `expires`, or it is gone and `expires`
/// was before `now`.
spec fn kept_or_expired(m: Tables, table: Seq<char>, value: Seq<char>, expires: u128, now: int) -> bool {
    ||| m.dom().contains(table) && m[table].dom().contains(value) && m[table][value] == expires
    ||| !(m.dom().contains(table) && m[table].dom().contains(value)) && expires < now
}

proof fn lemma_change_keeps(m: Tables, c: StoreChange, table: Seq<char>, value: Seq<char>, expires: u128, now: int)
    requires
        kept_or_expired(m, table, value, expires, now),
        spares(c, table, value, now),
    ensures
        kept_or_expired(apply_change(m, c), table, value, expires, now),
{
    match c {
        StoreChange::Filter(cutoff) => {
            if m.dom().contains(table) {
                let t = m[table];
                assert(unexpired(m, cutoff)[table] == crate::assoc::at_least(t, cutoff));
            }
        },
        _ => {},
    }
}

proof fn lemma_changes_keep(m: Tables, cs: Seq<StoreChange>, table: Seq<char>, value: Seq<char>, expires: u128, now: int)
    requires
        kept_or_expired(m, table, value, expires, now),
        forall|i: int| 0 <= i < cs.len() ==> spares(#[trigger] cs[i], table, value, now),
    ensures
        kept_or_expired(apply_changes(m, cs), table, value, expires, now),
    decreases cs.len(),
{
    if cs.len() > 0 {
        lemma_changes_keep(m, cs.drop_last(), table, value, expires, now);
        lemma_change_keeps(apply_changes(m, cs.drop_last()), cs.last(), table, value, expires, now);
    }
}

/// Law: a value added to an existing table stays live until its expiry and not
/// from then on, through any run of later changes that spare it (no re-adding or
/// removing of that value, no re-creating or dropping of that table, and no
/// dropping of expired values as of an instant after the one asked about); and
/// it stays listed for as long as it has not expired.
pub proof fn lemma_live_through_changes(
    m: Tables,
    table: Seq<char>,
    value: Seq<char>,
    expires: u128,
    cs: Seq<StoreChange>,
    now: int,
)
    requires
        m.dom().contains(table),
        forall|i: int| 0 <= i < cs.len() ==> spares(#[trigger] cs[i], table, value, now),
    ensures
        is_live(apply_changes(with_value(m, table, value, expires), cs), table, value, now) <==> now < expires,
        now <= expires ==> values_of(apply_changes(with_value(m, table, value, expires), cs), table).contains(value),
{
    lemma_changes_keep(with_value(m, table, value, expires), cs, table, value, expires, now);
}

} // verus!
