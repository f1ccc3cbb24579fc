use vstd::arithmetic::div_mod::lemma_fundamental_div_mod_converse;
use vstd::prelude::*;

verus! {

// An identifier is a 63-bit integer held in an `i64`, from the most significant bit down:
// one unused sign bit, 41 bits of milliseconds since `EPOCH`, 5 bits of node id,
// 5 bits of datacenter id and 12 bits of sequence number.

/// Fri Mar 31 2023 05:32:00 GMT+0000, in milliseconds since the Unix epoch.
pub const EPOCH: i64 = 1680240720000;

/// The largest sequence number: the twelve low bits set.
pub const MAX_SEQUENCE: i64 = 4095;

/// The number of distinct node ids and of distinct datacenter ids (5 bits each).
pub const FIELD_LIMIT: i64 = 32;

/// The number of milliseconds that the 41-bit timestamp field can hold.
pub const TIME_LIMIT: i64 = 0x200_0000_0000;

/// Why no id was issued.
#[derive(Debug, Clone, Copy, PartialEq, Eq, Structural)]
pub enum IdError {
    /// The clock reads earlier than the last timestamp used.
    ClockRegression,
    /// The clock reads before `EPOCH`, or too far past it for the 41-bit field.
    ClockOutOfRange,
    /// All 4096 sequence numbers of the current millisecond are spent: the caller waits
    /// for the clock to advance and asks again.
    SequenceExhausted,
}

impl IdError {
    pub open spec fn text(self) -> Seq<char> {
        match self {
            IdError::ClockRegression => "it appears that time is moving backwards"@,
            IdError::ClockOutOfRange => "the clock is outside the range of the timestamp field"@,
            IdError::SequenceExhausted => "the sequence of this millisecond is exhausted"@,
        }
    }

    /// A sentence that says what went wrong.
    pub fn message(&self) -> (r: String)
        ensures
            r@ == self.text(),
    {
        match self {
            IdError::ClockRegression => {
                proof { reveal_strlit("it appears that time is moving backwards"); }
                String::from_str("it appears that time is moving backwards")
            },
            IdError::ClockOutOfRange => {
                proof { reveal_strlit("the clock is outside the range of the timestamp field"); }
                String::from_str("the clock is outside the range of the timestamp field")
            },
            IdError::SequenceExhausted => {
                proof { reveal_strlit("the sequence of this millisecond is exhausted"); }
                String::from_str("the sequence of this millisecond is exhausted")
            },
        }
    }
}

/// The id made of a timestamp offset, a node id, a datacenter id and a sequence number.
pub open spec fn id_of(offset: int, node: int, datacenter: int, sequence: int) -> int {
    offset * 0x400000 + node * 0x20000 + datacenter * 0x1000 + sequence
}

/// A clock reading that the timestamp field can hold.
pub open spec fn in_window(now: int) -> bool {
    EPOCH <= now < EPOCH + TIME_LIMIT
}

/// What a generator is: its fixed node and datacenter ids, and the timestamp and
/// sequence number of the last id it issued (both 0 before the first).
pub ghost struct GeneratorView {
    pub node_id: int,
    pub datacenter_id: int,
    pub last_timestamp: int,
    pub sequence: int,
}

impl GeneratorView {
    pub open spec fn valid(self) -> bool {
        &&& 0 <= self.node_id < FIELD_LIMIT
        &&& 0 <= self.datacenter_id < FIELD_LIMIT
        &&& 0 <= self.sequence <= MAX_SEQUENCE
        &&& (self.last_timestamp == 0 && self.sequence == 0) || in_window(self.last_timestamp)
    }

    /// Whether the generator has issued an id yet.
    pub open spec fn has_issued(self) -> bool {
        self.last_timestamp != 0
    }

    /// The last id issued.
    pub open spec fn issued(self) -> int {
        id_of(
            self.last_timestamp - EPOCH,
            self.node_id,
            self.datacenter_id,
            self.sequence,
        )
    }

    /// The generator after a call that read `now` from the clock, or why it issued nothing.
    pub open spec fn next(self, now: int) -> Result<GeneratorView, IdError> {
        if now < self.last_timestamp {
            Err(IdError::ClockRegression)
        } else if !in_window(now) {
            Err(IdError::ClockOutOfRange)
        } else if now == self.last_timestamp {
            if self.sequence == MAX_SEQUENCE {
                Err(IdError::SequenceExhausted)
            } else {
                Ok(GeneratorView { sequence: self.sequence + 1, ..self })
            }
        } else {
            Ok(GeneratorView { last_timestamp: now, sequence: 0, ..self })
        }
    }

    /// A call that read `now` went from `self` to `after` and returned `r`.
    pub open spec fn outcome(self, now: int, after: GeneratorView, r: Result<i64, IdError>) -> bool {
        match self.next(now) {
            Ok(w) => after == w && r == Ok::<i64, IdError>(w.issued() as i64),
            Err(e) => after == self && r == Err::<i64, IdError>(e),
        }
    }
}

struct State {
    last_timestamp: i64,
    sequence: i64,
}

/// A distributed unique id generator. Callers on several threads share one behind a lock.
pub struct Generator {
    node_id: i64,
    datacenter_id: i64,
    state: State,
}

impl View for Generator {
    type V = GeneratorView;

    closed spec fn view(&self) -> GeneratorView {
        GeneratorView {
            node_id: self.node_id as int,
            datacenter_id: self.datacenter_id as int,
            last_timestamp: self.state.last_timestamp as int,
            sequence: self.state.sequence as int,
        }
    }
}

/// Relies on chrono's `Utc::now` and `DateTime::timestamp_millis`: the milliseconds since
/// the Unix epoch, which are not negative (`Utc::now` panics on a clock set before 1970).
#[verifier::external_body]
fn current_millis() -> (r: i64)
    ensures
        r >= 0,
{
    chrono::Utc::now().timestamp_millis()
}

proof fn lemma_pack(t: u64, n: u64, d: u64, s: u64)
    requires
        t < 0x200_0000_0000,
        n < 32,
        d < 32,
        s < 4096,
    ensures
        (t << 22u64) | (n << 17u64) | (d << 12u64) | s == (t * 0x400000 + n * 0x20000 + d
            * 0x1000 + s) as u64,
        t * 0x400000 + n * 0x20000 + d * 0x1000 + s < 0x8000_0000_0000_0000,
{
    assert((t << 22u64) | (n << 17u64) | (d << 12u64) | s == t * 0x400000 + n * 0x20000 + d
        * 0x1000 + s) by (bit_vector)
        requires
            t < 0x200_0000_0000,
            n < 32,
            d < 32,
            s < 4096,
    ;
}

/// Packs the four fields into an id, by shifts and bitwise or.
pub fn compose(offset: i64, node_id: i64, datacenter_id: i64, sequence: i64) -> (r: i64)
    requires
        0 <= offset < TIME_LIMIT,
        0 <= node_id < FIELD_LIMIT,
        0 <= datacenter_id < FIELD_LIMIT,
        0 <= sequence <= MAX_SEQUENCE,
    ensures
        r == id_of(offset as int, node_id as int, datacenter_id as int, sequence as int),
{
    let t = offset as u64;
    let n = node_id as u64;
    let d = datacenter_id as u64;
    let s = sequence as u64;
    proof {
        lemma_pack(t, n, d, s);
    }
    ((t << 22u64) | (n << 17u64) | (d << 12u64) | s) as i64
}


impl Generator {
    /// A generator for the given node and datacenter ids, which must fit their 5-bit fields.
    pub fn new(node_id: i64, datacenter_id: i64) -> (r: Self)
        requires
            0 <= node_id < FIELD_LIMIT,
            0 <= datacenter_id < FIELD_LIMIT,
        ensures
            r@ == (GeneratorView {
                node_id: node_id as int,
                datacenter_id: datacenter_id as int,
                last_timestamp: 0,
                sequence: 0,
            }),
            r@.valid(),
    {
        Generator { node_id, datacenter_id, state: State { last_timestamp: 0, sequence: 0 } }
    }

    pub fn node_id(&self) -> (r: i64)
        ensures
            r == self@.node_id,
    {
        self.node_id
    }

    pub fn datacenter_id(&self) -> (r: i64)
        ensures
            r == self@.datacenter_id,
    {
        self.datacenter_id
    }

    /// Issues the next id for a clock that reads `now` milliseconds since the Unix epoch.
    /// A call that issues nothing leaves the generator as it was.
    pub fn next_id_at(&mut self, now: i64) -> (r: Result<i64, IdError>)
        requires
            old(self)@.valid(),
        ensures
            old(self)@.outcome(now as int, final(self)@, r),
            final(self)@.valid(),
    {
        if now < self.state.last_timestamp {
            return Err(IdError::ClockRegression);
        }
        if now < EPOCH || now - EPOCH >= TIME_LIMIT {
            return Err(IdError::ClockOutOfRange);
        }
        if now == self.state.last_timestamp {
            if self.state.sequence == MAX_SEQUENCE {
                return Err(IdError::SequenceExhausted);
            }
            self.state.sequence = self.state.sequence + 1;
        } else {
            self.state.sequence = 0;
        }
        self.state.last_timestamp = now;
        Ok(compose(now - EPOCH, self.node_id, self.datacenter_id, self.state.sequence))
    }

    /// Issues the next id for the current time. On `SequenceExhausted` the caller waits
    /// for the next millisecond and calls again.
    pub fn next_id(&mut self) -> (r: Result<i64, IdError>)
        requires
            old(self)@.valid(),
        ensures
            exists|now: int| now >= 0 && old(self)@.outcome(now, final(self)@, r),
            final(self)@.valid(),
    {
        let now = current_millis();
        let r = self.next_id_at(now);
        assert(old(self)@.outcome(now as int, final(self)@, r));
        r
    }
}

/// The four fields of an id.
#[derive(Debug, Clone, Copy, PartialEq, Eq, Structural)]
pub struct IdParts {
    pub timestamp_offset: i64,
    pub node_id: i64,
    pub datacenter_id: i64,
    pub sequence: i64,
}

/// Splits an id into its fields by the bit widths of the layout.
pub fn decompose(id: i64) -> (r: IdParts)
    requires
        id >= 0,
    ensures
        id == id_of(
            r.timestamp_offset as int,
            r.node_id as int,
            r.datacenter_id as int,
            r.sequence as int,
        ),
        0 <= r.timestamp_offset < TIME_LIMIT,
        0 <= r.node_id < FIELD_LIMIT,
        0 <= r.datacenter_id < FIELD_LIMIT,
        0 <= r.sequence <= MAX_SEQUENCE,
        r.timestamp_offset == id / 0x400000,
        r.node_id == (id / 0x20000) % 32,
        r.datacenter_id == (id / 0x1000) % 32,
        r.sequence == id % 0x1000,
{
    let x = id as u64;
    let t = x >> 22u64;
    let n = (x >> 17u64) & 31u64;
    let d = (x >> 12u64) & 31u64;
    let s = x & 4095u64;
    assert(t < 0x200_0000_0000 && n < 32 && d < 32 && s < 4096) by (bit_vector)
        requires
            x < 0x8000_0000_0000_0000,
            t == x >> 22u64,
            n == (x >> 17u64) & 31u64,
            d == (x >> 12u64) & 31u64,
            s == x & 4095u64,
    ;
    assert(x == t * 0x400000 + n * 0x20000 + d * 0x1000 + s) by (bit_vector)
        requires
            t == x >> 22u64,
            n == (x >> 17u64) & 31u64,
            d == (x >> 12u64) & 31u64,
            s == x & 4095u64,
    ;
    proof {
        lemma_fields(t as int, n as int, d as int, s as int);
    }
    IdParts { timestamp_offset: t as i64, node_id: n as i64, datacenter_id: d as i64, sequence: s as i64 }
}


/// A run of calls on one generator: `states[k]` is the generator before call `k`, which read
/// `nows[k]` from the clock and returned `results[k]`.
pub open spec fn is_run(
    states: Seq<GeneratorView>,
    nows: Seq<int>,
    results: Seq<Result<i64, IdError>>,
) -> bool {
    &&& states.len() == nows.len() + 1
    &&& results.len() == nows.len()
    &&& states[0].valid()
    &&& forall|k: int|
        0 <= k < nows.len() ==> #[trigger] states[k].outcome(nows[k], states[k + 1], results[k])
}

proof fn lemma_issued_bounds(v: GeneratorView)
    requires
        v.valid(),
        v.has_issued(),
    ensures
        0 <= v.issued() < 0x8000_0000_0000_0000,
        v.issued() / 0x400000 == v.last_timestamp - EPOCH,
{
    let low = v.node_id * 0x20000 + v.datacenter_id * 0x1000 + v.sequence;
    assert(0 <= low < 0x400000);
    lemma_fundamental_div_mod_converse(v.issued(), 0x400000, v.last_timestamp - EPOCH, low);
}

/// A successful call keeps the generator valid, and issues an id above the last one.
proof fn lemma_step_increases(v: GeneratorView, now: int)
    requires
        v.valid(),
        v.next(now) is Ok,
    ensures
        v.next(now)->Ok_0.valid(),
        v.next(now)->Ok_0.has_issued(),
        v.has_issued() ==> v.issued() < v.next(now)->Ok_0.issued(),
        0 <= v.next(now)->Ok_0.issued() < 0x8000_0000_0000_0000,
{
    let w = v.next(now)->Ok_0;
    lemma_issued_bounds(w);
    if v.has_issued() {
        lemma_issued_bounds(v);
        assert(v.issued() < w.issued());
    }
}

proof fn lemma_run_valid(
    states: Seq<GeneratorView>,
    nows: Seq<int>,
    results: Seq<Result<i64, IdError>>,
    k: int,
)
    requires
        is_run(states, nows, results),
        0 <= k < states.len(),
    ensures
        states[k].valid(),
    decreases k,
{
    if k > 0 {
        lemma_run_valid(states, nows, results, k - 1);
        let m = k - 1;
        assert(states[m].outcome(nows[m], states[m + 1], results[m]));
        if states[k - 1].next(nows[k - 1]) is Ok {
            lemma_step_increases(states[k - 1], nows[k - 1]);
        }
    }
}

proof fn lemma_run_nondecreasing(
    states: Seq<GeneratorView>,
    nows: Seq<int>,
    results: Seq<Result<i64, IdError>>,
    i: int,
    j: int,
)
    requires
        is_run(states, nows, results),
        0 <= i <= j < states.len(),
        states[i].has_issued(),
    ensures
        states[j].has_issued(),
        states[i].issued() <= states[j].issued(),
    decreases j - i,
{
    if i < j {
        lemma_run_nondecreasing(states, nows, results, i, j - 1);
        lemma_run_valid(states, nows, results, j - 1);
        let m = j - 1;
        assert(states[m].outcome(nows[m], states[m + 1], results[m]));
        if states[j - 1].next(nows[j - 1]) is Ok {
            lemma_step_increases(states[j - 1], nows[j - 1]);
        }
    }
}

/// Ids come out of one generator in strictly increasing order, so no two are equal:
/// of any two calls of a run that both return an id, the later returns the larger one.
pub proof fn lemma_ids_increase(
    states: Seq<GeneratorView>,
    nows: Seq<int>,
    results: Seq<Result<i64, IdError>>,
    i: int,
    j: int,
)
    requires
        is_run(states, nows, results),
        0 <= i < j < results.len(),
        results[i] is Ok,
        results[j] is Ok,
    ensures
        0 <= results[i]->Ok_0 < results[j]->Ok_0,
        results[i]->Ok_0 != results[j]->Ok_0,
{
    assert(states[i].outcome(nows[i], states[i + 1], results[i]));
    assert(states[j].outcome(nows[j], states[j + 1], results[j]));
    lemma_run_valid(states, nows, results, i);
    lemma_run_valid(states, nows, results, j);
    lemma_step_increases(states[i], nows[i]);
    lemma_step_increases(states[j], nows[j]);
    lemma_run_nondecreasing(states, nows, results, i + 1, j);
}

/// A call on a clock that reads earlier than the last timestamp used fails with
/// `ClockRegression` and leaves the generator as it was.
pub proof fn lemma_clock_regression(v: GeneratorView, now: int, after: GeneratorView, r: Result<i64, IdError>)
    requires
        v.outcome(now, after, r),
        now < v.last_timestamp,
    ensures
        r == Err::<i64, IdError>(IdError::ClockRegression),
        after == v,
{
}

/// Splitting an id by the bit widths of the layout gives back the fields it was made of:
/// the timestamp offset is the id over 2^22, the node id and the datacenter id are the next
/// two 5-bit groups, and the sequence is the low 12 bits. No two tuples of fields give one id.
pub proof fn lemma_layout_round_trip(offset: int, node: int, datacenter: int, sequence: int)
    requires
        0 <= offset < TIME_LIMIT,
        0 <= node < FIELD_LIMIT,
        0 <= datacenter < FIELD_LIMIT,
        0 <= sequence <= MAX_SEQUENCE,
    ensures
        id_of(offset, node, datacenter, sequence) / 0x400000 == offset,
        (id_of(offset, node, datacenter, sequence) / 0x20000) % 32 == node,
        (id_of(offset, node, datacenter, sequence) / 0x1000) % 32 == datacenter,
        id_of(offset, node, datacenter, sequence) % 0x1000 == sequence,
        forall|o: int, n: int, d: int, s: int|
            0 <= o < TIME_LIMIT && 0 <= n < FIELD_LIMIT && 0 <= d < FIELD_LIMIT && 0 <= s
                <= MAX_SEQUENCE && #[trigger] id_of(o, n, d, s) == id_of(
                offset,
                node,
                datacenter,
                sequence,
            ) ==> o == offset && n == node && d == datacenter && s == sequence,
{
    lemma_fields(offset, node, datacenter, sequence);
    assert forall|o: int, n: int, d: int, s: int|
        0 <= o < TIME_LIMIT && 0 <= n < FIELD_LIMIT && 0 <= d < FIELD_LIMIT && 0 <= s
            <= MAX_SEQUENCE && #[trigger] id_of(o, n, d, s) == id_of(
            offset,
            node,
            datacenter,
            sequence,
        ) implies o == offset && n == node && d == datacenter && s == sequence by {
        lemma_fields(o, n, d, s);
    }
}

proof fn lemma_fields(offset: int, node: int, datacenter: int, sequence: int)
    requires
        0 <= offset < TIME_LIMIT,
        0 <= node < FIELD_LIMIT,
        0 <= datacenter < FIELD_LIMIT,
        0 <= sequence <= MAX_SEQUENCE,
    ensures
        id_of(offset, node, datacenter, sequence) / 0x400000 == offset,
        (id_of(offset, node, datacenter, sequence) / 0x20000) % 32 == node,
        (id_of(offset, node, datacenter, sequence) / 0x1000) % 32 == datacenter,
        id_of(offset, node, datacenter, sequence) % 0x1000 == sequence,
{
    let id = id_of(offset, node, datacenter, sequence);
    lemma_fundamental_div_mod_converse(
        id,
        0x400000,
        offset,
        node * 0x20000 + datacenter * 0x1000 + sequence,
    );
    lemma_fundamental_div_mod_converse(id, 0x20000, offset * 32 + node, datacenter * 0x1000 + sequence);
    lemma_fundamental_div_mod_converse(offset * 32 + node, 32, offset, node);
    lemma_fundamental_div_mod_converse(
        id,
        0x1000,
        offset * 1024 + node * 32 + datacenter,
        sequence,
    );
    lemma_fundamental_div_mod_converse(
        offset * 1024 + node * 32 + datacenter,
        32,
        offset * 32 + node,
        datacenter,
    );
}

} // verus!
