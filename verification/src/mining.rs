use vstd::prelude::*;

verus! {

/// The largest integer the pool's JavaScript callers can hold exactly.
pub const MAX_SAFE_INTEGER: i64 = 9007199254740991;

/// One hexadecimal digit, lowercase.
pub open spec fn hex_digit(n: u8) -> char {
    match n {
        0 => '0',
        1 => '1',
        2 => '2',
        3 => '3',
        4 => '4',
        5 => '5',
        6 => '6',
        7 => '7',
        8 => '8',
        9 => '9',
        10 => 'a',
        11 => 'b',
        12 => 'c',
        13 => 'd',
        14 => 'e',
        15 => 'f',
        _ => '?',
    }
}

/// The lowercase hexadecimal rendering of a byte string: two digits per
/// byte, high nibble first.
pub open spec fn hex_of(b: Seq<u8>) -> Seq<char> {
    Seq::new(
        b.len() * 2,
        |i: int|
            if i % 2 == 0 {
                hex_digit(b[i / 2] / 16)
            } else {
                hex_digit(b[i / 2] % 16)
            },
    )
}

/// Relies on hex::encode: two lowercase hexadecimal digits per input byte,
/// high nibble first.
#[verifier::external_body]
pub(crate) fn hex_encode(b: &[u8]) -> (r: String)
    ensures
        r@ == hex_of(b@),
{
    hex::encode(b)
}

/// Relies on num_cpus::get, documented to return at least one.
#[verifier::external_body]
pub(crate) fn cpu_count() -> (r: usize)
    ensures
        r >= 1,
{
    num_cpus::get()
}

/// Lexicographic order on equal-length byte strings, which coincides with
/// numeric order of their big-endian values.
pub open spec fn lex_le(a: Seq<u8>, b: Seq<u8>) -> bool
    decreases a.len(),
{
    if a.len() == 0 {
        true
    } else if a[0] < b[0] {
        true
    } else if a[0] > b[0] {
        false
    } else {
        lex_le(a.skip(1), b.skip(1))
    }
}

/// The power of 256 with exponent `n`.
pub open spec fn pow256(n: nat) -> int
    decreases n,
{
    if n == 0 {
        1
    } else {
        256 * pow256((n - 1) as nat)
    }
}

/// The numeric value of a big-endian byte string.
pub open spec fn be_val(s: Seq<u8>) -> int
    decreases s.len(),
{
    if s.len() == 0 {
        0
    } else {
        s[0] * pow256((s.len() - 1) as nat) + be_val(s.skip(1))
    }
}

/// Powers of 256 are positive.
pub proof fn lemma_pow256_pos(n: nat)
    ensures
        pow256(n) >= 1,
    decreases n,
{
    if n > 0 {
        lemma_pow256_pos((n - 1) as nat);
    }
}

/// A big-endian value is non-negative and below the power of 256 of its
/// width.
pub proof fn lemma_be_val_bound(s: Seq<u8>)
    ensures
        0 <= be_val(s) < pow256(s.len() as nat),
    decreases s.len(),
{
    if s.len() > 0 {
        lemma_be_val_bound(s.skip(1));
        lemma_pow256_pos((s.len() - 1) as nat);
        let h = s[0] as int;
        let p = pow256((s.len() - 1) as nat);
        let t = be_val(s.skip(1));
        assert(h * p >= 0) by (nonlinear_arith)
            requires
                h >= 0,
                p >= 1,
        ;
        assert(h * p + t < 256 * p) by (nonlinear_arith)
            requires
                h <= 255,
                p >= 1,
                0 <= t < p,
        ;
    }
}

/// On equal-length byte strings, lexicographic order is exactly numeric
/// order of the big-endian values.
pub proof fn lemma_lex_le_is_numeric(a: Seq<u8>, b: Seq<u8>)
    requires
        a.len() == b.len(),
    ensures
        lex_le(a, b) == (be_val(a) <= be_val(b)),
    decreases a.len(),
{
    if a.len() > 0 {
        lemma_lex_le_is_numeric(a.skip(1), b.skip(1));
        lemma_be_val_bound(a.skip(1));
        lemma_be_val_bound(b.skip(1));
        lemma_pow256_pos((a.len() - 1) as nat);
        let x = a[0] as int;
        let y = b[0] as int;
        let p = pow256((a.len() - 1) as nat);
        let ta = be_val(a.skip(1));
        let tb = be_val(b.skip(1));
        if x < y {
            assert(x * p + ta < y * p + tb) by (nonlinear_arith)
                requires
                    x < y,
                    p >= 1,
                    0 <= ta < p,
                    0 <= tb,
            ;
        } else if x > y {
            assert(x * p + ta > y * p + tb) by (nonlinear_arith)
                requires
                    x > y,
                    p >= 1,
                    0 <= tb < p,
                    0 <= ta,
            ;
        }
    }
}

/// Whether a candidate hash meets the difficulty target: its big-endian
/// value is at most the target's. Both strings must have the same width.
pub fn meets_target(hash: &[u8], target: &[u8]) -> (r: bool)
    requires
        hash@.len() == target@.len(),
    ensures
        r == lex_le(hash@, target@),
        r == (be_val(hash@) <= be_val(target@)),
{
    let n: usize = hash.len();
    let mut i: usize = 0;
    proof {
        assert(hash@.skip(0) =~= hash@);
        assert(target@.skip(0) =~= target@);
        lemma_lex_le_is_numeric(hash@, target@);
    }
    while i < n
        invariant
            i <= n,
            n == hash@.len(),
            n == target@.len(),
            lex_le(hash@, target@) == lex_le(hash@.skip(i as int), target@.skip(i as int)),
            lex_le(hash@, target@) == (be_val(hash@) <= be_val(target@)),
        decreases n - i,
    {
        if hash[i] < target[i] {
            return true;
        }
        if hash[i] > target[i] {
            return false;
        }
        proof {
            assert(hash@.skip(i as int)[0] == hash@[i as int]);
            assert(hash@.skip(i as int).skip(1) =~= hash@.skip(i as int + 1));
            assert(target@.skip(i as int).skip(1) =~= target@.skip(i as int + 1));
        }
        i = i + 1;
    }
    true
}

/// The randomness value for attempt `i` over a starting randomness: counts
/// up from the start and wraps within the safe-integer range the miner
/// protocol prescribes.
pub fn next_randomness(initial_randomness: i64, i: i64) -> (r: i64)
    requires
        0 <= initial_randomness <= MAX_SAFE_INTEGER,
        0 <= i,
    ensures
        r == if i > MAX_SAFE_INTEGER + initial_randomness {
            i - (MAX_SAFE_INTEGER - initial_randomness) - 1
        } else {
            initial_randomness + i
        },
{
    if i > MAX_SAFE_INTEGER + initial_randomness {
        i - (MAX_SAFE_INTEGER - initial_randomness) - 1
    } else {
        initial_randomness + i
    }
}

/// A directive for one worker: take up new work, or shut down.
pub enum Command {
    /// New header bytes and target to mine, under a request id.
    NewWork(Vec<u8>, Vec<u8>, u32),
    /// Shut the worker down.
    Stop,
}

/// The sum of reported hash rates.
pub open spec fn sum_rates(s: Seq<u32>) -> int
    decreases s.len(),
{
    if s.len() == 0 {
        0
    } else {
        s[0] + sum_rates(s.skip(1))
    }
}

/// Every partial sum of hash rates is non-negative.
pub proof fn lemma_sum_rates_nonneg(s: Seq<u32>)
    ensures
        sum_rates(s) >= 0,
    decreases s.len(),
{
    if s.len() > 0 {
        lemma_sum_rates_nonneg(s.skip(1));
    }
}

/// The coordinator of the mining workers: it decides what each worker is
/// told and which reported results still count. The workers themselves,
/// and the channels that carry these commands and results, live outside:
/// this state machine only produces the commands to send and judges the
/// events that come back.
pub struct ThreadPool {
    /// How many workers the pool drives.
    pub thread_count: usize,
    /// The request id of the current work; results tagged with any other
    /// id are stale and discarded.
    pub mining_request_id: u32,
}

impl ThreadPool {
    /// Sets up a pool for `thread_count` workers; `-1` asks for one worker
    /// per processor.
    pub fn new(thread_count: i32) -> (r: ThreadPool)
        requires
            thread_count == -1 || thread_count > 0,
        ensures
            r.mining_request_id == 0,
            thread_count > 0 ==> r.thread_count == thread_count as usize,
            r.thread_count >= 1,
    {
        let count: usize = match thread_count {
            -1 => cpu_count(),
            _ => thread_count as usize,
        };
        ThreadPool { thread_count: count, mining_request_id: 0 }
    }

    /// Takes up new work: remembers the request id, and hands back one
    /// work command per worker carrying the header bytes, the target and
    /// that id.
    pub fn new_work(&mut self, header_bytes: &[u8], target: &[u8], mining_request_id: u32) -> (r:
        Vec<Command>)
        ensures
            final(self).thread_count == old(self).thread_count,
            final(self).mining_request_id == mining_request_id,
            r@.len() == old(self).thread_count,
            forall|j: int|
                0 <= j < r@.len() ==> {
                    &&& #[trigger] r@[j] is NewWork
                    &&& r@[j]->NewWork_0@ == header_bytes@
                    &&& r@[j]->NewWork_1@ == target@
                    &&& r@[j]->NewWork_2 == mining_request_id
                },
    {
        self.mining_request_id = mining_request_id;
        let mut commands: Vec<Command> = Vec::new();
        let mut j: usize = 0;
        while j < self.thread_count
            invariant
                j <= self.thread_count,
                commands@.len() == j,
                forall|k: int|
                    0 <= k < j ==> {
                        &&& #[trigger] commands@[k] is NewWork
                        &&& commands@[k]->NewWork_0@ == header_bytes@
                        &&& commands@[k]->NewWork_1@ == target@
                        &&& commands@[k]->NewWork_2 == mining_request_id
                    },
            decreases self.thread_count - j,
        {
            commands.push(
                Command::NewWork(
                    crate::serializing::read_bytes(header_bytes, 0, header_bytes.len()),
                    crate::serializing::read_bytes(target, 0, target.len()),
                    mining_request_id,
                ),
            );
            proof {
                assert(header_bytes@.subrange(0, header_bytes@.len() as int) =~= header_bytes@);
                assert(target@.subrange(0, target@.len() as int) =~= target@);
            }
            j = j + 1;
        }
        commands
    }

    /// Produces one stop command per worker.
    pub fn stop(&self) -> (r: Vec<Command>)
        ensures
            r@.len() == self.thread_count,
            forall|j: int| 0 <= j < r@.len() ==> #[trigger] r@[j] is Stop,
    {
        let mut commands: Vec<Command> = Vec::new();
        let mut j: usize = 0;
        while j < self.thread_count
            invariant
                j <= self.thread_count,
                commands@.len() == j,
                forall|k: int| 0 <= k < j ==> #[trigger] commands@[k] is Stop,
            decreases self.thread_count - j,
        {
            commands.push(Command::Stop);
            j = j + 1;
        }
        commands
    }

    /// Judges one received result: a result tagged with a stale request id
    /// is discarded; a current one is handed on with its block hash
    /// rendered in hexadecimal.
    pub fn get_found_block(&self, received: Option<(usize, u32, Vec<u8>)>) -> (r: Option<
        (usize, usize, String),
    >)
        ensures
            received is None ==> r is None,
            received matches Some(ev) ==> {
                &&& ev.1 != self.mining_request_id ==> r is None
                &&& ev.1 == self.mining_request_id ==> {
                    &&& r is Some
                    &&& r->Some_0.0 == ev.0
                    &&& r->Some_0.1 == ev.1 as usize
                    &&& r->Some_0.2@ == hex_of(ev.2@)
                }
            },
    {
        match received {
            Some((randomness, mining_request_id, block_hash)) => {
                if mining_request_id != self.mining_request_id {
                    return None;
                }
                Some(
                    (
                        randomness,
                        mining_request_id as usize,
                        hex_encode(block_hash.as_slice()),
                    ),
                )
            },
            None => None,
        }
    }

    /// Adds up the hash rates the workers have reported since the last
    /// collection.
    pub fn get_hash_rate_submission(&self, rates: &Vec<u32>) -> (r: u32)
        requires
            sum_rates(rates@) <= u32::MAX,
        ensures
            r == sum_rates(rates@),
    {
        let n: usize = rates.len();
        let mut total: u32 = 0;
        let mut i: usize = 0;
        proof {
            assert(rates@.skip(0) =~= rates@);
        }
        while i < n
            invariant
                i <= n,
                n == rates@.len(),
                sum_rates(rates@) <= u32::MAX,
                total + sum_rates(rates@.skip(i as int)) == sum_rates(rates@),
            decreases n - i,
        {
            proof {
                assert(rates@.skip(i as int)[0] == rates@[i as int]);
                assert(rates@.skip(i as int).skip(1) =~= rates@.skip(i as int + 1));
                lemma_sum_rates_nonneg(rates@.skip(i as int + 1));
            }
            total = total + rates[i];
            i = i + 1;
        }
        total
    }
}

} // verus!
